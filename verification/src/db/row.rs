//! Statements, parameters, result rows, and typed access to row columns.

use vstd::prelude::*;
use crate::text::{cat, str_eq};

verus! {

/// The bot manager's database: the statements it runs and how their results read.
pub struct BotDb;

/// A statement parameter or a column value.
pub enum SqlValue {
    Null,
    Int(i64),
    UInt(u64),
    Text(String),
}

/// The value a `SqlValue` stands for.
pub enum SqlView {
    Null,
    Int(i64),
    UInt(u64),
    Text(Seq<char>),
}

impl View for SqlValue {
    type V = SqlView;

    open spec fn view(&self) -> SqlView {
        match self {
            SqlValue::Null => SqlView::Null,
            SqlValue::Int(n) => SqlView::Int(*n),
            SqlValue::UInt(n) => SqlView::UInt(*n),
            SqlValue::Text(s) => SqlView::Text(s@),
        }
    }
}

/// The values of a list of parameters.
pub open spec fn sql_views(v: Seq<SqlValue>) -> Seq<SqlView> {
    v.map_values(|x: SqlValue| x@)
}

/// A text parameter.
pub open spec fn text(s: Seq<char>) -> SqlView {
    SqlView::Text(s)
}

/// A text parameter, or `NULL` for `None`.
pub open spec fn opt_text(s: Option<Seq<char>>) -> SqlView {
    match s {
        Some(t) => SqlView::Text(t),
        None => SqlView::Null,
    }
}

/// An integer parameter, or `NULL` for `None`.
pub open spec fn opt_int(n: Option<i64>) -> SqlView {
    match n {
        Some(v) => SqlView::Int(v),
        None => SqlView::Null,
    }
}

impl SqlValue {
    /// A text value.
    pub fn text(s: &str) -> (v: Self)
        ensures
            v@ == text(s@),
    {
        SqlValue::Text(s.to_owned())
    }

    /// A text value, or `NULL`.
    pub fn opt_text(s: Option<&str>) -> (v: Self)
        ensures
            v@ == opt_text(match s { Some(t) => Some(t@), None => None }),
    {
        match s {
            Some(t) => SqlValue::Text(t.to_owned()),
            None => SqlValue::Null,
        }
    }

    /// An integer value, or `NULL`.
    pub fn opt_int(n: Option<i64>) -> (v: Self)
        ensures
            v@ == opt_int(n),
    {
        match n {
            Some(x) => SqlValue::Int(x),
            None => SqlValue::Null,
        }
    }
}

/// A statement for the database engine.
pub struct DbQuery {
    /// SQL text with `?` placeholders.
    pub sql: String,
    /// The values bound to the placeholders, in order.
    pub params: Vec<SqlValue>,
    /// What the statement's failure message starts with.
    pub context: String,
}

/// The value a statement stands for.
pub struct QueryView {
    pub sql: Seq<char>,
    pub params: Seq<SqlView>,
    pub context: Seq<char>,
}

impl View for DbQuery {
    type V = QueryView;

    open spec fn view(&self) -> QueryView {
        QueryView { sql: self.sql@, params: sql_views(self.params@), context: self.context@ }
    }
}

/// A failure of the database or of reading its rows.
pub struct DbError {
    pub message: String,
}

impl DbQuery {
    /// A statement.
    pub fn new(sql: &str, params: Vec<SqlValue>, context: &str) -> (q: Self)
        ensures
            q.sql@ == sql@,
            q.params == params,
            q.context@ == context@,
    {
        DbQuery { sql: sql.to_owned(), params, context: context.to_owned() }
    }

    /// The error reported when the engine fails this statement with `engine_message`:
    /// `<context>: <engine_message>`, or the engine's message as it stands where the
    /// statement has no context.
    pub fn failure(&self, engine_message: &str) -> (e: DbError)
        ensures
            e.message@ == (if self.context@.len() == 0 {
                engine_message@
            } else {
                self.context@ + ": "@ + engine_message@
            }),
    {
        if self.context.unicode_len() == 0 {
            return DbError { message: engine_message.to_owned() };
        }
        let mut m = cat(self.context.as_str(), ": ");
        m.append(engine_message);
        DbError { message: m }
    }
}

/// One result row: column names and their values, position by position.
pub struct DbRow {
    pub columns: Vec<String>,
    pub values: Vec<SqlValue>,
}

/// The result of a statement.
pub struct DbRows {
    pub rows: Vec<DbRow>,
    pub rows_affected: u64,
}

/// The value a row stands for.
pub struct RowView {
    pub columns: Seq<Seq<char>>,
    pub values: Seq<SqlView>,
}

impl View for DbRow {
    type V = RowView;

    open spec fn view(&self) -> RowView {
        RowView {
            columns: self.columns@.map_values(|c: String| c@),
            values: sql_views(self.values@),
        }
    }
}

/// The position of the first column named `name` that has a value, searching from `i`.
pub open spec fn column_index_from(row: RowView, name: Seq<char>, i: int) -> Option<int>
    decreases row.columns.len() - i,
{
    if i < 0 || i >= row.columns.len() || i >= row.values.len() {
        None
    } else if row.columns[i] == name {
        Some(i)
    } else {
        column_index_from(row, name, i + 1)
    }
}

/// The value of the first column named `name`, if the row has one.
pub open spec fn column_spec(row: RowView, name: Seq<char>) -> Option<SqlView> {
    match column_index_from(row, name, 0) {
        Some(i) => Some(row.values[i]),
        None => None,
    }
}

/// The message for a missing column.
pub open spec fn missing_column(name: Seq<char>) -> Seq<char> {
    "missing column "@ + name
}

/// The message for a column whose value has another type.
pub open spec fn wrong_type(name: Seq<char>) -> Seq<char> {
    "wrong type in column "@ + name
}

/// A required integer column.
pub open spec fn int_col(row: RowView, name: Seq<char>) -> Result<i64, Seq<char>> {
    match column_spec(row, name) {
        Some(SqlView::Int(n)) => Ok(n),
        Some(_) => Err(wrong_type(name)),
        None => Err(missing_column(name)),
    }
}

/// A required text column.
pub open spec fn str_col(row: RowView, name: Seq<char>) -> Result<Seq<char>, Seq<char>> {
    match column_spec(row, name) {
        Some(SqlView::Text(s)) => Ok(s),
        Some(_) => Err(wrong_type(name)),
        None => Err(missing_column(name)),
    }
}

/// An optional integer column: missing or `NULL` reads as `None`.
pub open spec fn opt_int_col(row: RowView, name: Seq<char>) -> Result<Option<i64>, Seq<char>> {
    match column_spec(row, name) {
        Some(SqlView::Int(n)) => Ok(Some(n)),
        Some(SqlView::Null) => Ok(None),
        Some(_) => Err(wrong_type(name)),
        None => Ok(None),
    }
}

/// An optional text column: missing or `NULL` reads as `None`.
pub open spec fn opt_str_col(row: RowView, name: Seq<char>) -> Result<Option<Seq<char>>, Seq<char>> {
    match column_spec(row, name) {
        Some(SqlView::Text(s)) => Ok(Some(s)),
        Some(SqlView::Null) => Ok(None),
        Some(_) => Err(wrong_type(name)),
        None => Ok(None),
    }
}

/// The view of an optional string.
pub open spec fn opt_view(s: Option<String>) -> Option<Seq<char>> {
    match s {
        Some(t) => Some(t@),
        None => None,
    }
}

impl DbRow {
    /// The value of the first column named `name`, if any.
    pub fn column(&self, name: &str) -> (r: Option<&SqlValue>)
        ensures
            r matches Some(v) ==> column_spec(self@, name@) == Some(v@),
            r is None ==> column_spec(self@, name@) is None,
    {
        let mut i: usize = 0;
        while i < self.columns.len() && i < self.values.len()
            invariant
                i <= self.columns@.len(),
                i <= self.values@.len(),
                column_index_from(self@, name@, 0) == column_index_from(self@, name@, i as int),
            decreases self.columns@.len() - i,
        {
            assert(self@.columns[i as int] == self.columns@[i as int]@);
            if str_eq(self.columns[i].as_str(), name) {
                assert(self@.values[i as int] == self.values@[i as int]@);
                return Some(&self.values[i]);
            }
            i = i + 1;
        }
        None
    }

    /// A required integer column.
    pub fn get_i64(&self, name: &str) -> (r: Result<i64, DbError>)
        ensures
            match r {
                Ok(n) => int_col(self@, name@) == Ok::<i64, Seq<char>>(n),
                Err(e) => int_col(self@, name@) == Err::<i64, Seq<char>>(e.message@),
            },
    {
        match self.column(name) {
            Some(SqlValue::Int(n)) => Ok(*n),
            Some(_) => Err(DbError { message: cat("wrong type in column ", name) }),
            None => Err(DbError { message: cat("missing column ", name) }),
        }
    }

    /// A required text column.
    pub fn get_string(&self, name: &str) -> (r: Result<String, DbError>)
        ensures
            match r {
                Ok(s) => str_col(self@, name@) == Ok::<Seq<char>, Seq<char>>(s@),
                Err(e) => str_col(self@, name@) == Err::<Seq<char>, Seq<char>>(e.message@),
            },
    {
        match self.column(name) {
            Some(SqlValue::Text(s)) => Ok(s.clone()),
            Some(_) => Err(DbError { message: cat("wrong type in column ", name) }),
            None => Err(DbError { message: cat("missing column ", name) }),
        }
    }

    /// An optional integer column.
    pub fn get_opt_i64(&self, name: &str) -> (r: Result<Option<i64>, DbError>)
        ensures
            match r {
                Ok(n) => opt_int_col(self@, name@) == Ok::<Option<i64>, Seq<char>>(n),
                Err(e) => opt_int_col(self@, name@) == Err::<Option<i64>, Seq<char>>(e.message@),
            },
    {
        match self.column(name) {
            Some(SqlValue::Int(n)) => Ok(Some(*n)),
            Some(SqlValue::Null) => Ok(None),
            Some(_) => Err(DbError { message: cat("wrong type in column ", name) }),
            None => Ok(None),
        }
    }

    /// An optional text column.
    pub fn get_opt_string(&self, name: &str) -> (r: Result<Option<String>, DbError>)
        ensures
            match r {
                Ok(s) => opt_str_col(self@, name@) == Ok::<Option<Seq<char>>, Seq<char>>(opt_view(s)),
                Err(e) => opt_str_col(self@, name@) == Err::<Option<Seq<char>>, Seq<char>>(e.message@),
            },
    {
        match self.column(name) {
            Some(SqlValue::Text(s)) => Ok(Some(s.clone())),
            Some(SqlValue::Null) => Ok(None),
            Some(_) => Err(DbError { message: cat("wrong type in column ", name) }),
            None => Ok(None),
        }
    }
}

/// The first value of the first row as an integer (how an id comes back from
/// `SELECT last_insert_rowid()` or `SELECT id ...`).
pub open spec fn first_int_spec(rows: Seq<RowView>) -> Option<i64> {
    if rows.len() > 0 && rows[0].values.len() > 0 {
        match rows[0].values[0] {
            SqlView::Int(n) => Some(n),
            _ => None,
        }
    } else {
        None
    }
}

/// The views of a list of rows.
pub open spec fn row_views(v: Seq<DbRow>) -> Seq<RowView> {
    v.map_values(|r: DbRow| r@)
}

/// The first value of the first row, if it is an integer.
pub fn first_int(rows: &DbRows) -> (r: Option<i64>)
    ensures
        r == first_int_spec(row_views(rows.rows@)),
{
    if rows.rows.len() > 0 && rows.rows[0].values.len() > 0 {
        assert(row_views(rows.rows@)[0] == rows.rows@[0]@);
        assert(rows.rows@[0]@.values[0] == rows.rows@[0].values@[0]@);
        match &rows.rows[0].values[0] {
            SqlValue::Int(n) => Some(*n),
            _ => None,
        }
    } else {
        if rows.rows.len() > 0 {
            assert(row_views(rows.rows@)[0] == rows.rows@[0]@);
        }
        None
    }
}


/// Rows that decode one by one into records.
pub trait FromRow: Sized + View {
    /// How a row reads as a record, or the message of why it does not.
    spec fn row_spec(row: RowView) -> Result<Self::V, Seq<char>>;

    /// Reads one row.
    fn decode_row(row: &DbRow) -> (r: Result<Self, DbError>)
        ensures
            match r {
                Ok(m) => Self::row_spec(row@) == Ok::<Self::V, Seq<char>>(m@),
                Err(e) => Self::row_spec(row@) == Err::<Self::V, Seq<char>>(e.message@),
            },
    ;
}

/// All rows read as records; the first row that does not read gives the error.
pub open spec fn decode_all<T: FromRow>(rows: Seq<RowView>) -> Result<Seq<T::V>, Seq<char>>
    decreases rows.len(),
{
    if rows.len() == 0 {
        Ok(Seq::empty())
    } else {
        match decode_all::<T>(rows.drop_last()) {
            Err(e) => Err(e),
            Ok(vs) => match T::row_spec(rows.last()) {
                Err(e) => Err(e),
                Ok(v) => Ok(vs.push(v)),
            },
        }
    }
}

/// Once a prefix of the rows fails to read, every longer prefix fails the same way.
pub proof fn lemma_decode_all_err<T: FromRow>(rows: Seq<RowView>, j: int, k: int, e: Seq<char>)
    requires
        0 <= j <= k <= rows.len(),
        decode_all::<T>(rows.take(j)) == Err::<Seq<T::V>, Seq<char>>(e),
    ensures
        decode_all::<T>(rows.take(k)) == Err::<Seq<T::V>, Seq<char>>(e),
    decreases k - j,
{
    if k > j {
        lemma_decode_all_err::<T>(rows, j, k - 1, e);
        assert(rows.take(k).drop_last() =~= rows.take(k - 1));
    }
}

/// The values of a list of records.
pub open spec fn record_views<T: View>(v: Seq<T>) -> Seq<T::V> {
    v.map_values(|m: T| m@)
}

/// Reads every row of a result as a record.
pub fn decode_rows<T: FromRow>(rows: &DbRows) -> (r: Result<Vec<T>, DbError>)
    ensures
        match r {
            Ok(v) => decode_all::<T>(row_views(rows.rows@)) == Ok::<Seq<T::V>, Seq<char>>(record_views(v@)),
            Err(e) => decode_all::<T>(row_views(rows.rows@)) == Err::<Seq<T::V>, Seq<char>>(e.message@),
        },
{
    let ghost rv = row_views(rows.rows@);
    let mut out: Vec<T> = Vec::new();
    let mut i: usize = 0;
    assert(rv.take(0) =~= Seq::<RowView>::empty());
    assert(record_views(out@) =~= Seq::<T::V>::empty());
    while i < rows.rows.len()
        invariant
            i <= rows.rows@.len(),
            rv == row_views(rows.rows@),
            decode_all::<T>(rv.take(i as int)) == Ok::<Seq<T::V>, Seq<char>>(record_views(out@)),
        decreases rows.rows@.len() - i,
    {
        assert(rv.take(i + 1).drop_last() =~= rv.take(i as int));
        assert(rv[i as int] == rows.rows@[i as int]@);
        match T::decode_row(&rows.rows[i]) {
            Ok(m) => {
                let ghost prev = record_views(out@);
                let ghost mv = m@;
                out.push(m);
                assert(record_views(out@) =~= prev.push(mv));
                assert(rv.take(i + 1).last() == rv[i as int]);
            },
            Err(e) => {
                proof {
                    lemma_decode_all_err::<T>(rv, i + 1, rv.len() as int, e.message@);
                    assert(rv.take(rv.len() as int) =~= rv);
                }
                return Err(e);
            },
        }
        i = i + 1;
    }
    assert(rv.take(i as int) =~= rv);
    Ok(out)
}

} // verus!
