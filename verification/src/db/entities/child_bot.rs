//! Child bot records.

use vstd::prelude::*;
use crate::db::row::{DbError, DbRow, FromRow, RowView, int_col, opt_int_col, opt_str_col, str_col, opt_view};

verus! {

/// One child bot row.
pub struct Model {
    pub id: i64,
    pub name: String,
    pub bot_type: String,
    pub data_dir: String,
    pub status: String,
    pub pid: Option<i64>,
    pub created_at: String,
    pub started_at: Option<String>,
}

/// The value a record stands for.
pub struct ModelView {
    pub id: i64,
    pub name: Seq<char>,
    pub bot_type: Seq<char>,
    pub data_dir: Seq<char>,
    pub status: Seq<char>,
    pub pid: Option<i64>,
    pub created_at: Seq<char>,
    pub started_at: Option<Seq<char>>,
}

impl View for Model {
    type V = ModelView;

    open spec fn view(&self) -> ModelView {
        ModelView {
            id: self.id,
            name: self.name@,
            bot_type: self.bot_type@,
            data_dir: self.data_dir@,
            status: self.status@,
            pid: self.pid,
            created_at: self.created_at@,
            started_at: opt_view(self.started_at),
        }
    }
}

/// How a row reads as a record: the columns in field order; the first one that is
/// missing or has the wrong type gives the error.
pub open spec fn from_row_spec(row: RowView) -> Result<ModelView, Seq<char>> {
    match int_col(row, "id"@) {
        Err(e) => Err(e),
        Ok(id) => match str_col(row, "name"@) {
            Err(e) => Err(e),
            Ok(name) => match str_col(row, "bot_type"@) {
                Err(e) => Err(e),
                Ok(bot_type) => match str_col(row, "data_dir"@) {
                    Err(e) => Err(e),
                    Ok(data_dir) => match str_col(row, "status"@) {
                        Err(e) => Err(e),
                        Ok(status) => match opt_int_col(row, "pid"@) {
                            Err(e) => Err(e),
                            Ok(pid) => match str_col(row, "created_at"@) {
                                Err(e) => Err(e),
                                Ok(created_at) => match opt_str_col(row, "started_at"@) {
                                    Err(e) => Err(e),
                                    Ok(started_at) => Ok(ModelView { id, name, bot_type, data_dir, status, pid, created_at, started_at }),
                                },
                            },
                        },
                    },
                },
            },
        },
    }
}

impl Model {
    /// Build from a database row.
    pub fn from_row(row: &DbRow) -> (r: Result<Self, DbError>)
        ensures
            match r {
                Ok(m) => from_row_spec(row@) == Ok::<ModelView, Seq<char>>(m@),
                Err(e) => from_row_spec(row@) == Err::<ModelView, Seq<char>>(e.message@),
            },
    {
        let id = row.get_i64("id")?;
        let name = row.get_string("name")?;
        let bot_type = row.get_string("bot_type")?;
        let data_dir = row.get_string("data_dir")?;
        let status = row.get_string("status")?;
        let pid = row.get_opt_i64("pid")?;
        let created_at = row.get_string("created_at")?;
        let started_at = row.get_opt_string("started_at")?;
        Ok(Model { id, name, bot_type, data_dir, status, pid, created_at, started_at })
    }
}

impl FromRow for Model {
    open spec fn row_spec(row: RowView) -> Result<ModelView, Seq<char>> {
        from_row_spec(row)
    }

    fn decode_row(row: &DbRow) -> (r: Result<Self, DbError>) {
        Model::from_row(row)
    }
}

} // verus!
