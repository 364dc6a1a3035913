//! Bot metadata key/value records.

use vstd::prelude::*;
use crate::db::row::{DbError, DbRow, FromRow, RowView, str_col};

verus! {

/// One bot metadata key/value row.
pub struct Model {
    pub key: String,
    pub value: String,
}

/// The value a record stands for.
pub struct ModelView {
    pub key: Seq<char>,
    pub value: Seq<char>,
}

impl View for Model {
    type V = ModelView;

    open spec fn view(&self) -> ModelView {
        ModelView {
            key: self.key@,
            value: self.value@,
        }
    }
}

/// How a row reads as a record: the columns in field order; the first one that is
/// missing or has the wrong type gives the error.
pub open spec fn from_row_spec(row: RowView) -> Result<ModelView, Seq<char>> {
    match str_col(row, "key"@) {
        Err(e) => Err(e),
        Ok(key) => match str_col(row, "value"@) {
            Err(e) => Err(e),
            Ok(value) => Ok(ModelView { key, value }),
        },
    }
}

impl Model {
    /// Build from a database row.
    pub fn from_row(row: &DbRow) -> (r: Result<Self, DbError>)
        ensures
            match r {
                Ok(m) => from_row_spec(row@) == Ok::<ModelView, Seq<char>>(m@),
                Err(e) => from_row_spec(row@) == Err::<ModelView, Seq<char>>(e.message@),
            },
    {
        let key = row.get_string("key")?;
        let value = row.get_string("value")?;
        Ok(Model { key, value })
    }
}

impl FromRow for Model {
    open spec fn row_spec(row: RowView) -> Result<ModelView, Seq<char>> {
        from_row_spec(row)
    }

    fn decode_row(row: &DbRow) -> (r: Result<Self, DbError>) {
        Model::from_row(row)
    }
}

} // verus!
