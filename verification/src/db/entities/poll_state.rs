//! Poll state (message offset) records.

use vstd::prelude::*;
use crate::db::row::{DbError, DbRow, FromRow, RowView, int_col, str_col};

verus! {

/// One poll state (message offset) row.
pub struct Model {
    pub platform: String,
    pub room_id: String,
    pub last_offset: i64,
}

/// The value a record stands for.
pub struct ModelView {
    pub platform: Seq<char>,
    pub room_id: Seq<char>,
    pub last_offset: i64,
}

impl View for Model {
    type V = ModelView;

    open spec fn view(&self) -> ModelView {
        ModelView {
            platform: self.platform@,
            room_id: self.room_id@,
            last_offset: self.last_offset,
        }
    }
}

/// How a row reads as a record: the columns in field order; the first one that is
/// missing or has the wrong type gives the error.
pub open spec fn from_row_spec(row: RowView) -> Result<ModelView, Seq<char>> {
    match str_col(row, "platform"@) {
        Err(e) => Err(e),
        Ok(platform) => match str_col(row, "room_id"@) {
            Err(e) => Err(e),
            Ok(room_id) => match int_col(row, "last_offset"@) {
                Err(e) => Err(e),
                Ok(last_offset) => Ok(ModelView { platform, room_id, last_offset }),
            },
        },
    }
}

impl Model {
    /// Build from a database row.
    pub fn from_row(row: &DbRow) -> (r: Result<Self, DbError>)
        ensures
            match r {
                Ok(m) => from_row_spec(row@) == Ok::<ModelView, Seq<char>>(m@),
                Err(e) => from_row_spec(row@) == Err::<ModelView, Seq<char>>(e.message@),
            },
    {
        let platform = row.get_string("platform")?;
        let room_id = row.get_string("room_id")?;
        let last_offset = row.get_i64("last_offset")?;
        Ok(Model { platform, room_id, last_offset })
    }
}

impl FromRow for Model {
    open spec fn row_spec(row: RowView) -> Result<ModelView, Seq<char>> {
        from_row_spec(row)
    }

    fn decode_row(row: &DbRow) -> (r: Result<Self, DbError>) {
        Model::from_row(row)
    }
}

} // verus!
