//! Room collection member records.

use vstd::prelude::*;
use crate::db::row::{DbError, DbRow, FromRow, RowView, int_col, str_col};

verus! {

/// One room collection member row.
pub struct Model {
    pub collection_id: i64,
    pub platform: String,
    pub room_id: String,
}

/// The value a record stands for.
pub struct ModelView {
    pub collection_id: i64,
    pub platform: Seq<char>,
    pub room_id: Seq<char>,
}

impl View for Model {
    type V = ModelView;

    open spec fn view(&self) -> ModelView {
        ModelView {
            collection_id: self.collection_id,
            platform: self.platform@,
            room_id: self.room_id@,
        }
    }
}

/// How a row reads as a record: the columns in field order; the first one that is
/// missing or has the wrong type gives the error.
pub open spec fn from_row_spec(row: RowView) -> Result<ModelView, Seq<char>> {
    match int_col(row, "collection_id"@) {
        Err(e) => Err(e),
        Ok(collection_id) => match str_col(row, "platform"@) {
            Err(e) => Err(e),
            Ok(platform) => match str_col(row, "room_id"@) {
                Err(e) => Err(e),
                Ok(room_id) => Ok(ModelView { collection_id, platform, room_id }),
            },
        },
    }
}

impl Model {
    /// Build from a database row.
    pub fn from_row(row: &DbRow) -> (r: Result<Self, DbError>)
        ensures
            match r {
                Ok(m) => from_row_spec(row@) == Ok::<ModelView, Seq<char>>(m@),
                Err(e) => from_row_spec(row@) == Err::<ModelView, Seq<char>>(e.message@),
            },
    {
        let collection_id = row.get_i64("collection_id")?;
        let platform = row.get_string("platform")?;
        let room_id = row.get_string("room_id")?;
        Ok(Model { collection_id, platform, room_id })
    }
}

impl FromRow for Model {
    open spec fn row_spec(row: RowView) -> Result<ModelView, Seq<char>> {
        from_row_spec(row)
    }

    fn decode_row(row: &DbRow) -> (r: Result<Self, DbError>) {
        Model::from_row(row)
    }
}

} // verus!
