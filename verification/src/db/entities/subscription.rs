//! Subscription records.

use vstd::prelude::*;
use crate::db::row::{DbError, DbRow, FromRow, RowView, int_col, str_col};

verus! {

/// One subscription row.
pub struct Model {
    pub id: i64,
    pub platform: String,
    pub room_id: String,
    pub topic: String,
    pub created_at: String,
}

/// The value a record stands for.
pub struct ModelView {
    pub id: i64,
    pub platform: Seq<char>,
    pub room_id: Seq<char>,
    pub topic: Seq<char>,
    pub created_at: Seq<char>,
}

impl View for Model {
    type V = ModelView;

    open spec fn view(&self) -> ModelView {
        ModelView {
            id: self.id,
            platform: self.platform@,
            room_id: self.room_id@,
            topic: self.topic@,
            created_at: self.created_at@,
        }
    }
}

/// How a row reads as a record: the columns in field order; the first one that is
/// missing or has the wrong type gives the error.
pub open spec fn from_row_spec(row: RowView) -> Result<ModelView, Seq<char>> {
    match int_col(row, "id"@) {
        Err(e) => Err(e),
        Ok(id) => match str_col(row, "platform"@) {
            Err(e) => Err(e),
            Ok(platform) => match str_col(row, "room_id"@) {
                Err(e) => Err(e),
                Ok(room_id) => match str_col(row, "topic"@) {
                    Err(e) => Err(e),
                    Ok(topic) => match str_col(row, "created_at"@) {
                        Err(e) => Err(e),
                        Ok(created_at) => Ok(ModelView { id, platform, room_id, topic, created_at }),
                    },
                },
            },
        },
    }
}

impl Model {
    /// Build from a database row.
    pub fn from_row(row: &DbRow) -> (r: Result<Self, DbError>)
        ensures
            match r {
                Ok(m) => from_row_spec(row@) == Ok::<ModelView, Seq<char>>(m@),
                Err(e) => from_row_spec(row@) == Err::<ModelView, Seq<char>>(e.message@),
            },
    {
        let id = row.get_i64("id")?;
        let platform = row.get_string("platform")?;
        let room_id = row.get_string("room_id")?;
        let topic = row.get_string("topic")?;
        let created_at = row.get_string("created_at")?;
        Ok(Model { id, platform, room_id, topic, created_at })
    }
}

impl FromRow for Model {
    open spec fn row_spec(row: RowView) -> Result<ModelView, Seq<char>> {
        from_row_spec(row)
    }

    fn decode_row(row: &DbRow) -> (r: Result<Self, DbError>) {
        Model::from_row(row)
    }
}

} // verus!
