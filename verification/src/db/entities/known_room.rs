//! Known room records.

use vstd::prelude::*;
use crate::db::row::{DbError, DbRow, FromRow, RowView, int_col, opt_int_col, opt_str_col, str_col, opt_view};

verus! {

/// One known room row.
pub struct Model {
    pub id: i64,
    pub platform: String,
    pub room_id: String,
    pub room_name: Option<String>,
    pub member_count: Option<i64>,
    pub last_seen: String,
}

/// The value a record stands for.
pub struct ModelView {
    pub id: i64,
    pub platform: Seq<char>,
    pub room_id: Seq<char>,
    pub room_name: Option<Seq<char>>,
    pub member_count: Option<i64>,
    pub last_seen: Seq<char>,
}

impl View for Model {
    type V = ModelView;

    open spec fn view(&self) -> ModelView {
        ModelView {
            id: self.id,
            platform: self.platform@,
            room_id: self.room_id@,
            room_name: opt_view(self.room_name),
            member_count: self.member_count,
            last_seen: self.last_seen@,
        }
    }
}

/// How a row reads as a record: the columns in field order; the first one that is
/// missing or has the wrong type gives the error.
pub open spec fn from_row_spec(row: RowView) -> Result<ModelView, Seq<char>> {
    match int_col(row, "id"@) {
        Err(e) => Err(e),
        Ok(id) => match str_col(row, "platform"@) {
            Err(e) => Err(e),
            Ok(platform) => match str_col(row, "room_id"@) {
                Err(e) => Err(e),
                Ok(room_id) => match opt_str_col(row, "room_name"@) {
                    Err(e) => Err(e),
                    Ok(room_name) => match opt_int_col(row, "member_count"@) {
                        Err(e) => Err(e),
                        Ok(member_count) => match str_col(row, "last_seen"@) {
                            Err(e) => Err(e),
                            Ok(last_seen) => Ok(ModelView { id, platform, room_id, room_name, member_count, last_seen }),
                        },
                    },
                },
            },
        },
    }
}

impl Model {
    /// Build from a database row.
    pub fn from_row(row: &DbRow) -> (r: Result<Self, DbError>)
        ensures
            match r {
                Ok(m) => from_row_spec(row@) == Ok::<ModelView, Seq<char>>(m@),
                Err(e) => from_row_spec(row@) == Err::<ModelView, Seq<char>>(e.message@),
            },
    {
        let id = row.get_i64("id")?;
        let platform = row.get_string("platform")?;
        let room_id = row.get_string("room_id")?;
        let room_name = row.get_opt_string("room_name")?;
        let member_count = row.get_opt_i64("member_count")?;
        let last_seen = row.get_string("last_seen")?;
        Ok(Model { id, platform, room_id, room_name, member_count, last_seen })
    }
}

impl FromRow for Model {
    open spec fn row_spec(row: RowView) -> Result<ModelView, Seq<char>> {
        from_row_spec(row)
    }

    fn decode_row(row: &DbRow) -> (r: Result<Self, DbError>) {
        Model::from_row(row)
    }
}

} // verus!
