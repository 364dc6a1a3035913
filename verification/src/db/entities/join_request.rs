//! Join request records.

use vstd::prelude::*;
use crate::db::row::{DbError, DbRow, FromRow, RowView, int_col, opt_str_col, str_col, opt_view};

verus! {

/// One join request row.
pub struct Model {
    pub id: i64,
    pub platform: String,
    pub room_id: String,
    pub user_id: String,
    pub status: String,
    pub iam_result: Option<String>,
    pub created_at: String,
    pub resolved_at: Option<String>,
}

/// The value a record stands for.
pub struct ModelView {
    pub id: i64,
    pub platform: Seq<char>,
    pub room_id: Seq<char>,
    pub user_id: Seq<char>,
    pub status: Seq<char>,
    pub iam_result: Option<Seq<char>>,
    pub created_at: Seq<char>,
    pub resolved_at: Option<Seq<char>>,
}

impl View for Model {
    type V = ModelView;

    open spec fn view(&self) -> ModelView {
        ModelView {
            id: self.id,
            platform: self.platform@,
            room_id: self.room_id@,
            user_id: self.user_id@,
            status: self.status@,
            iam_result: opt_view(self.iam_result),
            created_at: self.created_at@,
            resolved_at: opt_view(self.resolved_at),
        }
    }
}

/// How a row reads as a record: the columns in field order; the first one that is
/// missing or has the wrong type gives the error.
pub open spec fn from_row_spec(row: RowView) -> Result<ModelView, Seq<char>> {
    match int_col(row, "id"@) {
        Err(e) => Err(e),
        Ok(id) => match str_col(row, "platform"@) {
            Err(e) => Err(e),
            Ok(platform) => match str_col(row, "room_id"@) {
                Err(e) => Err(e),
                Ok(room_id) => match str_col(row, "user_id"@) {
                    Err(e) => Err(e),
                    Ok(user_id) => match str_col(row, "status"@) {
                        Err(e) => Err(e),
                        Ok(status) => match opt_str_col(row, "iam_result"@) {
                            Err(e) => Err(e),
                            Ok(iam_result) => match str_col(row, "created_at"@) {
                                Err(e) => Err(e),
                                Ok(created_at) => match opt_str_col(row, "resolved_at"@) {
                                    Err(e) => Err(e),
                                    Ok(resolved_at) => Ok(ModelView { id, platform, room_id, user_id, status, iam_result, created_at, resolved_at }),
                                },
                            },
                        },
                    },
                },
            },
        },
    }
}

impl Model {
    /// Build from a database row.
    pub fn from_row(row: &DbRow) -> (r: Result<Self, DbError>)
        ensures
            match r {
                Ok(m) => from_row_spec(row@) == Ok::<ModelView, Seq<char>>(m@),
                Err(e) => from_row_spec(row@) == Err::<ModelView, Seq<char>>(e.message@),
            },
    {
        let id = row.get_i64("id")?;
        let platform = row.get_string("platform")?;
        let room_id = row.get_string("room_id")?;
        let user_id = row.get_string("user_id")?;
        let status = row.get_string("status")?;
        let iam_result = row.get_opt_string("iam_result")?;
        let created_at = row.get_string("created_at")?;
        let resolved_at = row.get_opt_string("resolved_at")?;
        Ok(Model { id, platform, room_id, user_id, status, iam_result, created_at, resolved_at })
    }
}

impl FromRow for Model {
    open spec fn row_spec(row: RowView) -> Result<ModelView, Seq<char>> {
        from_row_spec(row)
    }

    fn decode_row(row: &DbRow) -> (r: Result<Self, DbError>) {
        Model::from_row(row)
    }
}

} // verus!
