//! Audit log records.

use vstd::prelude::*;
use crate::db::row::{DbError, DbRow, FromRow, RowView, int_col, opt_str_col, str_col, opt_view};

verus! {

/// One audit log row.
pub struct Model {
    pub id: i64,
    pub actor_type: String,
    pub actor_id: String,
    pub platform: Option<String>,
    pub room_id: Option<String>,
    pub action: String,
    pub target: Option<String>,
    pub result: String,
    pub detail: Option<String>,
    pub created_at: String,
}

/// The value a record stands for.
pub struct ModelView {
    pub id: i64,
    pub actor_type: Seq<char>,
    pub actor_id: Seq<char>,
    pub platform: Option<Seq<char>>,
    pub room_id: Option<Seq<char>>,
    pub action: Seq<char>,
    pub target: Option<Seq<char>>,
    pub result: Seq<char>,
    pub detail: Option<Seq<char>>,
    pub created_at: Seq<char>,
}

impl View for Model {
    type V = ModelView;

    open spec fn view(&self) -> ModelView {
        ModelView {
            id: self.id,
            actor_type: self.actor_type@,
            actor_id: self.actor_id@,
            platform: opt_view(self.platform),
            room_id: opt_view(self.room_id),
            action: self.action@,
            target: opt_view(self.target),
            result: self.result@,
            detail: opt_view(self.detail),
            created_at: self.created_at@,
        }
    }
}

/// How a row reads as a record: the columns in field order; the first one that is
/// missing or has the wrong type gives the error.
pub open spec fn from_row_spec(row: RowView) -> Result<ModelView, Seq<char>> {
    match int_col(row, "id"@) {
        Err(e) => Err(e),
        Ok(id) => match str_col(row, "actor_type"@) {
            Err(e) => Err(e),
            Ok(actor_type) => match str_col(row, "actor_id"@) {
                Err(e) => Err(e),
                Ok(actor_id) => match opt_str_col(row, "platform"@) {
                    Err(e) => Err(e),
                    Ok(platform) => match opt_str_col(row, "room_id"@) {
                        Err(e) => Err(e),
                        Ok(room_id) => match str_col(row, "action"@) {
                            Err(e) => Err(e),
                            Ok(action) => match opt_str_col(row, "target"@) {
                                Err(e) => Err(e),
                                Ok(target) => match str_col(row, "result"@) {
                                    Err(e) => Err(e),
                                    Ok(result) => match opt_str_col(row, "detail"@) {
                                        Err(e) => Err(e),
                                        Ok(detail) => match str_col(row, "created_at"@) {
                                            Err(e) => Err(e),
                                            Ok(created_at) => Ok(ModelView { id, actor_type, actor_id, platform, room_id, action, target, result, detail, created_at }),
                                        },
                                    },
                                },
                            },
                        },
                    },
                },
            },
        },
    }
}

impl Model {
    /// Build from a database row.
    pub fn from_row(row: &DbRow) -> (r: Result<Self, DbError>)
        ensures
            match r {
                Ok(m) => from_row_spec(row@) == Ok::<ModelView, Seq<char>>(m@),
                Err(e) => from_row_spec(row@) == Err::<ModelView, Seq<char>>(e.message@),
            },
    {
        let id = row.get_i64("id")?;
        let actor_type = row.get_string("actor_type")?;
        let actor_id = row.get_string("actor_id")?;
        let platform = row.get_opt_string("platform")?;
        let room_id = row.get_opt_string("room_id")?;
        let action = row.get_string("action")?;
        let target = row.get_opt_string("target")?;
        let result = row.get_string("result")?;
        let detail = row.get_opt_string("detail")?;
        let created_at = row.get_string("created_at")?;
        Ok(Model { id, actor_type, actor_id, platform, room_id, action, target, result, detail, created_at })
    }
}

impl FromRow for Model {
    open spec fn row_spec(row: RowView) -> Result<ModelView, Seq<char>> {
        from_row_spec(row)
    }

    fn decode_row(row: &DbRow) -> (r: Result<Self, DbError>) {
        Model::from_row(row)
    }
}

} // verus!
