//! Forwarded sync message records.

use vstd::prelude::*;
use crate::db::row::{DbError, DbRow, FromRow, RowView, int_col, str_col};

verus! {

/// One forwarded sync message row.
pub struct Model {
    pub id: i64,
    pub rule_id: i64,
    pub direction: String,
    pub msg_id_src: String,
    pub forwarded_at: String,
}

/// The value a record stands for.
pub struct ModelView {
    pub id: i64,
    pub rule_id: i64,
    pub direction: Seq<char>,
    pub msg_id_src: Seq<char>,
    pub forwarded_at: Seq<char>,
}

impl View for Model {
    type V = ModelView;

    open spec fn view(&self) -> ModelView {
        ModelView {
            id: self.id,
            rule_id: self.rule_id,
            direction: self.direction@,
            msg_id_src: self.msg_id_src@,
            forwarded_at: self.forwarded_at@,
        }
    }
}

/// How a row reads as a record: the columns in field order; the first one that is
/// missing or has the wrong type gives the error.
pub open spec fn from_row_spec(row: RowView) -> Result<ModelView, Seq<char>> {
    match int_col(row, "id"@) {
        Err(e) => Err(e),
        Ok(id) => match int_col(row, "rule_id"@) {
            Err(e) => Err(e),
            Ok(rule_id) => match str_col(row, "direction"@) {
                Err(e) => Err(e),
                Ok(direction) => match str_col(row, "msg_id_src"@) {
                    Err(e) => Err(e),
                    Ok(msg_id_src) => match str_col(row, "forwarded_at"@) {
                        Err(e) => Err(e),
                        Ok(forwarded_at) => Ok(ModelView { id, rule_id, direction, msg_id_src, forwarded_at }),
                    },
                },
            },
        },
    }
}

impl Model {
    /// Build from a database row.
    pub fn from_row(row: &DbRow) -> (r: Result<Self, DbError>)
        ensures
            match r {
                Ok(m) => from_row_spec(row@) == Ok::<ModelView, Seq<char>>(m@),
                Err(e) => from_row_spec(row@) == Err::<ModelView, Seq<char>>(e.message@),
            },
    {
        let id = row.get_i64("id")?;
        let rule_id = row.get_i64("rule_id")?;
        let direction = row.get_string("direction")?;
        let msg_id_src = row.get_string("msg_id_src")?;
        let forwarded_at = row.get_string("forwarded_at")?;
        Ok(Model { id, rule_id, direction, msg_id_src, forwarded_at })
    }
}

impl FromRow for Model {
    open spec fn row_spec(row: RowView) -> Result<ModelView, Seq<char>> {
        from_row_spec(row)
    }

    fn decode_row(row: &DbRow) -> (r: Result<Self, DbError>) {
        Model::from_row(row)
    }
}

} // verus!
