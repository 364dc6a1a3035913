//! Sync rule records.

use vstd::prelude::*;
use crate::db::row::{DbError, DbRow, FromRow, RowView, int_col, str_col};

verus! {

/// One sync rule row.
pub struct Model {
    pub id: i64,
    pub source_platform: String,
    pub source_room: String,
    pub target_platform: String,
    pub target_room: String,
    pub direction: String,
    pub sync_members: i64,
    pub enabled: i64,
    pub created_at: String,
}

/// The value a record stands for.
pub struct ModelView {
    pub id: i64,
    pub source_platform: Seq<char>,
    pub source_room: Seq<char>,
    pub target_platform: Seq<char>,
    pub target_room: Seq<char>,
    pub direction: Seq<char>,
    pub sync_members: i64,
    pub enabled: i64,
    pub created_at: Seq<char>,
}

impl View for Model {
    type V = ModelView;

    open spec fn view(&self) -> ModelView {
        ModelView {
            id: self.id,
            source_platform: self.source_platform@,
            source_room: self.source_room@,
            target_platform: self.target_platform@,
            target_room: self.target_room@,
            direction: self.direction@,
            sync_members: self.sync_members,
            enabled: self.enabled,
            created_at: self.created_at@,
        }
    }
}

/// How a row reads as a record: the columns in field order; the first one that is
/// missing or has the wrong type gives the error.
pub open spec fn from_row_spec(row: RowView) -> Result<ModelView, Seq<char>> {
    match int_col(row, "id"@) {
        Err(e) => Err(e),
        Ok(id) => match str_col(row, "source_platform"@) {
            Err(e) => Err(e),
            Ok(source_platform) => match str_col(row, "source_room"@) {
                Err(e) => Err(e),
                Ok(source_room) => match str_col(row, "target_platform"@) {
                    Err(e) => Err(e),
                    Ok(target_platform) => match str_col(row, "target_room"@) {
                        Err(e) => Err(e),
                        Ok(target_room) => match str_col(row, "direction"@) {
                            Err(e) => Err(e),
                            Ok(direction) => match int_col(row, "sync_members"@) {
                                Err(e) => Err(e),
                                Ok(sync_members) => match int_col(row, "enabled"@) {
                                    Err(e) => Err(e),
                                    Ok(enabled) => match str_col(row, "created_at"@) {
                                        Err(e) => Err(e),
                                        Ok(created_at) => Ok(ModelView { id, source_platform, source_room, target_platform, target_room, direction, sync_members, enabled, created_at }),
                                    },
                                },
                            },
                        },
                    },
                },
            },
        },
    }
}

impl Model {
    /// Build from a database row.
    pub fn from_row(row: &DbRow) -> (r: Result<Self, DbError>)
        ensures
            match r {
                Ok(m) => from_row_spec(row@) == Ok::<ModelView, Seq<char>>(m@),
                Err(e) => from_row_spec(row@) == Err::<ModelView, Seq<char>>(e.message@),
            },
    {
        let id = row.get_i64("id")?;
        let source_platform = row.get_string("source_platform")?;
        let source_room = row.get_string("source_room")?;
        let target_platform = row.get_string("target_platform")?;
        let target_room = row.get_string("target_room")?;
        let direction = row.get_string("direction")?;
        let sync_members = row.get_i64("sync_members")?;
        let enabled = row.get_i64("enabled")?;
        let created_at = row.get_string("created_at")?;
        Ok(Model { id, source_platform, source_room, target_platform, target_room, direction, sync_members, enabled, created_at })
    }
}

impl FromRow for Model {
    open spec fn row_spec(row: RowView) -> Result<ModelView, Seq<char>> {
        from_row_spec(row)
    }

    fn decode_row(row: &DbRow) -> (r: Result<Self, DbError>) {
        Model::from_row(row)
    }
}

} // verus!
