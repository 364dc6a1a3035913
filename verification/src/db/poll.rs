//! Poll state (message offsets).

use vstd::prelude::*;
use crate::db::row::{row_views, DbRows, RowView, text, BotDb, DbQuery, QueryView, SqlValue, SqlView};

verus! {

/// The statement: read the last poll offset for `platform`/`room_id`.
pub open spec fn get_offset_spec(platform: Seq<char>, room_id: Seq<char>) -> QueryView {
    QueryView {
        sql: "SELECT * FROM poll_state WHERE platform = ? AND room_id = ?"@,
        params: seq![text(platform), text(room_id)],
        context: "get_offset query failed"@,
    }
}

impl BotDb {
    /// Read the last poll offset for `platform`/`room_id`.
    pub fn get_offset(platform: &str, room_id: &str) -> (q: DbQuery)
        ensures
            q@ == get_offset_spec(platform@, room_id@),
    {
        let mut p: Vec<SqlValue> = Vec::new();
        p.push(SqlValue::text(platform));
        p.push(SqlValue::text(room_id));
        let q = DbQuery::new(
            "SELECT * FROM poll_state WHERE platform = ? AND room_id = ?",
            p,
            "get_offset query failed",
        );
        assert(q@.params =~= get_offset_spec(platform@, room_id@).params);
        q
    }
}


/// The stored offset as an unsigned number: a negative stored value reads as 0.
pub open spec fn offset_of(stored: i64) -> u64 {
    if stored < 0 { 0 } else { stored as u64 }
}

/// The offset that the lookup statement returned: the first row's offset if it reads,
/// else 0.
pub open spec fn offset_spec(rows: Seq<RowView>) -> u64 {
    if rows.len() > 0 {
        match crate::db::entities::poll_state::from_row_spec(rows[0]) {
            Ok(m) => offset_of(m.last_offset),
            Err(_) => 0,
        }
    } else {
        0
    }
}

/// The stored form of an offset: offsets beyond `i64::MAX` are stored as `i64::MAX`.
pub open spec fn stored_offset(offset: u64) -> i64 {
    if offset > i64::MAX as u64 { i64::MAX } else { offset as i64 }
}

/// The statement that persists the poll offset for `platform`/`room_id`.
pub open spec fn set_offset_spec(platform: Seq<char>, room_id: Seq<char>, offset: u64) -> QueryView {
    QueryView {
        sql: "INSERT INTO poll_state (platform, room_id, last_offset) VALUES (?, ?, ?) ON CONFLICT(platform, room_id) DO UPDATE SET last_offset = excluded.last_offset"@,
        params: seq![text(platform), text(room_id), SqlView::Int(stored_offset(offset))],
        context: "set_offset write failed"@,
    }
}

impl BotDb {
    /// The offset that the lookup statement returned, or 0 if not set.
    pub fn get_offset_value(rows: &DbRows) -> (r: u64)
        ensures
            r == offset_spec(row_views(rows.rows@)),
    {
        if rows.rows.len() > 0 {
            assert(row_views(rows.rows@)[0] == rows.rows@[0]@);
            match crate::db::entities::poll_state::Model::from_row(&rows.rows[0]) {
                Ok(m) => if m.last_offset < 0 { 0 } else { m.last_offset as u64 },
                Err(_) => 0,
            }
        } else {
            0
        }
    }

    /// Persist the poll offset for `platform`/`room_id`.
    pub fn set_offset(platform: &str, room_id: &str, offset: u64) -> (q: DbQuery)
        ensures
            q@ == set_offset_spec(platform@, room_id@, offset),
    {
        let stored: i64 = if offset > i64::MAX as u64 { i64::MAX } else { offset as i64 };
        let mut p: Vec<SqlValue> = Vec::new();
        p.push(SqlValue::text(platform));
        p.push(SqlValue::text(room_id));
        p.push(SqlValue::Int(stored));
        let q = DbQuery::new(
            "INSERT INTO poll_state (platform, room_id, last_offset) VALUES (?, ?, ?) ON CONFLICT(platform, room_id) DO UPDATE SET last_offset = excluded.last_offset",
            p,
            "set_offset write failed",
        );
        assert(q@.params =~= set_offset_spec(platform@, room_id@, offset).params);
        q
    }
}

} // verus!
