//! Key/value bot metadata.

use vstd::prelude::*;
use crate::db::row::{row_views, DbRows, RowView, text, BotDb, DbQuery, QueryView, SqlValue};

verus! {

/// The statement: read a metadata key.
pub open spec fn get_meta_spec(key: Seq<char>) -> QueryView {
    QueryView {
        sql: "SELECT * FROM bot_meta WHERE key = ?"@,
        params: seq![text(key)],
        context: "get_meta query failed"@,
    }
}

/// The statement: write (upsert) a metadata key/value pair.
pub open spec fn set_meta_spec(key: Seq<char>, value: Seq<char>) -> QueryView {
    QueryView {
        sql: "INSERT INTO bot_meta (key, value) VALUES (?, ?) ON CONFLICT(key) DO UPDATE SET value = excluded.value"@,
        params: seq![text(key), text(value)],
        context: "set_meta write failed"@,
    }
}

impl BotDb {
    /// Read a metadata key.
    pub fn get_meta(key: &str) -> (q: DbQuery)
        ensures
            q@ == get_meta_spec(key@),
    {
        let mut p: Vec<SqlValue> = Vec::new();
        p.push(SqlValue::text(key));
        let q = DbQuery::new(
            "SELECT * FROM bot_meta WHERE key = ?",
            p,
            "get_meta query failed",
        );
        assert(q@.params =~= get_meta_spec(key@).params);
        q
    }

    /// Write (upsert) a metadata key/value pair.
    pub fn set_meta(key: &str, value: &str) -> (q: DbQuery)
        ensures
            q@ == set_meta_spec(key@, value@),
    {
        let mut p: Vec<SqlValue> = Vec::new();
        p.push(SqlValue::text(key));
        p.push(SqlValue::text(value));
        let q = DbQuery::new(
            "INSERT INTO bot_meta (key, value) VALUES (?, ?) ON CONFLICT(key) DO UPDATE SET value = excluded.value",
            p,
            "set_meta write failed",
        );
        assert(q@.params =~= set_meta_spec(key@, value@).params);
        q
    }
}


/// The value of the first row, if it reads as a metadata record; `None` otherwise.
pub open spec fn meta_value_spec(rows: Seq<RowView>) -> Option<Seq<char>> {
    if rows.len() > 0 {
        match crate::db::entities::bot_meta::from_row_spec(rows[0]) {
            Ok(m) => Some(m.value),
            Err(_) => None,
        }
    } else {
        None
    }
}

impl BotDb {
    /// The value that the lookup statement returned, if any.
    pub fn get_meta_value(rows: &DbRows) -> (r: Option<String>)
        ensures
            crate::db::row::opt_view(r) == meta_value_spec(row_views(rows.rows@)),
    {
        if rows.rows.len() > 0 {
            assert(row_views(rows.rows@)[0] == rows.rows@[0]@);
            match crate::db::entities::bot_meta::Model::from_row(&rows.rows[0]) {
                Ok(m) => Some(m.value),
                Err(_) => None,
            }
        } else {
            None
        }
    }
}

} // verus!
