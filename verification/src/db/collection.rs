//! Room collections.

use vstd::prelude::*;
use crate::clock::{is_utc_rfc3339, now_rfc3339};
use crate::db::audit::opt_str_view;
use crate::db::row::{decode_all, decode_rows, first_int, first_int_spec, record_views, row_views, DbError, DbRows, opt_text, text, BotDb, DbQuery, QueryView, SqlValue, SqlView};

verus! {

/// The statement: create a new room collection.
pub open spec fn create_collection_spec(name: Seq<char>, description: Option<Seq<char>>, now: Seq<char>) -> QueryView {
    QueryView {
        sql: "INSERT INTO room_collections (name, description, created_at) VALUES (?, ?, ?)"@,
        params: seq![text(name), opt_text(description), text(now)],
        context: "create_collection failed"@,
    }
}

/// Whether `q` is the statement that creates collection `name`, stamped at some time.
pub open spec fn is_create_collection(q: QueryView, name: Seq<char>, description: Option<Seq<char>>) -> bool {
    exists|now: Seq<char>| is_utc_rfc3339(now) && q == create_collection_spec(name, description, now)
}

/// The statement: delete a room collection by id.
pub open spec fn delete_collection_spec(id: i64) -> QueryView {
    QueryView {
        sql: "DELETE FROM room_collections WHERE id = ?"@,
        params: seq![SqlView::Int(id)],
        context: "delete_collection failed"@,
    }
}

/// The statement: list all room collections, ordered by name.
pub open spec fn list_collections_spec() -> QueryView {
    QueryView {
        sql: "SELECT * FROM room_collections ORDER BY name ASC"@,
        params: seq![],
        context: "list_collections query failed"@,
    }
}

/// The statement: add `platform`/`room_id` to a collection (idempotent).
pub open spec fn add_to_collection_spec(collection_id: i64, platform: Seq<char>, room_id: Seq<char>) -> QueryView {
    QueryView {
        sql: "INSERT OR IGNORE INTO room_collection_members (collection_id, platform, room_id) VALUES (?, ?, ?)"@,
        params: seq![SqlView::Int(collection_id), text(platform), text(room_id)],
        context: "add_to_collection failed"@,
    }
}

/// The statement: remove `platform`/`room_id` from a collection.
pub open spec fn remove_from_collection_spec(collection_id: i64, platform: Seq<char>, room_id: Seq<char>) -> QueryView {
    QueryView {
        sql: "DELETE FROM room_collection_members WHERE collection_id = ? AND platform = ? AND room_id = ?"@,
        params: seq![SqlView::Int(collection_id), text(platform), text(room_id)],
        context: "remove_from_collection failed"@,
    }
}

/// The statement: return all members of a collection.
pub open spec fn rooms_in_collection_spec(collection_id: i64) -> QueryView {
    QueryView {
        sql: "SELECT * FROM room_collection_members WHERE collection_id = ?"@,
        params: seq![SqlView::Int(collection_id)],
        context: "rooms_in_collection query failed"@,
    }
}

impl BotDb {
    /// Create a new room collection.
    pub fn create_collection_at(name: &str, description: Option<&str>, now: &str) -> (q: DbQuery)
        ensures
            q@ == create_collection_spec(name@, opt_str_view(description), now@),
    {
        let mut p: Vec<SqlValue> = Vec::new();
        p.push(SqlValue::text(name));
        p.push(SqlValue::opt_text(description));
        p.push(SqlValue::text(now));
        let q = DbQuery::new(
            "INSERT INTO room_collections (name, description, created_at) VALUES (?, ?, ?)",
            p,
            "create_collection failed",
        );
        assert(q@.params =~= create_collection_spec(name@, opt_str_view(description), now@).params);
        q
    }

    /// Create a new room collection. The statement is stamped with the current time.
    pub fn create_collection(name: &str, description: Option<&str>) -> (q: DbQuery)
        ensures
            is_create_collection(q@, name@, opt_str_view(description)),
    {
        let now = now_rfc3339();
        Self::create_collection_at(name, description, now.as_str())
    }

    /// Delete a room collection by id.
    pub fn delete_collection(id: i64) -> (q: DbQuery)
        ensures
            q@ == delete_collection_spec(id),
    {
        let mut p: Vec<SqlValue> = Vec::new();
        p.push(SqlValue::Int(id));
        let q = DbQuery::new(
            "DELETE FROM room_collections WHERE id = ?",
            p,
            "delete_collection failed",
        );
        assert(q@.params =~= delete_collection_spec(id).params);
        q
    }

    /// List all room collections, ordered by name.
    pub fn list_collections() -> (q: DbQuery)
        ensures
            q@ == list_collections_spec(),
    {
        let mut p: Vec<SqlValue> = Vec::new();
        let q = DbQuery::new(
            "SELECT * FROM room_collections ORDER BY name ASC",
            p,
            "list_collections query failed",
        );
        assert(q@.params =~= list_collections_spec().params);
        q
    }

    /// Add `platform`/`room_id` to a collection (idempotent).
    pub fn add_to_collection(collection_id: i64, platform: &str, room_id: &str) -> (q: DbQuery)
        ensures
            q@ == add_to_collection_spec(collection_id, platform@, room_id@),
    {
        let mut p: Vec<SqlValue> = Vec::new();
        p.push(SqlValue::Int(collection_id));
        p.push(SqlValue::text(platform));
        p.push(SqlValue::text(room_id));
        let q = DbQuery::new(
            "INSERT OR IGNORE INTO room_collection_members (collection_id, platform, room_id) VALUES (?, ?, ?)",
            p,
            "add_to_collection failed",
        );
        assert(q@.params =~= add_to_collection_spec(collection_id, platform@, room_id@).params);
        q
    }

    /// Remove `platform`/`room_id` from a collection.
    pub fn remove_from_collection(collection_id: i64, platform: &str, room_id: &str) -> (q: DbQuery)
        ensures
            q@ == remove_from_collection_spec(collection_id, platform@, room_id@),
    {
        let mut p: Vec<SqlValue> = Vec::new();
        p.push(SqlValue::Int(collection_id));
        p.push(SqlValue::text(platform));
        p.push(SqlValue::text(room_id));
        let q = DbQuery::new(
            "DELETE FROM room_collection_members WHERE collection_id = ? AND platform = ? AND room_id = ?",
            p,
            "remove_from_collection failed",
        );
        assert(q@.params =~= remove_from_collection_spec(collection_id, platform@, room_id@).params);
        q
    }

    /// Return all members of a collection.
    pub fn rooms_in_collection(collection_id: i64) -> (q: DbQuery)
        ensures
            q@ == rooms_in_collection_spec(collection_id),
    {
        let mut p: Vec<SqlValue> = Vec::new();
        p.push(SqlValue::Int(collection_id));
        let q = DbQuery::new(
            "SELECT * FROM room_collection_members WHERE collection_id = ?",
            p,
            "rooms_in_collection query failed",
        );
        assert(q@.params =~= rooms_in_collection_spec(collection_id).params);
        q
    }
}


/// The statement that reads back the id of the last inserted row.
pub open spec fn last_insert_rowid_spec() -> QueryView {
    QueryView { sql: "SELECT last_insert_rowid() AS id"@, params: seq![], context: "last_insert_rowid failed"@ }
}

/// The message when an insert gives back no id.
pub open spec fn no_rowid(what: Seq<char>) -> Seq<char> {
    what + ": no rowid returned"@
}

/// An id read back after an insert, or the error naming `what`.
pub open spec fn inserted_id_spec(rows: Seq<crate::db::row::RowView>, what: Seq<char>) -> Result<i64, Seq<char>> {
    match first_int_spec(rows) {
        Some(id) => Ok(id),
        None => Err(no_rowid(what)),
    }
}

impl BotDb {
    /// The statement that reads back the id of the last inserted row.
    pub fn last_insert_rowid() -> (q: DbQuery)
        ensures
            q@ == last_insert_rowid_spec(),
    {
        let q = DbQuery::new("SELECT last_insert_rowid() AS id", Vec::new(), "last_insert_rowid failed");
        assert(q@.params =~= last_insert_rowid_spec().params);
        q
    }

    /// The id that the read-back statement returned, or the error naming `what`.
    pub fn inserted_id(rows: &DbRows, what: &str) -> (r: Result<i64, DbError>)
        ensures
            match r {
                Ok(id) => inserted_id_spec(row_views(rows.rows@), what@) == Ok::<i64, Seq<char>>(id),
                Err(e) => inserted_id_spec(row_views(rows.rows@), what@) == Err::<i64, Seq<char>>(e.message@),
            },
    {
        match first_int(rows) {
            Some(id) => Ok(id),
            None => Err(DbError { message: crate::text::cat(what, ": no rowid returned") }),
        }
    }

    /// The id of a new collection.
    pub fn create_collection_id(rows: &DbRows) -> (r: Result<i64, DbError>)
        ensures
            match r {
                Ok(id) => inserted_id_spec(row_views(rows.rows@), "create_collection"@) == Ok::<i64, Seq<char>>(id),
                Err(e) => inserted_id_spec(row_views(rows.rows@), "create_collection"@) == Err::<i64, Seq<char>>(e.message@),
            },
    {
        Self::inserted_id(rows, "create_collection")
    }

    /// The collections that the listing statement returned.
    pub fn list_collections_rows(rows: &DbRows) -> (r: Result<Vec<crate::db::entities::room_collection::Model>, DbError>)
        ensures
            match r {
                Ok(v) => decode_all::<crate::db::entities::room_collection::Model>(row_views(rows.rows@)) == Ok::<Seq<crate::db::entities::room_collection::ModelView>, Seq<char>>(record_views(v@)),
                Err(e) => decode_all::<crate::db::entities::room_collection::Model>(row_views(rows.rows@)) == Err::<Seq<crate::db::entities::room_collection::ModelView>, Seq<char>>(e.message@),
            },
    {
        decode_rows::<crate::db::entities::room_collection::Model>(rows)
    }

    /// The members that the membership statement returned.
    pub fn rooms_in_collection_rows(rows: &DbRows) -> (r: Result<Vec<crate::db::entities::room_collection_member::Model>, DbError>)
        ensures
            match r {
                Ok(v) => decode_all::<crate::db::entities::room_collection_member::Model>(row_views(rows.rows@)) == Ok::<Seq<crate::db::entities::room_collection_member::ModelView>, Seq<char>>(record_views(v@)),
                Err(e) => decode_all::<crate::db::entities::room_collection_member::Model>(row_views(rows.rows@)) == Err::<Seq<crate::db::entities::room_collection_member::ModelView>, Seq<char>>(e.message@),
            },
    {
        decode_rows::<crate::db::entities::room_collection_member::Model>(rows)
    }
}

} // verus!
