//! Child bot management.

use vstd::prelude::*;
use crate::clock::{is_utc_rfc3339, now_rfc3339};
use crate::db::row::{decode_all, decode_rows, record_views, row_views, DbError, DbRows, opt_int, text, BotDb, DbQuery, QueryView, SqlValue};

verus! {

/// The statement: register a new child bot (idempotent by name), stopped.
pub open spec fn add_child_bot_spec(name: Seq<char>, bot_type: Seq<char>, data_dir: Seq<char>, now: Seq<char>) -> QueryView {
    QueryView {
        sql: "INSERT OR IGNORE INTO child_bots (name, bot_type, data_dir, status, created_at) VALUES (?, ?, ?, 'stopped', ?)"@,
        params: seq![text(name), text(bot_type), text(data_dir), text(now)],
        context: "add_child_bot failed"@,
    }
}

/// Whether `q` is the add-child-bot statement for `name`/`bot_type`/`data_dir`, stamped at some time.
pub open spec fn is_add_child_bot(q: QueryView, name: Seq<char>, bot_type: Seq<char>, data_dir: Seq<char>) -> bool {
    exists|now: Seq<char>| is_utc_rfc3339(now) && q == add_child_bot_spec(name, bot_type, data_dir, now)
}

/// The statement: list all registered child bots, ordered by name.
pub open spec fn list_child_bots_spec() -> QueryView {
    QueryView {
        sql: "SELECT * FROM child_bots ORDER BY name ASC"@,
        params: seq![],
        context: "list_child_bots query failed"@,
    }
}

/// The statement: update the runtime status and PID of a child bot.
pub open spec fn set_child_bot_status_spec(name: Seq<char>, status: Seq<char>, pid: Option<i64>) -> QueryView {
    QueryView {
        sql: "UPDATE child_bots SET status = ?, pid = ? WHERE name = ?"@,
        params: seq![text(status), opt_int(pid), text(name)],
        context: "set_child_bot_status failed"@,
    }
}

impl BotDb {
    /// Register a new child bot (idempotent by name), stopped.
    pub fn add_child_bot_at(name: &str, bot_type: &str, data_dir: &str, now: &str) -> (q: DbQuery)
        ensures
            q@ == add_child_bot_spec(name@, bot_type@, data_dir@, now@),
    {
        let mut p: Vec<SqlValue> = Vec::new();
        p.push(SqlValue::text(name));
        p.push(SqlValue::text(bot_type));
        p.push(SqlValue::text(data_dir));
        p.push(SqlValue::text(now));
        let q = DbQuery::new(
            "INSERT OR IGNORE INTO child_bots (name, bot_type, data_dir, status, created_at) VALUES (?, ?, ?, 'stopped', ?)",
            p,
            "add_child_bot failed",
        );
        assert(q@.params =~= add_child_bot_spec(name@, bot_type@, data_dir@, now@).params);
        q
    }

    /// Register a new child bot (idempotent by name), stopped. The statement is stamped with the current time.
    pub fn add_child_bot(name: &str, bot_type: &str, data_dir: &str) -> (q: DbQuery)
        ensures
            is_add_child_bot(q@, name@, bot_type@, data_dir@),
    {
        let now = now_rfc3339();
        Self::add_child_bot_at(name, bot_type, data_dir, now.as_str())
    }

    /// List all registered child bots, ordered by name.
    pub fn list_child_bots() -> (q: DbQuery)
        ensures
            q@ == list_child_bots_spec(),
    {
        let mut p: Vec<SqlValue> = Vec::new();
        let q = DbQuery::new(
            "SELECT * FROM child_bots ORDER BY name ASC",
            p,
            "list_child_bots query failed",
        );
        assert(q@.params =~= list_child_bots_spec().params);
        q
    }

    /// The statement that updates the runtime status and PID of the child bot `name`.
    pub fn set_child_bot_status(name: &str, status: &str, pid: Option<i64>) -> (q: DbQuery)
        ensures
            q@ == set_child_bot_status_spec(name@, status@, pid),
    {
        let mut p: Vec<SqlValue> = Vec::new();
        p.push(SqlValue::text(status));
        p.push(SqlValue::opt_int(pid));
        p.push(SqlValue::text(name));
        let q = DbQuery::new(
            "UPDATE child_bots SET status = ?, pid = ? WHERE name = ?",
            p,
            "set_child_bot_status failed",
        );
        assert(q@.params =~= set_child_bot_status_spec(name@, status@, pid).params);
        q
    }

    /// The result of updating the status of the child bot `name`, once the statement has
    /// run: its failure as it stands, an error where no bot has that name (the update
    /// changed no row), and `Ok` otherwise.
    pub fn set_child_bot_status_result(name: &str, outcome: &Result<DbRows, DbError>) -> (r: Result<(), DbError>)
        ensures
            match *outcome {
                Err(e) => r matches Err(f) && f.message@ == e.message@,
                Ok(rows) => if rows.rows_affected == 0 {
                    r matches Err(f) && f.message@ == not_found_message(name@)
                } else {
                    r is Ok
                },
            },
    {
        match outcome {
            Err(e) => Err(DbError { message: e.message.clone() }),
            Ok(rows) => {
                if rows.rows_affected == 0 {
                    Err(DbError { message: crate::text::cat("set_child_bot_status: no child bot named ", name) })
                } else {
                    Ok(())
                }
            },
        }
    }
}

/// The error when no child bot has the name `name`.
pub open spec fn not_found_message(name: Seq<char>) -> Seq<char> {
    "set_child_bot_status: no child bot named "@ + name
}


impl BotDb {
    /// The child bots that the listing statement returned.
    pub fn list_child_bots_rows(rows: &DbRows) -> (r: Result<Vec<crate::db::entities::child_bot::Model>, DbError>)
        ensures
            match r {
                Ok(v) => decode_all::<crate::db::entities::child_bot::Model>(row_views(rows.rows@)) == Ok::<Seq<crate::db::entities::child_bot::ModelView>, Seq<char>>(record_views(v@)),
                Err(e) => decode_all::<crate::db::entities::child_bot::Model>(row_views(rows.rows@)) == Err::<Seq<crate::db::entities::child_bot::ModelView>, Seq<char>>(e.message@),
            },
    {
        decode_rows::<crate::db::entities::child_bot::Model>(rows)
    }
}

} // verus!
