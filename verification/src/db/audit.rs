//! The audit log: writing entries and reading the latest ones.

use vstd::prelude::*;
use crate::clock::{is_utc_rfc3339, now_rfc3339};
use crate::db::entities::audit_log;
use crate::db::row::{BotDb, decode_all, decode_rows, opt_text, record_views, row_views, text, DbError, DbQuery, DbRows, QueryView, SqlValue, SqlView};

verus! {

/// All fields needed for one audit log entry.
pub struct AuditEntry<'a> {
    pub actor_type: &'a str,
    pub actor_id: &'a str,
    pub platform: Option<&'a str>,
    pub room_id: Option<&'a str>,
    pub action: &'a str,
    pub target: Option<&'a str>,
    pub result: &'a str,
    pub detail: Option<&'a str>,
}

/// The view of an optional string slice.
pub open spec fn opt_str_view(s: Option<&str>) -> Option<Seq<char>> {
    match s {
        Some(t) => Some(t@),
        None => None,
    }
}

/// The statement that writes an entry with these fields at time `now`.
pub open spec fn audit_fields_spec(
    actor_type: Seq<char>,
    actor_id: Seq<char>,
    platform: Option<Seq<char>>,
    room_id: Option<Seq<char>>,
    action: Seq<char>,
    target: Option<Seq<char>>,
    result: Seq<char>,
    detail: Option<Seq<char>>,
    now: Seq<char>,
) -> QueryView {
    QueryView {
        sql: "INSERT INTO audit_log (actor_type, actor_id, platform, room_id, action, target, result, detail, created_at) VALUES (?, ?, ?, ?, ?, ?, ?, ?, ?)"@,
        params: seq![
            text(actor_type),
            text(actor_id),
            opt_text(platform),
            opt_text(room_id),
            text(action),
            opt_text(target),
            text(result),
            opt_text(detail),
            text(now),
        ],
        context: "audit insert failed"@,
    }
}

/// The statement that writes `e` at time `now`.
pub open spec fn audit_spec(e: AuditEntry, now: Seq<char>) -> QueryView {
    audit_fields_spec(
        e.actor_type@,
        e.actor_id@,
        opt_str_view(e.platform),
        opt_str_view(e.room_id),
        e.action@,
        opt_str_view(e.target),
        e.result@,
        opt_str_view(e.detail),
        now,
    )
}

/// Whether `q` is the statement that writes audit entry `e`, stamped at some time.
pub open spec fn is_audit(q: QueryView, e: AuditEntry) -> bool {
    exists|now: Seq<char>| is_utc_rfc3339(now) && q == audit_spec(e, now)
}

/// The statement that reads the latest `limit` entries, newest first.
pub open spec fn recent_audit_spec(limit: u64) -> QueryView {
    QueryView {
        sql: "SELECT * FROM audit_log ORDER BY id DESC LIMIT ?"@,
        params: seq![SqlView::UInt(limit)],
        context: "recent_audit query failed"@,
    }
}

impl BotDb {
    /// The statement that writes one entry, stamped `now`.
    pub fn audit_at(entry: &AuditEntry, now: &str) -> (q: DbQuery)
        ensures
            q@ == audit_spec(*entry, now@),
    {
        let mut p: Vec<SqlValue> = Vec::new();
        p.push(SqlValue::text(entry.actor_type));
        p.push(SqlValue::text(entry.actor_id));
        p.push(SqlValue::opt_text(entry.platform));
        p.push(SqlValue::opt_text(entry.room_id));
        p.push(SqlValue::text(entry.action));
        p.push(SqlValue::opt_text(entry.target));
        p.push(SqlValue::text(entry.result));
        p.push(SqlValue::opt_text(entry.detail));
        p.push(SqlValue::text(now));
        let q = DbQuery::new(
            "INSERT INTO audit_log (actor_type, actor_id, platform, room_id, action, target, result, detail, created_at) VALUES (?, ?, ?, ?, ?, ?, ?, ?, ?)",
            p,
            "audit insert failed",
        );
        assert(q@.params =~= audit_spec(*entry, now@).params);
        q
    }

    /// The statement that writes one entry, stamped with the current time.
    pub fn audit(entry: &AuditEntry) -> (q: DbQuery)
        ensures
            is_audit(q@, *entry),
    {
        let now = now_rfc3339();
        Self::audit_at(entry, now.as_str())
    }

    /// The statement that reads the latest `limit` entries, newest first.
    pub fn recent_audit(limit: u64) -> (q: DbQuery)
        ensures
            q@ == recent_audit_spec(limit),
    {
        let mut p: Vec<SqlValue> = Vec::new();
        p.push(SqlValue::UInt(limit));
        let q = DbQuery::new("SELECT * FROM audit_log ORDER BY id DESC LIMIT ?", p, "recent_audit query failed");
        assert(q@.params =~= recent_audit_spec(limit).params);
        q
    }

    /// The entries that the latest-entries statement returned.
    pub fn recent_audit_rows(rows: &DbRows) -> (r: Result<Vec<audit_log::Model>, DbError>)
        ensures
            match r {
                Ok(v) => decode_all::<audit_log::Model>(row_views(rows.rows@)) == Ok::<Seq<audit_log::ModelView>, Seq<char>>(record_views(v@)),
                Err(e) => decode_all::<audit_log::Model>(row_views(rows.rows@)) == Err::<Seq<audit_log::ModelView>, Seq<char>>(e.message@),
            },
    {
        decode_rows::<audit_log::Model>(rows)
    }
}

} // verus!
