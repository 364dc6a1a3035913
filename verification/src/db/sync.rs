//! Sync rules and forwarded-message deduplication.

use vstd::prelude::*;
use crate::clock::{is_utc_rfc3339, now_rfc3339};
use crate::db::row::{decode_all, decode_rows, first_int, first_int_spec, record_views, row_views, DbError, DbRows, RowView, text, BotDb, DbQuery, QueryView, SqlValue, SqlView};

verus! {

/// The statement: create or re-enable a sync rule.
pub open spec fn create_rule_spec(src_platform: Seq<char>, src_room: Seq<char>, tgt_platform: Seq<char>, tgt_room: Seq<char>, direction: Seq<char>, sync_members: bool, now: Seq<char>) -> QueryView {
    QueryView {
        sql: "INSERT INTO sync_rules (source_platform, source_room, target_platform, target_room, direction, sync_members, enabled, created_at) VALUES (?, ?, ?, ?, ?, ?, 1, ?) ON CONFLICT(source_platform, source_room, target_platform, target_room) DO UPDATE SET enabled = 1, direction = excluded.direction"@,
        params: seq![text(src_platform), text(src_room), text(tgt_platform), text(tgt_room), text(direction), SqlView::Int(if sync_members { 1 } else { 0 }), text(now)],
        context: "create_rule upsert failed"@,
    }
}

/// Whether `q` is the statement that creates or re-enables the sync rule between the two rooms, stamped at some time.
pub open spec fn is_create_rule(q: QueryView, src_platform: Seq<char>, src_room: Seq<char>, tgt_platform: Seq<char>, tgt_room: Seq<char>, direction: Seq<char>, sync_members: bool) -> bool {
    exists|now: Seq<char>| is_utc_rfc3339(now) && q == create_rule_spec(src_platform, src_room, tgt_platform, tgt_room, direction, sync_members, now)
}

/// The statement: read back the id of the sync rule between two rooms.
pub open spec fn rule_id_spec(src_platform: Seq<char>, src_room: Seq<char>, tgt_platform: Seq<char>, tgt_room: Seq<char>) -> QueryView {
    QueryView {
        sql: "SELECT id FROM sync_rules WHERE source_platform = ? AND source_room = ? AND target_platform = ? AND target_room = ?"@,
        params: seq![text(src_platform), text(src_room), text(tgt_platform), text(tgt_room)],
        context: "create_rule fetch id failed"@,
    }
}

/// The statement: disable (not delete) a sync rule.
pub open spec fn disable_rule_spec(src_platform: Seq<char>, src_room: Seq<char>, tgt_platform: Seq<char>, tgt_room: Seq<char>) -> QueryView {
    QueryView {
        sql: "UPDATE sync_rules SET enabled = 0 WHERE source_platform = ? AND source_room = ? AND target_platform = ? AND target_room = ?"@,
        params: seq![text(src_platform), text(src_room), text(tgt_platform), text(tgt_room)],
        context: "disable_rule failed"@,
    }
}

/// The statement: read the enabled sync rules where `platform`/`room` is the source, or the target of a bidirectional rule.
pub open spec fn active_rules_for_spec(platform: Seq<char>, room: Seq<char>) -> QueryView {
    QueryView {
        sql: "SELECT * FROM sync_rules WHERE enabled = 1 AND ( (source_platform = ? AND source_room = ?) OR (target_platform = ? AND target_room = ? AND direction = 'both') )"@,
        params: seq![text(platform), text(room), text(platform), text(room)],
        context: "active_rules_for query failed"@,
    }
}

/// The statement: read all enabled sync rules.
pub open spec fn all_active_rules_spec() -> QueryView {
    QueryView {
        sql: "SELECT * FROM sync_rules WHERE enabled = 1"@,
        params: seq![],
        context: "all_active_rules query failed"@,
    }
}

/// The statement: look up whether a message was already forwarded by a rule in a direction.
pub open spec fn forward_check_spec(rule_id: i64, direction: Seq<char>, msg_id_src: Seq<char>) -> QueryView {
    QueryView {
        sql: "SELECT id FROM sync_messages WHERE rule_id = ? AND direction = ? AND msg_id_src = ?"@,
        params: seq![SqlView::Int(rule_id), text(direction), text(msg_id_src)],
        context: "record_forward check failed"@,
    }
}

/// The statement: record that a message was forwarded by a rule in a direction.
pub open spec fn forward_insert_spec(rule_id: i64, direction: Seq<char>, msg_id_src: Seq<char>, now: Seq<char>) -> QueryView {
    QueryView {
        sql: "INSERT INTO sync_messages (rule_id, direction, msg_id_src, forwarded_at) VALUES (?, ?, ?, ?)"@,
        params: seq![SqlView::Int(rule_id), text(direction), text(msg_id_src), text(now)],
        context: "record_forward insert failed"@,
    }
}

/// Whether `q` is the statement that records a forwarded message, stamped at some time.
pub open spec fn is_forward_insert(q: QueryView, rule_id: i64, direction: Seq<char>, msg_id_src: Seq<char>) -> bool {
    exists|now: Seq<char>| is_utc_rfc3339(now) && q == forward_insert_spec(rule_id, direction, msg_id_src, now)
}

impl BotDb {
    /// Create or re-enable a sync rule.
    pub fn create_rule_at(src_platform: &str, src_room: &str, tgt_platform: &str, tgt_room: &str, direction: &str, sync_members: bool, now: &str) -> (q: DbQuery)
        ensures
            q@ == create_rule_spec(src_platform@, src_room@, tgt_platform@, tgt_room@, direction@, sync_members, now@),
    {
        let mut p: Vec<SqlValue> = Vec::new();
        p.push(SqlValue::text(src_platform));
        p.push(SqlValue::text(src_room));
        p.push(SqlValue::text(tgt_platform));
        p.push(SqlValue::text(tgt_room));
        p.push(SqlValue::text(direction));
        p.push(SqlValue::Int(if sync_members { 1 } else { 0 }));
        p.push(SqlValue::text(now));
        let q = DbQuery::new(
            "INSERT INTO sync_rules (source_platform, source_room, target_platform, target_room, direction, sync_members, enabled, created_at) VALUES (?, ?, ?, ?, ?, ?, 1, ?) ON CONFLICT(source_platform, source_room, target_platform, target_room) DO UPDATE SET enabled = 1, direction = excluded.direction",
            p,
            "create_rule upsert failed",
        );
        assert(q@.params =~= create_rule_spec(src_platform@, src_room@, tgt_platform@, tgt_room@, direction@, sync_members, now@).params);
        q
    }

    /// Create or re-enable a sync rule. The statement is stamped with the current time.
    pub fn create_rule(src_platform: &str, src_room: &str, tgt_platform: &str, tgt_room: &str, direction: &str, sync_members: bool) -> (q: DbQuery)
        ensures
            is_create_rule(q@, src_platform@, src_room@, tgt_platform@, tgt_room@, direction@, sync_members),
    {
        let now = now_rfc3339();
        Self::create_rule_at(src_platform, src_room, tgt_platform, tgt_room, direction, sync_members, now.as_str())
    }

    /// Read back the id of the sync rule between two rooms.
    pub fn rule_id(src_platform: &str, src_room: &str, tgt_platform: &str, tgt_room: &str) -> (q: DbQuery)
        ensures
            q@ == rule_id_spec(src_platform@, src_room@, tgt_platform@, tgt_room@),
    {
        let mut p: Vec<SqlValue> = Vec::new();
        p.push(SqlValue::text(src_platform));
        p.push(SqlValue::text(src_room));
        p.push(SqlValue::text(tgt_platform));
        p.push(SqlValue::text(tgt_room));
        let q = DbQuery::new(
            "SELECT id FROM sync_rules WHERE source_platform = ? AND source_room = ? AND target_platform = ? AND target_room = ?",
            p,
            "create_rule fetch id failed",
        );
        assert(q@.params =~= rule_id_spec(src_platform@, src_room@, tgt_platform@, tgt_room@).params);
        q
    }

    /// Disable (not delete) a sync rule.
    pub fn disable_rule(src_platform: &str, src_room: &str, tgt_platform: &str, tgt_room: &str) -> (q: DbQuery)
        ensures
            q@ == disable_rule_spec(src_platform@, src_room@, tgt_platform@, tgt_room@),
    {
        let mut p: Vec<SqlValue> = Vec::new();
        p.push(SqlValue::text(src_platform));
        p.push(SqlValue::text(src_room));
        p.push(SqlValue::text(tgt_platform));
        p.push(SqlValue::text(tgt_room));
        let q = DbQuery::new(
            "UPDATE sync_rules SET enabled = 0 WHERE source_platform = ? AND source_room = ? AND target_platform = ? AND target_room = ?",
            p,
            "disable_rule failed",
        );
        assert(q@.params =~= disable_rule_spec(src_platform@, src_room@, tgt_platform@, tgt_room@).params);
        q
    }

    /// Read the enabled sync rules where `platform`/`room` is the source, or the target of a bidirectional rule.
    pub fn active_rules_for(platform: &str, room: &str) -> (q: DbQuery)
        ensures
            q@ == active_rules_for_spec(platform@, room@),
    {
        let mut p: Vec<SqlValue> = Vec::new();
        p.push(SqlValue::text(platform));
        p.push(SqlValue::text(room));
        p.push(SqlValue::text(platform));
        p.push(SqlValue::text(room));
        let q = DbQuery::new(
            "SELECT * FROM sync_rules WHERE enabled = 1 AND ( (source_platform = ? AND source_room = ?) OR (target_platform = ? AND target_room = ? AND direction = 'both') )",
            p,
            "active_rules_for query failed",
        );
        assert(q@.params =~= active_rules_for_spec(platform@, room@).params);
        q
    }

    /// Read all enabled sync rules.
    pub fn all_active_rules() -> (q: DbQuery)
        ensures
            q@ == all_active_rules_spec(),
    {
        let mut p: Vec<SqlValue> = Vec::new();
        let q = DbQuery::new(
            "SELECT * FROM sync_rules WHERE enabled = 1",
            p,
            "all_active_rules query failed",
        );
        assert(q@.params =~= all_active_rules_spec().params);
        q
    }

    /// Look up whether a message was already forwarded by a rule in a direction.
    pub fn forward_check(rule_id: i64, direction: &str, msg_id_src: &str) -> (q: DbQuery)
        ensures
            q@ == forward_check_spec(rule_id, direction@, msg_id_src@),
    {
        let mut p: Vec<SqlValue> = Vec::new();
        p.push(SqlValue::Int(rule_id));
        p.push(SqlValue::text(direction));
        p.push(SqlValue::text(msg_id_src));
        let q = DbQuery::new(
            "SELECT id FROM sync_messages WHERE rule_id = ? AND direction = ? AND msg_id_src = ?",
            p,
            "record_forward check failed",
        );
        assert(q@.params =~= forward_check_spec(rule_id, direction@, msg_id_src@).params);
        q
    }

    /// Record that a message was forwarded by a rule in a direction.
    pub fn forward_insert_at(rule_id: i64, direction: &str, msg_id_src: &str, now: &str) -> (q: DbQuery)
        ensures
            q@ == forward_insert_spec(rule_id, direction@, msg_id_src@, now@),
    {
        let mut p: Vec<SqlValue> = Vec::new();
        p.push(SqlValue::Int(rule_id));
        p.push(SqlValue::text(direction));
        p.push(SqlValue::text(msg_id_src));
        p.push(SqlValue::text(now));
        let q = DbQuery::new(
            "INSERT INTO sync_messages (rule_id, direction, msg_id_src, forwarded_at) VALUES (?, ?, ?, ?)",
            p,
            "record_forward insert failed",
        );
        assert(q@.params =~= forward_insert_spec(rule_id, direction@, msg_id_src@, now@).params);
        q
    }

    /// Record that a message was forwarded by a rule in a direction. The statement is stamped with the current time.
    pub fn forward_insert(rule_id: i64, direction: &str, msg_id_src: &str) -> (q: DbQuery)
        ensures
            is_forward_insert(q@, rule_id, direction@, msg_id_src@),
    {
        let now = now_rfc3339();
        Self::forward_insert_at(rule_id, direction, msg_id_src, now.as_str())
    }

    /// Recording a forward once the check statement has run: nothing to write where the
    /// message was already forwarded (the record answers `false`), else the insert (after
    /// which it answers `true`).
    pub fn record_forward(rule_id: i64, direction: &str, msg_id_src: &str, check: &DbRows) -> (r: Option<DbQuery>)
        ensures
            r is None <==> check.rows@.len() > 0,
            r matches Some(q) ==> is_forward_insert(q@, rule_id, direction@, msg_id_src@),
    {
        if Self::forward_already_recorded(check) {
            None
        } else {
            Some(Self::forward_insert(rule_id, direction, msg_id_src))
        }
    }
}


use crate::db::entities::sync_rule;

/// A resolved sync rule (domain type, not raw record).
pub struct SyncRule {
    pub id: i64,
    pub source_platform: String,
    pub source_room: String,
    pub target_platform: String,
    pub target_room: String,
    /// `"both"` | `"to_target"` | `"to_source"`
    pub direction: String,
    pub sync_members: bool,
}

/// The value a sync rule stands for.
pub struct SyncRuleView {
    pub id: i64,
    pub source_platform: Seq<char>,
    pub source_room: Seq<char>,
    pub target_platform: Seq<char>,
    pub target_room: Seq<char>,
    pub direction: Seq<char>,
    pub sync_members: bool,
}

impl View for SyncRule {
    type V = SyncRuleView;

    open spec fn view(&self) -> SyncRuleView {
        SyncRuleView {
            id: self.id,
            source_platform: self.source_platform@,
            source_room: self.source_room@,
            target_platform: self.target_platform@,
            target_room: self.target_room@,
            direction: self.direction@,
            sync_members: self.sync_members,
        }
    }
}

/// The rule a record stands for: `sync_members` is set when the stored flag is non-zero.
pub open spec fn rule_of(m: sync_rule::ModelView) -> SyncRuleView {
    SyncRuleView {
        id: m.id,
        source_platform: m.source_platform,
        source_room: m.source_room,
        target_platform: m.target_platform,
        target_room: m.target_room,
        direction: m.direction,
        sync_members: m.sync_members != 0,
    }
}

/// The rules that a rule statement returned, or the first row error.
pub open spec fn rules_spec(rows: Seq<RowView>) -> Result<Seq<SyncRuleView>, Seq<char>> {
    match decode_all::<sync_rule::Model>(rows) {
        Ok(vs) => Ok(vs.map_values(|m: sync_rule::ModelView| rule_of(m))),
        Err(e) => Err(e),
    }
}

/// The id of the rule after an upsert, or the error when the rule cannot be found.
pub open spec fn rule_id_result(rows: Seq<RowView>) -> Result<i64, Seq<char>> {
    match first_int_spec(rows) {
        Some(id) => Ok(id),
        None => Err("sync rule not found after upsert"@),
    }
}

/// The views of a list of rules.
pub open spec fn rule_views(v: Seq<SyncRule>) -> Seq<SyncRuleView> {
    v.map_values(|r: SyncRule| r@)
}

impl SyncRule {
    /// The rule a record stands for.
    pub fn from_model(m: sync_rule::Model) -> (r: Self)
        ensures
            r@ == rule_of(m@),
    {
        SyncRule {
            id: m.id,
            source_platform: m.source_platform,
            source_room: m.source_room,
            target_platform: m.target_platform,
            target_room: m.target_room,
            direction: m.direction,
            sync_members: m.sync_members != 0,
        }
    }

    /// A copy of this rule.
    pub fn duplicate(&self) -> (r: Self)
        ensures
            r@ == self@,
    {
        SyncRule {
            id: self.id,
            source_platform: self.source_platform.clone(),
            source_room: self.source_room.clone(),
            target_platform: self.target_platform.clone(),
            target_room: self.target_room.clone(),
            direction: self.direction.clone(),
            sync_members: self.sync_members,
        }
    }
}

impl BotDb {
    /// The rule id that the read-back statement returned.
    pub fn create_rule_id(rows: &DbRows) -> (r: Result<i64, DbError>)
        ensures
            match r {
                Ok(id) => rule_id_result(row_views(rows.rows@)) == Ok::<i64, Seq<char>>(id),
                Err(e) => rule_id_result(row_views(rows.rows@)) == Err::<i64, Seq<char>>(e.message@),
            },
    {
        match first_int(rows) {
            Some(id) => Ok(id),
            None => Err(DbError { message: String::from_str("sync rule not found after upsert") }),
        }
    }

    /// Whether the disabling statement found a rule.
    pub fn disable_rule_found(rows: &DbRows) -> (r: bool)
        ensures
            r == (rows.rows_affected > 0),
    {
        rows.rows_affected > 0
    }

    /// Whether the check statement found the message already forwarded; when it did, the
    /// forward is not recorded again and `record_forward` answers `false`.
    pub fn forward_already_recorded(rows: &DbRows) -> (r: bool)
        ensures
            r == (rows.rows@.len() > 0),
    {
        rows.rows.len() > 0
    }

    /// The rules that a rule statement returned.
    pub fn rules_rows(rows: &DbRows) -> (r: Result<Vec<SyncRule>, DbError>)
        ensures
            match r {
                Ok(v) => rules_spec(row_views(rows.rows@)) == Ok::<Seq<SyncRuleView>, Seq<char>>(rule_views(v@)),
                Err(e) => rules_spec(row_views(rows.rows@)) == Err::<Seq<SyncRuleView>, Seq<char>>(e.message@),
            },
    {
        let models = decode_rows::<sync_rule::Model>(rows)?;
        let ghost mv = record_views(models@);
        let mut out: Vec<SyncRule> = Vec::new();
        let mut i: usize = 0;
        while i < models.len()
            invariant
                i <= models@.len(),
                mv == record_views(models@),
                out@.len() == i,
                forall|k: int| 0 <= k < i ==> #[trigger] out@[k]@ == rule_of(mv[k]),
            decreases models@.len() - i,
        {
            let m = &models[i];
            out.push(SyncRule {
                id: m.id,
                source_platform: m.source_platform.clone(),
                source_room: m.source_room.clone(),
                target_platform: m.target_platform.clone(),
                target_room: m.target_room.clone(),
                direction: m.direction.clone(),
                sync_members: m.sync_members != 0,
            });
            i = i + 1;
        }
        assert(rule_views(out@) =~= mv.map_values(|m: sync_rule::ModelView| rule_of(m)));
        Ok(out)
    }
}

} // verus!
