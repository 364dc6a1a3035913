//! The room-sync module's own statements: its schema, and its rule and deduplication
//! queries, which read rule columns by position.

use vstd::prelude::*;
use crate::clock::{is_utc_rfc3339, now_rfc3339};
use crate::db::row::{row_views, text, DbError, DbQuery, DbRow, DbRows, QueryView, RowView, SqlValue, SqlView};
use crate::db::sync::{rule_views, SyncRule, SyncRuleView};

verus! {

/// The statements of the room-sync module. Their failures carry the engine's message as
/// it stands.
pub struct SyncDb;

/// The statement that creates the sync tables if they do not exist.
pub open spec fn migrate_spec() -> QueryView {
    QueryView { sql: SCHEMA@, params: seq![], context: ""@ }
}

/// The statement: create or re-enable a sync rule, stamped `now`, returning its id.
pub open spec fn create_rule_spec(
    src_platform: Seq<char>,
    src_room: Seq<char>,
    tgt_platform: Seq<char>,
    tgt_room: Seq<char>,
    direction: Seq<char>,
    sync_members: bool,
    now: Seq<char>,
) -> QueryView {
    QueryView {
        sql: CREATE_RULE@,
        params: seq![
            text(src_platform),
            text(src_room),
            text(tgt_platform),
            text(tgt_room),
            text(direction),
            SqlView::Int(if sync_members { 1 } else { 0 }),
            text(now),
        ],
        context: ""@,
    }
}

/// Whether `q` is the rule upsert for these rooms, stamped at some UTC time.
pub open spec fn is_create_rule(
    q: QueryView,
    src_platform: Seq<char>,
    src_room: Seq<char>,
    tgt_platform: Seq<char>,
    tgt_room: Seq<char>,
    direction: Seq<char>,
    sync_members: bool,
) -> bool {
    exists|now: Seq<char>| is_utc_rfc3339(now) && q == create_rule_spec(src_platform, src_room, tgt_platform, tgt_room, direction, sync_members, now)
}

/// The statement: disable (not delete) the rule between two rooms.
pub open spec fn disable_rule_spec(src_platform: Seq<char>, src_room: Seq<char>, tgt_platform: Seq<char>, tgt_room: Seq<char>) -> QueryView {
    QueryView {
        sql: DISABLE_RULE@,
        params: seq![text(src_platform), text(src_room), text(tgt_platform), text(tgt_room)],
        context: ""@,
    }
}

/// The statement: the enabled rules where `platform`/`room` is the source, or the target
/// of a bidirectional rule.
pub open spec fn active_rules_for_spec(platform: Seq<char>, room: Seq<char>) -> QueryView {
    QueryView {
        sql: ACTIVE_RULES_FOR@,
        params: seq![text(platform), text(room), text(platform), text(room)],
        context: ""@,
    }
}

/// The statement: all enabled rules.
pub open spec fn all_active_rules_spec() -> QueryView {
    QueryView { sql: ALL_ACTIVE_RULES@, params: seq![], context: ""@ }
}

/// The statement: whether a message was already forwarded by a rule in a direction.
pub open spec fn forward_check_spec(rule_id: i64, direction: Seq<char>, msg_id_src: Seq<char>) -> QueryView {
    QueryView {
        sql: FORWARD_CHECK@,
        params: seq![SqlView::Int(rule_id), text(direction), text(msg_id_src)],
        context: ""@,
    }
}

/// The statement: record a forwarded message, stamped `now`.
pub open spec fn forward_insert_spec(rule_id: i64, direction: Seq<char>, msg_id_src: Seq<char>, now: Seq<char>) -> QueryView {
    QueryView {
        sql: FORWARD_INSERT@,
        params: seq![SqlView::Int(rule_id), text(direction), text(msg_id_src), text(now)],
        context: ""@,
    }
}

/// Whether `q` records the forward, stamped at some UTC time.
pub open spec fn is_forward_insert(q: QueryView, rule_id: i64, direction: Seq<char>, msg_id_src: Seq<char>) -> bool {
    exists|now: Seq<char>| is_utc_rfc3339(now) && q == forward_insert_spec(rule_id, direction, msg_id_src, now)
}

/// The message when the upsert returned no row.
pub open spec fn no_row_message() -> Seq<char> {
    "no rows returned by a query that expected to return at least one row"@
}

/// The integer a column value holds (0 for any other value).
pub open spec fn int_of(v: SqlView) -> i64 {
    match v {
        SqlView::Int(n) => n,
        _ => 0,
    }
}

/// The text a column value holds (empty for any other value).
pub open spec fn text_of(v: SqlView) -> Seq<char> {
    match v {
        SqlView::Text(s) => s,
        _ => Seq::empty(),
    }
}

/// Whether a row has the rule columns by position: an integer id, five texts (source
/// platform and room, target platform and room, direction), and an integer flag.
pub open spec fn rule_row_ok(row: RowView) -> bool {
    &&& row.values.len() >= 7
    &&& row.values[0] is Int
    &&& row.values[1] is Text
    &&& row.values[2] is Text
    &&& row.values[3] is Text
    &&& row.values[4] is Text
    &&& row.values[5] is Text
    &&& row.values[6] is Int
}

/// The rule a row holds by position; `sync_members` is set when the flag is non-zero.
pub open spec fn rule_at(row: RowView) -> SyncRuleView {
    SyncRuleView {
        id: int_of(row.values[0]),
        source_platform: text_of(row.values[1]),
        source_room: text_of(row.values[2]),
        target_platform: text_of(row.values[3]),
        target_room: text_of(row.values[4]),
        direction: text_of(row.values[5]),
        sync_members: int_of(row.values[6]) != 0,
    }
}

/// The sync tables: rules between two rooms, and the record of forwarded messages.
pub const SCHEMA: &'static str = "\nCREATE TABLE IF NOT EXISTS sync_rules (\n    id              INTEGER PRIMARY KEY AUTOINCREMENT,\n    source_platform TEXT    NOT NULL,\n    source_room     TEXT    NOT NULL,\n    target_platform TEXT    NOT NULL,\n    target_room     TEXT    NOT NULL,\n    direction       TEXT    NOT NULL DEFAULT 'both',\n    sync_members    INTEGER NOT NULL DEFAULT 0,\n    enabled         INTEGER NOT NULL DEFAULT 1,\n    created_at      TEXT    NOT NULL,\n    UNIQUE(source_platform, source_room, target_platform, target_room)\n);\n\nCREATE TABLE IF NOT EXISTS sync_messages (\n    id            INTEGER PRIMARY KEY AUTOINCREMENT,\n    rule_id       INTEGER NOT NULL REFERENCES sync_rules(id) ON DELETE CASCADE,\n    direction     TEXT    NOT NULL,\n    msg_id_src    TEXT    NOT NULL,\n    forwarded_at  TEXT    NOT NULL\n);\n";

/// The upsert of a rule, returning its id.
pub const CREATE_RULE: &'static str = "INSERT INTO sync_rules\n                (source_platform, source_room, target_platform, target_room, direction, sync_members, enabled, created_at)\n             VALUES (?, ?, ?, ?, ?, ?, 1, ?)\n             ON CONFLICT(source_platform, source_room, target_platform, target_room)\n             DO UPDATE SET enabled = 1, direction = excluded.direction\n             RETURNING id";

/// The update that disables a rule.
pub const DISABLE_RULE: &'static str = "UPDATE sync_rules SET enabled = 0\n             WHERE source_platform = ? AND source_room = ? AND target_platform = ? AND target_room = ?";

/// The query of a room's active rules.
pub const ACTIVE_RULES_FOR: &'static str = "SELECT id, source_platform, source_room, target_platform, target_room, direction, sync_members\n             FROM sync_rules WHERE enabled = 1\n             AND (source_platform = ? AND source_room = ?\n                  OR (target_platform = ? AND target_room = ? AND direction = 'both'))";

/// The query whether a message was forwarded.
pub const FORWARD_CHECK: &'static str = "SELECT 1 FROM sync_messages WHERE rule_id = ? AND direction = ? AND msg_id_src = ?";

/// The insert that records a forwarded message.
pub const FORWARD_INSERT: &'static str = "INSERT INTO sync_messages (rule_id, direction, msg_id_src, forwarded_at) VALUES (?, ?, ?, ?)";

/// The query of all active rules.
pub const ALL_ACTIVE_RULES: &'static str = "SELECT id, source_platform, source_room, target_platform, target_room, direction, sync_members\n             FROM sync_rules WHERE enabled = 1";

fn text_value(v: &SqlValue) -> (s: String)
    requires
        v is Text,
    ensures
        s@ == text_of(v@),
{
    match v {
        SqlValue::Text(s) => s.clone(),
        _ => String::new(),
    }
}

fn int_value(v: &SqlValue) -> (n: i64)
    requires
        v is Int,
    ensures
        n == int_of(v@),
{
    match v {
        SqlValue::Int(n) => *n,
        _ => 0,
    }
}

impl SyncDb {
    /// The room-sync statements.
    pub fn new() -> (d: Self) {
        SyncDb
    }

    /// The statement that runs the sync schema (idempotent).
    pub fn migrate(&self) -> (q: DbQuery)
        ensures
            q@ == migrate_spec(),
    {
        let q = DbQuery::new(SCHEMA, Vec::new(), "");
        assert(q@.params =~= migrate_spec().params);
        q
    }

    /// The upsert of a rule between two rooms, stamped `now`.
    pub fn create_rule_at(
        &self,
        src_platform: &str,
        src_room: &str,
        tgt_platform: &str,
        tgt_room: &str,
        direction: &str,
        sync_members: bool,
        now: &str,
    ) -> (q: DbQuery)
        ensures
            q@ == create_rule_spec(src_platform@, src_room@, tgt_platform@, tgt_room@, direction@, sync_members, now@),
    {
        let mut p: Vec<SqlValue> = Vec::new();
        p.push(SqlValue::text(src_platform));
        p.push(SqlValue::text(src_room));
        p.push(SqlValue::text(tgt_platform));
        p.push(SqlValue::text(tgt_room));
        p.push(SqlValue::text(direction));
        p.push(SqlValue::Int(if sync_members { 1 } else { 0 }));
        p.push(SqlValue::text(now));
        let q = DbQuery::new(CREATE_RULE, p, "");
        assert(q@.params =~= create_rule_spec(src_platform@, src_room@, tgt_platform@, tgt_room@, direction@, sync_members, now@).params);
        q
    }

    /// Create or re-enable a rule between two rooms; the statement is stamped with the
    /// current time and returns the rule's id.
    pub fn create_rule(
        &self,
        src_platform: &str,
        src_room: &str,
        tgt_platform: &str,
        tgt_room: &str,
        direction: &str,
        sync_members: bool,
    ) -> (q: DbQuery)
        ensures
            is_create_rule(q@, src_platform@, src_room@, tgt_platform@, tgt_room@, direction@, sync_members),
    {
        let now = now_rfc3339();
        self.create_rule_at(src_platform, src_room, tgt_platform, tgt_room, direction, sync_members, now.as_str())
    }

    /// The rule id that the upsert returned: its first row's first column, or the error
    /// when it returned no row.
    pub fn created_rule_id(&self, rows: &DbRows) -> (r: Result<i64, DbError>)
        requires
            rows.rows@.len() > 0 ==> rows.rows@[0].values@.len() > 0 && rows.rows@[0].values@[0] is Int,
        ensures
            rows.rows@.len() == 0 ==> (r matches Err(e) && e.message@ == no_row_message()),
            rows.rows@.len() > 0 ==> r == Ok::<i64, DbError>(int_of(rows.rows@[0].values@[0]@)),
    {
        if rows.rows.len() == 0 {
            Err(DbError { message: String::from_str("no rows returned by a query that expected to return at least one row") })
        } else {
            Ok(int_value(&rows.rows[0].values[0]))
        }
    }

    /// The statement that disables the rule between two rooms.
    pub fn disable_rule(&self, src_platform: &str, src_room: &str, tgt_platform: &str, tgt_room: &str) -> (q: DbQuery)
        ensures
            q@ == disable_rule_spec(src_platform@, src_room@, tgt_platform@, tgt_room@),
    {
        let mut p: Vec<SqlValue> = Vec::new();
        p.push(SqlValue::text(src_platform));
        p.push(SqlValue::text(src_room));
        p.push(SqlValue::text(tgt_platform));
        p.push(SqlValue::text(tgt_room));
        let q = DbQuery::new(DISABLE_RULE, p, "");
        assert(q@.params =~= disable_rule_spec(src_platform@, src_room@, tgt_platform@, tgt_room@).params);
        q
    }

    /// Whether the disabling statement changed a rule.
    pub fn disabled(&self, rows: &DbRows) -> (r: bool)
        ensures
            r == (rows.rows_affected > 0),
    {
        rows.rows_affected > 0
    }

    /// The statement that reads the active rules of a room.
    pub fn active_rules_for(&self, platform: &str, room: &str) -> (q: DbQuery)
        ensures
            q@ == active_rules_for_spec(platform@, room@),
    {
        let mut p: Vec<SqlValue> = Vec::new();
        p.push(SqlValue::text(platform));
        p.push(SqlValue::text(room));
        p.push(SqlValue::text(platform));
        p.push(SqlValue::text(room));
        let q = DbQuery::new(ACTIVE_RULES_FOR, p, "");
        assert(q@.params =~= active_rules_for_spec(platform@, room@).params);
        q
    }

    /// The statement that reads all enabled rules.
    pub fn all_active_rules(&self) -> (q: DbQuery)
        ensures
            q@ == all_active_rules_spec(),
    {
        let q = DbQuery::new(ALL_ACTIVE_RULES, Vec::new(), "");
        assert(q@.params =~= all_active_rules_spec().params);
        q
    }

    /// The rules that a rule statement returned, read by column position.
    pub fn rules_rows(&self, rows: &DbRows) -> (r: Vec<SyncRule>)
        requires
            forall|i: int| 0 <= i < rows.rows@.len() ==> rule_row_ok(#[trigger] rows.rows@[i]@),
        ensures
            rule_views(r@) == row_views(rows.rows@).map_values(|row: RowView| rule_at(row)),
    {
        let mut out: Vec<SyncRule> = Vec::new();
        let mut i: usize = 0;
        while i < rows.rows.len()
            invariant
                i <= rows.rows@.len(),
                forall|k: int| 0 <= k < rows.rows@.len() ==> rule_row_ok(#[trigger] rows.rows@[k]@),
                out@.len() == i,
                forall|k: int| 0 <= k < i ==> #[trigger] out@[k]@ == rule_at(rows.rows@[k]@),
            decreases rows.rows@.len() - i,
        {
            let row: &DbRow = &rows.rows[i];
            assert(rule_row_ok(rows.rows@[i as int]@));
            assert(row.values@.len() >= 7);
            proof {
                assert forall|k: int| 0 <= k < 7 implies #[trigger] row.values@[k]@ == row@.values[k] by {}
            }
            let id = int_value(&row.values[0]);
            let source_platform = text_value(&row.values[1]);
            let source_room = text_value(&row.values[2]);
            let target_platform = text_value(&row.values[3]);
            let target_room = text_value(&row.values[4]);
            let direction = text_value(&row.values[5]);
            let flag = int_value(&row.values[6]);
            out.push(SyncRule {
                id,
                source_platform,
                source_room,
                target_platform,
                target_room,
                direction,
                sync_members: flag != 0,
            });
            i = i + 1;
        }
        assert(rule_views(out@) =~= row_views(rows.rows@).map_values(|row: RowView| rule_at(row)));
        out
    }

    /// The statement that checks whether a message was already forwarded.
    pub fn forward_check(&self, rule_id: i64, direction: &str, msg_id_src: &str) -> (q: DbQuery)
        ensures
            q@ == forward_check_spec(rule_id, direction@, msg_id_src@),
    {
        let mut p: Vec<SqlValue> = Vec::new();
        p.push(SqlValue::Int(rule_id));
        p.push(SqlValue::text(direction));
        p.push(SqlValue::text(msg_id_src));
        let q = DbQuery::new(FORWARD_CHECK, p, "");
        assert(q@.params =~= forward_check_spec(rule_id, direction@, msg_id_src@).params);
        q
    }

    /// The statement that records a forwarded message, stamped `now`.
    pub fn forward_insert_at(&self, rule_id: i64, direction: &str, msg_id_src: &str, now: &str) -> (q: DbQuery)
        ensures
            q@ == forward_insert_spec(rule_id, direction@, msg_id_src@, now@),
    {
        let mut p: Vec<SqlValue> = Vec::new();
        p.push(SqlValue::Int(rule_id));
        p.push(SqlValue::text(direction));
        p.push(SqlValue::text(msg_id_src));
        p.push(SqlValue::text(now));
        let q = DbQuery::new(FORWARD_INSERT, p, "");
        assert(q@.params =~= forward_insert_spec(rule_id, direction@, msg_id_src@, now@).params);
        q
    }

    /// Recording a forward once the check statement has run: nothing to write where the
    /// message was already forwarded (the record answers `false`), else the insert stamped
    /// with the current time (after which it answers `true`).
    pub fn record_forward(&self, rule_id: i64, direction: &str, msg_id_src: &str, check: &DbRows) -> (r: Option<DbQuery>)
        ensures
            r is None <==> check.rows@.len() > 0,
            r matches Some(q) ==> is_forward_insert(q@, rule_id, direction@, msg_id_src@),
    {
        if check.rows.len() > 0 {
            None
        } else {
            let now = now_rfc3339();
            Some(self.forward_insert_at(rule_id, direction, msg_id_src, now.as_str()))
        }
    }
}

} // verus!
