//! Room-sync commands: `/sync-start`, `/sync-stop`, `/sync-status`.

use vstd::prelude::*;
use crate::commands::registry::{CommandKind, CommandRegistry};
use crate::commands::reply::db_error;
use crate::context::CommandContext;
use crate::db::row::{row_views, BotDb, DbError, DbQuery, DbRows};
use crate::db::sync::{active_rules_for_spec, disable_rule_spec, is_create_rule, rule_id_result, rule_id_spec, rule_views, rules_spec, SyncRule, SyncRuleView};
use crate::response::{is_error, is_text, BotResponse};
use crate::text::{cat, dec_int, i64_to_string, join_with, join_with_spec, str_eq};
use crate::trigger::HandlerKind;

verus! {

/// Registers the room-sync commands.
pub fn register_all(registry: &mut CommandRegistry)
    ensures
        final(registry).command_list() == old(registry).command_list().push(CommandKind::SyncStart).push(
            CommandKind::SyncStop,
        ).push(CommandKind::SyncStatus),
{
    registry.register(CommandKind::SyncStart);
    registry.register(CommandKind::SyncStop);
    registry.register(CommandKind::SyncStatus);
}

/// Registers the room-sync commands and returns the sync trigger handler.
pub fn register(registry: &mut CommandRegistry) -> (hs: Vec<HandlerKind>)
    ensures
        final(registry).command_list() == old(registry).command_list().push(CommandKind::SyncStart).push(
            CommandKind::SyncStop,
        ).push(CommandKind::SyncStatus),
        hs@ == seq![HandlerKind::Sync],
{
    register_all(registry);
    let mut hs: Vec<HandlerKind> = Vec::new();
    hs.push(HandlerKind::Sync);
    hs
}

/// Whether the context names a target platform and room.
pub open spec fn has_target(ctx: &CommandContext) -> bool {
    ctx.args@.len() >= 2
}

// ── /sync-start ──────────────────────────────────────────────────────────────

/// What `/sync-start` answers once rule `id` links the two rooms.
pub open spec fn created_text(id: i64, sp: Seq<char>, sr: Seq<char>, tp: Seq<char>, tr: Seq<char>) -> Seq<char> {
    "Sync rule #"@ + dec_int(id as int) + " created: "@ + sp + "/"@ + sr + " ↔ "@ + tp + "/"@ + tr
}

/// `/sync-start <target_platform> <target_room>`: links this room with another in both
/// directions.
///
/// It runs two statements: the upsert of the rule and the read-back of its id.
pub struct SyncStartCommand;

impl SyncStartCommand {
    /// The upsert of a bidirectional rule from the calling room to the target, or the
    /// usage error where the target is not given.
    pub fn prepare(&self, ctx: &CommandContext) -> (r: Result<DbQuery, BotResponse>)
        ensures
            !has_target(ctx) ==> (r matches Err(e) && is_error(
                e,
                "Usage: /sync-start <target_platform> <target_room>"@,
            )),
            has_target(ctx) ==> (r matches Ok(q) && is_create_rule(
                q@,
                ctx.platform@,
                ctx.room_id@,
                ctx.args@[0]@,
                ctx.args@[1]@,
                "both"@,
                false,
            )),
    {
        let tgt_platform = match ctx.arg0() {
            None => return Err(BotResponse::error("Usage: /sync-start <target_platform> <target_room>")),
            Some(p) => p,
        };
        let tgt_room = match ctx.arg(1) {
            None => return Err(BotResponse::error("Usage: /sync-start <target_platform> <target_room>")),
            Some(r) => r,
        };
        Ok(BotDb::create_rule(ctx.platform.as_str(), ctx.room_id.as_str(), tgt_platform, tgt_room, "both", false))
    }

    /// After the upsert: its error, or the statement that reads back the rule's id.
    pub fn after_upsert(
        &self,
        src_platform: &str,
        src_room: &str,
        tgt_platform: &str,
        tgt_room: &str,
        outcome: &Result<DbRows, DbError>,
    ) -> (r: Result<DbQuery, BotResponse>)
        ensures
            match *outcome {
                Err(e) => r matches Err(a) && is_error(a, "Error creating sync rule: "@ + e.message@),
                Ok(_) => r matches Ok(q) && q@ == rule_id_spec(src_platform@, src_room@, tgt_platform@, tgt_room@),
            },
    {
        match outcome {
            Err(e) => Err(BotResponse::Error(cat("Error creating sync rule: ", e.message.as_str()))),
            Ok(_) => Ok(BotDb::rule_id(src_platform, src_room, tgt_platform, tgt_room)),
        }
    }

    /// The answer once the rule's id has been read back.
    pub fn finish(
        &self,
        src_platform: &str,
        src_room: &str,
        tgt_platform: &str,
        tgt_room: &str,
        outcome: &Result<DbRows, DbError>,
    ) -> (r: BotResponse)
        ensures
            match *outcome {
                Err(e) => is_error(r, "Error creating sync rule: "@ + e.message@),
                Ok(rows) => match rule_id_result(row_views(rows.rows@)) {
                    Ok(id) => is_text(r, created_text(id, src_platform@, src_room@, tgt_platform@, tgt_room@)),
                    Err(m) => is_error(r, "Error creating sync rule: "@ + m),
                },
            },
    {
        match outcome {
            Err(e) => BotResponse::Error(cat("Error creating sync rule: ", e.message.as_str())),
            Ok(rows) => match BotDb::create_rule_id(rows) {
                Err(e) => BotResponse::Error(cat("Error creating sync rule: ", e.message.as_str())),
                Ok(id) => {
                    let mut t = cat("Sync rule #", i64_to_string(id).as_str());
                    t.append(" created: ");
                    t.append(src_platform);
                    t.append("/");
                    t.append(src_room);
                    t.append(" ↔ ");
                    t.append(tgt_platform);
                    t.append("/");
                    t.append(tgt_room);
                    BotResponse::Text(t)
                },
            },
        }
    }
}

// ── /sync-stop ───────────────────────────────────────────────────────────────

/// `/sync-stop <target_platform> <target_room>`: disables the rule between this room and
/// another.
pub struct SyncStopCommand;

impl SyncStopCommand {
    /// The statement that disables the rule from the calling room to the target, or the
    /// usage error where the target is not given.
    pub fn prepare(&self, ctx: &CommandContext) -> (r: Result<DbQuery, BotResponse>)
        ensures
            !has_target(ctx) ==> (r matches Err(e) && is_error(
                e,
                "Usage: /sync-stop <target_platform> <target_room>"@,
            )),
            has_target(ctx) ==> (r matches Ok(q) && q@ == disable_rule_spec(
                ctx.platform@,
                ctx.room_id@,
                ctx.args@[0]@,
                ctx.args@[1]@,
            )),
    {
        let tgt_platform = match ctx.arg0() {
            None => return Err(BotResponse::error("Usage: /sync-stop <target_platform> <target_room>")),
            Some(p) => p,
        };
        let tgt_room = match ctx.arg(1) {
            None => return Err(BotResponse::error("Usage: /sync-stop <target_platform> <target_room>")),
            Some(r) => r,
        };
        Ok(BotDb::disable_rule(ctx.platform.as_str(), ctx.room_id.as_str(), tgt_platform, tgt_room))
    }

    /// The answer once the statement for the target has run: stopped where it disabled a
    /// rule, an error where there was none to disable.
    pub fn finish(&self, tgt_platform: &str, tgt_room: &str, outcome: &Result<DbRows, DbError>) -> (r: BotResponse)
        ensures
            match *outcome {
                Err(e) => is_error(r, "Error: "@ + e.message@),
                Ok(rows) => if rows.rows_affected > 0 {
                    is_text(r, "Sync with "@ + tgt_platform@ + "/"@ + tgt_room@ + " stopped."@)
                } else {
                    is_error(r, "No active sync rule found for those rooms."@)
                },
            },
    {
        match outcome {
            Err(e) => BotResponse::Error(cat("Error: ", e.message.as_str())),
            Ok(rows) => {
                if BotDb::disable_rule_found(rows) {
                    let mut t = cat("Sync with ", tgt_platform);
                    t.append("/");
                    t.append(tgt_room);
                    t.append(" stopped.");
                    BotResponse::Text(t)
                } else {
                    BotResponse::error("No active sync rule found for those rooms.")
                }
            },
        }
    }
}

// ── /sync-status ─────────────────────────────────────────────────────────────

/// The arrow for a rule's direction.
pub open spec fn arrow(direction: Seq<char>) -> Seq<char> {
    if direction == "to_target"@ {
        "→"@
    } else if direction == "to_source"@ {
        "←"@
    } else {
        "↔"@
    }
}

/// One line of the rule list: `  #id sp/sr ↔ tp/tr (members=yes)`.
pub open spec fn rule_line(r: SyncRuleView) -> Seq<char> {
    "  #"@ + dec_int(r.id as int) + " "@ + r.source_platform + "/"@ + r.source_room + " "@ + arrow(r.direction)
        + " "@ + r.target_platform + "/"@ + r.target_room + " (members="@ + (if r.sync_members {
        "yes"@
    } else {
        "no"@
    }) + ")"@
}

/// The answer to the list of a room's active rules, or to the failure to read it.
pub open spec fn status_reply(r: BotResponse, rules: Result<Seq<SyncRuleView>, Seq<char>>) -> bool {
    match rules {
        Err(m) => is_error(r, "DB error: "@ + m),
        Ok(rs) => if rs.len() == 0 {
            is_text(r, "No active sync rules for this room."@)
        } else {
            is_text(r, "Active sync rules:\n"@ + join_with_spec(rs.map_values(|x: SyncRuleView| rule_line(x)), "\n"@))
        },
    }
}

/// The rules that a statement's outcome stands for.
pub open spec fn outcome_rules(outcome: Result<DbRows, DbError>) -> Result<Seq<SyncRuleView>, Seq<char>> {
    match outcome {
        Ok(rows) => rules_spec(row_views(rows.rows@)),
        Err(e) => Err(e.message@),
    }
}

fn arrow_of(direction: &str) -> (s: &'static str)
    ensures
        s@ == arrow(direction@),
{
    if str_eq(direction, "to_target") {
        "→"
    } else if str_eq(direction, "to_source") {
        "←"
    } else {
        "↔"
    }
}

fn rule_line_of(r: &SyncRule) -> (s: String)
    ensures
        s@ == rule_line(r@),
{
    let mut s = cat("  #", i64_to_string(r.id).as_str());
    s.append(" ");
    s.append(r.source_platform.as_str());
    s.append("/");
    s.append(r.source_room.as_str());
    s.append(" ");
    s.append(arrow_of(r.direction.as_str()));
    s.append(" ");
    s.append(r.target_platform.as_str());
    s.append("/");
    s.append(r.target_room.as_str());
    s.append(" (members=");
    s.append(if r.sync_members { "yes" } else { "no" });
    s.append(")");
    s
}

/// `/sync-status`: lists the active sync rules of this room.
pub struct SyncStatusCommand;

impl SyncStatusCommand {
    /// The statement that reads the calling room's active rules.
    pub fn prepare(&self, ctx: &CommandContext) -> (q: DbQuery)
        ensures
            q@ == active_rules_for_spec(ctx.platform@, ctx.room_id@),
    {
        BotDb::active_rules_for(ctx.platform.as_str(), ctx.room_id.as_str())
    }

    /// The answer once the statement has run.
    pub fn finish(&self, outcome: &Result<DbRows, DbError>) -> (r: BotResponse)
        ensures
            status_reply(r, outcome_rules(*outcome)),
    {
        match outcome {
            Err(e) => db_error(e),
            Ok(rows) => match BotDb::rules_rows(rows) {
                Err(e) => db_error(&e),
                Ok(rules) => {
                    if rules.len() == 0 {
                        BotResponse::text("No active sync rules for this room.")
                    } else {
                        let mut lines: Vec<String> = Vec::new();
                        let mut i: usize = 0;
                        while i < rules.len()
                            invariant
                                i <= rules@.len(),
                                lines@.len() == i,
                                forall|k: int| 0 <= k < i ==> #[trigger] lines@[k]@ == rule_line(rules@[k]@),
                            decreases rules@.len() - i,
                        {
                            lines.push(rule_line_of(&rules[i]));
                            i = i + 1;
                        }
                        let body = join_with(&lines, "\n");
                        assert(lines@.map_values(|p: String| p@) =~= rule_views(rules@).map_values(
                            |x: SyncRuleView| rule_line(x),
                        ));
                        BotResponse::Text(cat("Active sync rules:\n", body.as_str()))
                    }
                },
            },
        }
    }
}

} // verus!
