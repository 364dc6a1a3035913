//! Control commands: `/bots`, `/bot-create`, `/bot-status`, `/bot-logs`.

use vstd::prelude::*;
use crate::commands::registry::{CommandKind, CommandRegistry};
use crate::commands::reply::db_error;
use crate::context::CommandContext;
use crate::db::audit::recent_audit_spec;
use crate::db::child::{is_add_child_bot, list_child_bots_spec};
use crate::db::entities::{audit_log, child_bot};
use crate::db::row::{decode_all, record_views, row_views, BotDb, DbError, DbQuery, DbRows};
use crate::response::{is_error, is_text, BotResponse};
use crate::text::{cat, dec_int, dec_nat, i64_to_string, join_with, join_with_spec, parse_u64, parse_u64_spec, str_eq, u64_to_string};
use crate::trigger::HandlerKind;

verus! {

/// Registers the control commands.
pub fn register_all(registry: &mut CommandRegistry)
    ensures
        final(registry).command_list() == old(registry).command_list().push(CommandKind::Bots).push(
            CommandKind::BotCreate,
        ).push(CommandKind::BotStatus).push(CommandKind::BotLogs),
{
    registry.register(CommandKind::Bots);
    registry.register(CommandKind::BotCreate);
    registry.register(CommandKind::BotStatus);
    registry.register(CommandKind::BotLogs);
}

/// Registers the control commands and returns the control trigger handler.
pub fn register(registry: &mut CommandRegistry) -> (hs: Vec<HandlerKind>)
    ensures
        final(registry).command_list() == old(registry).command_list().push(CommandKind::Bots).push(
            CommandKind::BotCreate,
        ).push(CommandKind::BotStatus).push(CommandKind::BotLogs),
        hs@ == seq![HandlerKind::Control],
{
    register_all(registry);
    let mut hs: Vec<HandlerKind> = Vec::new();
    hs.push(HandlerKind::Control);
    hs
}

/// The records that a statement's outcome stands for.
pub open spec fn outcome_records<T: crate::db::row::FromRow>(outcome: Result<DbRows, DbError>) -> Result<Seq<T::V>, Seq<char>> {
    match outcome {
        Ok(rows) => decode_all::<T>(row_views(rows.rows@)),
        Err(e) => Err(e.message@),
    }
}

// ── /bots ────────────────────────────────────────────────────────────────────

/// ` (pid N)` where the bot has a process id.
pub open spec fn pid_suffix(pid: Option<i64>) -> Seq<char> {
    match pid {
        Some(p) => " (pid "@ + dec_int(p as int) + ")"@,
        None => Seq::empty(),
    }
}

/// One line of the bot list: `  • name [type] — status (pid N)`.
pub open spec fn bot_line(b: child_bot::ModelView) -> Seq<char> {
    "  • "@ + b.name + " ["@ + b.bot_type + "] — "@ + b.status + pid_suffix(b.pid)
}

/// The answer to the list of child bots, or to the failure to read it.
pub open spec fn bots_reply(r: BotResponse, bots: Result<Seq<child_bot::ModelView>, Seq<char>>) -> bool {
    match bots {
        Err(m) => is_error(r, "DB error: "@ + m),
        Ok(bs) => if bs.len() == 0 {
            is_text(r, "No child bots registered. Use /bot-create <name> <type>."@)
        } else {
            is_text(r, "Child bots:\n"@ + join_with_spec(bs.map_values(|b: child_bot::ModelView| bot_line(b)), "\n"@))
        },
    }
}

fn bot_line_of(b: &child_bot::Model) -> (s: String)
    ensures
        s@ == bot_line(b@),
{
    let mut s = cat("  • ", b.name.as_str());
    s.append(" [");
    s.append(b.bot_type.as_str());
    s.append("] — ");
    s.append(b.status.as_str());
    match b.pid {
        Some(p) => {
            s.append(" (pid ");
            let ps = i64_to_string(p);
            s.append(ps.as_str());
            s.append(")");
        },
        None => {},
    }
    s
}

/// `/bots`: lists all managed child bot instances.
pub struct BotsCommand;

impl BotsCommand {
    /// The statement that lists the child bots.
    pub fn prepare(&self, ctx: &CommandContext) -> (q: DbQuery)
        ensures
            q@ == list_child_bots_spec(),
    {
        BotDb::list_child_bots()
    }

    /// The answer once the statement has run.
    pub fn finish(&self, outcome: &Result<DbRows, DbError>) -> (r: BotResponse)
        ensures
            bots_reply(r, outcome_records::<child_bot::Model>(*outcome)),
    {
        match outcome {
            Err(e) => db_error(e),
            Ok(rows) => match BotDb::list_child_bots_rows(rows) {
                Err(e) => db_error(&e),
                Ok(bots) => {
                    if bots.len() == 0 {
                        BotResponse::text("No child bots registered. Use /bot-create <name> <type>.")
                    } else {
                        let mut lines: Vec<String> = Vec::new();
                        let mut i: usize = 0;
                        while i < bots.len()
                            invariant
                                i <= bots@.len(),
                                lines@.len() == i,
                                forall|k: int| 0 <= k < i ==> #[trigger] lines@[k]@ == bot_line(bots@[k]@),
                            decreases bots@.len() - i,
                        {
                            lines.push(bot_line_of(&bots[i]));
                            i = i + 1;
                        }
                        let body = join_with(&lines, "\n");
                        assert(lines@.map_values(|p: String| p@) =~= record_views(bots@).map_values(
                            |b: child_bot::ModelView| bot_line(b),
                        ));
                        BotResponse::Text(cat("Child bots:\n", body.as_str()))
                    }
                },
            },
        }
    }
}

// ── /bot-create ──────────────────────────────────────────────────────────────

/// Where a child bot keeps its data.
pub open spec fn data_dir_of(name: Seq<char>) -> Seq<char> {
    "/var/lib/fs-bots/"@ + name
}

/// `/bot-create <name> <type>`: registers a new child bot instance.
pub struct BotCreateCommand;

impl BotCreateCommand {
    /// The statement that registers the bot named by the first two arguments, or the
    /// usage error where there are fewer than two.
    pub fn prepare(&self, ctx: &CommandContext) -> (r: Result<DbQuery, BotResponse>)
        ensures
            ctx.args@.len() < 2 ==> (r matches Err(e) && is_error(e, "Usage: /bot-create <name> <type>"@)),
            ctx.args@.len() >= 2 ==> (r matches Ok(q) && is_add_child_bot(
                q@,
                ctx.args@[0]@,
                ctx.args@[1]@,
                data_dir_of(ctx.args@[0]@),
            )),
    {
        if ctx.args.len() < 2 {
            return Err(BotResponse::error("Usage: /bot-create <name> <type>"));
        }
        let name = ctx.args[0].as_str();
        let bot_type = ctx.args[1].as_str();
        let data_dir = cat("/var/lib/fs-bots/", name);
        Ok(BotDb::add_child_bot(name, bot_type, data_dir.as_str()))
    }

    /// The answer once the statement for `name`/`bot_type` has run.
    pub fn finish(&self, name: &str, bot_type: &str, outcome: &Result<DbRows, DbError>) -> (r: BotResponse)
        ensures
            match *outcome {
                Ok(_) => is_text(
                    r,
                    "Child bot `"@ + name@ + "` ("@ + bot_type@ + ") registered.\nData dir: "@ + data_dir_of(name@),
                ),
                Err(e) => is_error(r, "DB error: "@ + e.message@),
            },
    {
        match outcome {
            Ok(_) => {
                let mut t = cat("Child bot `", name);
                t.append("` (");
                t.append(bot_type);
                t.append(") registered.\nData dir: ");
                t.append("/var/lib/fs-bots/");
                t.append(name);
                assert(t@ =~= "Child bot `"@ + name@ + "` ("@ + bot_type@ + ") registered.\nData dir: "@
                    + data_dir_of(name@));
                BotResponse::Text(t)
            },
            Err(e) => db_error(e),
        }
    }
}

// ── /bot-status ──────────────────────────────────────────────────────────────

/// The first bot named `name`.
pub open spec fn find_bot(bs: Seq<child_bot::ModelView>, name: Seq<char>) -> Option<child_bot::ModelView>
    decreases bs.len(),
{
    if bs.len() == 0 {
        None
    } else if bs[0].name == name {
        Some(bs[0])
    } else {
        find_bot(bs.drop_first(), name)
    }
}

/// The status card of a bot.
pub open spec fn status_card(b: child_bot::ModelView) -> Seq<char> {
    "Bot:      "@ + b.name + "\nType:     "@ + b.bot_type + "\nStatus:   "@ + b.status + (match b.pid {
        Some(p) => "\nPID:      "@ + dec_int(p as int),
        None => Seq::empty(),
    }) + "\nData:     "@ + b.data_dir + "\nCreated:  "@ + b.created_at
}

/// The answer to the status request for `name` given the list of bots, or the failure
/// to read it.
pub open spec fn status_reply(r: BotResponse, name: Seq<char>, bots: Result<Seq<child_bot::ModelView>, Seq<char>>) -> bool {
    match bots {
        Err(m) => is_error(r, "DB error: "@ + m),
        Ok(bs) => match find_bot(bs, name) {
            None => is_error(r, "Bot `"@ + name + "` not found."@),
            Some(b) => is_text(r, status_card(b)),
        },
    }
}

fn status_card_of(b: &child_bot::Model) -> (s: String)
    ensures
        s@ == status_card(b@),
{
    let mut s = cat("Bot:      ", b.name.as_str());
    s.append("\nType:     ");
    s.append(b.bot_type.as_str());
    s.append("\nStatus:   ");
    s.append(b.status.as_str());
    match b.pid {
        Some(p) => {
            s.append("\nPID:      ");
            let ps = i64_to_string(p);
            s.append(ps.as_str());
        },
        None => {},
    }
    s.append("\nData:     ");
    s.append(b.data_dir.as_str());
    s.append("\nCreated:  ");
    s.append(b.created_at.as_str());
    s
}

/// `/bot-status <name>`: shows the status of a child bot.
pub struct BotStatusCommand;

impl BotStatusCommand {
    /// The statement that lists the child bots, or the usage error where no name is given.
    pub fn prepare(&self, ctx: &CommandContext) -> (r: Result<DbQuery, BotResponse>)
        ensures
            ctx.arg0_spec() is None ==> (r matches Err(e) && is_error(e, "Usage: /bot-status <name>"@)),
            ctx.arg0_spec() is Some ==> (r matches Ok(q) && q@ == list_child_bots_spec()),
    {
        match ctx.arg0() {
            None => Err(BotResponse::error("Usage: /bot-status <name>")),
            Some(_) => Ok(BotDb::list_child_bots()),
        }
    }

    /// The answer for the bot `name` once the statement has run.
    pub fn finish(&self, name: &str, outcome: &Result<DbRows, DbError>) -> (r: BotResponse)
        ensures
            status_reply(r, name@, outcome_records::<child_bot::Model>(*outcome)),
    {
        match outcome {
            Err(e) => db_error(e),
            Ok(rows) => match BotDb::list_child_bots_rows(rows) {
                Err(e) => db_error(&e),
                Ok(bots) => {
                    let ghost bv = record_views(bots@);
                    let mut i: usize = 0;
                    assert(bv.skip(0) =~= bv);
                    while i < bots.len()
                        invariant
                            i <= bots@.len(),
                            bv == record_views(bots@),
                            outcome_records::<child_bot::Model>(*outcome) == Ok::<Seq<child_bot::ModelView>, Seq<char>>(bv),
                            find_bot(bv, name@) == find_bot(bv.skip(i as int), name@),
                        decreases bots@.len() - i,
                    {
                        assert(bv.skip(i as int).drop_first() =~= bv.skip(i + 1));
                        assert(bv.skip(i as int)[0] == bots@[i as int]@);
                        if str_eq(bots[i].name.as_str(), name) {
                            assert(bv.skip(i as int).len() > 0);
                            assert(find_bot(bv.skip(i as int), name@) == Some(bots@[i as int]@));
                            return BotResponse::Text(status_card_of(&bots[i]));
                        }
                        i = i + 1;
                    }
                    let mut t = cat("Bot `", name);
                    t.append("` not found.");
                    BotResponse::Error(t)
                },
            },
        }
    }
}

// ── /bot-logs ────────────────────────────────────────────────────────────────

/// How many entries `/bot-logs` shows: the first argument where it is a number, else 10,
/// and never more than 50.
pub open spec fn logs_limit(arg0: Option<Seq<char>>) -> u64 {
    let n: u64 = match arg0 {
        Some(a) => match parse_u64_spec(a) {
            Some(n) => n,
            None => 10,
        },
        None => 10,
    };
    if n < 50 { n } else { 50 }
}

/// One line of the audit list: `[time] actor_type/actor_id — action → result`.
pub open spec fn audit_line(e: audit_log::ModelView) -> Seq<char> {
    "["@ + e.created_at + "] "@ + e.actor_type + "/"@ + e.actor_id + " — "@ + e.action + " → "@ + e.result
}

/// The answer to the latest `limit` audit entries, or to the failure to read them.
pub open spec fn logs_reply(r: BotResponse, limit: u64, entries: Result<Seq<audit_log::ModelView>, Seq<char>>) -> bool {
    match entries {
        Err(m) => is_error(r, "DB error: "@ + m),
        Ok(es) => if es.len() == 0 {
            is_text(r, "Audit log is empty."@)
        } else {
            is_text(
                r,
                "Last "@ + dec_nat(limit as nat) + " audit entries:\n"@ + join_with_spec(
                    es.map_values(|e: audit_log::ModelView| audit_line(e)),
                    "\n"@,
                ),
            )
        },
    }
}

fn audit_line_of(e: &audit_log::Model) -> (s: String)
    ensures
        s@ == audit_line(e@),
{
    let mut s = cat("[", e.created_at.as_str());
    s.append("] ");
    s.append(e.actor_type.as_str());
    s.append("/");
    s.append(e.actor_id.as_str());
    s.append(" — ");
    s.append(e.action.as_str());
    s.append(" → ");
    s.append(e.result.as_str());
    s
}

/// `/bot-logs [limit]`: shows the latest audit log entries.
pub struct BotLogsCommand;

impl BotLogsCommand {
    /// How many entries the command shows for its arguments.
    pub fn limit(&self, ctx: &CommandContext) -> (n: u64)
        ensures
            n == logs_limit(ctx.arg0_spec()),
    {
        let n: u64 = match ctx.arg0() {
            Some(a) => match parse_u64(a) {
                Some(n) => n,
                None => 10,
            },
            None => 10,
        };
        if n < 50 { n } else { 50 }
    }

    /// The statement that reads the latest entries.
    pub fn prepare(&self, ctx: &CommandContext) -> (q: DbQuery)
        ensures
            q@ == recent_audit_spec(logs_limit(ctx.arg0_spec())),
    {
        let n = self.limit(ctx);
        BotDb::recent_audit(n)
    }

    /// The answer once the statement for `limit` entries has run.
    pub fn finish(&self, limit: u64, outcome: &Result<DbRows, DbError>) -> (r: BotResponse)
        ensures
            logs_reply(r, limit, outcome_records::<audit_log::Model>(*outcome)),
    {
        match outcome {
            Err(e) => db_error(e),
            Ok(rows) => match BotDb::recent_audit_rows(rows) {
                Err(e) => db_error(&e),
                Ok(entries) => {
                    if entries.len() == 0 {
                        BotResponse::text("Audit log is empty.")
                    } else {
                        let mut lines: Vec<String> = Vec::new();
                        let mut i: usize = 0;
                        while i < entries.len()
                            invariant
                                i <= entries@.len(),
                                lines@.len() == i,
                                forall|k: int| 0 <= k < i ==> #[trigger] lines@[k]@ == audit_line(entries@[k]@),
                            decreases entries@.len() - i,
                        {
                            lines.push(audit_line_of(&entries[i]));
                            i = i + 1;
                        }
                        let body = join_with(&lines, "\n");
                        assert(lines@.map_values(|p: String| p@) =~= record_views(entries@).map_values(
                            |e: audit_log::ModelView| audit_line(e),
                        ));
                        let mut t = cat("Last ", u64_to_string(limit).as_str());
                        t.append(" audit entries:\n");
                        t.append(body.as_str());
                        BotResponse::Text(t)
                    }
                },
            },
        }
    }
}

} // verus!
