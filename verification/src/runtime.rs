//! The runtime's audit log: who did what, recorded through the database.

use vstd::prelude::*;
use crate::db::audit::{is_audit, AuditEntry};
use crate::commands::registry::{command_name, lookup_spec, CommandKind, CommandRegistry};
use crate::commands::{basic, broadcast, calendar, control, gatekeeper, room_sync};
use crate::db::row::{BotDb, DbQuery};
use crate::trigger::{HandlerKind, TriggerEngine};

verus! {

/// Writes audit entries for users' and the system's actions.
///
/// Each action becomes one statement; a failure to write it is only worth a warning and
/// never stops the action itself.
pub struct AuditLog;

impl AuditLog {
    /// The audit log.
    pub fn new() -> (a: Self) {
        AuditLog
    }

    /// The statement that records `action` by user `user_id` in `platform`/`room_id`.
    pub fn user_action(
        &self,
        user_id: &str,
        platform: &str,
        room_id: &str,
        action: &str,
        target: Option<&str>,
        result: &str,
        detail: Option<&str>,
    ) -> (q: DbQuery)
        ensures
            is_audit(
                q@,
                (AuditEntry {
                    actor_type: "user",
                    actor_id: user_id,
                    platform: Some(platform),
                    room_id: Some(room_id),
                    action,
                    target,
                    result,
                    detail,
                }),
            ),
    {
        BotDb::audit(
            &AuditEntry {
                actor_type: "user",
                actor_id: user_id,
                platform: Some(platform),
                room_id: Some(room_id),
                action,
                target,
                result,
                detail,
            },
        )
    }

    /// The statement that records a system `action`, optionally tied to a room.
    pub fn system_action(
        &self,
        action: &str,
        platform: Option<&str>,
        room_id: Option<&str>,
        result: &str,
        detail: Option<&str>,
    ) -> (q: DbQuery)
        ensures
            is_audit(
                q@,
                (AuditEntry {
                    actor_type: "system",
                    actor_id: "system",
                    platform,
                    room_id,
                    action,
                    target: None,
                    result,
                    detail,
                }),
            ),
    {
        BotDb::audit(
            &AuditEntry {
                actor_type: "system",
                actor_id: "system",
                platform,
                room_id,
                action,
                target: None,
                result,
                detail,
            },
        )
    }
}

/// The commands of an assembled runtime, in registration order: the runtime's own, then
/// those of the broadcast, gatekeeper, calendar, control and room-sync modules.
pub open spec fn runtime_commands() -> Seq<CommandKind> {
    seq![
        CommandKind::Ping,
        CommandKind::Status,
        CommandKind::Subscribe,
        CommandKind::Unsubscribe,
        CommandKind::Subscriptions,
        CommandKind::Verify,
        CommandKind::Approve,
        CommandKind::Deny,
        CommandKind::Termine,
        CommandKind::Bots,
        CommandKind::BotCreate,
        CommandKind::BotStatus,
        CommandKind::BotLogs,
        CommandKind::SyncStart,
        CommandKind::SyncStop,
        CommandKind::SyncStatus,
    ]
}

/// The trigger handlers of an assembled runtime, in registration order.
pub open spec fn runtime_handlers() -> Seq<HandlerKind> {
    seq![
        HandlerKind::Broadcast,
        HandlerKind::Gatekeeper,
        HandlerKind::Calendar,
        HandlerKind::Control,
        HandlerKind::Sync,
    ]
}

/// Builds the command registry and the trigger engine of a bot instance: every module
/// registers its commands and hands over its trigger handler.
pub fn assemble(audit: AuditLog) -> (r: (CommandRegistry, TriggerEngine))
    ensures
        r.0.command_list() == runtime_commands(),
        r.1.handler_list() == runtime_handlers(),
{
    let mut registry = CommandRegistry::new();
    basic::register_all(&mut registry);
    let mut handlers: Vec<HandlerKind> = Vec::new();
    let mut hs = broadcast::register(&mut registry);
    handlers.append(&mut hs);
    let mut hs = gatekeeper::register(&mut registry);
    handlers.append(&mut hs);
    let mut hs = calendar::register(&mut registry);
    handlers.append(&mut hs);
    let mut hs = control::register(&mut registry);
    handlers.append(&mut hs);
    let mut hs = room_sync::register(&mut registry);
    handlers.append(&mut hs);
    assert(registry.command_list() =~= runtime_commands());
    assert(handlers@ =~= runtime_handlers());
    let mut engine = TriggerEngine::new(audit);
    let mut i: usize = 0;
    while i < handlers.len()
        invariant
            i <= handlers@.len(),
            engine.handler_list() == handlers@.take(i as int),
        decreases handlers@.len() - i,
    {
        assert(handlers@.take(i + 1) =~= handlers@.take(i as int).push(handlers@[i as int]));
        engine.register(handlers[i]);
        i = i + 1;
    }
    assert(handlers@.take(i as int) =~= handlers@);
    (registry, engine)
}

/// No two commands share a name.
pub proof fn lemma_command_names_distinct(a: CommandKind, b: CommandKind)
    ensures
        command_name(a) == command_name(b) ==> a == b,
{
    reveal_strlit("ping");
    reveal_strlit("status");
    reveal_strlit("subscribe");
    reveal_strlit("unsubscribe");
    reveal_strlit("subscriptions");
    reveal_strlit("termine");
    reveal_strlit("bots");
    reveal_strlit("bot-create");
    reveal_strlit("bot-status");
    reveal_strlit("bot-logs");
    reveal_strlit("verify");
    reveal_strlit("approve");
    reveal_strlit("deny");
    reveal_strlit("sync-start");
    reveal_strlit("sync-stop");
    reveal_strlit("sync-status");
    if command_name(a) == command_name(b) {
        assert(command_name(a).len() == command_name(b).len());
        assert(command_name(a)[0] == command_name(b)[0]);
        assert(command_name(a)[command_name(a).len() - 1] == command_name(b)[command_name(b).len() - 1]);
        assert(command_name(a).len() > 4 ==> command_name(a)[4] == command_name(b)[4]);
        assert(command_name(a).len() > 6 ==> command_name(a)[6] == command_name(b)[6]);
    }
}

/// A registry finds every command registered in it by the command's name: since no two
/// commands share a name, no registration shadows another.
pub proof fn law_registered_command_is_found(cmds: Seq<CommandKind>, k: CommandKind)
    requires
        cmds.contains(k),
    ensures
        lookup_spec(cmds, command_name(k)) == Some(k),
    decreases cmds.len(),
{
    lemma_command_names_distinct(cmds[0], k);
    if cmds[0] != k {
        let j = choose|j: int| 0 <= j < cmds.len() && cmds[j] == k;
        assert(cmds.drop_first()[j - 1] == k);
        law_registered_command_is_found(cmds.drop_first(), k);
    }
}

/// Every command of an assembled runtime is dispatched to by its name.
pub proof fn law_runtime_commands_are_found(k: CommandKind)
    ensures
        lookup_spec(runtime_commands(), command_name(k)) == Some(k),
{
    let cs = runtime_commands();
    assert(match k {
        CommandKind::Ping => cs[0] == k,
        CommandKind::Status => cs[1] == k,
        CommandKind::Subscribe => cs[2] == k,
        CommandKind::Unsubscribe => cs[3] == k,
        CommandKind::Subscriptions => cs[4] == k,
        CommandKind::Verify => cs[5] == k,
        CommandKind::Approve => cs[6] == k,
        CommandKind::Deny => cs[7] == k,
        CommandKind::Termine => cs[8] == k,
        CommandKind::Bots => cs[9] == k,
        CommandKind::BotCreate => cs[10] == k,
        CommandKind::BotStatus => cs[11] == k,
        CommandKind::BotLogs => cs[12] == k,
        CommandKind::SyncStart => cs[13] == k,
        CommandKind::SyncStop => cs[14] == k,
        CommandKind::SyncStatus => cs[15] == k,
    });
    law_registered_command_is_found(cs, k);
}

} // verus!
