//! The commands a bot knows, and the registry that dispatches a command name to one.

use vstd::prelude::*;
use crate::rights::Right;
use crate::text::str_eq;

verus! {

/// Every command of the bot runtime and its modules.
#[derive(PartialEq, Eq, Structural, Clone, Copy, Debug)]
pub enum CommandKind {
    Ping,
    Status,
    Subscribe,
    Unsubscribe,
    Subscriptions,
    Termine,
    Bots,
    BotCreate,
    BotStatus,
    BotLogs,
    Verify,
    Approve,
    Deny,
    SyncStart,
    SyncStop,
    SyncStatus,
}

/// The name a command is invoked by (without prefix).
pub open spec fn command_name(k: CommandKind) -> Seq<char> {
    match k {
        CommandKind::Ping => "ping"@,
        CommandKind::Status => "status"@,
        CommandKind::Subscribe => "subscribe"@,
        CommandKind::Unsubscribe => "unsubscribe"@,
        CommandKind::Subscriptions => "subscriptions"@,
        CommandKind::Termine => "termine"@,
        CommandKind::Bots => "bots"@,
        CommandKind::BotCreate => "bot-create"@,
        CommandKind::BotStatus => "bot-status"@,
        CommandKind::BotLogs => "bot-logs"@,
        CommandKind::Verify => "verify"@,
        CommandKind::Approve => "approve"@,
        CommandKind::Deny => "deny"@,
        CommandKind::SyncStart => "sync-start"@,
        CommandKind::SyncStop => "sync-stop"@,
        CommandKind::SyncStatus => "sync-status"@,
    }
}

/// The right a caller needs for a command.
pub open spec fn command_right(k: CommandKind) -> Right {
    match k {
        CommandKind::Ping => Right::Anyone,
        CommandKind::Status => Right::Member,
        CommandKind::Subscribe => Right::Operator,
        CommandKind::Unsubscribe => Right::Operator,
        CommandKind::Subscriptions => Right::Member,
        CommandKind::Termine => Right::Member,
        CommandKind::Bots => Right::Admin,
        CommandKind::BotCreate => Right::Admin,
        CommandKind::BotStatus => Right::Admin,
        CommandKind::BotLogs => Right::Admin,
        CommandKind::Verify => Right::Operator,
        CommandKind::Approve => Right::Operator,
        CommandKind::Deny => Right::Operator,
        CommandKind::SyncStart => Right::Admin,
        CommandKind::SyncStop => Right::Admin,
        CommandKind::SyncStatus => Right::Member,
    }
}

/// The one-line description of a command.
pub open spec fn command_description(k: CommandKind) -> Seq<char> {
    match k {
        CommandKind::Ping => "Check if the bot is alive."@,
        CommandKind::Status => "Show bot status and connected messengers."@,
        CommandKind::Subscribe => "Subscribe this room to a Bus topic"@,
        CommandKind::Unsubscribe => "Unsubscribe this room from a Bus topic"@,
        CommandKind::Subscriptions => "List active Bus topic subscriptions for this room"@,
        CommandKind::Termine => "Show upcoming calendar events"@,
        CommandKind::Bots => "List all managed child bot instances"@,
        CommandKind::BotCreate => "Register a new child bot instance"@,
        CommandKind::BotStatus => "Show status of a child bot"@,
        CommandKind::BotLogs => "Show recent audit log entries"@,
        CommandKind::Verify => "Verify a user's IAM membership and queue a join request"@,
        CommandKind::Approve => "Approve a pending join request"@,
        CommandKind::Deny => "Deny a pending join request"@,
        CommandKind::SyncStart => "Start syncing this room with another room (same or cross-platform)"@,
        CommandKind::SyncStop => "Stop syncing this room with another room"@,
        CommandKind::SyncStatus => "List active sync rules for this room"@,
    }
}

/// How a command is written, for the commands that give a usage line.
pub open spec fn command_usage(k: CommandKind) -> Option<Seq<char>> {
    match k {
        CommandKind::Status => Some("/status"@),
        CommandKind::Subscribe => Some("subscribe <topic>"@),
        CommandKind::Unsubscribe => Some("unsubscribe <topic>"@),
        CommandKind::BotCreate => Some("bot-create <name> <type>"@),
        CommandKind::BotStatus => Some("bot-status <name>"@),
        CommandKind::BotLogs => Some("bot-logs [limit]"@),
        CommandKind::Verify => Some("verify <user_id>"@),
        CommandKind::Approve => Some("approve <request_id>"@),
        CommandKind::Deny => Some("deny <request_id>"@),
        CommandKind::SyncStart => Some("sync-start <target_platform> <target_room>"@),
        CommandKind::SyncStop => Some("sync-stop <target_platform> <target_room>"@),
        _ => None,
    }
}

impl CommandKind {
    /// The name a command is invoked by.
    pub fn name(&self) -> (s: &'static str)
        ensures
            s@ == command_name(*self),
    {
        match self {
            CommandKind::Ping => "ping",
            CommandKind::Status => "status",
            CommandKind::Subscribe => "subscribe",
            CommandKind::Unsubscribe => "unsubscribe",
            CommandKind::Subscriptions => "subscriptions",
            CommandKind::Termine => "termine",
            CommandKind::Bots => "bots",
            CommandKind::BotCreate => "bot-create",
            CommandKind::BotStatus => "bot-status",
            CommandKind::BotLogs => "bot-logs",
            CommandKind::Verify => "verify",
            CommandKind::Approve => "approve",
            CommandKind::Deny => "deny",
            CommandKind::SyncStart => "sync-start",
            CommandKind::SyncStop => "sync-stop",
            CommandKind::SyncStatus => "sync-status",
        }
    }

    /// A one-line description of the command.
    pub fn description(&self) -> (s: &'static str)
        ensures
            s@ == command_description(*self),
    {
        match self {
            CommandKind::Ping => "Check if the bot is alive.",
            CommandKind::Status => "Show bot status and connected messengers.",
            CommandKind::Subscribe => "Subscribe this room to a Bus topic",
            CommandKind::Unsubscribe => "Unsubscribe this room from a Bus topic",
            CommandKind::Subscriptions => "List active Bus topic subscriptions for this room",
            CommandKind::Termine => "Show upcoming calendar events",
            CommandKind::Bots => "List all managed child bot instances",
            CommandKind::BotCreate => "Register a new child bot instance",
            CommandKind::BotStatus => "Show status of a child bot",
            CommandKind::BotLogs => "Show recent audit log entries",
            CommandKind::Verify => "Verify a user's IAM membership and queue a join request",
            CommandKind::Approve => "Approve a pending join request",
            CommandKind::Deny => "Deny a pending join request",
            CommandKind::SyncStart => "Start syncing this room with another room (same or cross-platform)",
            CommandKind::SyncStop => "Stop syncing this room with another room",
            CommandKind::SyncStatus => "List active sync rules for this room",
        }
    }

    /// The right a caller needs.
    pub fn required_right(&self) -> (r: Right)
        ensures
            r == command_right(*self),
    {
        match self {
            CommandKind::Ping => Right::Anyone,
            CommandKind::Status => Right::Member,
            CommandKind::Subscribe => Right::Operator,
            CommandKind::Unsubscribe => Right::Operator,
            CommandKind::Subscriptions => Right::Member,
            CommandKind::Termine => Right::Member,
            CommandKind::Bots => Right::Admin,
            CommandKind::BotCreate => Right::Admin,
            CommandKind::BotStatus => Right::Admin,
            CommandKind::BotLogs => Right::Admin,
            CommandKind::Verify => Right::Operator,
            CommandKind::Approve => Right::Operator,
            CommandKind::Deny => Right::Operator,
            CommandKind::SyncStart => Right::Admin,
            CommandKind::SyncStop => Right::Admin,
            CommandKind::SyncStatus => Right::Member,
        }
    }

    /// How the command is written, where the command gives a usage line.
    pub fn usage(&self) -> (r: Option<&'static str>)
        ensures
            match command_usage(*self) {
                Some(u) => r matches Some(s) && s@ == u,
                None => r is None,
            },
    {
        match self {
            CommandKind::Status => Some("/status"),
            CommandKind::Subscribe => Some("subscribe <topic>"),
            CommandKind::Unsubscribe => Some("unsubscribe <topic>"),
            CommandKind::BotCreate => Some("bot-create <name> <type>"),
            CommandKind::BotStatus => Some("bot-status <name>"),
            CommandKind::BotLogs => Some("bot-logs [limit]"),
            CommandKind::Verify => Some("verify <user_id>"),
            CommandKind::Approve => Some("approve <request_id>"),
            CommandKind::Deny => Some("deny <request_id>"),
            CommandKind::SyncStart => Some("sync-start <target_platform> <target_room>"),
            CommandKind::SyncStop => Some("sync-stop <target_platform> <target_room>"),
            _ => None,
        }
    }
}

/// The commands a bot dispatches to, in registration order.
pub struct CommandRegistry {
    commands: Vec<CommandKind>,
}

/// The first command in `cmds` invoked by `name`, if any.
pub open spec fn lookup_spec(cmds: Seq<CommandKind>, name: Seq<char>) -> Option<CommandKind>
    decreases cmds.len(),
{
    if cmds.len() == 0 {
        None
    } else if command_name(cmds[0]) == name {
        Some(cmds[0])
    } else {
        lookup_spec(cmds.drop_first(), name)
    }
}

impl CommandRegistry {
    /// The registered commands, in registration order.
    pub closed spec fn command_list(&self) -> Seq<CommandKind> {
        self.commands@
    }

    /// An empty registry.
    pub fn new() -> (r: Self)
        ensures
            r.command_list() == Seq::<CommandKind>::empty(),
    {
        CommandRegistry { commands: Vec::new() }
    }

    /// Registers a command.
    pub fn register(&mut self, cmd: CommandKind)
        ensures
            final(self).command_list() == old(self).command_list().push(cmd),
    {
        self.commands.push(cmd);
    }

    /// The command invoked by `name`: the first registered one with that name.
    pub fn find(&self, name: &str) -> (r: Option<CommandKind>)
        ensures
            r == lookup_spec(self.command_list(), name@),
    {
        let mut i: usize = 0;
        assert(self.commands@.skip(0) =~= self.commands@);
        while i < self.commands.len()
            invariant
                i <= self.commands@.len(),
                lookup_spec(self.commands@, name@) == lookup_spec(self.commands@.skip(i as int), name@),
            decreases self.commands@.len() - i,
        {
            let ghost rest = self.commands@.skip(i as int);
            assert(rest.drop_first() =~= self.commands@.skip(i + 1));
            assert(rest[0] == self.commands@[i as int]);
            let k = self.commands[i];
            if str_eq(k.name(), name) {
                return Some(k);
            }
            i = i + 1;
        }
        None
    }
}

/// A command registered after every other command of the same name is never found by name.
pub proof fn law_first_registration_wins(cmds: Seq<CommandKind>, k: CommandKind)
    requires
        lookup_spec(cmds, command_name(k)) is Some,
    ensures
        lookup_spec(cmds.push(k), command_name(k)) == lookup_spec(cmds, command_name(k)),
    decreases cmds.len(),
{
    if cmds.len() > 0 && command_name(cmds[0]) != command_name(k) {
        assert(cmds.push(k).drop_first() =~= cmds.drop_first().push(k));
        law_first_registration_wins(cmds.drop_first(), k);
    }
}

/// Registering a command makes its name resolve: to it, unless a command of that name
/// was registered before.
pub proof fn law_register_then_find(cmds: Seq<CommandKind>, k: CommandKind)
    ensures
        lookup_spec(cmds.push(k), command_name(k)) is Some,
        lookup_spec(cmds, command_name(k)) is None ==> lookup_spec(cmds.push(k), command_name(k)) == Some(k),
    decreases cmds.len(),
{
    if cmds.len() > 0 && command_name(cmds[0]) != command_name(k) {
        assert(cmds.push(k).drop_first() =~= cmds.drop_first().push(k));
        law_register_then_find(cmds.drop_first(), k);
    } else if cmds.len() == 0 {
        assert(cmds.push(k)[0] == k);
    }
}

} // verus!
