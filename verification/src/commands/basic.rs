//! The runtime's own commands: `/ping` and `/status`.

use vstd::prelude::*;
use crate::context::CommandContext;
use crate::response::{is_text, BotResponse};
use crate::text::cat;

verus! {

/// `/ping`: responds with `Pong!` to confirm the bot is alive.
pub struct PingCommand;

impl PingCommand {
    pub fn execute(&self, ctx: &CommandContext) -> (r: BotResponse)
        ensures
            is_text(r, "Pong!"@),
    {
        BotResponse::text("Pong!")
    }
}

/// `/status`: shows that the bot is online and on which platform.
pub struct StatusCommand;

/// The status text for a platform.
pub open spec fn status_text(platform: Seq<char>) -> Seq<char> {
    "FreeSynergy Bot — online\nPlatform: "@ + platform + "\nType /help for available commands."@
}

impl StatusCommand {
    pub fn execute(&self, ctx: &CommandContext) -> (r: BotResponse)
        ensures
            is_text(r, status_text(ctx.platform@)),
    {
        let mut t = cat("FreeSynergy Bot — online\nPlatform: ", ctx.platform.as_str());
        t.append("\nType /help for available commands.");
        BotResponse::Text(t)
    }
}

/// Registers the runtime's own commands.
pub fn register_all(registry: &mut crate::commands::registry::CommandRegistry)
    ensures
        final(registry).command_list() == old(registry).command_list().push(
            crate::commands::registry::CommandKind::Ping,
        ).push(crate::commands::registry::CommandKind::Status),
{
    registry.register(crate::commands::registry::CommandKind::Ping);
    registry.register(crate::commands::registry::CommandKind::Status);
}

} // verus!
