//! Calendar commands: `/termine`.

use vstd::prelude::*;
use crate::commands::registry::{CommandKind, CommandRegistry};
use crate::context::CommandContext;
use crate::response::{is_text, BotResponse};
use crate::trigger::HandlerKind;

verus! {

/// Registers the calendar commands.
pub fn register_all(registry: &mut CommandRegistry)
    ensures
        final(registry).command_list() == old(registry).command_list().push(CommandKind::Termine),
{
    registry.register(CommandKind::Termine);
}

/// Registers the calendar commands and returns the calendar's trigger handler.
pub fn register(registry: &mut CommandRegistry) -> (hs: Vec<HandlerKind>)
    ensures
        final(registry).command_list() == old(registry).command_list().push(CommandKind::Termine),
        hs@ == seq![HandlerKind::Calendar],
{
    register_all(registry);
    let mut hs: Vec<HandlerKind> = Vec::new();
    hs.push(HandlerKind::Calendar);
    hs
}

/// What `/termine` answers while no calendar service is connected to the Bus.
pub open spec fn termine_text() -> Seq<char> {
    "Calendar integration will be available once a Desktop Calendar service is connected to the Bus (Phase E)."@
}

/// `/termine`: shows upcoming events from the desktop calendar.
pub struct TermineCommand;

impl TermineCommand {
    /// The answer: calendar events are not available yet.
    pub fn execute(&self, ctx: &CommandContext) -> (r: BotResponse)
        ensures
            is_text(r, termine_text()),
    {
        BotResponse::text(
            "Calendar integration will be available once a Desktop Calendar service is connected to the Bus (Phase E).",
        )
    }
}

} // verus!
