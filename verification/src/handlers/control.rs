//! Bot management events: `bot.**` events are received and answered with nothing.

use vstd::prelude::*;
use crate::trigger::{HandlerKind, TriggerAction, TriggerEvent};

verus! {

/// Listens on `bot.**` events.
pub struct ControlHandler;

impl ControlHandler {
    /// The topic patterns this handler listens on.
    pub fn topics(&self) -> (r: Vec<String>)
        ensures
            crate::order::views(r@) == crate::trigger::handler_topics(HandlerKind::Control),
    {
        HandlerKind::Control.topics()
    }

    /// A bot event asks for no action.
    pub fn on_event(&self, event: &TriggerEvent) -> (r: Vec<TriggerAction>)
        ensures
            r@.len() == 0,
    {
        Vec::new()
    }
}

} // verus!
