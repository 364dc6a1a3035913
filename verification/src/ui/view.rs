//! The renderer-agnostic view of the bot list.

use vstd::prelude::*;
use crate::ui::model::MessagingBotsConfig;

verus! {

/// Renderer-agnostic view of the bot list.
pub struct BotsView {
    pub config: MessagingBotsConfig,
}

impl BotsView {
    pub fn new(config: MessagingBotsConfig) -> (v: Self)
        ensures
            v.config == config,
    {
        BotsView { config }
    }
}

} // verus!
