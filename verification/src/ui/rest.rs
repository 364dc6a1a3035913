//! The REST routes of the bot manager, as operations on plain values.

use vstd::prelude::*;
use crate::ui::controller::{find_spec, set_enabled_spec, BotController};
use crate::ui::model::{bot_views, kind_label, BotView, MessagingBot};

verus! {

/// The OpenAPI document of the REST routes.
pub struct ApiDoc;

/// A bot as the REST routes report it.
pub struct BotSummary {
    pub id: String,
    pub name: String,
    pub kind_label: String,
    pub enabled: bool,
}

/// Whether `s` reports the bot `b`.
pub open spec fn summary_of(s: BotSummary, b: BotView) -> bool {
    &&& s.id@ == b.id
    &&& s.name@ == b.name
    &&& s.kind_label@ == kind_label(b.kind)
    &&& s.enabled == b.enabled
}

impl BotSummary {
    /// The summary of one bot.
    pub fn from_bot(b: &MessagingBot) -> (s: Self)
        ensures
            summary_of(s, b@),
    {
        BotSummary {
            id: b.id.clone(),
            name: b.name.clone(),
            kind_label: b.kind.label().to_owned(),
            enabled: b.enabled,
        }
    }
}

/// HTTP 200.
pub const STATUS_OK: u16 = 200;

/// HTTP 404.
pub const STATUS_NOT_FOUND: u16 = 404;

/// `GET /bots`: every bot, in order.
pub fn list_bots(ctrl: &BotController) -> (r: Vec<BotSummary>)
    ensures
        r@.len() == ctrl@.len(),
        forall|i: int| 0 <= i < r@.len() ==> summary_of(#[trigger] r@[i], ctrl@[i]),
{
    let bots = ctrl.list();
    let mut out: Vec<BotSummary> = Vec::new();
    let mut i: usize = 0;
    while i < bots.len()
        invariant
            i <= bots@.len(),
            bot_views(bots@) == ctrl@,
            out@.len() == i,
            forall|k: int| 0 <= k < i ==> summary_of(#[trigger] out@[k], ctrl@[k]),
        decreases bots@.len() - i,
    {
        assert(ctrl@[i as int] == bots@[i as int]@);
        out.push(BotSummary::from_bot(&bots[i]));
        i = i + 1;
    }
    out
}

/// `GET /bots/{id}`: 200 with the bot, or 404 with nothing.
pub fn get_bot(ctrl: &BotController, id: &str) -> (r: (u16, Option<BotSummary>))
    ensures
        match find_spec(ctrl@, id@) {
            Some(i) => r.0 == STATUS_OK && (r.1 matches Some(s) && summary_of(s, ctrl@[i])),
            None => r.0 == STATUS_NOT_FOUND && r.1 is None,
        },
{
    match ctrl.get(id) {
        Some(b) => (STATUS_OK, Some(BotSummary::from_bot(&b))),
        None => (STATUS_NOT_FOUND, None),
    }
}

/// `POST /bots/{id}/enable`: 200 if the bot was found, else 404.
pub fn enable_bot(ctrl: &mut BotController, id: &str) -> (r: u16)
    ensures
        r == if find_spec(old(ctrl)@, id@) is Some { STATUS_OK } else { STATUS_NOT_FOUND },
        final(ctrl)@ == set_enabled_spec(old(ctrl)@, id@, true),
{
    if ctrl.enable(id) {
        STATUS_OK
    } else {
        STATUS_NOT_FOUND
    }
}

/// `POST /bots/{id}/disable`: 200 if the bot was found, else 404.
pub fn disable_bot(ctrl: &mut BotController, id: &str) -> (r: u16)
    ensures
        r == if find_spec(old(ctrl)@, id@) is Some { STATUS_OK } else { STATUS_NOT_FOUND },
        final(ctrl)@ == set_enabled_spec(old(ctrl)@, id@, false),
{
    if ctrl.disable(id) {
        STATUS_OK
    } else {
        STATUS_NOT_FOUND
    }
}

} // verus!
