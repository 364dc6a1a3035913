//! The bot controller: lists, finds, enables and disables messaging bots.

use vstd::prelude::*;
use crate::text::str_eq;
use crate::ui::model::{bot_views, demo_bots_spec, duplicate_bots, resolved_bots, BotView, MessagingBot, MessagingBotsConfig};

verus! {

/// The index of the first bot whose id is `id`, if any.
pub open spec fn find_spec(bots: Seq<BotView>, id: Seq<char>) -> Option<int>
    decreases bots.len(),
{
    if bots.len() == 0 {
        None
    } else if bots[0].id == id {
        Some(0)
    } else {
        match find_spec(bots.drop_first(), id) {
            Some(i) => Some(i + 1),
            None => None,
        }
    }
}

/// `bots` with the first bot whose id is `id` set to `enabled`; unchanged when there is none.
pub open spec fn set_enabled_spec(bots: Seq<BotView>, id: Seq<char>, enabled: bool) -> Seq<BotView> {
    match find_spec(bots, id) {
        Some(i) => bots.update(i, BotView { enabled, ..bots[i] }),
        None => bots,
    }
}

/// Where `find_spec` points, and that nothing before it matches.
pub proof fn lemma_find_spec(bots: Seq<BotView>, id: Seq<char>)
    ensures
        find_spec(bots, id) matches Some(i) ==> 0 <= i < bots.len() && bots[i].id == id
            && forall|k: int| 0 <= k < i ==> #[trigger] bots[k].id != id,
        find_spec(bots, id) is None ==> forall|k: int| 0 <= k < bots.len() ==> #[trigger] bots[k].id != id,
    decreases bots.len(),
{
    if bots.len() > 0 {
        lemma_find_spec(bots.drop_first(), id);
        assert forall|k: int| 1 <= k < bots.len() implies #[trigger] bots[k] == bots.drop_first()[k - 1] by {}
    }
}

/// Shared controller for bot operations.
pub struct BotController {
    bots: Vec<MessagingBot>,
}

impl View for BotController {
    type V = Seq<BotView>;

    closed spec fn view(&self) -> Seq<BotView> {
        bot_views(self.bots@)
    }
}

impl BotController {
    /// A controller over the bots of an empty configuration, i.e. the demonstration bots.
    pub fn new() -> (c: Self)
        ensures
            c@ == demo_bots_spec(),
    {
        Self::from_config(MessagingBotsConfig::default())
    }

    /// A controller over the bots that `config` yields.
    pub fn from_config(config: MessagingBotsConfig) -> (c: Self)
        ensures
            c@ == resolved_bots(bot_views(config.bots@)),
    {
        BotController { bots: config.into_bots() }
    }

    /// Returns all bots.
    pub fn list(&self) -> (r: Vec<MessagingBot>)
        ensures
            bot_views(r@) == self@,
    {
        duplicate_bots(&self.bots)
    }

    /// The index of the first bot with id `id`.
    fn position(&self, id: &str) -> (r: Option<usize>)
        ensures
            r matches Some(i) ==> find_spec(self@, id@) == Some(i as int),
            r is None ==> find_spec(self@, id@) is None,
    {
        proof {
            lemma_find_spec(self@, id@);
        }
        let mut i: usize = 0;
        while i < self.bots.len()
            invariant
                i <= self.bots@.len(),
                forall|k: int| 0 <= k < i ==> #[trigger] self@[k].id != id@,
            decreases self.bots@.len() - i,
        {
            assert(self@[i as int] == self.bots@[i as int]@);
            if str_eq(self.bots[i].id.as_str(), id) {
                proof {
                    lemma_find_spec(self@, id@);
                    match find_spec(self@, id@) {
                        Some(j) => {
                            if j < i { assert(self@[j].id != id@); }
                            if j > i { assert(self@[i as int].id != id@); }
                        },
                        None => { assert(self@[i as int].id != id@); },
                    }
                }
                return Some(i);
            }
            i = i + 1;
        }
        proof {
            lemma_find_spec(self@, id@);
            if let Some(j) = find_spec(self@, id@) {
                assert(self@[j].id != id@);
            }
        }
        None
    }

    /// Returns the bot with the given id, or `None`.
    pub fn get(&self, id: &str) -> (r: Option<MessagingBot>)
        ensures
            r matches Some(b) ==> find_spec(self@, id@) matches Some(i) && b@ == self@[i],
            r is None ==> find_spec(self@, id@) is None,
    {
        match self.position(id) {
            Some(i) => {
                proof { lemma_find_spec(self@, id@); }
                Some(self.bots[i].duplicate())
            },
            None => None,
        }
    }

    /// Sets the enabled flag of the bot `id`; `true` if found, `false` if not found.
    fn set_enabled(&mut self, id: &str, enabled: bool) -> (r: bool)
        ensures
            r == find_spec(old(self)@, id@) is Some,
            final(self)@ == set_enabled_spec(old(self)@, id@, enabled),
    {
        match self.position(id) {
            Some(i) => {
                proof { lemma_find_spec(self@, id@); }
                let ghost before = self@;
                let mut bot = self.bots[i].duplicate();
                bot.enabled = enabled;
                self.bots.set(i, bot);
                assert(self@ =~= set_enabled_spec(before, id@, enabled));
                true
            },
            None => false,
        }
    }

    /// Enable a bot. Returns `true` if found, `false` if not found.
    pub fn enable(&mut self, id: &str) -> (r: bool)
        ensures
            r == find_spec(old(self)@, id@) is Some,
            final(self)@ == set_enabled_spec(old(self)@, id@, true),
    {
        self.set_enabled(id, true)
    }

    /// Disable a bot. Returns `true` if found, `false` if not found.
    pub fn disable(&mut self, id: &str) -> (r: bool)
        ensures
            r == find_spec(old(self)@, id@) is Some,
            final(self)@ == set_enabled_spec(old(self)@, id@, false),
    {
        self.set_enabled(id, false)
    }
}

impl Default for BotController {
    /// The controller of `new`: the demonstration bots.
    fn default() -> (c: Self)
        ensures
            c@ == demo_bots_spec(),
    {
        Self::new()
    }
}

// ── Laws ─────────────────────────────────────────────────────────────────────

/// After enabling or disabling a known bot, looking it up shows the new flag.
pub proof fn law_set_enabled_then_get(bots: Seq<BotView>, id: Seq<char>, enabled: bool)
    requires
        find_spec(bots, id) is Some,
    ensures
        find_spec(set_enabled_spec(bots, id, enabled), id) == find_spec(bots, id),
        set_enabled_spec(bots, id, enabled)[find_spec(bots, id)->0].enabled == enabled,
{
    lemma_find_spec(bots, id);
    let s = set_enabled_spec(bots, id, enabled);
    lemma_find_spec(s, id);
    let i = find_spec(bots, id)->0;
    match find_spec(s, id) {
        Some(j) => {
            if j < i { assert(s[j] == bots[j]); }
            if j > i { assert(s[i].id == id); }
        },
        None => { assert(s[i].id == id); },
    }
}

/// Enabling or disabling never changes which bots there are: the same ids, names and
/// kinds in the same order. An unknown id changes nothing.
pub proof fn law_set_enabled_keeps_bots(bots: Seq<BotView>, id: Seq<char>, enabled: bool)
    ensures
        set_enabled_spec(bots, id, enabled).len() == bots.len(),
        forall|k: int| 0 <= k < bots.len() ==> {
            &&& #[trigger] set_enabled_spec(bots, id, enabled)[k].id == bots[k].id
            &&& set_enabled_spec(bots, id, enabled)[k].name == bots[k].name
            &&& set_enabled_spec(bots, id, enabled)[k].kind == bots[k].kind
            &&& set_enabled_spec(bots, id, enabled)[k].targets == bots[k].targets
        },
        find_spec(bots, id) is None ==> set_enabled_spec(bots, id, enabled) == bots,
{
    lemma_find_spec(bots, id);
}

/// Enabling (or disabling) twice is the same as doing it once.
pub proof fn law_set_enabled_idempotent(bots: Seq<BotView>, id: Seq<char>, enabled: bool)
    ensures
        set_enabled_spec(set_enabled_spec(bots, id, enabled), id, enabled) == set_enabled_spec(bots, id, enabled),
{
    if find_spec(bots, id) is Some {
        law_set_enabled_then_get(bots, id, enabled);
        let s = set_enabled_spec(bots, id, enabled);
        let i = find_spec(bots, id)->0;
        lemma_find_spec(bots, id);
        assert(s[i].enabled == enabled);
        assert((BotView { enabled, ..s[i] }) == s[i]);
        assert(set_enabled_spec(s, id, enabled) =~= s);
    }
}

/// Disabling then enabling a known bot restores it.
pub proof fn law_disable_then_enable_restores(bots: Seq<BotView>, id: Seq<char>)
    requires
        find_spec(bots, id) matches Some(i) && bots[i].enabled,
    ensures
        set_enabled_spec(set_enabled_spec(bots, id, false), id, true) == bots,
{
    law_set_enabled_then_get(bots, id, false);
    let i = find_spec(bots, id)->0;
    lemma_find_spec(bots, id);
    assert(set_enabled_spec(set_enabled_spec(bots, id, false), id, true) =~= bots);
}

} // verus!
