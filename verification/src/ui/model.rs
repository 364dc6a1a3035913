//! Messaging bots as the bot manager holds them.

use vstd::prelude::*;

verus! {

/// What a messaging bot does.
#[derive(PartialEq, Eq, Structural, Clone, Copy, Debug)]
pub enum BotKind {
    /// Sends messages to many channels at once.
    Broadcast,
    /// Collects messages into periodic digests.
    Digest,
    /// Decides on join requests.
    Gatekeeper,
    /// Watches channels and reports.
    Monitor,
}

/// The display label of a bot kind.
pub open spec fn kind_label(k: BotKind) -> Seq<char> {
    match k {
        BotKind::Broadcast => "Broadcast"@,
        BotKind::Digest => "Digest"@,
        BotKind::Gatekeeper => "Gatekeeper"@,
        BotKind::Monitor => "Monitor"@,
    }
}

impl BotKind {
    /// The display label of this kind.
    pub fn label(&self) -> (s: &'static str)
        ensures
            s@ == kind_label(*self),
    {
        match self {
            BotKind::Broadcast => "Broadcast",
            BotKind::Digest => "Digest",
            BotKind::Gatekeeper => "Gatekeeper",
            BotKind::Monitor => "Monitor",
        }
    }
}

/// A channel that a bot sends to.
pub struct ChannelTarget {
    pub platform: String,
    pub name: String,
    pub id: String,
    pub enabled: bool,
}

/// The value a channel target stands for.
pub struct TargetView {
    pub platform: Seq<char>,
    pub name: Seq<char>,
    pub id: Seq<char>,
    pub enabled: bool,
}

impl View for ChannelTarget {
    type V = TargetView;

    open spec fn view(&self) -> TargetView {
        TargetView { platform: self.platform@, name: self.name@, id: self.id@, enabled: self.enabled }
    }
}

impl ChannelTarget {
    /// A copy of this target.
    pub fn duplicate(&self) -> (r: Self)
        ensures
            r@ == self@,
    {
        ChannelTarget {
            platform: self.platform.clone(),
            name: self.name.clone(),
            id: self.id.clone(),
            enabled: self.enabled,
        }
    }
}

/// A messaging bot managed by the bot manager.
pub struct MessagingBot {
    pub id: String,
    pub name: String,
    pub kind: BotKind,
    pub enabled: bool,
    pub targets: Vec<ChannelTarget>,
}

/// The value a messaging bot stands for.
pub struct BotView {
    pub id: Seq<char>,
    pub name: Seq<char>,
    pub kind: BotKind,
    pub enabled: bool,
    pub targets: Seq<TargetView>,
}

impl View for MessagingBot {
    type V = BotView;

    open spec fn view(&self) -> BotView {
        BotView {
            id: self.id@,
            name: self.name@,
            kind: self.kind,
            enabled: self.enabled,
            targets: self.targets@.map_values(|t: ChannelTarget| t@),
        }
    }
}

/// The values of a list of bots.
pub open spec fn bot_views(v: Seq<MessagingBot>) -> Seq<BotView> {
    v.map_values(|b: MessagingBot| b@)
}

impl MessagingBot {
    /// A copy of this bot.
    pub fn duplicate(&self) -> (r: Self)
        ensures
            r@ == self@,
    {
        let mut targets: Vec<ChannelTarget> = Vec::new();
        let mut i: usize = 0;
        while i < self.targets.len()
            invariant
                i <= self.targets@.len(),
                targets@.len() == i,
                forall|k: int| 0 <= k < i ==> #[trigger] targets@[k]@ == self.targets@[k]@,
            decreases self.targets@.len() - i,
        {
            targets.push(self.targets[i].duplicate());
            i = i + 1;
        }
        let r = MessagingBot {
            id: self.id.clone(),
            name: self.name.clone(),
            kind: self.kind,
            enabled: self.enabled,
            targets,
        };
        assert(r@.targets =~= self@.targets);
        r
    }
}

/// A copy of a list of bots.
pub fn duplicate_bots(v: &Vec<MessagingBot>) -> (r: Vec<MessagingBot>)
    ensures
        bot_views(r@) == bot_views(v@),
{
    let mut r: Vec<MessagingBot> = Vec::new();
    let mut i: usize = 0;
    while i < v.len()
        invariant
            i <= v@.len(),
            r@.len() == i,
            forall|k: int| 0 <= k < i ==> #[trigger] r@[k]@ == v@[k]@,
        decreases v@.len() - i,
    {
        r.push(v[i].duplicate());
        i = i + 1;
    }
    assert(bot_views(r@) =~= bot_views(v@));
    r
}

/// The demonstration bots shown when no bots are configured.
pub open spec fn demo_bots_spec() -> Seq<BotView> {
    seq![
        BotView { id: "demo-broadcast"@, name: "Announcements"@, kind: BotKind::Broadcast, enabled: true, targets: Seq::empty() },
        BotView { id: "demo-gatekeeper"@, name: "Gatekeeper"@, kind: BotKind::Gatekeeper, enabled: true, targets: Seq::empty() },
        BotView { id: "demo-monitor"@, name: "Monitor"@, kind: BotKind::Monitor, enabled: false, targets: Seq::empty() },
    ]
}

/// A bot with no targets.
fn plain_bot(id: &str, name: &str, kind: BotKind, enabled: bool) -> (b: MessagingBot)
    ensures
        b@ == (BotView { id: id@, name: name@, kind, enabled, targets: Seq::empty() }),
{
    let b = MessagingBot { id: id.to_owned(), name: name.to_owned(), kind, enabled, targets: Vec::new() };
    assert(b@.targets =~= Seq::<TargetView>::empty());
    b
}

/// The demonstration bots shown when no bots are configured.
pub fn demo_bots() -> (r: Vec<MessagingBot>)
    ensures
        bot_views(r@) == demo_bots_spec(),
{
    let mut r: Vec<MessagingBot> = Vec::new();
    r.push(plain_bot("demo-broadcast", "Announcements", BotKind::Broadcast, true));
    r.push(plain_bot("demo-gatekeeper", "Gatekeeper", BotKind::Gatekeeper, true));
    r.push(plain_bot("demo-monitor", "Monitor", BotKind::Monitor, false));
    assert(bot_views(r@) =~= demo_bots_spec());
    r
}

/// The configured messaging bots.
pub struct MessagingBotsConfig {
    pub bots: Vec<MessagingBot>,
}

/// The bots a configuration yields: its own, or the demonstration bots when it has none.
pub open spec fn resolved_bots(config: Seq<BotView>) -> Seq<BotView> {
    if config.len() == 0 {
        demo_bots_spec()
    } else {
        config
    }
}

impl MessagingBotsConfig {
    /// A configuration with no bots.
    pub fn default() -> (c: Self)
        ensures
            c.bots@.len() == 0,
    {
        MessagingBotsConfig { bots: Vec::new() }
    }

    /// The bots this configuration yields: the configured ones, or the demonstration
    /// bots when none are configured.
    pub fn into_bots(self) -> (r: Vec<MessagingBot>)
        ensures
            bot_views(r@) == resolved_bots(bot_views(self.bots@)),
    {
        if self.bots.len() == 0 {
            demo_bots()
        } else {
            self.bots
        }
    }
}

} // verus!
