//! The gRPC service of the bot manager, as operations on plain request and response
//! values.

use vstd::prelude::*;
use crate::ui::controller::{find_spec, set_enabled_spec, BotController};
use crate::ui::model::{kind_label, BotView, MessagingBot};

verus! {

/// A bot as the gRPC service reports it.
pub struct BotProto {
    pub id: String,
    pub name: String,
    pub kind_label: String,
    pub enabled: bool,
}

/// Whether `p` reports the bot `b`.
pub open spec fn proto_of(p: BotProto, b: BotView) -> bool {
    &&& p.id@ == b.id
    &&& p.name@ == b.name
    &&& p.kind_label@ == kind_label(b.kind)
    &&& p.enabled == b.enabled
}

/// The report of one bot.
pub fn to_proto(bot: &MessagingBot) -> (p: BotProto)
    ensures
        proto_of(p, bot@),
{
    BotProto {
        id: bot.id.clone(),
        name: bot.name.clone(),
        kind_label: bot.kind.label().to_owned(),
        enabled: bot.enabled,
    }
}

pub struct ListBotsResponse {
    pub bots: Vec<BotProto>,
}

pub struct GetBotRequest {
    pub id: String,
}

pub struct GetBotResponse {
    pub bot: Option<BotProto>,
    pub found: bool,
}

pub struct EnableBotRequest {
    pub id: String,
}

pub struct EnableBotResponse {
    pub ok: bool,
}

pub struct DisableBotRequest {
    pub id: String,
}

pub struct DisableBotResponse {
    pub ok: bool,
}

pub struct HealthResponse {
    pub ok: bool,
    pub version: String,
}

/// gRPC service backed by a [`BotController`].
pub struct GrpcBotsApp {
    pub ctrl: BotController,
}

impl GrpcBotsApp {
    pub fn new(ctrl: BotController) -> (a: Self)
        ensures
            a.ctrl@ == ctrl@,
    {
        GrpcBotsApp { ctrl }
    }

    /// All bots, in order.
    pub fn list_bots(&self) -> (r: ListBotsResponse)
        ensures
            r.bots@.len() == self.ctrl@.len(),
            forall|i: int| 0 <= i < r.bots@.len() ==> proto_of(#[trigger] r.bots@[i], self.ctrl@[i]),
    {
        let bots = self.ctrl.list();
        let mut out: Vec<BotProto> = Vec::new();
        let mut i: usize = 0;
        while i < bots.len()
            invariant
                i <= bots@.len(),
                crate::ui::model::bot_views(bots@) == self.ctrl@,
                out@.len() == i,
                forall|k: int| 0 <= k < i ==> proto_of(#[trigger] out@[k], self.ctrl@[k]),
            decreases bots@.len() - i,
        {
            assert(self.ctrl@[i as int] == bots@[i as int]@);
            out.push(to_proto(&bots[i]));
            i = i + 1;
        }
        ListBotsResponse { bots: out }
    }

    /// One bot, or `found: false`.
    pub fn get_bot(&self, req: GetBotRequest) -> (r: GetBotResponse)
        ensures
            r.found == find_spec(self.ctrl@, req.id@) is Some,
            match find_spec(self.ctrl@, req.id@) {
                Some(i) => r.bot matches Some(p) && proto_of(p, self.ctrl@[i]),
                None => r.bot is None,
            },
    {
        match self.ctrl.get(req.id.as_str()) {
            Some(bot) => GetBotResponse { bot: Some(to_proto(&bot)), found: true },
            None => GetBotResponse { bot: None, found: false },
        }
    }

    /// Enables a bot; `ok` tells whether it was found.
    pub fn enable_bot(&mut self, req: EnableBotRequest) -> (r: EnableBotResponse)
        ensures
            r.ok == find_spec(old(self).ctrl@, req.id@) is Some,
            final(self).ctrl@ == set_enabled_spec(old(self).ctrl@, req.id@, true),
    {
        let ok = self.ctrl.enable(req.id.as_str());
        EnableBotResponse { ok }
    }

    /// Disables a bot; `ok` tells whether it was found.
    pub fn disable_bot(&mut self, req: DisableBotRequest) -> (r: DisableBotResponse)
        ensures
            r.ok == find_spec(old(self).ctrl@, req.id@) is Some,
            final(self).ctrl@ == set_enabled_spec(old(self).ctrl@, req.id@, false),
    {
        let ok = self.ctrl.disable(req.id.as_str());
        DisableBotResponse { ok }
    }

    /// The service is up; `version` is the package version it reports.
    pub fn health(&self, version: &str) -> (r: HealthResponse)
        ensures
            r.ok,
            r.version@ == version@,
    {
        HealthResponse { ok: true, version: version.to_owned() }
    }
}

} // verus!
