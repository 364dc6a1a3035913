//! Bus events, the actions that handlers answer with, and the engine that decides
//! which handlers an event goes to.

use vstd::prelude::*;
use crate::clock::is_utc_rfc3339;
use crate::json::Json;
use crate::order::{insert_sorted_unique, strictly_sorted, views};
use crate::text::cat;
use crate::db::audit::audit_fields_spec;
use crate::db::row::DbQuery;
use crate::runtime::AuditLog;
use crate::topic::{topic_matches, topic_matches_spec};

verus! {

broadcast use vstd::seq_lib::group_seq_properties;

/// An event published on the Bus.
pub struct TriggerEvent {
    /// Dotted topic, e.g. `chat.message`.
    pub topic: String,
    /// Event data.
    pub payload: Json,
}

/// What a handler asks the runtime to do.
pub enum TriggerAction {
    /// Send `text` to a room.
    SendToRoom { platform: String, room_id: String, text: String },
    /// Send `text` to a user directly.
    SendDm { platform: String, user_id: String, text: String },
}

/// The value an action stands for.
pub enum ActionView {
    SendToRoom { platform: Seq<char>, room_id: Seq<char>, text: Seq<char> },
    SendDm { platform: Seq<char>, user_id: Seq<char>, text: Seq<char> },
}

impl View for TriggerAction {
    type V = ActionView;

    open spec fn view(&self) -> ActionView {
        match self {
            TriggerAction::SendToRoom { platform, room_id, text } => ActionView::SendToRoom {
                platform: platform@,
                room_id: room_id@,
                text: text@,
            },
            TriggerAction::SendDm { platform, user_id, text } => ActionView::SendDm {
                platform: platform@,
                user_id: user_id@,
                text: text@,
            },
        }
    }
}

/// The values of a list of actions.
pub open spec fn action_views(v: Seq<TriggerAction>) -> Seq<ActionView> {
    v.map_values(|a: TriggerAction| a@)
}

/// The trigger handlers that the bot modules provide.
#[derive(PartialEq, Eq, Structural, Clone, Copy, Debug)]
pub enum HandlerKind {
    /// Forwards every event to the rooms subscribed to its topic.
    Broadcast,
    /// Turns calendar events into reminders.
    Calendar,
    /// Receives bot management events.
    Control,
    /// Queues join requests.
    Gatekeeper,
    /// Forwards chat messages between linked rooms.
    Sync,
}

/// The topic patterns a handler listens on.
pub open spec fn handler_topics(h: HandlerKind) -> Seq<Seq<char>> {
    match h {
        HandlerKind::Broadcast => seq!["**"@],
        HandlerKind::Calendar => seq!["calendar.event.*"@],
        HandlerKind::Control => seq!["bot.**"@],
        HandlerKind::Gatekeeper => seq!["chat.join_request"@],
        HandlerKind::Sync => seq!["chat.message"@],
    }
}

/// Whether a handler listens on `topic`: one of its patterns matches it.
pub open spec fn handles(h: HandlerKind, topic: Seq<char>) -> bool {
    exists|i: int|
        0 <= i < handler_topics(h).len() && #[trigger] topic_matches_spec(
            handler_topics(h)[i],
            topic,
        )
}

impl HandlerKind {
    /// The topic patterns this handler listens on.
    pub fn topics(&self) -> (r: Vec<String>)
        ensures
            views(r@) == handler_topics(*self),
    {
        let mut r: Vec<String> = Vec::new();
        match self {
            HandlerKind::Broadcast => r.push("**".to_owned()),
            HandlerKind::Calendar => r.push("calendar.event.*".to_owned()),
            HandlerKind::Control => r.push("bot.**".to_owned()),
            HandlerKind::Gatekeeper => r.push("chat.join_request".to_owned()),
            HandlerKind::Sync => r.push("chat.message".to_owned()),
        }
        assert(views(r@) =~= handler_topics(*self));
        r
    }

    /// Whether this handler listens on `topic`.
    pub fn handles(&self, topic: &str) -> (r: bool)
        ensures
            r == handles(*self, topic@),
    {
        let ts = self.topics();
        let mut i: usize = 0;
        while i < ts.len()
            invariant
                i <= ts@.len(),
                views(ts@) == handler_topics(*self),
                forall|k: int| 0 <= k < i ==> !topic_matches_spec(#[trigger] handler_topics(*self)[k], topic@),
            decreases ts@.len() - i,
        {
            assert(views(ts@)[i as int] == ts@[i as int]@);
            if topic_matches(ts[i].as_str(), topic) {
                return true;
            }
            i = i + 1;
        }
        false
    }
}

/// Manages trigger handlers and decides where Bus events go.
pub struct TriggerEngine {
    handlers: Vec<HandlerKind>,
    audit: AuditLog,
}

/// The handlers in `list` that an event on `topic` goes to, in registration order.
pub open spec fn targets_spec(list: Seq<HandlerKind>, topic: Seq<char>) -> Seq<HandlerKind> {
    list.filter(|h: HandlerKind| handles(h, topic))
}

/// Every topic pattern of the handlers in `list`.
pub open spec fn all_topics(list: Seq<HandlerKind>) -> Set<Seq<char>> {
    Set::new(|t: Seq<char>| exists|i: int, j: int|
        0 <= i < list.len() && 0 <= j < handler_topics(list[i]).len()
        && #[trigger] handler_topics(list[i])[j] == t)
}

impl TriggerEngine {
    /// The registered handlers, in registration order.
    pub closed spec fn handler_list(&self) -> Seq<HandlerKind> {
        self.handlers@
    }

    /// An engine with no handlers, recording its dispatches in `audit`.
    pub fn new(audit: AuditLog) -> (e: Self)
        ensures
            e.handler_list() == Seq::<HandlerKind>::empty(),
    {
        TriggerEngine { handlers: Vec::new(), audit }
    }

    /// Register a trigger handler.
    pub fn register(&mut self, handler: HandlerKind)
        ensures
            final(self).handler_list() == old(self).handler_list().push(handler),
    {
        self.handlers.push(handler);
    }

    /// Register a boxed trigger handler.
    pub fn register_boxed(&mut self, handler: Box<HandlerKind>)
        ensures
            final(self).handler_list() == old(self).handler_list().push(*handler),
    {
        self.handlers.push(*handler);
    }

    /// The handlers that an event on `topic` is dispatched to: each registered handler
    /// one of whose patterns matches the topic, in registration order.
    pub fn dispatch_targets(&self, topic: &str) -> (r: Vec<HandlerKind>)
        ensures
            r@ == targets_spec(self.handler_list(), topic@),
    {
        let mut r: Vec<HandlerKind> = Vec::new();
        let mut i: usize = 0;
        while i < self.handlers.len()
            invariant
                i <= self.handlers@.len(),
                r@ == targets_spec(self.handlers@.take(i as int), topic@),
            decreases self.handlers@.len() - i,
        {
            let h = self.handlers[i];
            proof {
                assert(self.handlers@.take(i + 1) =~= self.handlers@.take(i as int).push(h));
                self.handlers@.take(i as int).lemma_filter_push(h, |h: HandlerKind| handles(h, topic@));
            }
            if h.handles(topic) {
                r.push(h);
            }
            i = i + 1;
        }
        assert(self.handlers@.take(i as int) =~= self.handlers@);
        r
    }

    /// The audit action recorded for a dispatch of `topic`.
    pub fn dispatch_audit_action(topic: &str) -> (s: String)
        ensures
            s@ == "trigger.dispatch:"@ + topic@,
    {
        cat("trigger.dispatch:", topic)
    }

    /// The statement that records a dispatch of `topic` as a successful system action.
    pub fn dispatch_audit(&self, topic: &str) -> (q: DbQuery)
        ensures
            exists|now: Seq<char>| is_utc_rfc3339(now) && q@ == #[trigger] audit_fields_spec(
                "system"@,
                "system"@,
                None,
                None,
                "trigger.dispatch:"@ + topic@,
                None,
                "ok"@,
                None,
                now,
            ),
    {
        let action = Self::dispatch_audit_action(topic);
        let q = self.audit.system_action(action.as_str(), None, None, "ok", None);
        proof {
            reveal_strlit("system");
            reveal_strlit("ok");
        }
        q
    }

    /// Dispatching an event: the handlers it goes to (each of which runs `on_event` on
    /// it and hands its actions to the runtime) and the audit statement of the dispatch.
    pub fn dispatch(&self, event: &TriggerEvent) -> (r: (Vec<HandlerKind>, DbQuery))
        ensures
            r.0@ == targets_spec(self.handler_list(), event.topic@),
            exists|now: Seq<char>| is_utc_rfc3339(now) && r.1@ == #[trigger] audit_fields_spec(
                "system"@,
                "system"@,
                None,
                None,
                "trigger.dispatch:"@ + event.topic@,
                None,
                "ok"@,
                None,
                now,
            ),
    {
        let targets = self.dispatch_targets(event.topic.as_str());
        let q = self.dispatch_audit(event.topic.as_str());
        (targets, q)
    }

    /// All subscribed topics across all handlers, deduplicated and sorted.
    pub fn subscribed_topics(&self) -> (r: Vec<String>)
        ensures
            strictly_sorted(views(r@)),
            views(r@).to_set() == all_topics(self.handler_list()),
    {
        let mut r: Vec<String> = Vec::new();
        let mut i: usize = 0;
        assert(views(r@).to_set() =~= all_topics(self.handlers@.take(0)));
        while i < self.handlers.len()
            invariant
                i <= self.handlers@.len(),
                strictly_sorted(views(r@)),
                views(r@).to_set() == all_topics(self.handlers@.take(i as int)),
            decreases self.handlers@.len() - i,
        {
            let ts = self.handlers[i].topics();
            let ghost before = all_topics(self.handlers@.take(i as int));
            assert(views(ts@).take(0).to_set() =~= Set::<Seq<char>>::empty());
            assert(before.union(Set::<Seq<char>>::empty()) =~= before);
            let mut j: usize = 0;
            while j < ts.len()
                invariant
                    j <= ts@.len(),
                    i < self.handlers@.len(),
                    views(ts@) == handler_topics(self.handlers@[i as int]),
                    strictly_sorted(views(r@)),
                    views(r@).to_set() == before.union(views(ts@).take(j as int).to_set()),
                decreases ts@.len() - j,
            {
                let t = ts[j].clone();
                insert_sorted_unique(&mut r, t);
                proof {
                    assert(views(ts@)[j as int] == ts@[j as int]@);
                    assert(views(ts@).take(j + 1) =~= views(ts@).take(j as int).push(views(ts@)[j as int]));
                    views(ts@).take(j as int).lemma_push_to_set_commute(views(ts@)[j as int]);
                    assert(views(r@).to_set() =~= before.union(views(ts@).take(j + 1).to_set()));
                }
                j = j + 1;
            }
            proof {
                let hs = self.handlers@;
                let now = hs.take(i + 1);
                let tset = views(ts@).take(j as int).to_set();
                assert(views(ts@).take(j as int) =~= views(ts@));
                assert(now =~= hs.take(i as int).push(hs[i as int]));
                assert(all_topics(now) =~= before.union(tset)) by {
                    assert forall|t: Seq<char>| all_topics(now).contains(t) implies before.union(tset).contains(t) by {
                        let (a, b) = choose|a: int, b: int| 0 <= a < now.len() && 0 <= b < handler_topics(now[a]).len()
                            && #[trigger] handler_topics(now[a])[b] == t;
                        if a < i {
                            assert(hs.take(i as int)[a] == now[a]);
                            assert(handler_topics(hs.take(i as int)[a])[b] == t);
                        } else {
                            assert(views(ts@)[b] == t);
                            assert(views(ts@).contains(t));
                        }
                    }
                    assert forall|t: Seq<char>| before.union(tset).contains(t) implies all_topics(now).contains(t) by {
                        if before.contains(t) {
                            let (a, b) = choose|a: int, b: int| 0 <= a < hs.take(i as int).len() && 0 <= b < handler_topics(hs.take(i as int)[a]).len()
                                && #[trigger] handler_topics(hs.take(i as int)[a])[b] == t;
                            assert(now[a] == hs.take(i as int)[a]);
                            assert(handler_topics(now[a])[b] == t);
                        } else {
                            assert(views(ts@).contains(t));
                            let k = choose|k: int| 0 <= k < views(ts@).len() && views(ts@)[k] == t;
                            assert(now[i as int] == hs[i as int]);
                            assert(handler_topics(now[i as int])[k] == t);
                        }
                    }
                }
            }
            i = i + 1;
        }
        assert(self.handlers@.take(i as int) =~= self.handlers@);
        r
    }
}

// ── Laws ─────────────────────────────────────────────────────────────────────

/// Registering a handler adds it to the end of the targets of exactly the topics it
/// listens on, and leaves every other dispatch unchanged.
pub proof fn law_register_then_dispatch(list: Seq<HandlerKind>, h: HandlerKind, topic: Seq<char>)
    ensures
        targets_spec(list.push(h), topic) == if handles(h, topic) {
            targets_spec(list, topic).push(h)
        } else {
            targets_spec(list, topic)
        },
{
    list.lemma_filter_push(h, |h: HandlerKind| handles(h, topic));
}

/// An event goes to a handler exactly when the handler is registered and listens on its topic.
pub proof fn law_dispatch_reaches_exactly_the_listeners(
    list: Seq<HandlerKind>,
    h: HandlerKind,
    topic: Seq<char>,
)
    ensures
        targets_spec(list, topic).contains(h) <==> (list.contains(h) && handles(h, topic)),
{
    let pred = |x: HandlerKind| handles(x, topic);
    if list.contains(h) && handles(h, topic) {
        let k = choose|k: int| 0 <= k < list.len() && list[k] == h;
        list.lemma_filter_contains(pred, k);
    }
    if targets_spec(list, topic).contains(h) {
        let k = choose|k: int| 0 <= k < targets_spec(list, topic).len() && targets_spec(list, topic)[k] == h;
        list.lemma_filter_pred(pred, k);
        list.lemma_filter_contains_rev(pred, h);
    }
}

/// The broadcast handler listens on every topic.
pub proof fn law_broadcast_handles_every_topic(topic: Seq<char>)
    ensures
        handles(HandlerKind::Broadcast, topic),
{
    reveal_strlit("**");
    assert("**"@ =~= crate::topic::double_star());
    assert(topic_matches_spec(handler_topics(HandlerKind::Broadcast)[0], topic));
}

} // verus!
