//! Room sync: `chat.message` events are forwarded to the rooms linked by sync rules.
//!
//! A rule forwards from its source room to its target room when its direction is
//! `both` or `to_target`, and from the target back to the source when it is `both`.
//! Messages that carry an id are forwarded at most once per rule and direction.

use vstd::prelude::*;
use crate::db::row::{BotDb, DbQuery};
use crate::db::sync::{rule_views, SyncRule, SyncRuleView};
use crate::json::{member_str_or, member_str_spec, Json};
use crate::text::{cat, str_eq};
use crate::trigger::{action_views, ActionView, HandlerKind, TriggerAction, TriggerEvent};

verus! {

/// Forwards `chat.message` events to linked rooms.
pub struct SyncHandler;

/// A chat message as an event announces it.
pub struct ChatMessage {
    pub platform: String,
    pub room_id: String,
    pub text: String,
    /// The sender; `unknown` when the event gives none.
    pub sender: String,
    /// The message id; empty when the event gives none.
    pub message_id: String,
}

/// The value a chat message stands for.
pub struct ChatView {
    pub platform: Seq<char>,
    pub room_id: Seq<char>,
    pub text: Seq<char>,
    pub sender: Seq<char>,
    pub message_id: Seq<char>,
}

impl View for ChatMessage {
    type V = ChatView;

    open spec fn view(&self) -> ChatView {
        ChatView {
            platform: self.platform@,
            room_id: self.room_id@,
            text: self.text@,
            sender: self.sender@,
            message_id: self.message_id@,
        }
    }
}

/// The message an event payload carries; `None` when the platform, room id or text is
/// missing or not a string.
pub open spec fn chat_message_of(p: Json) -> Option<ChatView> {
    match (member_str_spec(p, "platform"@), member_str_spec(p, "room_id"@), member_str_spec(p, "text"@)) {
        (Some(platform), Some(room_id), Some(text)) => Some(ChatView {
            platform,
            room_id,
            text,
            sender: member_str_or(p, "sender"@, "unknown"@),
            message_id: member_str_or(p, "message_id"@, ""@),
        }),
        _ => None,
    }
}

/// Where a rule forwards a message from `platform`/`room`, if anywhere.
pub open spec fn route_spec(r: SyncRuleView, platform: Seq<char>, room: Seq<char>) -> Option<(Seq<char>, Seq<char>)> {
    if r.source_platform == platform && r.source_room == room && (r.direction == "both"@
        || r.direction == "to_target"@) {
        Some((r.target_platform, r.target_room))
    } else if r.target_platform == platform && r.target_room == room && r.direction == "both"@ {
        Some((r.source_platform, r.source_room))
    } else {
        None
    }
}

/// A planned forward: the rule, the destination, and the deduplication key.
pub struct Forward {
    pub rule_id: i64,
    pub platform: String,
    pub room_id: String,
    /// `<source platform>→<destination platform>`.
    pub direction_key: String,
}

/// The value a planned forward stands for.
pub struct ForwardView {
    pub rule_id: i64,
    pub platform: Seq<char>,
    pub room_id: Seq<char>,
    pub direction_key: Seq<char>,
}

impl View for Forward {
    type V = ForwardView;

    open spec fn view(&self) -> ForwardView {
        ForwardView {
            rule_id: self.rule_id,
            platform: self.platform@,
            room_id: self.room_id@,
            direction_key: self.direction_key@,
        }
    }
}

/// The planned forward of a message by one rule, if the rule routes it.
pub open spec fn forward_of(m: ChatView, r: SyncRuleView) -> Option<ForwardView> {
    match route_spec(r, m.platform, m.room_id) {
        Some((p, room)) => Some(ForwardView { rule_id: r.id, platform: p, room_id: room, direction_key: m.platform + "→"@ + p }),
        None => None,
    }
}

/// The planned forwards of a message, one per routing rule, in rule order.
pub open spec fn plan_spec(m: ChatView, rules: Seq<SyncRuleView>) -> Seq<ForwardView> {
    rules.filter_map(|r: SyncRuleView| forward_of(m, r))
}

/// The text a forwarded message carries: `[platform/room] <sender> text`.
pub open spec fn forwarded_text(m: ChatView) -> Seq<char> {
    "["@ + m.platform + "/"@ + m.room_id + "] <"@ + m.sender + "> "@ + m.text
}

/// Whether a planned forward goes out: always, unless the message has an id and the
/// deduplication record says it was forwarded already (`Some(false)`).
pub open spec fn goes_out(m: ChatView, recorded: Option<bool>) -> bool {
    !(m.message_id.len() > 0 && recorded == Some(false))
}

/// The messages sent for the planned forwards, given for each the outcome of recording it
/// (`Some(true)`: newly recorded; `Some(false)`: already forwarded; `None`: not recorded,
/// or recording failed).
pub open spec fn sync_actions(m: ChatView, plan: Seq<ForwardView>, recorded: Seq<Option<bool>>) -> Seq<ActionView>
    decreases plan.len(),
{
    if plan.len() == 0 || recorded.len() == 0 {
        Seq::empty()
    } else {
        let rest = sync_actions(m, plan.drop_last(), recorded.drop_last());
        if goes_out(m, recorded.last()) {
            rest.push(ActionView::SendToRoom { platform: plan.last().platform, room_id: plan.last().room_id, text: forwarded_text(m) })
        } else {
            rest
        }
    }
}

/// The views of a list of planned forwards.
pub open spec fn forward_views(v: Seq<Forward>) -> Seq<ForwardView> {
    v.map_values(|f: Forward| f@)
}

impl SyncHandler {
    /// The topic patterns this handler listens on.
    pub fn topics(&self) -> (r: Vec<String>)
        ensures
            crate::order::views(r@) == crate::trigger::handler_topics(HandlerKind::Sync),
    {
        HandlerKind::Sync.topics()
    }

    /// The message that an event carries, if it is well formed.
    pub fn parse(event: &TriggerEvent) -> (r: Option<ChatMessage>)
        ensures
            match chat_message_of(event.payload) {
                Some(m) => r matches Some(c) && c@ == m,
                None => r is None,
            },
    {
        let p = &event.payload;
        let platform = match p.member_str("platform") {
            Some(s) => s.to_owned(),
            None => return None,
        };
        let room_id = match p.member_str("room_id") {
            Some(s) => s.to_owned(),
            None => return None,
        };
        let text = match p.member_str("text") {
            Some(s) => s.to_owned(),
            None => return None,
        };
        let sender = p.member_str_or("sender", "unknown");
        let message_id = p.member_str_or("message_id", "");
        Some(ChatMessage { platform, room_id, text, sender, message_id })
    }

    /// Where a rule forwards a message from `platform`/`room`, if anywhere.
    pub fn route(rule: &SyncRule, platform: &str, room: &str) -> (r: Option<(String, String)>)
        ensures
            match route_spec(rule@, platform@, room@) {
                Some(t) => r matches Some(x) && x.0@ == t.0 && x.1@ == t.1,
                None => r is None,
            },
    {
        let both = str_eq(rule.direction.as_str(), "both");
        let to_target = str_eq(rule.direction.as_str(), "to_target");
        if str_eq(rule.source_platform.as_str(), platform) && str_eq(rule.source_room.as_str(), room)
            && (both || to_target) {
            Some((rule.target_platform.clone(), rule.target_room.clone()))
        } else if str_eq(rule.target_platform.as_str(), platform) && str_eq(rule.target_room.as_str(), room)
            && both {
            Some((rule.source_platform.clone(), rule.source_room.clone()))
        } else {
            None
        }
    }

    /// The forwards of a message: one per rule that routes it, in rule order.
    pub fn plan(msg: &ChatMessage, rules: &Vec<SyncRule>) -> (r: Vec<Forward>)
        ensures
            forward_views(r@) == plan_spec(msg@, rule_views(rules@)),
    {
        let ghost rv = rule_views(rules@);
        let ghost f = |r: SyncRuleView| forward_of(msg@, r);
        let mut out: Vec<Forward> = Vec::new();
        let mut i: usize = 0;
        while i < rules.len()
            invariant
                i <= rules@.len(),
                rv == rule_views(rules@),
                forall|r: SyncRuleView| #[trigger] f(r) == forward_of(msg@, r),
                forward_views(out@) == rv.take(i as int).filter_map(f),
            decreases rules@.len() - i,
        {
            proof {
                rv.lemma_filter_map_take_succ(f, i as int);
                assert(rv[i as int] == rules@[i as int]@);
            }
            let ghost prev = forward_views(out@);
            match Self::route(&rules[i], msg.platform.as_str(), msg.room_id.as_str()) {
                Some((p, room)) => {
                    let mut key = cat(msg.platform.as_str(), "→");
                    key.append(p.as_str());
                    let fw = Forward { rule_id: rules[i].id, platform: p, room_id: room, direction_key: key };
                    out.push(fw);
                    assert(forward_views(out@) =~= prev.push(fw@));
                },
                None => {},
            }
            i = i + 1;
        }
        assert(rv.take(i as int) =~= rv);
        out
    }

    /// The statement that reads the rules active for the room a message came from.
    pub fn rules_statement(msg: &ChatMessage) -> (q: DbQuery)
        ensures
            q@ == crate::db::sync::active_rules_for_spec(msg.platform@, msg.room_id@),
    {
        BotDb::active_rules_for(msg.platform.as_str(), msg.room_id.as_str())
    }

    /// The forwards of a message once the rule query has run: one per routing rule, and
    /// none at all where the query failed (so nothing is recorded and nothing is sent).
    pub fn plan_after_rules<E>(msg: &ChatMessage, rules: Result<Vec<SyncRule>, E>) -> (r: Vec<Forward>)
        ensures
            match rules {
                Ok(rs) => forward_views(r@) == plan_spec(msg@, rule_views(rs@)),
                Err(_) => r@.len() == 0,
            },
    {
        match rules {
            Ok(rs) => Self::plan(msg, &rs),
            Err(_) => Vec::new(),
        }
    }

    /// The statement that checks whether a planned forward was recorded already.
    pub fn dedup_check(msg: &ChatMessage, fw: &Forward) -> (q: DbQuery)
        ensures
            q@ == crate::db::sync::forward_check_spec(fw.rule_id, fw.direction_key@, msg.message_id@),
    {
        BotDb::forward_check(fw.rule_id, fw.direction_key.as_str(), msg.message_id.as_str())
    }

    /// The deduplication checks of a message's planned forwards: one per planned forward,
    /// in plan order, where the message has an id; none where it has no id (such a
    /// message is always sent, and nothing is recorded for it).
    pub fn dedup_checks(msg: &ChatMessage, plan: &Vec<Forward>) -> (r: Vec<DbQuery>)
        ensures
            msg@.message_id.len() == 0 ==> r@.len() == 0,
            msg@.message_id.len() > 0 ==> r@.len() == plan@.len(),
            msg@.message_id.len() > 0 ==> forall|i: int| 0 <= i < plan@.len() ==> (#[trigger] r@[i])@
                == crate::db::sync::forward_check_spec(plan@[i].rule_id, plan@[i].direction_key@, msg.message_id@),
    {
        let mut r: Vec<DbQuery> = Vec::new();
        if msg.message_id.unicode_len() == 0 {
            return r;
        }
        let mut i: usize = 0;
        while i < plan.len()
            invariant
                i <= plan@.len(),
                r@.len() == i,
                forall|k: int| 0 <= k < i ==> (#[trigger] r@[k])@ == crate::db::sync::forward_check_spec(
                    plan@[k].rule_id,
                    plan@[k].direction_key@,
                    msg.message_id@,
                ),
            decreases plan@.len() - i,
        {
            r.push(Self::dedup_check(msg, &plan[i]));
            i = i + 1;
        }
        r
    }

    /// The text a forwarded message carries.
    pub fn forwarded_text(msg: &ChatMessage) -> (s: String)
        ensures
            s@ == forwarded_text(msg@),
    {
        let mut s = cat("[", msg.platform.as_str());
        s.append("/");
        s.append(msg.room_id.as_str());
        s.append("] <");
        s.append(msg.sender.as_str());
        s.append("> ");
        s.append(msg.text.as_str());
        s
    }

    /// The messages sent for the planned forwards, given the outcome of recording each.
    pub fn actions(msg: &ChatMessage, plan: &Vec<Forward>, recorded: &Vec<Option<bool>>) -> (r: Vec<TriggerAction>)
        requires
            recorded@.len() == plan@.len(),
        ensures
            action_views(r@) == sync_actions(msg@, forward_views(plan@), recorded@),
    {
        let text = Self::forwarded_text(msg);
        let has_id = msg.message_id.unicode_len() > 0;
        let ghost fv = forward_views(plan@);
        let mut out: Vec<TriggerAction> = Vec::new();
        let mut i: usize = 0;
        assert(fv.take(0) =~= Seq::<ForwardView>::empty());
        while i < plan.len()
            invariant
                i <= plan@.len(),
                recorded@.len() == plan@.len(),
                fv == forward_views(plan@),
                text@ == forwarded_text(msg@),
                has_id == (msg@.message_id.len() > 0),
                action_views(out@) == sync_actions(msg@, fv.take(i as int), recorded@.take(i as int)),
            decreases plan@.len() - i,
        {
            let ghost prev = action_views(out@);
            assert(fv.take(i + 1).drop_last() =~= fv.take(i as int));
            assert(recorded@.take(i + 1).drop_last() =~= recorded@.take(i as int));
            assert(fv.take(i + 1).last() == plan@[i as int]@);
            let skip = has_id && recorded[i] == Some(false);
            if !skip {
                let a = TriggerAction::SendToRoom {
                    platform: plan[i].platform.clone(),
                    room_id: plan[i].room_id.clone(),
                    text: text.clone(),
                };
                out.push(a);
                assert(action_views(out@) =~= prev.push(a@));
            }
            i = i + 1;
        }
        assert(fv.take(i as int) =~= fv);
        assert(recorded@.take(i as int) =~= recorded@);
        out
    }
}

impl SyncHandler {
    /// The sync handler; it reads the rules through the statements it is handed.
    pub fn new() -> (h: Self) {
        SyncHandler
    }
}

/// A bidirectional rule forwards a message from its source room to its target room,
/// and one from its target room back to its source room.
pub proof fn law_both_rule_links_both_ways(r: SyncRuleView)
    requires
        r.direction == "both"@,
    ensures
        route_spec(r, r.source_platform, r.source_room) == Some((r.target_platform, r.target_room)),
        route_spec(r, r.target_platform, r.target_room) == Some((r.source_platform, r.source_room)),
{
}

/// A rule only ever forwards from one of its two rooms to the other one.
pub proof fn law_route_goes_to_the_other_room(r: SyncRuleView, platform: Seq<char>, room: Seq<char>)
    requires
        route_spec(r, platform, room) is Some,
    ensures
        ((platform, room) == (r.source_platform, r.source_room) && route_spec(r, platform, room) == Some(
            (r.target_platform, r.target_room),
        )) || ((platform, room) == (r.target_platform, r.target_room) && route_spec(r, platform, room)
            == Some((r.source_platform, r.source_room))),
{
}

/// No forward goes out twice: where every planned forward of a message with an id was
/// recorded already, nothing is sent.
pub proof fn law_already_forwarded_is_not_sent_again(m: ChatView, plan: Seq<ForwardView>, recorded: Seq<Option<bool>>)
    requires
        m.message_id.len() > 0,
        forall|i: int| 0 <= i < recorded.len() ==> recorded[i] == Some(false),
    ensures
        sync_actions(m, plan, recorded) == Seq::<ActionView>::empty(),
    decreases plan.len(),
{
    if plan.len() > 0 && recorded.len() > 0 {
        assert(recorded.last() == Some(false));
        law_already_forwarded_is_not_sent_again(m, plan.drop_last(), recorded.drop_last());
    }
}

/// A message without an id is sent for every planned forward that has a recording
/// outcome, in plan order.
pub proof fn law_message_without_id_always_goes_out(m: ChatView, plan: Seq<ForwardView>, recorded: Seq<Option<bool>>)
    requires
        m.message_id.len() == 0,
        recorded.len() == plan.len(),
    ensures
        sync_actions(m, plan, recorded).len() == plan.len(),
        forall|i: int| 0 <= i < plan.len() ==> #[trigger] sync_actions(m, plan, recorded)[i] == (ActionView::SendToRoom {
            platform: plan[i].platform,
            room_id: plan[i].room_id,
            text: forwarded_text(m),
        }),
    decreases plan.len(),
{
    if plan.len() > 0 {
        law_message_without_id_always_goes_out(m, plan.drop_last(), recorded.drop_last());
        let rest = sync_actions(m, plan.drop_last(), recorded.drop_last());
        assert forall|i: int| 0 <= i < plan.len() implies #[trigger] sync_actions(m, plan, recorded)[i] == (ActionView::SendToRoom {
            platform: plan[i].platform,
            room_id: plan[i].room_id,
            text: forwarded_text(m),
        }) by {
            if i < plan.len() - 1 {
                assert(plan.drop_last()[i] == plan[i]);
                assert(rest[i] == sync_actions(m, plan, recorded)[i]);
            }
        }
    }
}

/// A message for which no forward is planned (as after a failed rule query) sends nothing.
pub proof fn law_no_plan_sends_nothing(m: ChatView, recorded: Seq<Option<bool>>)
    ensures
        sync_actions(m, Seq::<ForwardView>::empty(), recorded) == Seq::<ActionView>::empty(),
{
}

} // verus!
