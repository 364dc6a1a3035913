//! Broadcasts: every Bus event goes to the rooms subscribed to its topic.

use vstd::prelude::*;
use crate::json::{serde_json_text, Json};
use crate::text::cat;
use crate::trigger::{action_views, ActionView, HandlerKind, TriggerAction, TriggerEvent};

verus! {

/// Listens on all Bus topics and sends events to rooms that have subscribed.
pub struct BroadcastHandler;

/// The payload as it is shown: a string payload's own text, any other value's JSON text.
pub open spec fn payload_text(p: Json) -> Seq<char> {
    match p {
        Json::Str(s) => s@,
        _ => serde_json_text(p),
    }
}

/// The message sent for an event: `[topic] payload`.
pub open spec fn broadcast_text(topic: Seq<char>, p: Json) -> Seq<char> {
    "["@ + topic + "] "@ + payload_text(p)
}

/// One message per subscribed `(platform, room)`, in order.
pub open spec fn broadcast_actions(subs: Seq<(String, String)>, text: Seq<char>) -> Seq<ActionView> {
    subs.map_values(|s: (String, String)| ActionView::SendToRoom { platform: s.0@, room_id: s.1@, text })
}

impl BroadcastHandler {
    /// The topic patterns this handler listens on.
    pub fn topics(&self) -> (r: Vec<String>)
        ensures
            crate::order::views(r@) == crate::trigger::handler_topics(HandlerKind::Broadcast),
    {
        HandlerKind::Broadcast.topics()
    }

    /// The payload as it is shown.
    pub fn payload_text(p: &Json) -> (s: String)
        ensures
            s@ == payload_text(*p),
    {
        match p {
            Json::Str(s) => s.clone(),
            _ => p.to_json_string(),
        }
    }

    /// The messages for an event, given the rooms subscribed to its topic; nothing when
    /// looking the subscriptions up failed.
    pub fn on_event<E>(&self, event: &TriggerEvent, subscriptions: Result<Vec<(String, String)>, E>) -> (r: Vec<TriggerAction>)
        ensures
            match subscriptions {
                Ok(subs) => action_views(r@) == broadcast_actions(subs@, broadcast_text(event.topic@, event.payload)),
                Err(_) => r@.len() == 0,
            },
    {
        match subscriptions {
            Err(_) => Vec::new(),
            Ok(subs) => {
                let mut text = cat("[", event.topic.as_str());
                text.append("] ");
                let body = Self::payload_text(&event.payload);
                text.append(body.as_str());
                let ghost t = text@;
                let mut actions: Vec<TriggerAction> = Vec::new();
                let mut i: usize = 0;
                while i < subs.len()
                    invariant
                        i <= subs@.len(),
                        text@ == t,
                        actions@.len() == i,
                        forall|k: int| 0 <= k < i ==> #[trigger] actions@[k]@ == (ActionView::SendToRoom {
                            platform: subs@[k].0@,
                            room_id: subs@[k].1@,
                            text: t,
                        }),
                    decreases subs@.len() - i,
                {
                    let platform = subs[i].0.clone();
                    let room_id = subs[i].1.clone();
                    actions.push(TriggerAction::SendToRoom { platform, room_id, text: text.clone() });
                    i = i + 1;
                }
                assert(action_views(actions@) =~= broadcast_actions(subs@, t));
                actions
            },
        }
    }
}

impl BroadcastHandler {
    /// The broadcast handler; it reads the subscriptions through the statements it is handed.
    pub fn new() -> (h: Self) {
        BroadcastHandler
    }
}

} // verus!
