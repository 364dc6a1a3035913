//! Calendar reminders: `calendar.event.*` Bus events become room messages and DMs.
//!
//! Expected payload (JSON):
//! `{ "title": "...", "time": "...", "location": "...",
//!    "rooms": [ { "platform": "...", "room_id": "..." } ],
//!    "participants": [ { "platform": "...", "user_id": "..." } ] }`

use vstd::prelude::*;
use crate::json::{member_array_spec, member_str_or, member_str_spec, Json};
use crate::text::cat;
use crate::trigger::{action_views, ActionView, HandlerKind, TriggerAction, TriggerEvent};

verus! {

broadcast use vstd::seq_lib::group_seq_properties;

/// Listens on `calendar.event.*` and sends event reminders.
pub struct CalendarHandler;

/// The reminder text of an event.
pub open spec fn reminder_text(p: Json) -> Seq<char> {
    let title = member_str_or(p, "title"@, "Unnamed event"@);
    let time = member_str_or(p, "time"@, "(time unknown)"@);
    let head = "📅 Upcoming: **"@ + title + "**\n🕐 "@ + time;
    match member_str_spec(p, "location"@) {
        Some(loc) => head + "\n📍 "@ + loc,
        None => head,
    }
}

/// The message for one room entry, unless the entry lacks a platform or room id.
pub open spec fn room_reminder(room: Json, text: Seq<char>) -> Option<ActionView> {
    let platform = member_str_or(room, "platform"@, ""@);
    let room_id = member_str_or(room, "room_id"@, ""@);
    if platform.len() == 0 || room_id.len() == 0 {
        None
    } else {
        Some(ActionView::SendToRoom { platform, room_id, text })
    }
}

/// The DM for one participant entry, unless the entry lacks a platform or user id.
pub open spec fn participant_reminder(p: Json, text: Seq<char>) -> Option<ActionView> {
    let platform = member_str_or(p, "platform"@, ""@);
    let user_id = member_str_or(p, "user_id"@, ""@);
    if platform.len() == 0 || user_id.len() == 0 {
        None
    } else {
        Some(ActionView::SendDm { platform, user_id, text })
    }
}

/// The reminders for an event payload: a message to every well-formed room entry, then a
/// DM (the reminder text followed by `This event includes you.`) to every well-formed
/// participant entry.
pub open spec fn calendar_actions(p: Json) -> Seq<ActionView> {
    let text = reminder_text(p);
    let dm_text = text + "\nThis event includes you."@;
    let rooms = match member_array_spec(p, "rooms"@) {
        Some(v) => v.filter_map(|r: Json| room_reminder(r, text)),
        None => Seq::empty(),
    };
    let dms = match member_array_spec(p, "participants"@) {
        Some(v) => v.filter_map(|x: Json| participant_reminder(x, dm_text)),
        None => Seq::empty(),
    };
    rooms + dms
}

/// Whether a string is empty.
fn is_empty_str(s: &str) -> (r: bool)
    ensures
        r == (s@.len() == 0),
{
    s.unicode_len() == 0
}

/// The message for one room entry.
fn room_action(room: &Json, text: &String) -> (r: Option<TriggerAction>)
    ensures
        r matches Some(a) ==> room_reminder(*room, text@) == Some(a@),
        r is None ==> room_reminder(*room, text@) is None,
{
    let platform = room.member_str_or("platform", "");
    let room_id = room.member_str_or("room_id", "");
    if is_empty_str(platform.as_str()) || is_empty_str(room_id.as_str()) {
        None
    } else {
        Some(TriggerAction::SendToRoom { platform, room_id, text: text.clone() })
    }
}

/// The DM for one participant entry.
fn participant_action(p: &Json, text: &String) -> (r: Option<TriggerAction>)
    ensures
        r matches Some(a) ==> participant_reminder(*p, text@) == Some(a@),
        r is None ==> participant_reminder(*p, text@) is None,
{
    let platform = p.member_str_or("platform", "");
    let user_id = p.member_str_or("user_id", "");
    if is_empty_str(platform.as_str()) || is_empty_str(user_id.as_str()) {
        None
    } else {
        Some(TriggerAction::SendDm { platform, user_id, text: text.clone() })
    }
}

impl CalendarHandler {
    /// The topic patterns this handler listens on.
    pub fn topics(&self) -> (r: Vec<String>)
        ensures
            crate::order::views(r@) == crate::trigger::handler_topics(HandlerKind::Calendar),
    {
        HandlerKind::Calendar.topics()
    }

    /// The reminder text of an event.
    fn text_of(p: &Json) -> (s: String)
        ensures
            s@ == reminder_text(*p),
    {
        let title = p.member_str_or("title", "Unnamed event");
        let time = p.member_str_or("time", "(time unknown)");
        let mut s = cat("📅 Upcoming: **", title.as_str());
        s.append("**\n🕐 ");
        s.append(time.as_str());
        match p.member_str("location") {
            Some(loc) => {
                s.append("\n📍 ");
                s.append(loc);
            },
            None => {},
        }
        s
    }

    /// The reminders for an event.
    pub fn on_event(&self, event: &TriggerEvent) -> (r: Vec<TriggerAction>)
        ensures
            action_views(r@) == calendar_actions(event.payload),
    {
        let p = &event.payload;
        let text = Self::text_of(p);
        let mut actions: Vec<TriggerAction> = Vec::new();
        let ghost f = |r: Json| room_reminder(r, text@);
        let ghost rooms_spec = match member_array_spec(*p, "rooms"@) {
            Some(v) => v.filter_map(f),
            None => Seq::empty(),
        };
        match p.member_array("rooms") {
            Some(rooms) => {
                let mut i: usize = 0;
                while i < rooms.len()
                    invariant
                        i <= rooms@.len(),
                        action_views(actions@) == rooms@.take(i as int).filter_map(f),
                        forall|r: Json| #[trigger] f(r) == room_reminder(r, text@),
                    decreases rooms@.len() - i,
                {
                    proof {
                        rooms@.lemma_filter_map_take_succ(f, i as int);
                    }
                    match room_action(&rooms[i], &text) {
                        Some(a) => actions.push(a),
                        None => {},
                    }
                    i = i + 1;
                    assert(action_views(actions@) =~= rooms@.take(i as int).filter_map(f));
                }
                assert(rooms@.take(i as int) =~= rooms@);
            },
            None => {
                assert(action_views(actions@) =~= Seq::<ActionView>::empty());
            },
        }
        assert(action_views(actions@) == rooms_spec);
        let dm_text = cat(text.as_str(), "\nThis event includes you.");
        let ghost g = |x: Json| participant_reminder(x, dm_text@);
        let ghost before = action_views(actions@);
        match p.member_array("participants") {
            Some(ps) => {
                let mut i: usize = 0;
                while i < ps.len()
                    invariant
                        i <= ps@.len(),
                        action_views(actions@) == before + ps@.take(i as int).filter_map(g),
                        forall|x: Json| #[trigger] g(x) == participant_reminder(x, dm_text@),
                    decreases ps@.len() - i,
                {
                    proof {
                        ps@.lemma_filter_map_take_succ(g, i as int);
                    }
                    let ghost old_views = action_views(actions@);
                    let ghost step = ps@.take(i as int).filter_map(g);
                    match participant_action(&ps[i], &dm_text) {
                        Some(a) => {
                            actions.push(a);
                            assert(action_views(actions@) =~= old_views.push(a@));
                            assert(ps@.take(i + 1).filter_map(g) =~= step.push(a@));
                            assert(before + step.push(a@) =~= (before + step).push(a@));
                        },
                        None => {
                            assert(ps@.take(i + 1).filter_map(g) =~= step);
                        },
                    }
                    i = i + 1;
                    assert(action_views(actions@) =~= before + ps@.take(i as int).filter_map(g));
                }
                assert(ps@.take(i as int) =~= ps@);
            },
            None => {
                assert(action_views(actions@) =~= before + Seq::<ActionView>::empty());
            },
        }
        actions
    }
}

} // verus!
