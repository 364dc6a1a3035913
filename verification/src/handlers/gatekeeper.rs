//! Join requests: `chat.join_request` Bus events are queued and announced to the room.
//!
//! Expected payload (JSON):
//! `{ "platform": "telegram", "room_id": "...", "user_id": "...", "user_name": "..." }`

use vstd::prelude::*;
use crate::clock::{is_utc_rfc3339, now_rfc3339};
use crate::db::row::{text, DbQuery, QueryView, SqlValue};
use crate::json::{member_str_or, Json};
use crate::text::{cat, dec_int, i64_to_string};
use crate::trigger::{action_views, ActionView, HandlerKind, TriggerAction, TriggerEvent};

verus! {

/// Listens on `chat.join_request` events.
pub struct GatekeeperHandler;

/// A join request as an event announces it.
pub struct JoinRequestEvent {
    pub platform: String,
    pub room_id: String,
    pub user_id: String,
    /// The display name; the user id when the event gives none.
    pub user_name: String,
}

/// The request an event payload carries: platform, room, user id and user name (which
/// defaults to the user id); `None` when the platform, room or user id is missing or empty.
pub open spec fn join_request_of(p: Json) -> Option<(Seq<char>, Seq<char>, Seq<char>, Seq<char>)> {
    let platform = member_str_or(p, "platform"@, ""@);
    let room_id = member_str_or(p, "room_id"@, ""@);
    let user_id = member_str_or(p, "user_id"@, ""@);
    let user_name = member_str_or(p, "user_name"@, user_id);
    if platform.len() == 0 || room_id.len() == 0 || user_id.len() == 0 {
        None
    } else {
        Some((platform, room_id, user_id, user_name))
    }
}

/// The statement that queues a request, stamped `now`.
pub open spec fn queue_spec(platform: Seq<char>, room_id: Seq<char>, user_id: Seq<char>, now: Seq<char>) -> QueryView {
    QueryView {
        sql: "INSERT INTO join_requests\n             (platform, room_id, user_id, status, created_at)\n             VALUES (?, ?, ?, 'pending', ?)"@,
        params: seq![text(platform), text(room_id), text(user_id), text(now)],
        context: "GatekeeperHandler DB error"@,
    }
}

/// Whether `q` is the statement that queues the request of `user_id` for `platform`/`room_id`,
/// stamped at some time.
pub open spec fn is_queue(q: QueryView, platform: Seq<char>, room_id: Seq<char>, user_id: Seq<char>) -> bool {
    exists|now: Seq<char>| is_utc_rfc3339(now) && q == queue_spec(platform, room_id, user_id, now)
}

/// The announcement of request `id` from the user.
pub open spec fn announcement(id: i64, user_name: Seq<char>, user_id: Seq<char>) -> Seq<char> {
    "Join request #"@ + dec_int(id as int) + " from `"@ + user_name + "` ("@ + user_id + ").\nUse /approve "@
        + dec_int(id as int) + " or /deny "@ + dec_int(id as int) + "."@
}

impl GatekeeperHandler {
    /// The topic patterns this handler listens on.
    pub fn topics(&self) -> (r: Vec<String>)
        ensures
            crate::order::views(r@) == crate::trigger::handler_topics(HandlerKind::Gatekeeper),
    {
        HandlerKind::Gatekeeper.topics()
    }

    /// The request that an event carries, if it is well formed.
    pub fn parse(event: &TriggerEvent) -> (r: Option<JoinRequestEvent>)
        ensures
            match join_request_of(event.payload) {
                Some(t) => r matches Some(e) && e.platform@ == t.0 && e.room_id@ == t.1
                    && e.user_id@ == t.2 && e.user_name@ == t.3,
                None => r is None,
            },
    {
        let p = &event.payload;
        let platform = p.member_str_or("platform", "");
        let room_id = p.member_str_or("room_id", "");
        let user_id = p.member_str_or("user_id", "");
        let user_name = p.member_str_or("user_name", user_id.as_str());
        if platform.unicode_len() == 0 || room_id.unicode_len() == 0 || user_id.unicode_len() == 0 {
            None
        } else {
            Some(JoinRequestEvent { platform, room_id, user_id, user_name })
        }
    }

    /// The statement that queues a request, stamped `now`.
    pub fn queue_statement_at(req: &JoinRequestEvent, now: &str) -> (q: DbQuery)
        ensures
            q@ == queue_spec(req.platform@, req.room_id@, req.user_id@, now@),
    {
        let mut p: Vec<SqlValue> = Vec::new();
        p.push(SqlValue::text(req.platform.as_str()));
        p.push(SqlValue::text(req.room_id.as_str()));
        p.push(SqlValue::text(req.user_id.as_str()));
        p.push(SqlValue::text(now));
        let q = DbQuery::new(
            "INSERT INTO join_requests\n             (platform, room_id, user_id, status, created_at)\n             VALUES (?, ?, ?, 'pending', ?)",
            p,
            "GatekeeperHandler DB error",
        );
        assert(q@.params =~= queue_spec(req.platform@, req.room_id@, req.user_id@, now@).params);
        q
    }

    /// The statement that queues a request, stamped with the current time.
    pub fn queue_statement(req: &JoinRequestEvent) -> (q: DbQuery)
        ensures
            is_queue(q@, req.platform@, req.room_id@, req.user_id@),
    {
        let now = now_rfc3339();
        Self::queue_statement_at(req, now.as_str())
    }

    /// The answer once the request is queued under `inserted` (the new row id); nothing
    /// when queueing failed.
    pub fn on_queued<E>(req: &JoinRequestEvent, inserted: Result<i64, E>) -> (r: Vec<TriggerAction>)
        ensures
            match inserted {
                Ok(id) => action_views(r@) == seq![ActionView::SendToRoom {
                    platform: req.platform@,
                    room_id: req.room_id@,
                    text: announcement(id, req.user_name@, req.user_id@),
                }],
                Err(_) => r@.len() == 0,
            },
    {
        match inserted {
            Err(_) => Vec::new(),
            Ok(id) => {
                let n = i64_to_string(id);
                let mut t = cat("Join request #", n.as_str());
                t.append(" from `");
                t.append(req.user_name.as_str());
                t.append("` (");
                t.append(req.user_id.as_str());
                t.append(").\nUse /approve ");
                t.append(n.as_str());
                t.append(" or /deny ");
                t.append(n.as_str());
                t.append(".");
                let mut r: Vec<TriggerAction> = Vec::new();
                r.push(TriggerAction::SendToRoom {
                    platform: req.platform.clone(),
                    room_id: req.room_id.clone(),
                    text: t,
                });
                assert(action_views(r@) =~= seq![ActionView::SendToRoom {
                    platform: req.platform@,
                    room_id: req.room_id@,
                    text: announcement(id, req.user_name@, req.user_id@),
                }]);
                r
            },
        }
    }
}

impl GatekeeperHandler {
    /// The gatekeeper handler; it queues requests through the statements it names.
    pub fn new() -> (h: Self) {
        GatekeeperHandler
    }
}

} // verus!
