//! Room subscriptions to Bus topics.

use vstd::prelude::*;
use crate::clock::{is_utc_rfc3339, now_rfc3339};
use crate::db::row::{decode_all, decode_rows, record_views, row_views, DbError, DbRows, text, BotDb, DbQuery, QueryView, SqlValue};

verus! {

/// The statement: subscribe `platform`/`room_id` to `topic` (idempotent).
pub open spec fn subscribe_spec(platform: Seq<char>, room_id: Seq<char>, topic: Seq<char>, now: Seq<char>) -> QueryView {
    QueryView {
        sql: "INSERT OR IGNORE INTO subscriptions (platform, room_id, topic, created_at) VALUES (?, ?, ?, ?)"@,
        params: seq![text(platform), text(room_id), text(topic), text(now)],
        context: "subscribe failed"@,
    }
}

/// Whether `q` is the subscribe statement for `platform`/`room_id`/`topic`, stamped at some time.
pub open spec fn is_subscribe(q: QueryView, platform: Seq<char>, room_id: Seq<char>, topic: Seq<char>) -> bool {
    exists|now: Seq<char>| is_utc_rfc3339(now) && q == subscribe_spec(platform, room_id, topic, now)
}

/// The statement: remove the subscription of `platform`/`room_id` from `topic`.
pub open spec fn unsubscribe_spec(platform: Seq<char>, room_id: Seq<char>, topic: Seq<char>) -> QueryView {
    QueryView {
        sql: "DELETE FROM subscriptions WHERE platform = ? AND room_id = ? AND topic = ?"@,
        params: seq![text(platform), text(room_id), text(topic)],
        context: "unsubscribe failed"@,
    }
}

/// The statement: read the subscriptions of `platform`/`room_id`.
pub open spec fn subscriptions_for_room_spec(platform: Seq<char>, room_id: Seq<char>) -> QueryView {
    QueryView {
        sql: "SELECT * FROM subscriptions WHERE platform = ? AND room_id = ?"@,
        params: seq![text(platform), text(room_id)],
        context: "subscriptions_for_room query failed"@,
    }
}

/// The statement: read the subscriptions to `topic`.
pub open spec fn subscriptions_for_room_by_topic_spec(topic: Seq<char>) -> QueryView {
    QueryView {
        sql: "SELECT * FROM subscriptions WHERE topic = ?"@,
        params: seq![text(topic)],
        context: "subscriptions_for_room_by_topic query failed"@,
    }
}

impl BotDb {
    /// Subscribe `platform`/`room_id` to `topic` (idempotent).
    pub fn subscribe_at(platform: &str, room_id: &str, topic: &str, now: &str) -> (q: DbQuery)
        ensures
            q@ == subscribe_spec(platform@, room_id@, topic@, now@),
    {
        let mut p: Vec<SqlValue> = Vec::new();
        p.push(SqlValue::text(platform));
        p.push(SqlValue::text(room_id));
        p.push(SqlValue::text(topic));
        p.push(SqlValue::text(now));
        let q = DbQuery::new(
            "INSERT OR IGNORE INTO subscriptions (platform, room_id, topic, created_at) VALUES (?, ?, ?, ?)",
            p,
            "subscribe failed",
        );
        assert(q@.params =~= subscribe_spec(platform@, room_id@, topic@, now@).params);
        q
    }

    /// Subscribe `platform`/`room_id` to `topic` (idempotent). The statement is stamped with the current time.
    pub fn subscribe(platform: &str, room_id: &str, topic: &str) -> (q: DbQuery)
        ensures
            is_subscribe(q@, platform@, room_id@, topic@),
    {
        let now = now_rfc3339();
        Self::subscribe_at(platform, room_id, topic, now.as_str())
    }

    /// Remove the subscription of `platform`/`room_id` from `topic`.
    pub fn unsubscribe(platform: &str, room_id: &str, topic: &str) -> (q: DbQuery)
        ensures
            q@ == unsubscribe_spec(platform@, room_id@, topic@),
    {
        let mut p: Vec<SqlValue> = Vec::new();
        p.push(SqlValue::text(platform));
        p.push(SqlValue::text(room_id));
        p.push(SqlValue::text(topic));
        let q = DbQuery::new(
            "DELETE FROM subscriptions WHERE platform = ? AND room_id = ? AND topic = ?",
            p,
            "unsubscribe failed",
        );
        assert(q@.params =~= unsubscribe_spec(platform@, room_id@, topic@).params);
        q
    }

    /// Read the subscriptions of `platform`/`room_id`.
    pub fn subscriptions_for_room(platform: &str, room_id: &str) -> (q: DbQuery)
        ensures
            q@ == subscriptions_for_room_spec(platform@, room_id@),
    {
        let mut p: Vec<SqlValue> = Vec::new();
        p.push(SqlValue::text(platform));
        p.push(SqlValue::text(room_id));
        let q = DbQuery::new(
            "SELECT * FROM subscriptions WHERE platform = ? AND room_id = ?",
            p,
            "subscriptions_for_room query failed",
        );
        assert(q@.params =~= subscriptions_for_room_spec(platform@, room_id@).params);
        q
    }

    /// Read the subscriptions to `topic`.
    pub fn subscriptions_for_room_by_topic(topic: &str) -> (q: DbQuery)
        ensures
            q@ == subscriptions_for_room_by_topic_spec(topic@),
    {
        let mut p: Vec<SqlValue> = Vec::new();
        p.push(SqlValue::text(topic));
        let q = DbQuery::new(
            "SELECT * FROM subscriptions WHERE topic = ?",
            p,
            "subscriptions_for_room_by_topic query failed",
        );
        assert(q@.params =~= subscriptions_for_room_by_topic_spec(topic@).params);
        q
    }
}


use crate::db::entities::subscription;

/// The topics of the subscriptions that a statement returned, or the first row error.
pub open spec fn topics_spec(rows: Seq<crate::db::row::RowView>) -> Result<Seq<Seq<char>>, Seq<char>> {
    match decode_all::<subscription::Model>(rows) {
        Ok(vs) => Ok(vs.map_values(|m: subscription::ModelView| m.topic)),
        Err(e) => Err(e),
    }
}

/// The `(platform, room)` pairs of the subscriptions that a statement returned, or the
/// first row error.
pub open spec fn rooms_spec(rows: Seq<crate::db::row::RowView>) -> Result<Seq<(Seq<char>, Seq<char>)>, Seq<char>> {
    match decode_all::<subscription::Model>(rows) {
        Ok(vs) => Ok(vs.map_values(|m: subscription::ModelView| (m.platform, m.room_id))),
        Err(e) => Err(e),
    }
}

/// The views of a list of string pairs.
pub open spec fn pair_views(v: Seq<(String, String)>) -> Seq<(Seq<char>, Seq<char>)> {
    v.map_values(|p: (String, String)| (p.0@, p.1@))
}

impl BotDb {
    /// The topic names that the room statement returned.
    pub fn subscriptions_for_room_rows(rows: &DbRows) -> (r: Result<Vec<String>, DbError>)
        ensures
            match r {
                Ok(v) => topics_spec(row_views(rows.rows@)) == Ok::<Seq<Seq<char>>, Seq<char>>(crate::order::views(v@)),
                Err(e) => topics_spec(row_views(rows.rows@)) == Err::<Seq<Seq<char>>, Seq<char>>(e.message@),
            },
    {
        let models = decode_rows::<subscription::Model>(rows)?;
        let mut out: Vec<String> = Vec::new();
        let mut i: usize = 0;
        while i < models.len()
            invariant
                i <= models@.len(),
                out@.len() == i,
                forall|k: int| 0 <= k < i ==> #[trigger] out@[k]@ == models@[k].topic@,
            decreases models@.len() - i,
        {
            out.push(models[i].topic.clone());
            i = i + 1;
        }
        assert(crate::order::views(out@) =~= record_views(models@).map_values(|m: subscription::ModelView| m.topic));
        Ok(out)
    }

    /// The `(platform, room_id)` pairs that the topic statement returned.
    pub fn subscriptions_for_room_by_topic_rows(rows: &DbRows) -> (r: Result<Vec<(String, String)>, DbError>)
        ensures
            match r {
                Ok(v) => rooms_spec(row_views(rows.rows@)) == Ok::<Seq<(Seq<char>, Seq<char>)>, Seq<char>>(pair_views(v@)),
                Err(e) => rooms_spec(row_views(rows.rows@)) == Err::<Seq<(Seq<char>, Seq<char>)>, Seq<char>>(e.message@),
            },
    {
        let models = decode_rows::<subscription::Model>(rows)?;
        let mut out: Vec<(String, String)> = Vec::new();
        let mut i: usize = 0;
        while i < models.len()
            invariant
                i <= models@.len(),
                out@.len() == i,
                forall|k: int| 0 <= k < i ==> (#[trigger] out@[k]).0@ == models@[k].platform@ && out@[k].1@ == models@[k].room_id@,
            decreases models@.len() - i,
        {
            out.push((models[i].platform.clone(), models[i].room_id.clone()));
            i = i + 1;
        }
        assert(pair_views(out@) =~= record_views(models@).map_values(|m: subscription::ModelView| (m.platform, m.room_id)));
        Ok(out)
    }
}

} // verus!
