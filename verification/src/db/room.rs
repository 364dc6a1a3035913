//! Known rooms.

use vstd::prelude::*;
use crate::clock::{is_utc_rfc3339, now_rfc3339};
use crate::db::audit::opt_str_view;
use crate::db::row::{decode_all, decode_rows, record_views, row_views, DbError, DbRows, opt_int, opt_text, text, BotDb, DbQuery, QueryView, SqlValue, SqlView};

verus! {

/// The statement: insert or update a known room record.
pub open spec fn upsert_room_spec(platform: Seq<char>, room_id: Seq<char>, room_name: Option<Seq<char>>, member_count: Option<i64>, now: Seq<char>) -> QueryView {
    QueryView {
        sql: "INSERT INTO known_rooms (platform, room_id, room_name, member_count, last_seen) VALUES (?, ?, ?, ?, ?) ON CONFLICT(platform, room_id) DO UPDATE SET room_name    = excluded.room_name, member_count = excluded.member_count, last_seen    = excluded.last_seen"@,
        params: seq![text(platform), text(room_id), opt_text(room_name), opt_int(member_count), text(now)],
        context: "upsert_room failed"@,
    }
}

/// Whether `q` is the statement that records room `platform`/`room_id`, stamped at some time.
pub open spec fn is_upsert_room(q: QueryView, platform: Seq<char>, room_id: Seq<char>, room_name: Option<Seq<char>>, member_count: Option<i64>) -> bool {
    exists|now: Seq<char>| is_utc_rfc3339(now) && q == upsert_room_spec(platform, room_id, room_name, member_count, now)
}

impl BotDb {
    /// Insert or update a known room record.
    pub fn upsert_room_at(platform: &str, room_id: &str, room_name: Option<&str>, member_count: Option<i64>, now: &str) -> (q: DbQuery)
        ensures
            q@ == upsert_room_spec(platform@, room_id@, opt_str_view(room_name), member_count, now@),
    {
        let mut p: Vec<SqlValue> = Vec::new();
        p.push(SqlValue::text(platform));
        p.push(SqlValue::text(room_id));
        p.push(SqlValue::opt_text(room_name));
        p.push(SqlValue::opt_int(member_count));
        p.push(SqlValue::text(now));
        let q = DbQuery::new(
            "INSERT INTO known_rooms (platform, room_id, room_name, member_count, last_seen) VALUES (?, ?, ?, ?, ?) ON CONFLICT(platform, room_id) DO UPDATE SET room_name    = excluded.room_name, member_count = excluded.member_count, last_seen    = excluded.last_seen",
            p,
            "upsert_room failed",
        );
        assert(q@.params =~= upsert_room_spec(platform@, room_id@, opt_str_view(room_name), member_count, now@).params);
        q
    }

    /// Insert or update a known room record. The statement is stamped with the current time.
    pub fn upsert_room(platform: &str, room_id: &str, room_name: Option<&str>, member_count: Option<i64>) -> (q: DbQuery)
        ensures
            is_upsert_room(q@, platform@, room_id@, opt_str_view(room_name), member_count),
    {
        let now = now_rfc3339();
        Self::upsert_room_at(platform, room_id, room_name, member_count, now.as_str())
    }
}


/// Filter criteria for room queries: all fields optional, AND-combined.
pub struct GroupFilter {
    pub platform: Option<String>,
    pub name_contains: Option<String>,
    pub min_members: Option<i64>,
    pub max_members: Option<i64>,
}

impl Default for GroupFilter {
    fn default() -> (f: Self)
        ensures
            f.platform is None,
            f.name_contains is None,
            f.min_members is None,
            f.max_members is None,
    {
        GroupFilter { platform: None, name_contains: None, min_members: None, max_members: None }
    }
}

/// `s` when `b` holds, else nothing.
pub open spec fn when<T>(b: bool, s: Seq<T>) -> Seq<T> {
    if b { s } else { Seq::empty() }
}

/// The SQL of a room query: one condition for each criterion given, in field order.
pub open spec fn filter_sql(f: GroupFilter) -> Seq<char> {
    "SELECT * FROM known_rooms WHERE 1=1"@
        + when(f.platform is Some, " AND platform = ?"@)
        + when(f.name_contains is Some, " AND room_name LIKE ?"@)
        + when(f.min_members is Some, " AND member_count >= ?"@)
        + when(f.max_members is Some, " AND member_count <= ?"@)
        + " ORDER BY room_name ASC"@
}

/// The parameters of a room query, in the order of its conditions; the name criterion
/// is wrapped in `%` wildcards.
pub open spec fn filter_params(f: GroupFilter) -> Seq<SqlView> {
    (match f.platform { Some(p) => seq![text(p@)], None => Seq::empty() })
        + (match f.name_contains { Some(n) => seq![text("%"@ + n@ + "%"@)], None => Seq::empty() })
        + (match f.min_members { Some(m) => seq![SqlView::Int(m)], None => Seq::empty() })
        + (match f.max_members { Some(m) => seq![SqlView::Int(m)], None => Seq::empty() })
}

impl BotDb {
    /// The statement that queries known rooms, applying the given filter criteria.
    pub fn filter_rooms(filter: &GroupFilter) -> (q: DbQuery)
        ensures
            q.sql@ == filter_sql(*filter),
            crate::db::row::sql_views(q.params@) == filter_params(*filter),
            q.context@ == "filter_rooms query failed"@,
    {
        let mut sql = String::from_str("SELECT * FROM known_rooms WHERE 1=1");
        let mut p: Vec<SqlValue> = Vec::new();
        let ghost s0 = sql@;
        match &filter.platform {
            Some(platform) => {
                sql.append(" AND platform = ?");
                p.push(SqlValue::Text(platform.clone()));
            },
            None => {},
        }
        let ghost s1 = sql@;
        let ghost p1 = crate::db::row::sql_views(p@);
        match &filter.name_contains {
            Some(name) => {
                sql.append(" AND room_name LIKE ?");
                let mut pat = crate::text::cat("%", name.as_str());
                pat.append("%");
                p.push(SqlValue::Text(pat));
            },
            None => {},
        }
        let ghost s2 = sql@;
        let ghost p2 = crate::db::row::sql_views(p@);
        match filter.min_members {
            Some(min) => {
                sql.append(" AND member_count >= ?");
                p.push(SqlValue::Int(min));
            },
            None => {},
        }
        let ghost s3 = sql@;
        let ghost p3 = crate::db::row::sql_views(p@);
        match filter.max_members {
            Some(max) => {
                sql.append(" AND member_count <= ?");
                p.push(SqlValue::Int(max));
            },
            None => {},
        }
        sql.append(" ORDER BY room_name ASC");
        assert(sql@ =~= filter_sql(*filter));
        assert(crate::db::row::sql_views(p@) =~= filter_params(*filter));
        DbQuery { sql, params: p, context: String::from_str("filter_rooms query failed") }
    }

    /// The rooms that the room query returned.
    pub fn filter_rooms_rows(rows: &DbRows) -> (r: Result<Vec<crate::db::entities::known_room::Model>, DbError>)
        ensures
            match r {
                Ok(v) => decode_all::<crate::db::entities::known_room::Model>(row_views(rows.rows@)) == Ok::<Seq<crate::db::entities::known_room::ModelView>, Seq<char>>(record_views(v@)),
                Err(e) => decode_all::<crate::db::entities::known_room::Model>(row_views(rows.rows@)) == Err::<Seq<crate::db::entities::known_room::ModelView>, Seq<char>>(e.message@),
            },
    {
        decode_rows::<crate::db::entities::known_room::Model>(rows)
    }
}

} // verus!
