//! Join requests.

use vstd::prelude::*;
use crate::clock::{is_utc_rfc3339, now_rfc3339};
use crate::db::audit::opt_str_view;
use crate::db::row::{decode_all, decode_rows, record_views, row_views, DbError, DbRows, RowView, opt_text, text, BotDb, DbQuery, QueryView, SqlValue, SqlView};

verus! {

/// The statement: queue a new join request, pending.
pub open spec fn add_join_request_spec(platform: Seq<char>, room_id: Seq<char>, user_id: Seq<char>, now: Seq<char>) -> QueryView {
    QueryView {
        sql: "INSERT INTO join_requests (platform, room_id, user_id, status, created_at) VALUES (?, ?, ?, 'pending', ?)"@,
        params: seq![text(platform), text(room_id), text(user_id), text(now)],
        context: "add_join_request failed"@,
    }
}

/// Whether `q` is the statement that queues a join request of `user_id` for `platform`/`room_id`, stamped at some time.
pub open spec fn is_add_join_request(q: QueryView, platform: Seq<char>, room_id: Seq<char>, user_id: Seq<char>) -> bool {
    exists|now: Seq<char>| is_utc_rfc3339(now) && q == add_join_request_spec(platform, room_id, user_id, now)
}

/// The statement: fetch a single join request by id.
pub open spec fn get_join_request_spec(id: i64) -> QueryView {
    QueryView {
        sql: "SELECT * FROM join_requests WHERE id = ?"@,
        params: seq![SqlView::Int(id)],
        context: "get_join_request query failed"@,
    }
}

/// The statement: list all pending join requests for `platform`/`room_id`, oldest first.
pub open spec fn list_pending_join_requests_spec(platform: Seq<char>, room_id: Seq<char>) -> QueryView {
    QueryView {
        sql: "SELECT * FROM join_requests WHERE platform = ? AND room_id = ? AND status = 'pending' ORDER BY created_at ASC"@,
        params: seq![text(platform), text(room_id)],
        context: "list_pending_join_requests query failed"@,
    }
}

/// The statement: update the status of a join request, stamped with the resolution time.
pub open spec fn resolve_join_request_spec(status: Seq<char>, iam_result: Option<Seq<char>>, id: i64, now: Seq<char>) -> QueryView {
    QueryView {
        sql: "UPDATE join_requests SET status = ?, iam_result = ?, resolved_at = ? WHERE id = ?"@,
        params: seq![text(status), opt_text(iam_result), text(now), SqlView::Int(id)],
        context: "resolve_join_request failed"@,
    }
}

/// Whether `q` is the statement that resolves join request `id` with `status`, stamped at some time.
pub open spec fn is_resolve_join_request(q: QueryView, status: Seq<char>, iam_result: Option<Seq<char>>, id: i64) -> bool {
    exists|now: Seq<char>| is_utc_rfc3339(now) && q == resolve_join_request_spec(status, iam_result, id, now)
}

impl BotDb {
    /// Queue a new join request, pending.
    pub fn add_join_request_at(platform: &str, room_id: &str, user_id: &str, now: &str) -> (q: DbQuery)
        ensures
            q@ == add_join_request_spec(platform@, room_id@, user_id@, now@),
    {
        let mut p: Vec<SqlValue> = Vec::new();
        p.push(SqlValue::text(platform));
        p.push(SqlValue::text(room_id));
        p.push(SqlValue::text(user_id));
        p.push(SqlValue::text(now));
        let q = DbQuery::new(
            "INSERT INTO join_requests (platform, room_id, user_id, status, created_at) VALUES (?, ?, ?, 'pending', ?)",
            p,
            "add_join_request failed",
        );
        assert(q@.params =~= add_join_request_spec(platform@, room_id@, user_id@, now@).params);
        q
    }

    /// Queue a new join request, pending. The statement is stamped with the current time.
    pub fn add_join_request(platform: &str, room_id: &str, user_id: &str) -> (q: DbQuery)
        ensures
            is_add_join_request(q@, platform@, room_id@, user_id@),
    {
        let now = now_rfc3339();
        Self::add_join_request_at(platform, room_id, user_id, now.as_str())
    }

    /// Fetch a single join request by id.
    pub fn get_join_request(id: i64) -> (q: DbQuery)
        ensures
            q@ == get_join_request_spec(id),
    {
        let mut p: Vec<SqlValue> = Vec::new();
        p.push(SqlValue::Int(id));
        let q = DbQuery::new(
            "SELECT * FROM join_requests WHERE id = ?",
            p,
            "get_join_request query failed",
        );
        assert(q@.params =~= get_join_request_spec(id).params);
        q
    }

    /// List all pending join requests for `platform`/`room_id`, oldest first.
    pub fn list_pending_join_requests(platform: &str, room_id: &str) -> (q: DbQuery)
        ensures
            q@ == list_pending_join_requests_spec(platform@, room_id@),
    {
        let mut p: Vec<SqlValue> = Vec::new();
        p.push(SqlValue::text(platform));
        p.push(SqlValue::text(room_id));
        let q = DbQuery::new(
            "SELECT * FROM join_requests WHERE platform = ? AND room_id = ? AND status = 'pending' ORDER BY created_at ASC",
            p,
            "list_pending_join_requests query failed",
        );
        assert(q@.params =~= list_pending_join_requests_spec(platform@, room_id@).params);
        q
    }

    /// Update the status of a join request, stamped with the resolution time.
    pub fn resolve_join_request_at(status: &str, iam_result: Option<&str>, id: i64, now: &str) -> (q: DbQuery)
        ensures
            q@ == resolve_join_request_spec(status@, opt_str_view(iam_result), id, now@),
    {
        let mut p: Vec<SqlValue> = Vec::new();
        p.push(SqlValue::text(status));
        p.push(SqlValue::opt_text(iam_result));
        p.push(SqlValue::text(now));
        p.push(SqlValue::Int(id));
        let q = DbQuery::new(
            "UPDATE join_requests SET status = ?, iam_result = ?, resolved_at = ? WHERE id = ?",
            p,
            "resolve_join_request failed",
        );
        assert(q@.params =~= resolve_join_request_spec(status@, opt_str_view(iam_result), id, now@).params);
        q
    }

    /// Update the status of a join request, stamped with the resolution time. The statement is stamped with the current time.
    pub fn resolve_join_request(status: &str, iam_result: Option<&str>, id: i64) -> (q: DbQuery)
        ensures
            is_resolve_join_request(q@, status@, opt_str_view(iam_result), id),
    {
        let now = now_rfc3339();
        Self::resolve_join_request_at(status, iam_result, id, now.as_str())
    }
}


/// The first row read as a join request, if there is a row.
pub open spec fn first_join_request_spec(rows: Seq<RowView>) -> Result<Option<crate::db::entities::join_request::ModelView>, Seq<char>> {
    if rows.len() == 0 {
        Ok(None)
    } else {
        match crate::db::entities::join_request::from_row_spec(rows[0]) {
            Ok(m) => Ok(Some(m)),
            Err(e) => Err(e),
        }
    }
}

impl BotDb {
    /// The id of a new join request.
    pub fn add_join_request_id(rows: &DbRows) -> (r: Result<i64, DbError>)
        ensures
            match r {
                Ok(id) => crate::db::collection::inserted_id_spec(row_views(rows.rows@), "add_join_request"@) == Ok::<i64, Seq<char>>(id),
                Err(e) => crate::db::collection::inserted_id_spec(row_views(rows.rows@), "add_join_request"@) == Err::<i64, Seq<char>>(e.message@),
            },
    {
        Self::inserted_id(rows, "add_join_request")
    }

    /// The join request that the lookup statement returned, if any.
    pub fn get_join_request_row(rows: &DbRows) -> (r: Result<Option<crate::db::entities::join_request::Model>, DbError>)
        ensures
            match r {
                Ok(Some(m)) => first_join_request_spec(row_views(rows.rows@)) == Ok::<Option<crate::db::entities::join_request::ModelView>, Seq<char>>(Some(m@)),
                Ok(None) => first_join_request_spec(row_views(rows.rows@)) == Ok::<Option<crate::db::entities::join_request::ModelView>, Seq<char>>(None),
                Err(e) => first_join_request_spec(row_views(rows.rows@)) == Err::<Option<crate::db::entities::join_request::ModelView>, Seq<char>>(e.message@),
            },
    {
        if rows.rows.len() == 0 {
            Ok(None)
        } else {
            assert(row_views(rows.rows@)[0] == rows.rows@[0]@);
            match crate::db::entities::join_request::Model::from_row(&rows.rows[0]) {
                Ok(m) => Ok(Some(m)),
                Err(e) => Err(e),
            }
        }
    }

    /// The join requests that the pending-list statement returned.
    pub fn list_pending_join_requests_rows(rows: &DbRows) -> (r: Result<Vec<crate::db::entities::join_request::Model>, DbError>)
        ensures
            match r {
                Ok(v) => decode_all::<crate::db::entities::join_request::Model>(row_views(rows.rows@)) == Ok::<Seq<crate::db::entities::join_request::ModelView>, Seq<char>>(record_views(v@)),
                Err(e) => decode_all::<crate::db::entities::join_request::Model>(row_views(rows.rows@)) == Err::<Seq<crate::db::entities::join_request::ModelView>, Seq<char>>(e.message@),
            },
    {
        decode_rows::<crate::db::entities::join_request::Model>(rows)
    }
}

} // verus!
