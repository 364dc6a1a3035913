//! Gatekeeper commands: `/verify`, `/approve`, `/deny`.

use vstd::prelude::*;
use crate::commands::control::outcome_records;
use crate::commands::registry::{CommandKind, CommandRegistry};
use crate::commands::reply::db_error;
use crate::context::CommandContext;
use crate::db::collection::{inserted_id_spec, last_insert_rowid_spec};
use crate::db::entities::join_request;
use crate::db::join::{first_join_request_spec, get_join_request_spec, is_add_join_request, is_resolve_join_request, list_pending_join_requests_spec};
use crate::db::row::{record_views, row_views, BotDb, DbError, DbQuery, DbRows};
use crate::response::{is_error, is_text, BotResponse};
use crate::text::{cat, dec_int, i64_to_string, parse_i64, parse_i64_spec, str_eq};
use crate::trigger::HandlerKind;

verus! {

/// Registers the gatekeeper commands.
pub fn register_all(registry: &mut CommandRegistry)
    ensures
        final(registry).command_list() == old(registry).command_list().push(CommandKind::Verify).push(
            CommandKind::Approve,
        ).push(CommandKind::Deny),
{
    registry.register(CommandKind::Verify);
    registry.register(CommandKind::Approve);
    registry.register(CommandKind::Deny);
}

/// Registers the gatekeeper commands and returns the gatekeeper's trigger handler.
pub fn register(registry: &mut CommandRegistry) -> (hs: Vec<HandlerKind>)
    ensures
        final(registry).command_list() == old(registry).command_list().push(CommandKind::Verify).push(
            CommandKind::Approve,
        ).push(CommandKind::Deny),
        hs@ == seq![HandlerKind::Gatekeeper],
{
    register_all(registry);
    let mut hs: Vec<HandlerKind> = Vec::new();
    hs.push(HandlerKind::Gatekeeper);
    hs
}

// ── /verify ──────────────────────────────────────────────────────────────────

/// The first pending request of `user_id`.
pub open spec fn find_request(rs: Seq<join_request::ModelView>, user_id: Seq<char>) -> Option<join_request::ModelView>
    decreases rs.len(),
{
    if rs.len() == 0 {
        None
    } else if rs[0].user_id == user_id {
        Some(rs[0])
    } else {
        find_request(rs.drop_first(), user_id)
    }
}

/// What `/verify` answers when `user_id` already has request `req`.
pub open spec fn exists_text(req: join_request::ModelView, user_id: Seq<char>) -> Seq<char> {
    "Request #"@ + dec_int(req.id as int) + " for user `"@ + user_id + "` already exists (status: "@ + req.status + ")."@
}

/// What `/verify` answers once request `id` is queued for `user_id`.
pub open spec fn queued_text(id: i64, user_id: Seq<char>) -> Seq<char> {
    "Join request #"@ + dec_int(id as int) + " queued for `"@ + user_id
        + "`. IAM check pending (Phase P). Use /approve "@ + dec_int(id as int) + " or /deny "@ + dec_int(id as int) + "."@
}

/// `/verify <user_id>`: queues a join request for a user, unless one is pending.
///
/// It runs up to three statements: the pending list, the insert, and the read-back of
/// the new id. Each step takes the previous statement's outcome.
pub struct VerifyCommand;

impl VerifyCommand {
    /// The statement that lists the room's pending requests, or the usage error where no
    /// user is given.
    pub fn prepare(&self, ctx: &CommandContext) -> (r: Result<DbQuery, BotResponse>)
        ensures
            ctx.arg0_spec() is None ==> (r matches Err(e) && is_error(e, "Usage: /verify <user_id>"@)),
            ctx.arg0_spec() is Some ==> (r matches Ok(q) && q@ == list_pending_join_requests_spec(
                ctx.platform@,
                ctx.room_id@,
            )),
    {
        match ctx.arg0() {
            None => Err(BotResponse::error("Usage: /verify <user_id>")),
            Some(_) => Ok(BotDb::list_pending_join_requests(ctx.platform.as_str(), ctx.room_id.as_str())),
        }
    }

    /// After the pending list: the answer where it failed or already holds a request of
    /// `user_id`; else the statement that queues the request.
    pub fn after_pending(
        &self,
        platform: &str,
        room_id: &str,
        user_id: &str,
        outcome: &Result<DbRows, DbError>,
    ) -> (r: Result<DbQuery, BotResponse>)
        ensures
            match outcome_records::<join_request::Model>(*outcome) {
                Err(m) => r matches Err(e) && is_error(e, "DB error: "@ + m),
                Ok(rs) => match find_request(rs, user_id@) {
                    Some(req) => r matches Err(e) && is_text(e, exists_text(req, user_id@)),
                    None => r matches Ok(q) && is_add_join_request(q@, platform@, room_id@, user_id@),
                },
            },
    {
        match outcome {
            Err(e) => Err(db_error(e)),
            Ok(rows) => match BotDb::list_pending_join_requests_rows(rows) {
                Err(e) => Err(db_error(&e)),
                Ok(reqs) => {
                    let ghost rv = record_views(reqs@);
                    let mut i: usize = 0;
                    assert(rv.skip(0) =~= rv);
                    while i < reqs.len()
                        invariant
                            i <= reqs@.len(),
                            rv == record_views(reqs@),
                            outcome_records::<join_request::Model>(*outcome) == Ok::<Seq<join_request::ModelView>, Seq<char>>(rv),
                            find_request(rv, user_id@) == find_request(rv.skip(i as int), user_id@),
                        decreases reqs@.len() - i,
                    {
                        assert(rv.skip(i as int).drop_first() =~= rv.skip(i + 1));
                        assert(rv.skip(i as int)[0] == reqs@[i as int]@);
                        if str_eq(reqs[i].user_id.as_str(), user_id) {
                            assert(find_request(rv.skip(i as int), user_id@) == Some(reqs@[i as int]@));
                            let mut t = cat("Request #", i64_to_string(reqs[i].id).as_str());
                            t.append(" for user `");
                            t.append(user_id);
                            t.append("` already exists (status: ");
                            t.append(reqs[i].status.as_str());
                            t.append(").");
                            return Err(BotResponse::Text(t));
                        }
                        i = i + 1;
                    }
                    Ok(BotDb::add_join_request(platform, room_id, user_id))
                },
            },
        }
    }

    /// After the insert: its error, or the statement that reads back the new id.
    pub fn after_insert(&self, outcome: &Result<DbRows, DbError>) -> (r: Result<DbQuery, BotResponse>)
        ensures
            match *outcome {
                Err(e) => r matches Err(a) && is_error(a, "DB error: "@ + e.message@),
                Ok(_) => r matches Ok(q) && q@ == last_insert_rowid_spec(),
            },
    {
        match outcome {
            Err(e) => Err(db_error(e)),
            Ok(_) => Ok(BotDb::last_insert_rowid()),
        }
    }

    /// The answer once the new id for `user_id` has been read back.
    pub fn finish(&self, user_id: &str, outcome: &Result<DbRows, DbError>) -> (r: BotResponse)
        ensures
            match *outcome {
                Err(e) => is_error(r, "DB error: "@ + e.message@),
                Ok(rows) => match inserted_id_spec(row_views(rows.rows@), "add_join_request"@) {
                    Ok(id) => is_text(r, queued_text(id, user_id@)),
                    Err(m) => is_error(r, "DB error: "@ + m),
                },
            },
    {
        match outcome {
            Err(e) => db_error(e),
            Ok(rows) => match BotDb::add_join_request_id(rows) {
                Err(e) => db_error(&e),
                Ok(id) => {
                    let ids = i64_to_string(id);
                    let mut t = cat("Join request #", ids.as_str());
                    t.append(" queued for `");
                    t.append(user_id);
                    t.append("`. IAM check pending (Phase P). Use /approve ");
                    t.append(ids.as_str());
                    t.append(" or /deny ");
                    t.append(ids.as_str());
                    t.append(".");
                    BotResponse::Text(t)
                },
            },
        }
    }
}

// ── /approve and /deny ───────────────────────────────────────────────────────

/// The request id in the first argument, or the answer where it is missing or no number.
pub open spec fn request_id_reply(r: Result<i64, BotResponse>, arg0: Option<Seq<char>>, usage: Seq<char>) -> bool {
    match arg0 {
        None => r matches Err(e) && is_error(e, usage),
        Some(a) => match parse_i64_spec(a) {
            None => r matches Err(e) && is_error(e, "Request ID must be a number."@),
            Some(id) => r == Ok::<i64, BotResponse>(id),
        },
    }
}

/// Reads the request id argument of `/approve` or `/deny`.
fn request_id(ctx: &CommandContext, usage: &str) -> (r: Result<i64, BotResponse>)
    ensures
        request_id_reply(r, ctx.arg0_spec(), usage@),
{
    match ctx.arg0() {
        None => Err(BotResponse::error(usage)),
        Some(a) => match parse_i64(a) {
            None => Err(BotResponse::error("Request ID must be a number.")),
            Some(id) => Ok(id),
        },
    }
}

/// The user a join-request lookup names, or `unknown` where the lookup failed or found
/// nothing.
pub open spec fn looked_up_user(outcome: Result<DbRows, DbError>) -> Seq<char> {
    match outcome {
        Ok(rows) => match first_join_request_spec(row_views(rows.rows@)) {
            Ok(Some(m)) => m.user_id,
            _ => "unknown"@,
        },
        Err(_) => "unknown"@,
    }
}

/// `/approve <request_id>`: approves a pending join request.
pub struct ApproveCommand;

impl ApproveCommand {
    /// The statement that marks the request approved, or the answer where the argument is
    /// missing or no number.
    pub fn prepare(&self, ctx: &CommandContext) -> (r: Result<DbQuery, BotResponse>)
        ensures
            match ctx.arg0_spec() {
                None => r matches Err(e) && is_error(e, "Usage: /approve <request_id>"@),
                Some(a) => match parse_i64_spec(a) {
                    None => r matches Err(e) && is_error(e, "Request ID must be a number."@),
                    Some(id) => r matches Ok(q) && is_resolve_join_request(q@, "approved"@, None, id),
                },
            },
    {
        match request_id(ctx, "Usage: /approve <request_id>") {
            Err(e) => Err(e),
            Ok(id) => Ok(BotDb::resolve_join_request("approved", None, id)),
        }
    }

    /// After the update of request `id`: its error as it stands, or the statement that
    /// looks the request up.
    pub fn after_resolve(&self, id: i64, outcome: &Result<DbRows, DbError>) -> (r: Result<DbQuery, BotResponse>)
        ensures
            match *outcome {
                Err(e) => r matches Err(a) && is_error(a, e.message@),
                Ok(_) => r matches Ok(q) && q@ == get_join_request_spec(id),
            },
    {
        match outcome {
            Err(e) => Err(BotResponse::Error(e.message.clone())),
            Ok(_) => Ok(BotDb::get_join_request(id)),
        }
    }

    /// The answer once request `id` is approved and looked up.
    pub fn finish(&self, id: i64, lookup: &Result<DbRows, DbError>) -> (r: BotResponse)
        ensures
            is_text(
                r,
                "Request #"@ + dec_int(id as int) + " approved. User `"@ + looked_up_user(*lookup)
                    + "` can now be invited."@,
            ),
    {
        let user: String = match lookup {
            Ok(rows) => match BotDb::get_join_request_row(rows) {
                Ok(Some(m)) => m.user_id,
                _ => "unknown".to_owned(),
            },
            Err(_) => "unknown".to_owned(),
        };
        let mut t = cat("Request #", i64_to_string(id).as_str());
        t.append(" approved. User `");
        t.append(user.as_str());
        t.append("` can now be invited.");
        BotResponse::Text(t)
    }
}

/// `/deny <request_id>`: denies a pending join request.
pub struct DenyCommand;

impl DenyCommand {
    /// The statement that marks the request denied, or the answer where the argument is
    /// missing or no number.
    pub fn prepare(&self, ctx: &CommandContext) -> (r: Result<DbQuery, BotResponse>)
        ensures
            match ctx.arg0_spec() {
                None => r matches Err(e) && is_error(e, "Usage: /deny <request_id>"@),
                Some(a) => match parse_i64_spec(a) {
                    None => r matches Err(e) && is_error(e, "Request ID must be a number."@),
                    Some(id) => r matches Ok(q) && is_resolve_join_request(q@, "denied"@, None, id),
                },
            },
    {
        match request_id(ctx, "Usage: /deny <request_id>") {
            Err(e) => Err(e),
            Ok(id) => Ok(BotDb::resolve_join_request("denied", None, id)),
        }
    }

    /// The answer once the update of request `id` has run.
    pub fn finish(&self, id: i64, outcome: &Result<DbRows, DbError>) -> (r: BotResponse)
        ensures
            match *outcome {
                Ok(_) => is_text(r, "Request #"@ + dec_int(id as int) + " denied."@),
                Err(e) => is_error(r, e.message@),
            },
    {
        match outcome {
            Ok(_) => {
                let mut t = cat("Request #", i64_to_string(id).as_str());
                t.append(" denied.");
                BotResponse::Text(t)
            },
            Err(e) => BotResponse::Error(e.message.clone()),
        }
    }
}

} // verus!
