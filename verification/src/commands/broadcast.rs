//! Broadcast commands: `/subscribe`, `/unsubscribe`, `/subscriptions`.

use vstd::prelude::*;
use crate::commands::registry::{CommandKind, CommandRegistry};
use crate::commands::reply::{bullet_lines, bullets_spec, db_error};
use crate::context::CommandContext;
use crate::db::row::{row_views, BotDb, DbError, DbQuery, DbRows};
use crate::db::subscription::{is_subscribe, subscriptions_for_room_spec, topics_spec, unsubscribe_spec};
use crate::order::views;
use crate::response::{is_error, is_text, BotResponse};
use crate::text::cat;
use crate::trigger::HandlerKind;

verus! {

/// Registers the broadcast commands.
pub fn register_all(registry: &mut CommandRegistry)
    ensures
        final(registry).command_list() == old(registry).command_list().push(CommandKind::Subscribe).push(
            CommandKind::Unsubscribe,
        ).push(CommandKind::Subscriptions),
{
    registry.register(CommandKind::Subscribe);
    registry.register(CommandKind::Unsubscribe);
    registry.register(CommandKind::Subscriptions);
}

/// Registers the broadcast commands and returns the broadcast trigger handler.
pub fn register(registry: &mut CommandRegistry) -> (hs: Vec<HandlerKind>)
    ensures
        final(registry).command_list() == old(registry).command_list().push(CommandKind::Subscribe).push(
            CommandKind::Unsubscribe,
        ).push(CommandKind::Subscriptions),
        hs@ == seq![HandlerKind::Broadcast],
{
    register_all(registry);
    let mut hs: Vec<HandlerKind> = Vec::new();
    hs.push(HandlerKind::Broadcast);
    hs
}

/// The answer to a statement that either went through or failed.
pub open spec fn done_reply(r: BotResponse, outcome: Result<DbRows, DbError>, ok_text: Seq<char>) -> bool {
    match outcome {
        Ok(_) => is_text(r, ok_text),
        Err(e) => is_error(r, "DB error: "@ + e.message@),
    }
}

/// `/subscribe <topic>`: subscribes this room to a Bus topic.
pub struct SubscribeCommand;

impl SubscribeCommand {
    /// The statement that subscribes the calling room to the topic in the first argument,
    /// or the usage error where there is no argument.
    pub fn prepare(&self, ctx: &CommandContext) -> (r: Result<DbQuery, BotResponse>)
        ensures
            match ctx.arg0_spec() {
                None => r matches Err(e) && is_error(e, "Usage: /subscribe <topic>"@),
                Some(topic) => r matches Ok(q) && is_subscribe(q@, ctx.platform@, ctx.room_id@, topic),
            },
    {
        match ctx.arg0() {
            None => Err(BotResponse::error("Usage: /subscribe <topic>")),
            Some(topic) => Ok(BotDb::subscribe(ctx.platform.as_str(), ctx.room_id.as_str(), topic)),
        }
    }

    /// The answer once the statement for `topic` has run.
    pub fn finish(&self, topic: &str, outcome: &Result<DbRows, DbError>) -> (r: BotResponse)
        ensures
            done_reply(r, *outcome, "Subscribed to `"@ + topic@ + "`."@),
    {
        match outcome {
            Ok(_) => {
                let mut t = cat("Subscribed to `", topic);
                t.append("`.");
                BotResponse::Text(t)
            },
            Err(e) => db_error(e),
        }
    }
}

/// `/unsubscribe <topic>`: removes this room's subscription to a Bus topic.
pub struct UnsubscribeCommand;

impl UnsubscribeCommand {
    /// The statement that unsubscribes the calling room from the topic in the first
    /// argument, or the usage error where there is no argument.
    pub fn prepare(&self, ctx: &CommandContext) -> (r: Result<DbQuery, BotResponse>)
        ensures
            match ctx.arg0_spec() {
                None => r matches Err(e) && is_error(e, "Usage: /unsubscribe <topic>"@),
                Some(topic) => r matches Ok(q) && q@ == unsubscribe_spec(ctx.platform@, ctx.room_id@, topic),
            },
    {
        match ctx.arg0() {
            None => Err(BotResponse::error("Usage: /unsubscribe <topic>")),
            Some(topic) => Ok(BotDb::unsubscribe(ctx.platform.as_str(), ctx.room_id.as_str(), topic)),
        }
    }

    /// The answer once the statement for `topic` has run.
    pub fn finish(&self, topic: &str, outcome: &Result<DbRows, DbError>) -> (r: BotResponse)
        ensures
            done_reply(r, *outcome, "Unsubscribed from `"@ + topic@ + "`."@),
    {
        match outcome {
            Ok(_) => {
                let mut t = cat("Unsubscribed from `", topic);
                t.append("`.");
                BotResponse::Text(t)
            },
            Err(e) => db_error(e),
        }
    }
}

/// The answer to the list of a room's topics, or to the failure to read it.
pub open spec fn subscriptions_reply(r: BotResponse, topics: Result<Seq<Seq<char>>, Seq<char>>) -> bool {
    match topics {
        Err(m) => is_error(r, "DB error: "@ + m),
        Ok(ts) => if ts.len() == 0 {
            is_text(r, "No active subscriptions."@)
        } else {
            is_text(r, "Active subscriptions:\n"@ + bullets_spec(ts))
        },
    }
}

/// The topics that a statement's outcome stands for.
pub open spec fn outcome_topics(outcome: Result<DbRows, DbError>) -> Result<Seq<Seq<char>>, Seq<char>> {
    match outcome {
        Ok(rows) => topics_spec(row_views(rows.rows@)),
        Err(e) => Err(e.message@),
    }
}

/// `/subscriptions`: lists this room's active topic subscriptions.
pub struct SubscriptionsCommand;

impl SubscriptionsCommand {
    /// The statement that reads the calling room's subscriptions.
    pub fn prepare(&self, ctx: &CommandContext) -> (q: DbQuery)
        ensures
            q@ == subscriptions_for_room_spec(ctx.platform@, ctx.room_id@),
    {
        BotDb::subscriptions_for_room(ctx.platform.as_str(), ctx.room_id.as_str())
    }

    /// The answer once the statement has run.
    pub fn finish(&self, outcome: &Result<DbRows, DbError>) -> (r: BotResponse)
        ensures
            subscriptions_reply(r, outcome_topics(*outcome)),
    {
        match outcome {
            Err(e) => db_error(e),
            Ok(rows) => match BotDb::subscriptions_for_room_rows(rows) {
                Err(e) => db_error(&e),
                Ok(topics) => {
                    if topics.len() == 0 {
                        BotResponse::text("No active subscriptions.")
                    } else {
                        let mut t = String::new();
                        t.append("Active subscriptions:\n");
                        let lines = bullet_lines(&topics);
                        t.append(lines.as_str());
                        proof {
                            assert(views(topics@) =~= topics@.map_values(|p: String| p@));
                        }
                        BotResponse::Text(t)
                    }
                },
            },
        }
    }
}

} // verus!
