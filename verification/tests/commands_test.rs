use fs_bots::commands::basic::{PingCommand, StatusCommand};
use fs_bots::commands::broadcast::{SubscribeCommand, SubscriptionsCommand, UnsubscribeCommand};
use fs_bots::commands::calendar::TermineCommand;
use fs_bots::commands::control::{BotCreateCommand, BotLogsCommand, BotStatusCommand, BotsCommand};
use fs_bots::commands::gatekeeper::{ApproveCommand, DenyCommand, VerifyCommand};
use fs_bots::commands::registry::{CommandKind, CommandRegistry};
use fs_bots::commands::room_sync::{SyncStartCommand, SyncStatusCommand, SyncStopCommand};
use fs_bots::context::CommandContext;
use fs_bots::db::row::{DbError, DbRow, DbRows, SqlValue};
use fs_bots::response::BotResponse;
use fs_bots::rights::Right;

fn ctx(args: &[&str]) -> CommandContext {
    CommandContext::new(
        "cmd",
        args.iter().map(|a| a.to_string()).collect(),
        "matrix",
        "!room",
        "@alice",
        Right::Admin,
    )
}

fn text_of(r: &BotResponse) -> String {
    match r {
        BotResponse::Text(t) => t.clone(),
        _ => panic!("not a text reply"),
    }
}

fn error_of(r: &BotResponse) -> String {
    match r {
        BotResponse::Error(t) => t.clone(),
        _ => panic!("not an error reply"),
    }
}

fn ok_rows(rows: Vec<DbRow>) -> Result<DbRows, DbError> {
    Ok(DbRows { rows, rows_affected: 0 })
}

fn failed(msg: &str) -> Result<DbRows, DbError> {
    Err(DbError { message: msg.to_string() })
}

fn row(cols: &[(&str, SqlValue)]) -> DbRow {
    let mut columns = Vec::new();
    let mut values = Vec::new();
    for (c, v) in cols {
        columns.push(c.to_string());
        values.push(match v {
            SqlValue::Null => SqlValue::Null,
            SqlValue::Int(n) => SqlValue::Int(*n),
            SqlValue::UInt(n) => SqlValue::UInt(*n),
            SqlValue::Text(s) => SqlValue::Text(s.clone()),
        });
    }
    DbRow { columns, values }
}

fn t(s: &str) -> SqlValue {
    SqlValue::Text(s.to_string())
}

#[test]
fn ping_answers_pong() {
    assert_eq!(text_of(&PingCommand.execute(&ctx(&[]))), "Pong!");
}

#[test]
fn status_names_the_platform() {
    assert_eq!(
        text_of(&StatusCommand.execute(&ctx(&[]))),
        "FreeSynergy Bot — online\nPlatform: matrix\nType /help for available commands."
    );
}

#[test]
fn termine_is_not_connected_yet() {
    assert_eq!(
        text_of(&TermineCommand.execute(&ctx(&[]))),
        "Calendar integration will be available once a Desktop Calendar service is connected to the Bus (Phase E)."
    );
}

#[test]
fn subscribe_without_topic_is_usage_error() {
    let r = SubscribeCommand.prepare(&ctx(&[])).err().unwrap();
    assert_eq!(error_of(&r), "Usage: /subscribe <topic>");
}

#[test]
fn subscribe_statement_binds_room_and_topic() {
    let q = SubscribeCommand.prepare(&ctx(&["news.*"])).ok().unwrap();
    assert_eq!(q.sql, "INSERT OR IGNORE INTO subscriptions (platform, room_id, topic, created_at) VALUES (?, ?, ?, ?)");
    assert_eq!(q.params.len(), 4);
    assert!(matches!(&q.params[0], SqlValue::Text(s) if s == "matrix"));
    assert!(matches!(&q.params[1], SqlValue::Text(s) if s == "!room"));
    assert!(matches!(&q.params[2], SqlValue::Text(s) if s == "news.*"));
}

#[test]
fn subscribe_answers() {
    assert_eq!(text_of(&SubscribeCommand.finish("news", &ok_rows(vec![]))), "Subscribed to `news`.");
    assert_eq!(error_of(&SubscribeCommand.finish("news", &failed("subscribe failed: locked"))), "DB error: subscribe failed: locked");
}

#[test]
fn unsubscribe_answers() {
    let r = UnsubscribeCommand.prepare(&ctx(&[])).err().unwrap();
    assert_eq!(error_of(&r), "Usage: /unsubscribe <topic>");
    let q = UnsubscribeCommand.prepare(&ctx(&["news"])).ok().unwrap();
    assert_eq!(q.sql, "DELETE FROM subscriptions WHERE platform = ? AND room_id = ? AND topic = ?");
    assert_eq!(text_of(&UnsubscribeCommand.finish("news", &ok_rows(vec![]))), "Unsubscribed from `news`.");
}

#[test]
fn subscriptions_listing() {
    let sub = |topic: &str| {
        row(&[
            ("id", SqlValue::Int(1)),
            ("platform", t("matrix")),
            ("room_id", t("!room")),
            ("topic", t(topic)),
            ("created_at", t("now")),
        ])
    };
    assert_eq!(text_of(&SubscriptionsCommand.finish(&ok_rows(vec![]))), "No active subscriptions.");
    assert_eq!(
        text_of(&SubscriptionsCommand.finish(&ok_rows(vec![sub("a.b"), sub("c.**")]))),
        "Active subscriptions:\n  • a.b\n  • c.**"
    );
    assert_eq!(error_of(&SubscriptionsCommand.finish(&failed("x"))), "DB error: x");
}

#[test]
fn subscriptions_with_bad_row_is_db_error() {
    let bad = row(&[("id", SqlValue::Int(1))]);
    assert_eq!(
        error_of(&SubscriptionsCommand.finish(&ok_rows(vec![bad]))),
        "DB error: missing column platform"
    );
}

fn child(name: &str, pid: Option<i64>) -> DbRow {
    row(&[
        ("id", SqlValue::Int(7)),
        ("name", t(name)),
        ("bot_type", t("broadcast")),
        ("data_dir", t("/var/lib/fs-bots/x")),
        ("status", t("running")),
        ("pid", match pid { Some(p) => SqlValue::Int(p), None => SqlValue::Null }),
        ("created_at", t("2024-01-01")),
        ("started_at", SqlValue::Null),
    ])
}

#[test]
fn bots_listing() {
    assert_eq!(
        text_of(&BotsCommand.finish(&ok_rows(vec![]))),
        "No child bots registered. Use /bot-create <name> <type>."
    );
    assert_eq!(
        text_of(&BotsCommand.finish(&ok_rows(vec![child("news", Some(42)), child("gate", None)]))),
        "Child bots:\n  • news [broadcast] — running (pid 42)\n  • gate [broadcast] — running"
    );
}

#[test]
fn bot_create_needs_two_arguments() {
    let r = BotCreateCommand.prepare(&ctx(&["only"])).err().unwrap();
    assert_eq!(error_of(&r), "Usage: /bot-create <name> <type>");
    let q = BotCreateCommand.prepare(&ctx(&["news", "broadcast"])).ok().unwrap();
    assert!(matches!(&q.params[2], SqlValue::Text(s) if s == "/var/lib/fs-bots/news"));
    assert_eq!(
        text_of(&BotCreateCommand.finish("news", "broadcast", &ok_rows(vec![]))),
        "Child bot `news` (broadcast) registered.\nData dir: /var/lib/fs-bots/news"
    );
}

#[test]
fn bot_status_card_and_not_found() {
    let r = BotStatusCommand.prepare(&ctx(&[])).err().unwrap();
    assert_eq!(error_of(&r), "Usage: /bot-status <name>");
    let rows = vec![child("news", Some(42))];
    assert_eq!(
        text_of(&BotStatusCommand.finish("news", &ok_rows(rows))),
        "Bot:      news\nType:     broadcast\nStatus:   running\nPID:      42\nData:     /var/lib/fs-bots/x\nCreated:  2024-01-01"
    );
    assert_eq!(
        error_of(&BotStatusCommand.finish("other", &ok_rows(vec![child("news", None)]))),
        "Bot `other` not found."
    );
}

#[test]
fn bot_logs_limit() {
    assert_eq!(BotLogsCommand.limit(&ctx(&[])), 10);
    assert_eq!(BotLogsCommand.limit(&ctx(&["5"])), 5);
    assert_eq!(BotLogsCommand.limit(&ctx(&["500"])), 50);
    assert_eq!(BotLogsCommand.limit(&ctx(&["many"])), 10);
    assert_eq!(BotLogsCommand.limit(&ctx(&["+7"])), 7);
    assert_eq!(BotLogsCommand.limit(&ctx(&["-1"])), 10);
    let q = BotLogsCommand.prepare(&ctx(&["3"]));
    assert!(matches!(&q.params[0], SqlValue::UInt(3)));
}

#[test]
fn bot_logs_listing() {
    let entry = row(&[
        ("id", SqlValue::Int(1)),
        ("actor_type", t("user")),
        ("actor_id", t("@alice")),
        ("platform", t("matrix")),
        ("room_id", SqlValue::Null),
        ("action", t("ping")),
        ("target", SqlValue::Null),
        ("result", t("ok")),
        ("detail", SqlValue::Null),
        ("created_at", t("T1")),
    ]);
    assert_eq!(text_of(&BotLogsCommand.finish(10, &ok_rows(vec![]))), "Audit log is empty.");
    assert_eq!(
        text_of(&BotLogsCommand.finish(10, &ok_rows(vec![entry]))),
        "Last 10 audit entries:\n[T1] user/@alice — ping → ok"
    );
}

fn request(id: i64, user: &str) -> DbRow {
    row(&[
        ("id", SqlValue::Int(id)),
        ("platform", t("matrix")),
        ("room_id", t("!room")),
        ("user_id", t(user)),
        ("status", t("pending")),
        ("iam_result", SqlValue::Null),
        ("created_at", t("T")),
        ("resolved_at", SqlValue::Null),
    ])
}

#[test]
fn verify_flow() {
    let r = VerifyCommand.prepare(&ctx(&[])).err().unwrap();
    assert_eq!(error_of(&r), "Usage: /verify <user_id>");
    let existing = VerifyCommand
        .after_pending("matrix", "!room", "@bob", &ok_rows(vec![request(3, "@bob")]))
        .err()
        .unwrap();
    assert_eq!(text_of(&existing), "Request #3 for user `@bob` already exists (status: pending).");
    let insert = VerifyCommand.after_pending("matrix", "!room", "@carol", &ok_rows(vec![request(3, "@bob")])).ok().unwrap();
    assert!(insert.sql.starts_with("INSERT INTO join_requests"));
    let read_back = VerifyCommand.after_insert(&ok_rows(vec![])).ok().unwrap();
    assert_eq!(read_back.sql, "SELECT last_insert_rowid() AS id");
    let id_row = row(&[("id", SqlValue::Int(9))]);
    assert_eq!(
        text_of(&VerifyCommand.finish("@carol", &ok_rows(vec![id_row]))),
        "Join request #9 queued for `@carol`. IAM check pending (Phase P). Use /approve 9 or /deny 9."
    );
    assert_eq!(
        error_of(&VerifyCommand.finish("@carol", &ok_rows(vec![]))),
        "DB error: add_join_request: no rowid returned"
    );
}

#[test]
fn approve_and_deny() {
    assert_eq!(error_of(&ApproveCommand.prepare(&ctx(&[])).err().unwrap()), "Usage: /approve <request_id>");
    assert_eq!(error_of(&ApproveCommand.prepare(&ctx(&["abc"])).err().unwrap()), "Request ID must be a number.");
    let q = ApproveCommand.prepare(&ctx(&["12"])).ok().unwrap();
    assert!(matches!(&q.params[0], SqlValue::Text(s) if s == "approved"));
    assert!(matches!(&q.params[3], SqlValue::Int(12)));
    assert_eq!(
        error_of(&ApproveCommand.after_resolve(12, &failed("resolve_join_request failed: busy")).err().unwrap()),
        "resolve_join_request failed: busy"
    );
    assert_eq!(
        text_of(&ApproveCommand.finish(12, &ok_rows(vec![request(12, "@bob")]))),
        "Request #12 approved. User `@bob` can now be invited."
    );
    assert_eq!(
        text_of(&ApproveCommand.finish(12, &ok_rows(vec![]))),
        "Request #12 approved. User `unknown` can now be invited."
    );
    assert_eq!(error_of(&DenyCommand.prepare(&ctx(&[])).err().unwrap()), "Usage: /deny <request_id>");
    assert_eq!(text_of(&DenyCommand.finish(-4, &ok_rows(vec![]))), "Request #-4 denied.");
    assert_eq!(error_of(&DenyCommand.finish(4, &failed("boom"))), "boom");
}

#[test]
fn sync_start_and_stop() {
    assert_eq!(
        error_of(&SyncStartCommand.prepare(&ctx(&["telegram"])).err().unwrap()),
        "Usage: /sync-start <target_platform> <target_room>"
    );
    let q = SyncStartCommand.prepare(&ctx(&["telegram", "42"])).ok().unwrap();
    assert!(matches!(&q.params[4], SqlValue::Text(s) if s == "both"));
    assert!(matches!(&q.params[5], SqlValue::Int(0)));
    let id_row = row(&[("id", SqlValue::Int(5))]);
    assert_eq!(
        text_of(&SyncStartCommand.finish("matrix", "!room", "telegram", "42", &ok_rows(vec![id_row]))),
        "Sync rule #5 created: matrix/!room ↔ telegram/42"
    );
    assert_eq!(
        error_of(&SyncStartCommand.finish("matrix", "!room", "telegram", "42", &ok_rows(vec![]))),
        "Error creating sync rule: sync rule not found after upsert"
    );
    assert_eq!(
        error_of(&SyncStopCommand.prepare(&ctx(&[])).err().unwrap()),
        "Usage: /sync-stop <target_platform> <target_room>"
    );
    let stopped = SyncStopCommand.finish("telegram", "42", &Ok(DbRows { rows: vec![], rows_affected: 1 }));
    assert_eq!(text_of(&stopped), "Sync with telegram/42 stopped.");
    let none = SyncStopCommand.finish("telegram", "42", &Ok(DbRows { rows: vec![], rows_affected: 0 }));
    assert_eq!(error_of(&none), "No active sync rule found for those rooms.");
    assert_eq!(error_of(&SyncStopCommand.finish("telegram", "42", &failed("x"))), "Error: x");
}

fn rule(id: i64, direction: &str, members: i64) -> DbRow {
    row(&[
        ("id", SqlValue::Int(id)),
        ("source_platform", t("matrix")),
        ("source_room", t("!a")),
        ("target_platform", t("telegram")),
        ("target_room", t("42")),
        ("direction", t(direction)),
        ("sync_members", SqlValue::Int(members)),
        ("enabled", SqlValue::Int(1)),
        ("created_at", t("T")),
    ])
}

#[test]
fn sync_status_listing() {
    assert_eq!(text_of(&SyncStatusCommand.finish(&ok_rows(vec![]))), "No active sync rules for this room.");
    assert_eq!(
        text_of(&SyncStatusCommand.finish(&ok_rows(vec![rule(1, "both", 0), rule(2, "to_target", 1), rule(3, "to_source", 0)]))),
        "Active sync rules:\n  #1 matrix/!a ↔ telegram/42 (members=no)\n  #2 matrix/!a → telegram/42 (members=yes)\n  #3 matrix/!a ← telegram/42 (members=no)"
    );
}

#[test]
fn registry_finds_commands_by_name() {
    let mut reg = CommandRegistry::new();
    reg.register(CommandKind::Ping);
    reg.register(CommandKind::SyncStatus);
    assert_eq!(reg.find("sync-status"), Some(CommandKind::SyncStatus));
    assert_eq!(reg.find("ping"), Some(CommandKind::Ping));
    assert_eq!(reg.find("pong"), None);
}

#[test]
fn command_metadata() {
    assert_eq!(CommandKind::BotCreate.name(), "bot-create");
    assert_eq!(CommandKind::BotCreate.required_right(), Right::Admin);
    assert_eq!(CommandKind::Ping.required_right(), Right::Anyone);
    assert_eq!(CommandKind::BotLogs.usage(), Some("bot-logs [limit]"));
    assert_eq!(CommandKind::Ping.usage(), None);
    assert_eq!(CommandKind::Termine.description(), "Show upcoming calendar events");
}
