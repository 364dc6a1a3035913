use fs_bots::db::row::{BotDb, DbError, DbQuery, DbRow, DbRows, SqlValue};
use fs_bots::db::schema::SchemaStep;
use fs_bots::db::sync_db::{SyncDb, SCHEMA};
use fs_bots::handlers::sync::SyncHandler;
use fs_bots::json::Json;
use fs_bots::text::parse_u16;
use fs_bots::trigger::TriggerEvent;
use fs_bots::ui::daemon::{port_or_default, DEFAULT_GRPC_PORT, DEFAULT_REST_PORT};

fn rows(n: usize, affected: u64) -> DbRows {
    let mut v = Vec::new();
    for _ in 0..n {
        v.push(DbRow { columns: vec!["id".to_string()], values: vec![SqlValue::Int(1)] });
    }
    DbRows { rows: v, rows_affected: affected }
}

fn text_param(q: &DbQuery, i: usize) -> String {
    match &q.params[i] {
        SqlValue::Text(s) => s.clone(),
        _ => panic!("parameter {i} is not text"),
    }
}

#[test]
fn set_child_bot_status_needs_a_bot() {
    let q = BotDb::set_child_bot_status("news", "running", Some(9));
    assert_eq!(text_param(&q, 0), "running");
    assert!(matches!(q.params[1], SqlValue::Int(9)));
    assert_eq!(text_param(&q, 2), "news");
    assert!(BotDb::set_child_bot_status_result("news", &Ok(rows(0, 1))).is_ok());
    let e = BotDb::set_child_bot_status_result("ghost", &Ok(rows(0, 0))).err().unwrap();
    assert_eq!(e.message, "set_child_bot_status: no child bot named ghost");
    let failed: Result<DbRows, DbError> = Err(DbError { message: "set_child_bot_status failed: busy".to_string() });
    assert_eq!(BotDb::set_child_bot_status_result("news", &failed).err().unwrap().message, "set_child_bot_status failed: busy");
}

#[test]
fn schema_is_applied_in_order_until_a_failure() {
    let schema = "CREATE TABLE a (x); CREATE TABLE b (y);";
    let mut outcomes: Vec<Result<DbRows, DbError>> = Vec::new();
    match BotDb::apply_schema_step(schema, &outcomes) {
        SchemaStep::Run(q) => assert_eq!(q.sql, "CREATE TABLE a (x)"),
        _ => panic!("expected the first statement"),
    }
    outcomes.push(Ok(rows(0, 0)));
    match BotDb::apply_schema_step(schema, &outcomes) {
        SchemaStep::Run(q) => assert_eq!(q.sql, "CREATE TABLE b (y)"),
        _ => panic!("expected the second statement"),
    }
    outcomes.push(Ok(rows(0, 0)));
    assert!(matches!(BotDb::apply_schema_step(schema, &outcomes), SchemaStep::Done(Ok(()))));
    let failed = vec![Ok(rows(0, 0)), Err(DbError { message: "schema statement failed: syntax".to_string() })];
    match BotDb::apply_schema_step(schema, &failed) {
        SchemaStep::Done(Err(e)) => assert_eq!(e.message, "schema statement failed: syntax"),
        _ => panic!("expected the failure"),
    }
    let early = vec![Err(DbError { message: "x".to_string() })];
    assert!(matches!(BotDb::apply_schema_step(schema, &early), SchemaStep::Done(Err(_))));
}

#[test]
fn ports_from_the_environment() {
    assert_eq!(port_or_default(None, DEFAULT_REST_PORT), 8094);
    assert_eq!(port_or_default(Some("9000"), DEFAULT_REST_PORT), 9000);
    assert_eq!(port_or_default(Some("70000"), DEFAULT_GRPC_PORT), 50094);
    assert_eq!(port_or_default(Some("http"), DEFAULT_GRPC_PORT), 50094);
    for s in ["0", "65535", "65536", "+80", "-1", "", "8o"] {
        assert_eq!(parse_u16(s), s.parse::<u16>().ok(), "{s}");
    }
}

#[test]
fn failed_rule_lookup_plans_nothing() {
    let payload = Json::Object(vec![
        ("platform".to_string(), Json::Str("matrix".to_string())),
        ("room_id".to_string(), Json::Str("!a".to_string())),
        ("text".to_string(), Json::Str("hi".to_string())),
        ("message_id".to_string(), Json::Str("m".to_string())),
    ]);
    let msg = SyncHandler::parse(&TriggerEvent { topic: "chat.message".to_string(), payload }).unwrap();
    let q = SyncHandler::rules_statement(&msg);
    assert_eq!(text_param(&q, 0), "matrix");
    let plan = SyncHandler::plan_after_rules(&msg, Err::<Vec<fs_bots::db::sync::SyncRule>, String>("down".to_string()));
    assert!(plan.is_empty());
    assert!(SyncHandler::actions(&msg, &plan, &vec![]).is_empty());
}

#[test]
fn statements_are_stamped_in_utc() {
    let q = BotDb::subscribe("matrix", "!a", "news");
    let stamp = text_param(&q, 3);
    assert!(stamp.ends_with("+00:00"));
    assert!(stamp.len() >= 25);
}

#[test]
fn failure_without_context_keeps_the_engine_message() {
    let q = SyncDb::new().migrate();
    assert_eq!(q.sql, SCHEMA);
    assert_eq!(q.failure("table locked").message, "table locked");
}

#[test]
fn sync_db_statements() {
    let db = SyncDb::new();
    let q = db.create_rule_at("matrix", "!a", "telegram", "42", "both", true, "T");
    assert!(q.sql.ends_with("RETURNING id"));
    assert!(matches!(q.params[5], SqlValue::Int(1)));
    assert_eq!(db.created_rule_id(&rows(1, 0)).ok(), Some(1));
    assert_eq!(
        db.created_rule_id(&rows(0, 0)).err().unwrap().message,
        "no rows returned by a query that expected to return at least one row"
    );
    assert!(db.disabled(&rows(0, 1)));
    assert!(!db.disabled(&rows(0, 0)));
    let q = db.active_rules_for("matrix", "!a");
    assert_eq!(q.params.len(), 4);
    let rule_row = DbRow {
        columns: vec![],
        values: vec![
            SqlValue::Int(3),
            SqlValue::Text("matrix".to_string()),
            SqlValue::Text("!a".to_string()),
            SqlValue::Text("telegram".to_string()),
            SqlValue::Text("42".to_string()),
            SqlValue::Text("to_target".to_string()),
            SqlValue::Int(2),
        ],
    };
    let rules = db.rules_rows(&DbRows { rows: vec![rule_row], rows_affected: 0 });
    assert_eq!(rules.len(), 1);
    assert_eq!(rules[0].id, 3);
    assert_eq!(rules[0].target_room, "42");
    assert!(rules[0].sync_members);
    assert!(db.record_forward(3, "a→b", "m", &rows(1, 0)).is_none());
    let ins = db.record_forward(3, "a→b", "m", &rows(0, 0)).unwrap();
    assert!(text_param(&ins, 3).ends_with("+00:00"));
    assert_eq!(db.all_active_rules().params.len(), 0);
}

fn chat(message_id: &str) -> fs_bots::handlers::sync::ChatMessage {
    let payload = Json::Object(vec![
        ("platform".to_string(), Json::Str("matrix".to_string())),
        ("room_id".to_string(), Json::Str("!a".to_string())),
        ("text".to_string(), Json::Str("hi".to_string())),
        ("message_id".to_string(), Json::Str(message_id.to_string())),
    ]);
    SyncHandler::parse(&TriggerEvent { topic: "chat.message".to_string(), payload }).unwrap()
}

fn both_rule(id: i64, target: &str) -> fs_bots::db::sync::SyncRule {
    fs_bots::db::sync::SyncRule {
        id,
        source_platform: "matrix".to_string(),
        source_room: "!a".to_string(),
        target_platform: "telegram".to_string(),
        target_room: target.to_string(),
        direction: "both".to_string(),
        sync_members: false,
    }
}

#[test]
fn one_dedup_check_per_forward_only_with_a_message_id() {
    let rules = vec![both_rule(1, "42"), both_rule(2, "43")];
    let msg = chat("m7");
    let plan = SyncHandler::plan(&msg, &rules);
    let checks = SyncHandler::dedup_checks(&msg, &plan);
    assert_eq!(checks.len(), 2);
    assert!(matches!(checks[1].params[0], SqlValue::Int(2)));
    assert_eq!(text_param(&checks[0], 1), "matrix→telegram");
    assert_eq!(text_param(&checks[0], 2), "m7");
    let anonymous = chat("");
    let plan = SyncHandler::plan(&anonymous, &rules);
    assert_eq!(plan.len(), 2);
    assert!(SyncHandler::dedup_checks(&anonymous, &plan).is_empty());
}

#[test]
fn json_well_formedness() {
    let s = |v: &str| Json::Str(v.to_string());
    let ok = Json::Object(vec![
        ("a".to_string(), s("x")),
        ("b".to_string(), Json::Array(vec![Json::Object(vec![("c".to_string(), Json::Null)])])),
    ]);
    assert!(ok.is_well_formed());
    let dup = Json::Object(vec![("a".to_string(), s("x")), ("a".to_string(), s("y"))]);
    assert!(!dup.is_well_formed());
    let nested = Json::Array(vec![Json::Null, dup]);
    assert!(!nested.is_well_formed());
    assert!(Json::Number("1".to_string()).is_well_formed());
}
