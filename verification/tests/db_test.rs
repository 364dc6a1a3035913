use fs_bots::db::audit::AuditEntry;
use fs_bots::db::entities::child_bot;
use fs_bots::db::room::GroupFilter;
use fs_bots::db::row::{decode_rows, first_int, BotDb, DbQuery, DbRow, DbRows, SqlValue};
use fs_bots::runtime::AuditLog;

fn text_param(q: &DbQuery, i: usize) -> String {
    match &q.params[i] {
        SqlValue::Text(s) => s.clone(),
        _ => panic!("parameter {i} is not text"),
    }
}

fn row(cols: Vec<(&str, SqlValue)>) -> DbRow {
    let mut r = DbRow { columns: vec![], values: vec![] };
    for (c, v) in cols {
        r.columns.push(c.to_string());
        r.values.push(v);
    }
    r
}

fn t(s: &str) -> SqlValue {
    SqlValue::Text(s.to_string())
}

#[test]
fn failure_message_starts_with_context() {
    let q = BotDb::get_meta("k");
    assert_eq!(q.failure("disk full").message, "get_meta query failed: disk full");
}

#[test]
fn filter_rooms_with_no_criteria() {
    let q = BotDb::filter_rooms(&GroupFilter::default());
    assert_eq!(q.sql, "SELECT * FROM known_rooms WHERE 1=1 ORDER BY room_name ASC");
    assert!(q.params.is_empty());
}

#[test]
fn filter_rooms_with_all_criteria() {
    let f = GroupFilter {
        platform: Some("matrix".to_string()),
        name_contains: Some("dev".to_string()),
        min_members: Some(2),
        max_members: Some(10),
    };
    let q = BotDb::filter_rooms(&f);
    assert_eq!(
        q.sql,
        "SELECT * FROM known_rooms WHERE 1=1 AND platform = ? AND room_name LIKE ? AND member_count >= ? AND member_count <= ? ORDER BY room_name ASC"
    );
    assert_eq!(text_param(&q, 0), "matrix");
    assert_eq!(text_param(&q, 1), "%dev%");
    assert!(matches!(q.params[2], SqlValue::Int(2)));
    assert!(matches!(q.params[3], SqlValue::Int(10)));
}

#[test]
fn filter_rooms_with_some_criteria() {
    let f = GroupFilter { platform: None, name_contains: None, min_members: Some(5), max_members: None };
    let q = BotDb::filter_rooms(&f);
    assert_eq!(q.sql, "SELECT * FROM known_rooms WHERE 1=1 AND member_count >= ? ORDER BY room_name ASC");
    assert_eq!(q.params.len(), 1);
}

#[test]
fn schema_statements_split_and_trim() {
    let qs = BotDb::schema_statements("PRAGMA foreign_keys = ON;\n\n  CREATE TABLE a (x INTEGER) ;  ;\n");
    assert_eq!(qs.len(), 2);
    assert_eq!(qs[0].sql, "PRAGMA foreign_keys = ON");
    assert_eq!(qs[1].sql, "CREATE TABLE a (x INTEGER)");
    assert!(qs[1].params.is_empty());
    assert_eq!(qs[1].context, "schema statement failed");
}

#[test]
fn audit_entry_statement() {
    let e = AuditEntry {
        actor_type: "user",
        actor_id: "@a",
        platform: Some("matrix"),
        room_id: None,
        action: "ping",
        target: None,
        result: "ok",
        detail: None,
    };
    let q = BotDb::audit_at(&e, "T0");
    assert_eq!(q.params.len(), 9);
    assert_eq!(text_param(&q, 0), "user");
    assert!(matches!(q.params[3], SqlValue::Null));
    assert_eq!(text_param(&q, 8), "T0");
}

#[test]
fn audit_log_actions() {
    let log = AuditLog::new();
    let q = log.system_action("trigger.dispatch:a", None, None, "ok", None);
    assert_eq!(text_param(&q, 0), "system");
    assert_eq!(text_param(&q, 1), "system");
    assert_eq!(text_param(&q, 4), "trigger.dispatch:a");
    let q = log.user_action("@u", "matrix", "!r", "ban", Some("@x"), "denied", Some("why"));
    assert_eq!(text_param(&q, 0), "user");
    assert_eq!(text_param(&q, 3), "!r");
    assert_eq!(text_param(&q, 5), "@x");
    assert_eq!(text_param(&q, 7), "why");
}

#[test]
fn offsets() {
    let q = BotDb::set_offset("telegram", "1", u64::MAX);
    assert!(matches!(q.params[2], SqlValue::Int(i64::MAX)));
    let rows = DbRows {
        rows: vec![row(vec![("platform", t("telegram")), ("room_id", t("1")), ("last_offset", SqlValue::Int(-3))])],
        rows_affected: 0,
    };
    assert_eq!(BotDb::get_offset_value(&rows), 0);
    let rows = DbRows {
        rows: vec![row(vec![("platform", t("telegram")), ("room_id", t("1")), ("last_offset", SqlValue::Int(77))])],
        rows_affected: 0,
    };
    assert_eq!(BotDb::get_offset_value(&rows), 77);
    assert_eq!(BotDb::get_offset_value(&DbRows { rows: vec![], rows_affected: 0 }), 0);
}

#[test]
fn meta_value() {
    let rows = DbRows { rows: vec![row(vec![("key", t("k")), ("value", t("v"))])], rows_affected: 0 };
    assert_eq!(BotDb::get_meta_value(&rows), Some("v".to_string()));
    assert_eq!(BotDb::get_meta_value(&DbRows { rows: vec![], rows_affected: 0 }), None);
}

#[test]
fn row_access_errors() {
    let r = row(vec![("id", t("x")), ("name", SqlValue::Null)]);
    assert_eq!(r.get_i64("id").err().unwrap().message, "wrong type in column id");
    assert_eq!(r.get_string("bot_type").err().unwrap().message, "missing column bot_type");
    assert_eq!(r.get_opt_string("name").ok().unwrap(), None);
    assert_eq!(r.get_opt_i64("pid").ok().unwrap(), None);
}

#[test]
fn decode_stops_at_first_bad_row() {
    let good = row(vec![
        ("id", SqlValue::Int(1)),
        ("name", t("a")),
        ("bot_type", t("b")),
        ("data_dir", t("d")),
        ("status", t("stopped")),
        ("created_at", t("T")),
    ]);
    let bad = row(vec![("id", SqlValue::Int(2))]);
    let rows = DbRows { rows: vec![good, bad], rows_affected: 0 };
    let r = decode_rows::<child_bot::Model>(&rows);
    assert_eq!(r.err().unwrap().message, "missing column name");
}

#[test]
fn first_int_reads_first_column() {
    let rows = DbRows { rows: vec![row(vec![("id", SqlValue::Int(4))])], rows_affected: 0 };
    assert_eq!(first_int(&rows), Some(4));
    let rows = DbRows { rows: vec![row(vec![("id", t("4"))])], rows_affected: 0 };
    assert_eq!(first_int(&rows), None);
}

#[test]
fn record_forward_only_once() {
    let seen = DbRows { rows: vec![row(vec![("id", SqlValue::Int(1))])], rows_affected: 0 };
    assert!(BotDb::record_forward(1, "a→b", "m1", &seen).is_none());
    let fresh = DbRows { rows: vec![], rows_affected: 0 };
    let q = BotDb::record_forward(1, "a→b", "m1", &fresh).unwrap();
    assert_eq!(q.sql, "INSERT INTO sync_messages (rule_id, direction, msg_id_src, forwarded_at) VALUES (?, ?, ?, ?)");
    assert_eq!(text_param(&q, 1), "a→b");
}

#[test]
fn collection_statements() {
    let q = BotDb::create_collection_at("team", Some("all of us"), "T");
    assert_eq!(text_param(&q, 0), "team");
    assert_eq!(text_param(&q, 1), "all of us");
    let q = BotDb::delete_collection(3);
    assert!(matches!(q.params[0], SqlValue::Int(3)));
    let rows = DbRows { rows: vec![row(vec![("id", SqlValue::Int(11))])], rows_affected: 0 };
    assert_eq!(BotDb::create_collection_id(&rows).ok(), Some(11));
    let none = DbRows { rows: vec![], rows_affected: 0 };
    assert_eq!(BotDb::create_collection_id(&none).err().unwrap().message, "create_collection: no rowid returned");
}
