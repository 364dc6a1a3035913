use fs_bots::db::sync::SyncRule;
use fs_bots::handlers::broadcast::BroadcastHandler;
use fs_bots::handlers::calendar::CalendarHandler;
use fs_bots::handlers::control::ControlHandler;
use fs_bots::handlers::gatekeeper::GatekeeperHandler;
use fs_bots::handlers::sync::SyncHandler;
use fs_bots::json::Json;
use fs_bots::trigger::{TriggerAction, TriggerEvent};

fn s(v: &str) -> Json {
    Json::Str(v.to_string())
}

fn obj(fields: Vec<(&str, Json)>) -> Json {
    Json::Object(fields.into_iter().map(|(k, v)| (k.to_string(), v)).collect())
}

fn event(topic: &str, payload: Json) -> TriggerEvent {
    TriggerEvent { topic: topic.to_string(), payload }
}

fn room_msg(a: &TriggerAction) -> (String, String, String) {
    match a {
        TriggerAction::SendToRoom { platform, room_id, text } => (platform.clone(), room_id.clone(), text.clone()),
        _ => panic!("not a room message"),
    }
}

fn dm(a: &TriggerAction) -> (String, String, String) {
    match a {
        TriggerAction::SendDm { platform, user_id, text } => (platform.clone(), user_id.clone(), text.clone()),
        _ => panic!("not a DM"),
    }
}

#[test]
fn handler_topics() {
    assert_eq!(BroadcastHandler::new().topics(), vec!["**".to_string()]);
    assert_eq!(CalendarHandler.topics(), vec!["calendar.event.*".to_string()]);
    assert_eq!(ControlHandler.topics(), vec!["bot.**".to_string()]);
    assert_eq!(GatekeeperHandler::new().topics(), vec!["chat.join_request".to_string()]);
    assert_eq!(SyncHandler::new().topics(), vec!["chat.message".to_string()]);
}

#[test]
fn broadcast_forwards_to_every_subscriber() {
    let h = BroadcastHandler::new();
    let subs: Result<Vec<(String, String)>, ()> =
        Ok(vec![("matrix".to_string(), "!a".to_string()), ("telegram".to_string(), "42".to_string())]);
    let out = h.on_event(&event("news.posted", s("hello")), subs);
    assert_eq!(out.len(), 2);
    assert_eq!(room_msg(&out[0]), ("matrix".to_string(), "!a".to_string(), "[news.posted] hello".to_string()));
    assert_eq!(room_msg(&out[1]).2, "[news.posted] hello");
}

#[test]
fn broadcast_renders_structured_payload_as_json() {
    let p = obj(vec![("n", Json::Number("3".to_string())), ("ok", Json::Bool(true)), ("x", Json::Null)]);
    assert_eq!(BroadcastHandler::payload_text(&p), "{\"n\":3,\"ok\":true,\"x\":null}");
    let arr = Json::Array(vec![s("a\"b"), Json::Array(vec![])]);
    assert_eq!(BroadcastHandler::payload_text(&arr), "[\"a\\\"b\",[]]");
}

#[test]
fn broadcast_is_silent_when_subscriptions_fail() {
    let subs: Result<Vec<(String, String)>, String> = Err("db down".to_string());
    assert!(BroadcastHandler::new().on_event(&event("a", s("x")), subs).is_empty());
}

#[test]
fn calendar_reminders() {
    let p = obj(vec![
        ("title", s("Standup")),
        ("time", s("09:00")),
        ("location", s("Room 1")),
        ("rooms", Json::Array(vec![obj(vec![("platform", s("matrix")), ("room_id", s("!a"))]), obj(vec![("platform", s("matrix"))])])),
        ("participants", Json::Array(vec![obj(vec![("platform", s("telegram")), ("user_id", s("7"))])])),
    ]);
    let out = CalendarHandler.on_event(&event("calendar.event.created", p));
    assert_eq!(out.len(), 2);
    let text = "📅 Upcoming: **Standup**\n🕐 09:00\n📍 Room 1".to_string();
    assert_eq!(room_msg(&out[0]), ("matrix".to_string(), "!a".to_string(), text.clone()));
    assert_eq!(dm(&out[1]), ("telegram".to_string(), "7".to_string(), format!("{text}\nThis event includes you.")));
}

#[test]
fn calendar_defaults() {
    let p = obj(vec![("rooms", Json::Array(vec![obj(vec![("platform", s("m")), ("room_id", s("r"))])]))]);
    let out = CalendarHandler.on_event(&event("calendar.event.x", p));
    assert_eq!(room_msg(&out[0]).2, "📅 Upcoming: **Unnamed event**\n🕐 (time unknown)");
}

#[test]
fn control_answers_nothing() {
    assert!(ControlHandler.on_event(&event("bot.started", Json::Null)).is_empty());
}

#[test]
fn gatekeeper_parses_and_announces() {
    let p = obj(vec![("platform", s("matrix")), ("room_id", s("!a")), ("user_id", s("@bob"))]);
    let req = GatekeeperHandler::parse(&event("chat.join_request", p)).unwrap();
    assert_eq!(req.user_name, "@bob");
    let q = GatekeeperHandler::queue_statement_at(&req, "T");
    assert_eq!(q.params.len(), 4);
    let out = GatekeeperHandler::on_queued::<()>(&req, Ok(5));
    assert_eq!(
        room_msg(&out[0]),
        ("matrix".to_string(), "!a".to_string(), "Join request #5 from `@bob` (@bob).\nUse /approve 5 or /deny 5.".to_string())
    );
    assert!(GatekeeperHandler::on_queued(&req, Err("x")).is_empty());
}

#[test]
fn gatekeeper_rejects_malformed_payload() {
    let p = obj(vec![("platform", s("matrix")), ("room_id", s("")), ("user_id", s("@bob"))]);
    assert!(GatekeeperHandler::parse(&event("chat.join_request", p)).is_none());
}

fn rule(id: i64, sp: &str, sr: &str, tp: &str, tr: &str, direction: &str) -> SyncRule {
    SyncRule {
        id,
        source_platform: sp.to_string(),
        source_room: sr.to_string(),
        target_platform: tp.to_string(),
        target_room: tr.to_string(),
        direction: direction.to_string(),
        sync_members: false,
    }
}

#[test]
fn sync_routes_both_ways() {
    let r = rule(1, "matrix", "!a", "telegram", "42", "both");
    assert_eq!(SyncHandler::route(&r, "matrix", "!a"), Some(("telegram".to_string(), "42".to_string())));
    assert_eq!(SyncHandler::route(&r, "telegram", "42"), Some(("matrix".to_string(), "!a".to_string())));
    let one_way = rule(2, "matrix", "!a", "telegram", "42", "to_target");
    assert_eq!(SyncHandler::route(&one_way, "telegram", "42"), None);
    let back = rule(3, "matrix", "!a", "telegram", "42", "to_source");
    assert_eq!(SyncHandler::route(&back, "matrix", "!a"), None);
    assert_eq!(SyncHandler::route(&back, "telegram", "42"), None);
}

#[test]
fn sync_plans_and_deduplicates() {
    let p = obj(vec![
        ("platform", s("matrix")),
        ("room_id", s("!a")),
        ("text", s("hi")),
        ("sender", s("@al")),
        ("message_id", s("m1")),
    ]);
    let msg = SyncHandler::parse(&event("chat.message", p)).unwrap();
    let rules = vec![
        rule(1, "matrix", "!a", "telegram", "42", "both"),
        rule(2, "slack", "C1", "matrix", "!a", "both"),
        rule(3, "matrix", "!b", "telegram", "43", "both"),
    ];
    let plan = SyncHandler::plan(&msg, &rules);
    assert_eq!(plan.len(), 2);
    assert_eq!(plan[0].direction_key, "matrix→telegram");
    assert_eq!(plan[1].platform, "slack");
    assert_eq!(SyncHandler::forwarded_text(&msg), "[matrix/!a] <@al> hi");
    let out = SyncHandler::actions(&msg, &plan, &vec![Some(true), Some(false)]);
    assert_eq!(out.len(), 1);
    assert_eq!(room_msg(&out[0]), ("telegram".to_string(), "42".to_string(), "[matrix/!a] <@al> hi".to_string()));
    let q = SyncHandler::dedup_check(&msg, &plan[0]);
    assert_eq!(q.sql, "SELECT id FROM sync_messages WHERE rule_id = ? AND direction = ? AND msg_id_src = ?");
}

#[test]
fn sync_without_message_id_always_forwards() {
    let p = obj(vec![("platform", s("matrix")), ("room_id", s("!a")), ("text", s("hi"))]);
    let msg = SyncHandler::parse(&event("chat.message", p)).unwrap();
    assert_eq!(msg.sender, "unknown");
    let plan = SyncHandler::plan(&msg, &vec![rule(1, "matrix", "!a", "telegram", "42", "both")]);
    let out = SyncHandler::actions(&msg, &plan, &vec![Some(false)]);
    assert_eq!(out.len(), 1);
}

#[test]
fn sync_ignores_malformed_message() {
    let p = obj(vec![("platform", s("matrix")), ("text", s("hi"))]);
    assert!(SyncHandler::parse(&event("chat.message", p)).is_none());
}
