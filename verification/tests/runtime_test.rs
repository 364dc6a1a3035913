use fs_bots::commands::registry::CommandKind;
use fs_bots::json::Json;
use fs_bots::runtime::{assemble, AuditLog};
use fs_bots::db::row::SqlValue;
use fs_bots::trigger::{HandlerKind, TriggerEngine, TriggerEvent};

#[test]
fn assembled_runtime_finds_every_command() {
    let (registry, _engine) = assemble(AuditLog::new());
    for (name, kind) in [
        ("ping", CommandKind::Ping),
        ("status", CommandKind::Status),
        ("subscribe", CommandKind::Subscribe),
        ("unsubscribe", CommandKind::Unsubscribe),
        ("subscriptions", CommandKind::Subscriptions),
        ("verify", CommandKind::Verify),
        ("approve", CommandKind::Approve),
        ("deny", CommandKind::Deny),
        ("termine", CommandKind::Termine),
        ("bots", CommandKind::Bots),
        ("bot-create", CommandKind::BotCreate),
        ("bot-status", CommandKind::BotStatus),
        ("bot-logs", CommandKind::BotLogs),
        ("sync-start", CommandKind::SyncStart),
        ("sync-stop", CommandKind::SyncStop),
        ("sync-status", CommandKind::SyncStatus),
    ] {
        assert_eq!(registry.find(name), Some(kind));
    }
    assert_eq!(registry.find("help"), None);
}

#[test]
fn assembled_runtime_dispatches_by_topic() {
    let (_registry, engine) = assemble(AuditLog::new());
    assert_eq!(
        engine.dispatch_targets("chat.message"),
        vec![HandlerKind::Broadcast, HandlerKind::Sync]
    );
    assert_eq!(
        engine.dispatch_targets("calendar.event.created"),
        vec![HandlerKind::Broadcast, HandlerKind::Calendar]
    );
    assert_eq!(engine.dispatch_targets("bot.child.started"), vec![HandlerKind::Broadcast, HandlerKind::Control]);
    assert_eq!(
        engine.subscribed_topics(),
        vec!["**", "bot.**", "calendar.event.*", "chat.join_request", "chat.message"]
    );
}

#[test]
fn dispatch_records_an_audit_entry() {
    let mut engine = TriggerEngine::new(AuditLog::new());
    engine.register(HandlerKind::Gatekeeper);
    engine.register_boxed(Box::new(HandlerKind::Control));
    let ev = TriggerEvent { topic: "chat.join_request".to_string(), payload: Json::Null };
    let (targets, q) = engine.dispatch(&ev);
    assert_eq!(targets, vec![HandlerKind::Gatekeeper]);
    assert!(matches!(&q.params[4], SqlValue::Text(s) if s == "trigger.dispatch:chat.join_request"));
    assert!(matches!(&q.params[6], SqlValue::Text(s) if s == "ok"));
    assert!(engine.dispatch_targets("other").is_empty());
}

#[test]
fn handler_kinds_match_topics() {
    assert!(HandlerKind::Sync.handles("chat.message"));
    assert!(!HandlerKind::Sync.handles("chat.join_request"));
    assert!(HandlerKind::Broadcast.handles("anything.at.all"));
}
