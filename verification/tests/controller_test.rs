use fs_bots::ui::controller::BotController;
use fs_bots::ui::model::{BotKind, MessagingBot, MessagingBotsConfig};

#[test]
fn new_controller_loads_bots() {
    let ctrl = BotController::new();
    // Demo bots are returned when config is empty.
    assert!(!ctrl.list().is_empty());
}

#[test]
fn enable_disable_known_bot() {
    let mut ctrl = BotController::new();
    let bots = ctrl.list();
    let id = bots[0].id.clone();
    assert!(ctrl.disable(&id));
    assert!(!ctrl.get(&id).unwrap().enabled);
    assert!(ctrl.enable(&id));
    assert!(ctrl.get(&id).unwrap().enabled);
}

#[test]
fn unknown_bot_returns_false() {
    let mut ctrl = BotController::new();
    assert!(!ctrl.enable("nonexistent-id"));
    assert!(!ctrl.disable("nonexistent-id"));
}

#[test]
fn bot_kind_label_broadcast() {
    assert_eq!(BotKind::Broadcast.label(), "Broadcast");
}

#[test]
fn bot_kind_label_gatekeeper() {
    assert_eq!(BotKind::Gatekeeper.label(), "Gatekeeper");
}

#[test]
fn bot_kind_label_monitor() {
    assert_eq!(BotKind::Monitor.label(), "Monitor");
}

#[test]
fn digest_label() {
    assert_eq!(BotKind::Digest.label(), "Digest");
}

#[test]
fn demo_bots_are_the_default() {
    let ctrl = BotController::new();
    let bots = ctrl.list();
    assert_eq!(bots.len(), 3);
    assert_eq!(bots[0].id, "demo-broadcast");
    assert_eq!(bots[1].id, "demo-gatekeeper");
    assert_eq!(bots[2].id, "demo-monitor");
    assert!(bots[0].enabled);
    assert!(!bots[2].enabled);
}

#[test]
fn get_unknown_is_none() {
    let ctrl = BotController::new();
    assert!(ctrl.get("nonexistent-id").is_none());
}

#[test]
fn configured_bots_replace_demo_bots() {
    let mut config = MessagingBotsConfig::default();
    config.bots.push(MessagingBot {
        id: "b1".to_string(),
        name: "One".to_string(),
        kind: BotKind::Digest,
        enabled: false,
        targets: vec![],
    });
    let mut ctrl = BotController::from_config(config);
    let bots = ctrl.list();
    assert_eq!(bots.len(), 1);
    assert_eq!(bots[0].id, "b1");
    assert!(ctrl.enable("b1"));
    assert!(ctrl.get("b1").unwrap().enabled);
}

#[test]
fn disable_then_enable_restores_state() {
    let mut ctrl = BotController::new();
    let before = ctrl.get("demo-gatekeeper").unwrap().enabled;
    assert!(ctrl.disable("demo-gatekeeper"));
    assert!(ctrl.enable("demo-gatekeeper"));
    assert_eq!(ctrl.get("demo-gatekeeper").unwrap().enabled, before);
    // The other bots are untouched.
    assert!(!ctrl.get("demo-monitor").unwrap().enabled);
}

#[test]
fn enabling_twice_is_idempotent() {
    let mut ctrl = BotController::new();
    assert!(ctrl.enable("demo-monitor"));
    assert!(ctrl.enable("demo-monitor"));
    assert!(ctrl.get("demo-monitor").unwrap().enabled);
    assert_eq!(ctrl.list().len(), 3);
}
