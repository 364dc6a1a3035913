use fs_bots::ui::cli::{run_cli, Command};
use fs_bots::ui::controller::BotController;
use fs_bots::ui::grpc::{to_proto, DisableBotRequest, EnableBotRequest, GetBotRequest, GrpcBotsApp};
use fs_bots::ui::rest::{disable_bot, enable_bot, get_bot, list_bots};

#[test]
fn cli_list_prints_padded_lines() {
    let mut ctrl = BotController::new();
    let r = run_cli(&Command::List, &mut ctrl);
    assert_eq!(r.out.len(), 3);
    assert_eq!(r.out[0], format!("{:20}  {:25}  {}  [{}]", "demo-broadcast", "Announcements", "Broadcast", "on "));
    assert_eq!(r.out[2], format!("{:20}  {:25}  {}  [{}]", "demo-monitor", "Monitor", "Monitor", "off"));
    assert!(r.err.is_empty());
    assert_eq!(r.exit_code, None);
}

#[test]
fn cli_enable_and_unknown() {
    let mut ctrl = BotController::new();
    let r = run_cli(&Command::Enable { id: "demo-monitor".to_string() }, &mut ctrl);
    assert_eq!(r.out, vec!["Bot demo-monitor enabled".to_string()]);
    assert!(ctrl.get("demo-monitor").unwrap().enabled);
    let r = run_cli(&Command::Disable { id: "nope".to_string() }, &mut ctrl);
    assert_eq!(r.err, vec!["Bot nope not found".to_string()]);
    assert_eq!(r.exit_code, Some(1));
}

#[test]
fn rest_handlers() {
    let mut ctrl = BotController::new();
    assert_eq!(list_bots(&ctrl).len(), 3);
    let (status, body) = get_bot(&ctrl, "demo-gatekeeper");
    assert_eq!(status, 200);
    assert_eq!(body.unwrap().kind_label, "Gatekeeper");
    assert_eq!(get_bot(&ctrl, "x").0, 404);
    assert_eq!(disable_bot(&mut ctrl, "demo-gatekeeper"), 200);
    assert_eq!(enable_bot(&mut ctrl, "x"), 404);
    assert!(!ctrl.get("demo-gatekeeper").unwrap().enabled);
}

#[test]
fn grpc_handlers() {
    let mut app = GrpcBotsApp::new(BotController::new());
    assert_eq!(app.list_bots().bots.len(), 3);
    let got = app.get_bot(GetBotRequest { id: "demo-monitor".to_string() });
    assert!(got.bot.is_some());
    assert!(app.get_bot(GetBotRequest { id: "x".to_string() }).bot.is_none());
    assert!(app.enable_bot(EnableBotRequest { id: "demo-monitor".to_string() }).ok);
    assert!(!app.disable_bot(DisableBotRequest { id: "x".to_string() }).ok);
    let h = app.health("1.2.3");
    assert_eq!(h.version, "1.2.3");
    let ctrl = BotController::new();
    let p = to_proto(&ctrl.list()[0]);
    assert_eq!(p.id, "demo-broadcast");
    assert_eq!(p.kind_label, "Broadcast");
}
