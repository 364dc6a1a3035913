use fs_bots::context::CommandContext;
use fs_bots::json::Json;
use fs_bots::response::{BotResponse, MessageFormat};
use fs_bots::rights::Right;
use fs_bots::text::{i64_to_string, join_with, pad_right, parse_i64, parse_u64, u64_to_string};

#[test]
fn numbers_print_in_decimal() {
    assert_eq!(u64_to_string(0), "0");
    assert_eq!(u64_to_string(u64::MAX), "18446744073709551615");
    assert_eq!(i64_to_string(-42), "-42");
    assert_eq!(i64_to_string(i64::MIN), "-9223372036854775808");
}

#[test]
fn numbers_parse_like_std() {
    for s in ["0", "+5", "18446744073709551615", "18446744073709551616", "", "+", "-1", "1a", " 1"] {
        assert_eq!(parse_u64(s), s.parse::<u64>().ok(), "{s}");
    }
    for s in ["-9223372036854775808", "9223372036854775807", "9223372036854775808", "-", "+-1", "-0", "12"] {
        assert_eq!(parse_i64(s), s.parse::<i64>().ok(), "{s}");
    }
}

#[test]
fn padding_and_joining() {
    assert_eq!(pad_right("ab", 4), "ab  ");
    assert_eq!(pad_right("abcdef", 4), "abcdef");
    assert_eq!(pad_right("äö", 3), format!("{:3}", "äö"));
    assert_eq!(join_with(&vec!["a".to_string(), "b".to_string()], ", "), "a, b");
    assert_eq!(join_with(&vec![], ", "), "");
}

#[test]
fn context_arguments() {
    let c = CommandContext::new("x", vec!["a".to_string(), "b".to_string()], "p", "r", "s", Right::Member);
    assert_eq!(c.arg0(), Some("a"));
    assert_eq!(c.arg(1), Some("b"));
    assert_eq!(c.arg(2), None);
    assert_eq!(c.room(), "r");
    assert!(c.fs_user_id.is_none());
    let empty = CommandContext::new("x", vec![], "p", "r", "s", Right::Anyone);
    assert_eq!(empty.arg0(), None);
}

#[test]
fn responses_become_channel_messages() {
    let m = BotResponse::error("bad").into_channel_message().unwrap();
    assert_eq!(m.text, "Error: bad");
    assert_eq!(m.format, MessageFormat::Plain);
    let m = BotResponse::Message { room: None, text: "*x*".to_string(), format: MessageFormat::Markdown }
        .into_channel_message()
        .unwrap();
    assert_eq!(m.format, MessageFormat::Markdown);
    let m = BotResponse::Message { room: None, text: "<b>".to_string(), format: MessageFormat::Html }
        .into_channel_message()
        .unwrap();
    assert_eq!(m.format, MessageFormat::Plain);
    assert!(BotResponse::Silent.into_channel_message().is_none());
    assert!(BotResponse::Many(vec![]).into_channel_message().is_none());
    assert_eq!(BotResponse::text("hi").into_channel_message().unwrap().text, "hi");
    assert!(BotResponse::Dm { user: "u".to_string(), text: "psst".to_string() }.into_channel_message().is_none());
    let menu = BotResponse::Menu { room: None, text: "pick".to_string(), buttons: vec!["a".to_string()] };
    assert!(menu.into_channel_message().is_none());
}

#[test]
fn json_members() {
    let j = Json::Object(vec![
        ("a".to_string(), Json::Str("x".to_string())),
        ("b".to_string(), Json::Number("1".to_string())),
        ("a".to_string(), Json::Str("y".to_string())),
    ]);
    assert_eq!(j.member_str("a"), Some("x"));
    assert_eq!(j.member_str("b"), None);
    assert_eq!(j.member_str_or("c", "d"), "d");
    assert!(j.get("b").is_some());
    assert_eq!(Json::Str("q\n".to_string()).to_json_string(), "\"q\\n\"");
}
