use zipper::larkbot::{notice_card, parse_to_lark_request, settle, Event, LarkBotResult};
use zipper::text::{int_to_text, join, push_json_string};
use zipper::time::{format_minute, LocalDateTime};
use zipper::unsafer::{newbot, newbot_checked, valid_url, BotType, Unsafer};

fn at(year: i32, month: u32, day: u32, hour: u32, minute: u32, second: u32) -> LocalDateTime {
    LocalDateTime {
        year,
        month,
        day,
        hour,
        minute,
        second,
        nanosecond: 651_917_000,
        offset_seconds: 8 * 3600,
    }
}

fn event(name: &str, user: &str, description: &str, time: LocalDateTime) -> Event {
    Event {
        event: name.to_string(),
        event_time: time,
        user: user.to_string(),
        description: description.to_string(),
    }
}

#[test]
fn decimal_text_of_codes() {
    assert_eq!(int_to_text(0), "0");
    assert_eq!(int_to_text(1), "1");
    assert_eq!(int_to_text(127), "127");
    assert_eq!(int_to_text(-1), "-1");
    assert_eq!(int_to_text(i32::MIN), "-2147483648");
    assert_eq!(int_to_text(i32::MAX), "2147483647");
}

#[test]
fn join_puts_separator_between_words() {
    assert_eq!(join(&vec![], " "), "");
    assert_eq!(join(&vec!["false".to_string()], " "), "false");
    assert_eq!(join(&vec!["df".to_string(), "-h".to_string(), "/".to_string()], " "), "df -h /");
}

#[test]
fn json_escaping_of_specials() {
    let mut out = String::from("x");
    push_json_string(&mut out, "a\"b\\c\nd\te\u{1}f\u{1f}\u{7f}é【");
    assert_eq!(out, "x\"a\\\"b\\\\c\\nd\\te\\u0001f\\u001f\u{7f}é【\"");
}

#[test]
fn minute_stamp_drops_seconds() {
    assert_eq!(format_minute(&at(2023, 2, 16, 11, 5, 10)), "2023-02-16 11:05");
    assert_eq!(format_minute(&at(2023, 2, 16, 11, 5, 59)), "2023-02-16 11:05");
    assert_eq!(format_minute(&at(2024, 12, 31, 23, 59, 0)), "2024-12-31 23:59");
    assert_eq!(format_minute(&at(2023, 2, 16, 11, 5, 10)).chars().count(), 16);
}

#[test]
fn minute_stamp_of_unusual_years() {
    assert_eq!(format_minute(&at(999, 1, 2, 3, 4, 5)), "0999-01-02 03:04");
    assert_eq!(format_minute(&at(10000, 1, 1, 0, 0, 0)), "+10000-01-01 00:00");
    assert_eq!(format_minute(&at(-5, 3, 1, 0, 0, 0)), "-0005-03-01 00:00");
}

#[test]
fn local_time_validity() {
    assert!(at(2024, 2, 29, 0, 0, 0).is_valid());
    assert!(!at(2023, 2, 29, 0, 0, 0).is_valid());
    assert!(!at(2023, 13, 1, 0, 0, 0).is_valid());
    assert!(!at(2023, 4, 31, 0, 0, 0).is_valid());
    assert!(!at(2023, 1, 1, 24, 0, 0).is_valid());
}

#[test]
fn card_title_has_fixed_prefix() {
    let e = event("disk", "df -h", "full", at(2023, 2, 16, 11, 5, 10));
    let card = notice_card(&e);
    assert_eq!(card.title, "【NOTICE】disk");
    assert_eq!(card.blocks, vec!["df -h".to_string(), "full".to_string(), "2023-02-16 11:05".to_string()]);
    assert_eq!(e.event, "disk");
    assert_eq!(e.user, "df -h");
    assert_eq!(e.description, "full");
}

#[test]
fn request_body_is_the_card_json() {
    let e = event("disk", "df -h", "a\"b\nc", at(2023, 2, 16, 11, 5, 10));
    let body = parse_to_lark_request(&e);
    assert_eq!(
        body,
        r#"{"msg_type":"post","content":{"post":{"zh_cn":{"title":"【NOTICE】disk","content":[[{"tag":"text","text":"df -h"}],[{"tag":"text","text":"a\"b\nc"}],[{"tag":"text","text":"2023-02-16 11:05"}]]}}}}"#
    );
    let v: serde_json::Value = serde_json::from_str(&body).unwrap();
    assert_eq!(v["content"]["post"]["zh_cn"]["content"][1][0]["text"], "a\"b\nc");
}

#[test]
fn request_body_same_within_a_minute() {
    let a = event("disk", "u", "d", at(2023, 2, 16, 11, 5, 1));
    let b = event("disk", "u", "d", at(2023, 2, 16, 11, 5, 58));
    assert_eq!(parse_to_lark_request(&a), parse_to_lark_request(&b));
}

#[test]
fn backend_answer_passes_through() {
    let answer = LarkBotResult { code: 0, msg: "ok".to_string(), data: "null".to_string() };
    let r = settle(Ok(answer));
    assert_eq!(r.code, 0);
    assert_eq!(r.msg, "ok");
    assert_eq!(r.data, "null");
    let refused = LarkBotResult { code: 19001, msg: "param invalid".to_string(), data: "{}".to_string() };
    let r = settle(Ok(refused));
    assert_eq!(r.code, 19001);
    assert_eq!(r.msg, "param invalid");
    assert_eq!(r.data, "{}");
}

#[test]
fn unreachable_backend_twice() {
    let first = settle(Err("error sending request: connection refused".to_string()));
    let second = settle(Err("error sending request: connection refused".to_string()));
    assert_eq!(first.code, -1);
    assert_eq!(second.code, -1);
    assert_eq!(first.msg, "error sending request: connection refused");
    assert_eq!(first.msg, second.msg);
    assert_eq!(first.data, "null");
    assert_eq!(second.data, "null");
}

#[test]
fn backend_address_is_checked() {
    assert!(valid_url("http://127.0.0.1:9/hook"));
    assert!(valid_url("https://open.example.com/bot/v2/hook/x"));
    assert!(!valid_url("not a url"));
    assert!(!valid_url(""));
    assert!(!valid_url("::bad"));
    let bot = Unsafer::new("http://127.0.0.1:9/hook");
    assert_eq!(bot.url().as_str(), "http://127.0.0.1:9/hook");
}

#[test]
fn newbot_needs_an_address() {
    assert!(newbot(BotType::Unsafer, None).is_none());
    let bot = newbot(BotType::Unsafer, Some("https://open.example.com/bot/v2/hook/x")).unwrap();
    assert_eq!(bot.url().as_str(), "https://open.example.com/bot/v2/hook/x");
}

#[test]
fn checked_newbot_refuses_malformed_address() {
    assert!(newbot_checked(BotType::Unsafer, None).is_none());
    assert!(newbot_checked(BotType::Unsafer, Some("::bad")).is_none());
    assert!(newbot_checked(BotType::Unsafer, Some("not a url")).is_none());
    assert!(newbot_checked(BotType::Unsafer, Some("http://127.0.0.1:9/hook")).is_some());
}

#[test]
fn request_body_through_backend() {
    let bot = Unsafer::new("http://127.0.0.1:9/hook");
    let e = event("New User", "alice", "test", at(2023, 2, 16, 11, 5, 10));
    assert_eq!(bot.request_body(&e), parse_to_lark_request(&e));
}
