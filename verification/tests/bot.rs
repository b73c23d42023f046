use nota_bot::bot::{
    access_token_endpoint, auth_header, backoff_half_ms, event_complete, gateway_endpoint, user_message_body,
    user_messages_endpoint, Bot, Step, TokenManager, WsEvent,
};
use nota_bot::json::Json;

fn s(t: &str) -> Json {
    Json::Str(t.to_string())
}

fn obj(fields: Vec<(&str, Json)>) -> Json {
    Json::Object(fields.into_iter().map(|(k, v)| (k.to_string(), v)).collect())
}

fn dispatch(seq: u32, t: &str, d: Json) -> WsEvent {
    WsEvent { op: 0, s: Some(seq), t: Some(t.to_string()), d }
}

#[test]
fn endpoints_and_header() {
    assert_eq!(gateway_endpoint(), "https://api.bot.qq.com/gateway");
    assert_eq!(user_messages_endpoint("U1"), "https://api.bot.qq.com/v2/users/U1/messages");
    assert_eq!(access_token_endpoint(), "https://api.bot.qq.com/app/getAppAccessToken");
    assert_eq!(auth_header("tok"), "QQBot tok");
}

#[test]
fn backoff_doubles_up_to_thirty_seconds() {
    let halves: Vec<u64> = (0..8).map(backoff_half_ms).collect();
    assert_eq!(halves, vec![500, 1000, 2000, 4000, 8000, 15000, 15000, 15000]);
    assert_eq!(backoff_half_ms(u32::MAX), 15000);
}

#[test]
fn first_connect_does_not_wait_and_later_ones_do() {
    let mut bot = Bot::new();
    assert_eq!(bot.reconnect_delay_ms(), None);
    bot.note_failure();
    bot.note_failure();
    for _ in 0..20 {
        let d = bot.reconnect_delay_ms().unwrap();
        assert!((2000..=4000).contains(&d), "delay {d}");
    }
}

#[test]
fn hello_gives_the_heartbeat_interval() {
    let hello = WsEvent { op: 10, s: None, t: None, d: obj(vec![("heartbeat_interval", Json::Number("41250".to_string()))]) };
    assert_eq!(Bot::hello_interval(&hello), Some(41250));
    let other = WsEvent { op: 0, s: None, t: None, d: obj(vec![("heartbeat_interval", Json::Number("41250".to_string()))]) };
    assert_eq!(Bot::hello_interval(&other), None);
}

#[test]
fn ready_then_messages_then_reconnect_resumes() {
    let mut bot = Bot::new();
    bot.note_failure();
    let identify = bot.handshake("QQBot t");
    assert_eq!(identify.get("op"), Some(&Json::Number("2".to_string())));
    let d = identify.get("d").unwrap();
    assert_eq!(d.get("intents"), Some(&Json::Number("33554432".to_string())));
    assert_eq!(d.get("token"), Some(&s("QQBot t")));
    assert!(matches!(bot.on_event(dispatch(1, "READY", obj(vec![("session_id", s("sess"))]))), Step::Continue));
    assert_eq!(bot.attempt(), 0);
    let msg = obj(vec![
        ("author", obj(vec![("user_openid", s("U1"))])),
        ("id", s("M1")),
        ("content", s("hi")),
        ("attachments", Json::Array(vec![obj(vec![("content_type", s("image/png")), ("url", s("https://x/y.png"))])])),
    ]);
    match bot.on_event(dispatch(2, "C2C_MESSAGE_CREATE", msg)) {
        Step::Deliver(m) => {
            assert_eq!((m.user_openid.as_str(), m.msg_id.as_str(), m.content.as_str()), ("U1", "M1", "hi"));
            let atts = m.attachments.unwrap();
            assert_eq!(atts.len(), 1);
            assert_eq!(atts[0].url, "https://x/y.png");
        }
        _ => panic!("expected a message"),
    }
    let hb = bot.heartbeat();
    assert_eq!(hb.get("d"), Some(&Json::Number("2".to_string())));
    assert!(matches!(bot.on_event(WsEvent { op: 7, s: None, t: None, d: Json::Null }), Step::Reconnect));
    assert_eq!(bot.attempt(), 1);
    let resume = bot.handshake("QQBot t");
    assert_eq!(resume.get("op"), Some(&Json::Number("6".to_string())));
    let d = resume.get("d").unwrap();
    assert_eq!(d.get("session_id"), Some(&s("sess")));
    assert_eq!(d.get("seq"), Some(&Json::Number("2".to_string())));
}

#[test]
fn invalid_session_false_forgets_the_session() {
    let mut bot = Bot::new();
    bot.on_event(dispatch(1, "READY", obj(vec![("session_id", s("sess"))])));
    assert!(matches!(bot.on_event(WsEvent { op: 9, s: None, t: None, d: Json::Bool(true) }), Step::Reconnect));
    assert_eq!(bot.handshake("t").get("op"), Some(&Json::Number("6".to_string())));
    bot.on_event(WsEvent { op: 9, s: None, t: None, d: Json::Bool(false) });
    assert_eq!(bot.handshake("t").get("op"), Some(&Json::Number("2".to_string())));
    assert_eq!(bot.attempt(), 2);
    assert!(matches!(bot.on_disconnect(), Step::Reconnect));
    assert_eq!(bot.attempt(), 3);
    assert!(matches!(bot.on_event(dispatch(5, "RESUMED", Json::Null)), Step::Continue));
    assert_eq!(bot.attempt(), 0);
    assert_eq!(bot.heartbeat().get("d"), Some(&Json::Number("5".to_string())));
}

#[test]
fn frames_missing_what_is_needed_are_told_apart() {
    assert!(!event_complete(&WsEvent { op: 0, s: Some(1), t: None, d: Json::Null }));
    assert!(!event_complete(&dispatch(2, "READY", Json::Null)));
    assert!(event_complete(&dispatch(2, "READY", obj(vec![("session_id", s("sess"))]))));
    assert!(!event_complete(&dispatch(3, "C2C_MESSAGE_CREATE", obj(vec![("id", s("M"))]))));
    assert!(event_complete(&dispatch(4, "GROUP_AT_MESSAGE_CREATE", Json::Null)));
    assert!(event_complete(&WsEvent { op: 11, s: None, t: None, d: Json::Null }));
    let mut bot = Bot::new();
    assert!(matches!(bot.on_event(dispatch(4, "GROUP_AT_MESSAGE_CREATE", Json::Null)), Step::Continue));
    assert!(matches!(bot.on_event(WsEvent { op: 11, s: None, t: None, d: Json::Null }), Step::Continue));
    assert!(bot.heartbeat().get("d") == Some(&Json::Number("4".to_string())));
}

#[test]
fn tokens_are_renewed_a_minute_before_they_expire() {
    let mut tm = TokenManager::new("app", "secret");
    assert!(tm.is_expired(0));
    assert_eq!(tm.install_reply("tok".to_string(), "7200", 1000), "tok");
    assert_eq!(tm.current_token(1000).as_deref(), Some("tok"));
    assert!(!tm.is_expired(1000 + 7_140_000 - 1));
    assert!(tm.is_expired(1000 + 7_140_000));
    assert_eq!(tm.current_token(2000).as_deref(), Some("tok"));
    let body = tm.token_request();
    assert_eq!(body.get("appId"), Some(&s("app")));
    assert_eq!(body.get("clientSecret"), Some(&s("secret")));
}

#[test]
fn reply_body_names_content_and_message() {
    let b = user_message_body("hello", "M1");
    assert_eq!(b.get("content"), Some(&s("hello")));
    assert_eq!(b.get("msg_type"), Some(&Json::Number("0".to_string())));
    assert_eq!(b.get("msg_id"), Some(&s("M1")));
}
