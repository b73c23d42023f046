use std::time::Duration;

use nota_bot::agent::{AgentMessage, Attachment};
use nota_bot::config::{Config, ModelConfig, ProviderConfig};
use nota_bot::json::Json;
use nota_bot::handling::{conclude, TurnAnswer, TurnSummary};
use nota_bot::llm::{Message, ResponseFunction, ToolCall, ToolCallType, Usage, UserContent};
use nota_bot::store::{
    known_role, message_from_record, messages_from_rows, record_of, rows_known, tool_payload, user_record,
    StoredRow,
};

#[test]
fn records_become_messages_by_role() {
    assert!(matches!(message_from_record("system", None, None, None, None), Message::System { content, name: None } if content.is_empty()));
    let atts = vec![Attachment { content_type: "image/gif".to_string(), data: "R0lG".to_string() }];
    match message_from_record("user", Some("look".to_string()), None, Some(atts), None) {
        Message::User { content: UserContent::Parts(p), .. } => assert_eq!(p.len(), 2),
        _ => panic!("expected parts"),
    }
    assert!(matches!(message_from_record("user", Some("hi".to_string()), None, Some(vec![]), None), Message::User { content: UserContent::Text(t), .. } if t == "hi"));
    let calls = vec![ToolCall {
        id: "call_abc".to_string(),
        tool_call_type: ToolCallType::Function,
        function: ResponseFunction { name: "bash".to_string(), arguments: "{}".to_string() },
    }];
    assert!(matches!(message_from_record("assistant", None, None, None, Some(calls)), Message::Assistant { content: None, tool_calls: Some(c), .. } if c.len() == 1));
    let payload = Json::Object(vec![("tool_call_id".to_string(), Json::Str("call_abc".to_string()))]);
    assert!(matches!(message_from_record("tool", Some("out".to_string()), Some(&payload), None, None), Message::Tool { content, tool_call_id } if content == "out" && tool_call_id == "call_abc"));
    assert!(matches!(message_from_record("tool", None, None, None, None), Message::Tool { tool_call_id, .. } if tool_call_id.is_empty()));
    assert!(["system", "user", "assistant", "tool"].iter().all(|r| known_role(r)));
    assert!(!known_role("robot"));
    assert!(!known_role("Tool"));
}

fn model(name: &str) -> ModelConfig<u32> {
    ModelConfig { model: name.to_string(), price: None }
}

#[test]
fn config_selects_the_default_provider_and_model() {
    let ds = ProviderConfig::new(
        "https://api.deepseek.com".to_string(),
        "k".to_string(),
        vec![("chat".to_string(), model("deepseek-chat")), ("reasoner".to_string(), model("deepseek-reasoner"))],
    )
    .unwrap();
    let mut c = Config::new(
        "app".to_string(),
        "secret".to_string(),
        "deepseek".to_string(),
        "chat".to_string(),
        vec![("deepseek".to_string(), ds)],
    )
    .unwrap();
    assert_eq!(c.get_default_provider().unwrap().url, "https://api.deepseek.com");
    assert_eq!(c.get_default_model().unwrap().model, "deepseek-chat");
    c.set_default_model("reasoner");
    assert_eq!(c.get_default_model().unwrap().model, "deepseek-reasoner");
    c.set_default_model("none");
    assert!(c.get_default_model().is_none());
    c.set_default_provider("openai");
    assert!(c.get_default_provider().is_none());
    assert!(c.get_default_model().is_none());
    assert_eq!(c.default_provider_name(), "openai");
}

#[test]
fn duplicate_names_are_refused() {
    assert!(ProviderConfig::new("u".to_string(), "k".to_string(), vec![("a".to_string(), model("x")), ("a".to_string(), model("y"))]).is_none());
}

#[test]
fn a_stored_tool_answer_reads_back_with_its_call_id() {
    let payload = tool_payload("call_xyz");
    assert_eq!(payload, Json::Object(vec![("tool_call_id".to_string(), Json::Str("call_xyz".to_string()))]));
    match message_from_record("tool", Some("pwd output".to_string()), Some(&payload), None, None) {
        Message::Tool { content, tool_call_id } => {
            assert_eq!(content, "pwd output");
            assert_eq!(tool_call_id, "call_xyz");
        }
        _ => panic!("expected a tool message"),
    }
}

#[test]
fn user_rows_carry_their_attachments_in_the_payload() {
    let plain = user_record("hi", None);
    assert_eq!(plain.role, "user");
    assert_eq!(plain.content.as_deref(), Some("hi"));
    assert!(plain.payload.is_none());
    let atts = vec![Attachment { content_type: "image/png".to_string(), data: "AAAA".to_string() }];
    let with = user_record("look", Some(&atts));
    let expected = Json::Object(vec![(
        "attachments".to_string(),
        Json::Array(vec![Json::Object(vec![
            ("content_type".to_string(), Json::Str("image/png".to_string())),
            ("data".to_string(), Json::Str("AAAA".to_string())),
        ])]),
    )]);
    assert_eq!(with.payload, Some(expected));
    assert_eq!(user_record("x", Some(&vec![])).payload, Some(Json::Object(vec![("attachments".to_string(), Json::Array(vec![]))])));
}

#[test]
fn agent_rows_carry_calls_and_call_ids() {
    let calls = vec![ToolCall {
        id: "call_1".to_string(),
        tool_call_type: ToolCallType::Function,
        function: ResponseFunction { name: "bash".to_string(), arguments: "{\"command\":\"ls\"}".to_string() },
    }];
    let reply = AgentMessage::Assistant {
        content: Some("ok".to_string()),
        tool_calls: Some(calls),
        usage: None,
        elapsed: Duration::from_millis(5),
    };
    let r = record_of(&reply);
    assert_eq!(r.role, "assistant");
    assert_eq!(r.content.as_deref(), Some("ok"));
    let call = Json::Object(vec![
        ("id".to_string(), Json::Str("call_1".to_string())),
        ("type".to_string(), Json::Str("function".to_string())),
        (
            "function".to_string(),
            Json::Object(vec![
                ("name".to_string(), Json::Str("bash".to_string())),
                ("arguments".to_string(), Json::Str("{\"command\":\"ls\"}".to_string())),
            ]),
        ),
    ]);
    assert_eq!(r.payload, Some(Json::Object(vec![("tool_calls".to_string(), Json::Array(vec![call]))])));
    let done = AgentMessage::Assistant { content: None, tool_calls: None, usage: None, elapsed: Duration::ZERO };
    let r = record_of(&done);
    assert!(r.content.is_none());
    assert_eq!(r.payload, Some(Json::Object(vec![("tool_calls".to_string(), Json::Null)])));
    let answer = AgentMessage::Tool { content: "out".to_string(), tool_call_id: "call_1".to_string() };
    let r = record_of(&answer);
    assert_eq!(r.role, "tool");
    assert_eq!(r.content.as_deref(), Some("out"));
    assert_eq!(r.payload, Some(tool_payload("call_1")));
    match message_from_record(&r.role, r.content, r.payload.as_ref(), None, None) {
        Message::Tool { content, tool_call_id } => {
            assert_eq!(content, "out");
            assert_eq!(tool_call_id, "call_1");
        }
        _ => panic!("expected a tool message"),
    }
}

fn row(role: &str, content: Option<&str>, payload: Option<Json>) -> StoredRow {
    StoredRow {
        role: role.to_string(),
        content: content.map(|c| c.to_string()),
        payload,
        attachments: None,
        tool_calls: None,
    }
}

#[test]
fn a_history_reads_back_in_order_and_grows_by_the_appended_row() {
    let mut rows = vec![
        row("system", Some("be brief"), None),
        row("user", Some("pwd"), None),
        row("assistant", None, Some(Json::Object(vec![("tool_calls".to_string(), Json::Null)]))),
    ];
    assert!(rows_known(&rows));
    let before = messages_from_rows(&rows);
    assert_eq!(before.len(), 3);
    assert!(matches!(&before[0], Message::System { content, name: None } if content == "be brief"));
    assert!(matches!(&before[1], Message::User { content: UserContent::Text(t), name: None } if t == "pwd"));
    assert!(matches!(&before[2], Message::Assistant { content: None, name: None, tool_calls: None }));
    let answer = AgentMessage::Tool { content: "out".to_string(), tool_call_id: "call_1".to_string() };
    let r = record_of(&answer);
    rows.push(StoredRow { role: r.role, content: r.content, payload: r.payload, attachments: None, tool_calls: None });
    let after = messages_from_rows(&rows);
    assert_eq!(after.len(), 4);
    assert!(matches!(&after[0], Message::System { content, .. } if content == "be brief"));
    assert!(matches!(&after[1], Message::User { content: UserContent::Text(t), .. } if t == "pwd"));
    match &after[3] {
        Message::Tool { content, tool_call_id } => {
            assert_eq!(content, "out");
            assert_eq!(tool_call_id, "call_1");
        }
        _ => panic!("expected the tool answer last"),
    }
    rows.push(row("robot", None, None));
    assert!(!rows_known(&rows));
}

#[test]
fn a_turn_answers_with_its_last_reply_or_its_error() {
    assert!(matches!(conclude(Err("boom".to_string())), TurnAnswer::Error(e) if e == "boom"));
    assert!(matches!(conclude(Ok(TurnSummary::new())), TurnAnswer::Silent));
    let usage = |p: isize, c: isize| Usage {
        prompt_tokens: p,
        completion_tokens: c,
        total_tokens: p + c,
        prompt_cache_hit_tokens: Some(3),
        prompt_cache_miss_tokens: None,
        prompt_tokens_details: None,
        completion_tokens_details: Json::Null,
    };
    let mut s = TurnSummary::new();
    let first = AgentMessage::Assistant {
        content: Some("calling".to_string()),
        tool_calls: None,
        usage: Some(usage(10, 2)),
        elapsed: Duration::from_millis(5),
    };
    assert!(s.fits(&first));
    s.take(&first);
    s.take(&AgentMessage::Tool { content: "out".to_string(), tool_call_id: "c".to_string() });
    let last = AgentMessage::Assistant { content: None, tool_calls: None, usage: Some(usage(20, 4)), elapsed: Duration::ZERO };
    s.take(&last);
    match conclude(Ok(s)) {
        TurnAnswer::Reply { text, tally } => {
            assert_eq!(text, "");
            assert_eq!((tally.prompt_tokens, tally.completion_tokens, tally.cached_tokens), (30, 6, 6));
        }
        _ => panic!("expected a reply"),
    }
    let mut full = TurnSummary::new();
    full.tally.prompt_tokens = isize::MAX;
    assert!(!full.fits(&first));
    assert!(full.fits(&AgentMessage::Tool { content: String::new(), tool_call_id: String::new() }));
}
