use std::time::Duration;

use nota_bot::agent::{user_content, Agent, AgentMessage, Attachment, Next};
use nota_bot::json::Json;
use nota_bot::llm::{
    Choice, ContentPart, FinishReason, Message, Response, ResponseFunction, ResponseMessage, Role,
    ToolCall, ToolCallType, Usage, UserContent,
};

fn usage() -> Usage {
    Usage {
        prompt_tokens: 34,
        completion_tokens: 12,
        total_tokens: 46,
        prompt_cache_hit_tokens: Some(10),
        prompt_cache_miss_tokens: Some(24),
        prompt_tokens_details: None,
        completion_tokens_details: Json::Null,
    }
}

fn call(id: &str, name: &str, args: &str) -> ToolCall {
    ToolCall {
        id: id.to_string(),
        tool_call_type: ToolCallType::Function,
        function: ResponseFunction { name: name.to_string(), arguments: args.to_string() },
    }
}

fn response(finish: FinishReason, content: Option<&str>, calls: Option<Vec<ToolCall>>) -> Response {
    Response {
        id: "chatcmpl-1".to_string(),
        choices: vec![Choice {
            finish_reason: finish,
            index: 0,
            message: ResponseMessage {
                content: content.map(|c| c.to_string()),
                reasoning_content: None,
                tool_calls: calls,
                role: Role::Assistant,
            },
        }],
        created: 1700000000,
        model: "deepseek-chat".to_string(),
        system_fingerprint: None,
        object: "chat.completion".to_string(),
        usage: usage(),
    }
}

fn agent() -> Agent {
    Agent::new(
        "https://api.deepseek.com/chat/completions".to_string(),
        "key".to_string(),
        "deepseek-chat".to_string(),
        vec![Message::System { content: "be brief".to_string(), name: None }],
    )
}

#[test]
fn new_agent_offers_the_six_tools() {
    let a = agent();
    let tools = a.tools().as_ref().unwrap();
    let names: Vec<&str> = tools.iter().map(|t| t.function.name.as_str()).collect();
    assert_eq!(names, vec!["bash", "read", "write", "edit", "glob", "load_skill"]);
    assert!(tools.iter().all(|t| t.tool_type == "function"));
    assert_eq!(a.messages().len(), 1);
    assert_eq!(a.api_key(), "key");
}

#[test]
fn user_content_with_attachments_lists_images() {
    let atts = vec![Attachment { content_type: "image/png".to_string(), data: "AAAA".to_string() }];
    match user_content("look", Some(&atts)) {
        UserContent::Parts(parts) => {
            assert_eq!(parts.len(), 2);
            assert!(matches!(&parts[0], ContentPart::Text { text } if text == "look"));
            match &parts[1] {
                ContentPart::ImageUrl { image_url } => {
                    assert_eq!(image_url.url, "data:image/png;base64,AAAA");
                    assert_eq!(image_url.detail, "auto");
                }
                _ => panic!("expected an image"),
            }
        }
        _ => panic!("expected parts"),
    }
    assert!(matches!(user_content("hi", None), UserContent::Text(t) if t == "hi"));
    assert!(matches!(user_content("hi", Some(&vec![])), UserContent::Parts(p) if p.len() == 1));
}

#[test]
fn a_stop_reply_ends_the_turn() {
    let mut a = agent();
    a.push_user_message("Hello!", None);
    let mut out = vec![];
    let next = a.on_response(response(FinishReason::Stop, Some("hello"), None), Duration::from_millis(5), &mut out);
    assert!(matches!(next, Next::Done));
    assert_eq!(a.messages().len(), 3);
    assert!(matches!(&a.messages()[2], Message::Assistant { content: Some(c), tool_calls: None, .. } if c == "hello"));
    assert_eq!(out.len(), 1);
    match &out[0] {
        AgentMessage::Assistant { content, usage, elapsed, .. } => {
            assert_eq!(content.as_deref(), Some("hello"));
            assert_eq!(usage.as_ref().unwrap().prompt_tokens, 34);
            assert_eq!(*elapsed, Duration::from_millis(5));
        }
        _ => panic!("expected the assistant's record"),
    }
}

#[test]
fn a_tool_call_reply_is_answered_in_order() {
    let mut a = agent();
    let mut out = vec![];
    let calls = vec![call("call_a", "bash", "{\"command\":\"ls\"}"), call("call_b", "read", "{\"path\":\"/tmp/x\"}")];
    let next = a.on_response(response(FinishReason::ToolCalls, None, Some(calls)), Duration::ZERO, &mut out);
    let calls = match next {
        Next::CallTools(c) => c,
        _ => panic!("expected tool calls"),
    };
    assert_eq!(calls.len(), 2);
    a.record_tool_outputs(&calls, vec!["a\nb".to_string(), "".to_string()], &mut out);
    let ids: Vec<&str> = a
        .messages()
        .iter()
        .filter_map(|m| match m {
            Message::Tool { tool_call_id, .. } => Some(tool_call_id.as_str()),
            _ => None,
        })
        .collect();
    assert_eq!(ids, vec!["call_a", "call_b"]);
    assert_eq!(out.len(), 3);
    assert!(matches!(&out[1], AgentMessage::Tool { content, tool_call_id } if content == "a\nb" && tool_call_id == "call_a"));
}

#[test]
fn a_reply_without_choices_is_retried() {
    let mut a = agent();
    let mut out = vec![];
    let mut r = response(FinishReason::Stop, Some("x"), None);
    r.choices.clear();
    assert!(matches!(a.on_response(r, Duration::ZERO, &mut out), Next::Retry));
    assert_eq!(a.messages().len(), 1);
    assert!(out.is_empty());
}

#[test]
fn reset_replaces_the_conversation() {
    let mut a = agent();
    a.reset(vec![]);
    assert!(a.messages().is_empty());
    assert_eq!(a.model, "deepseek-chat");
}
