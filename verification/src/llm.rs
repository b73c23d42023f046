//! The chat completion exchange with the model provider: what is sent and what comes back.

use vstd::prelude::*;

use crate::json::Json;

verus! {

/// The body of a chat completion request.
pub struct Request {
    pub messages: Vec<Message>,
    pub model: String,
    pub tools: Option<Vec<Tool>>,
}

/// One message of a conversation, tagged by its role.
#[allow(inconsistent_fields)]
pub enum Message {
    System { content: String, name: Option<String> },
    User { content: UserContent, name: Option<String> },
    Assistant { content: Option<String>, name: Option<String>, tool_calls: Option<Vec<ToolCall>> },
    Tool { content: String, tool_call_id: String },
}

/// What a user message carries: plain text, or text followed by images.
pub enum UserContent {
    Text(String),
    Parts(Vec<ContentPart>),
}

/// One part of a user message.
pub enum ContentPart {
    Text { text: String },
    ImageUrl { image_url: ImageUrl },
}

/// An image given by URL, with the detail the model should look at it in.
pub struct ImageUrl {
    pub url: String,
    pub detail: String,
}

/// A tool offered to the model.
pub struct Tool {
    pub tool_type: String,
    pub function: Function,
}

/// The function behind a tool: its name, what it does, and the JSON schema of its arguments.
pub struct Function {
    pub description: String,
    pub name: String,
    pub parameters: Json,
}

/// The reply to a chat completion request.
pub struct Response {
    pub id: String,
    pub choices: Vec<Choice>,
    pub created: i64,
    pub model: String,
    pub system_fingerprint: Option<String>,
    pub object: String,
    pub usage: Usage,
}

/// One alternative reply.
pub struct Choice {
    pub finish_reason: FinishReason,
    pub index: i64,
    pub message: ResponseMessage,
}

/// Why the model stopped.
#[derive(Debug, Clone, Copy, PartialEq, Eq, Structural)]
pub enum FinishReason {
    Stop,
    Length,
    ContentFilter,
    ToolCalls,
    InsufficientSystemResource,
}

/// The message the model replied with.
pub struct ResponseMessage {
    pub content: Option<String>,
    pub reasoning_content: Option<String>,
    pub tool_calls: Option<Vec<ToolCall>>,
    pub role: Role,
}

/// A call of a tool that the model asks for.
#[derive(Debug, PartialEq, Eq)]
pub struct ToolCall {
    pub id: String,
    pub tool_call_type: ToolCallType,
    pub function: ResponseFunction,
}

/// The kind of a tool call; functions are the only kind.
#[derive(Debug, Clone, Copy, PartialEq, Eq, Structural)]
pub enum ToolCallType {
    Function,
}

/// The function a tool call names and its arguments, as JSON text.
#[derive(Debug, PartialEq, Eq)]
pub struct ResponseFunction {
    pub name: String,
    pub arguments: String,
}

/// The role of a reply; the model always answers as the assistant.
#[derive(Debug, Clone, Copy, PartialEq, Eq, Structural)]
pub enum Role {
    Assistant,
}

/// The tokens a request used.
pub struct Usage {
    pub prompt_tokens: isize,
    pub completion_tokens: isize,
    pub total_tokens: isize,
    pub prompt_cache_hit_tokens: Option<isize>,
    pub prompt_cache_miss_tokens: Option<isize>,
    pub prompt_tokens_details: Option<PromptTokensDetails>,
    pub completion_tokens_details: Json,
}

/// Details of the prompt tokens.
pub struct PromptTokensDetails {
    pub cached_tokens: isize,
}

impl Request {
    /// The request for `model` over `messages`, offering `tools`.
    pub fn new(model: &str, messages: Vec<Message>, tools: Option<Vec<Tool>>) -> (r: Request)
        ensures
            r.model@ == model@,
            r.messages == messages,
            r.tools == tools,
    {
        Request { model: model.to_owned(), messages, tools }
    }
}

/// The calls of an optional list, as a sequence.
pub open spec fn calls_view(calls: Option<Vec<ToolCall>>) -> Option<Seq<ToolCall>> {
    match calls {
        Some(v) => Some(v@),
        None => None,
    }
}

/// A copy of a text.
pub fn copy_text(s: &String) -> (r: String)
    ensures
        r == *s,
{
    s.clone()
}

/// A copy of an optional text.
pub fn copy_opt_text(s: &Option<String>) -> (r: Option<String>)
    ensures
        r == *s,
{
    match s {
        Some(t) => Some(t.clone()),
        None => None,
    }
}

impl ToolCall {
    /// A copy of this call.
    pub fn duplicate(&self) -> (r: ToolCall)
        ensures
            r == *self,
    {
        ToolCall {
            id: self.id.clone(),
            tool_call_type: self.tool_call_type,
            function: ResponseFunction {
                name: self.function.name.clone(),
                arguments: self.function.arguments.clone(),
            },
        }
    }
}

/// A copy of a list of calls.
pub fn copy_calls(calls: &Vec<ToolCall>) -> (r: Vec<ToolCall>)
    ensures
        r@ == calls@,
{
    let mut out: Vec<ToolCall> = Vec::new();
    let mut i: usize = 0;
    while i < calls.len()
        invariant
            i <= calls@.len(),
            out@ == calls@.take(i as int),
        decreases calls@.len() - i,
    {
        out.push(calls[i].duplicate());
        assert(calls@.take(i as int).push(calls@[i as int]) =~= calls@.take(i + 1));
        i += 1;
    }
    assert(calls@.take(calls@.len() as int) =~= calls@);
    out
}

/// A copy of an optional list of calls.
pub fn copy_opt_calls(calls: &Option<Vec<ToolCall>>) -> (r: Option<Vec<ToolCall>>)
    ensures
        calls_view(r) == calls_view(*calls),
{
    match calls {
        Some(v) => Some(copy_calls(v)),
        None => None,
    }
}

} // verus!
