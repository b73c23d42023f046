//! The first form of the chat completion exchange, before usage was read from replies and
//! before user messages could carry images.

use vstd::prelude::*;

use crate::json::Json;

verus! {

/// The body of a chat completion request.
pub struct Request {
    pub messages: Vec<Message>,
    pub model: String,
    pub tools: Option<Vec<Tool>>,
}

/// One message of a conversation, tagged by its role.
#[allow(inconsistent_fields)]
pub enum Message {
    System { content: String, name: Option<String> },
    User { content: String, name: Option<String> },
    Assistant { content: Option<String>, name: Option<String>, tool_calls: Option<Vec<ToolCall>> },
    Tool { content: String, tool_call_id: String },
}

/// A tool offered to the model.
pub struct Tool {
    pub tool_type: String,
    pub function: Function,
}

/// The function behind a tool.
pub struct Function {
    pub description: String,
    pub name: String,
    pub parameters: Json,
}

/// The reply to a chat completion request.
pub struct Response {
    pub id: String,
    pub choices: Vec<Choice>,
    pub created: i64,
    pub model: String,
    pub system_fingerprint: String,
    pub object: String,
}

/// One alternative reply.
pub struct Choice {
    pub finish_reason: FinishReason,
    pub index: i64,
    pub message: ResponseMessage,
}

/// Why the model stopped.
#[derive(Debug, Clone, Copy, PartialEq, Eq, Structural)]
pub enum FinishReason {
    Stop,
    Length,
    ContentFilter,
    ToolCalls,
    InsufficientSystemResource,
}

/// The message the model replied with.
pub struct ResponseMessage {
    pub content: Option<String>,
    pub reasoning_content: Option<String>,
    pub tool_calls: Option<Vec<ToolCall>>,
    pub role: Role,
}

/// A call of a tool that the model asks for.
pub struct ToolCall {
    pub id: String,
    pub tool_call_type: ToolCallType,
    pub function: ResponseFunction,
}

/// The kind of a tool call; functions are the only kind.
#[derive(Debug, Clone, Copy, PartialEq, Eq, Structural)]
pub enum ToolCallType {
    Function,
}

/// The function a tool call names and its arguments, as JSON text.
pub struct ResponseFunction {
    pub name: String,
    pub arguments: String,
}

/// The role of a reply.
#[derive(Debug, Clone, Copy, PartialEq, Eq, Structural)]
pub enum Role {
    Assistant,
}

} // verus!
