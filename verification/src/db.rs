//! A message row as the earlier message table held it.

use vstd::prelude::*;

verus! {

/// A stored message, with its tool calls as JSON text.
pub struct DbMessage {
    pub id: i64,
    pub conversation_id: i64,
    pub role: String,
    pub content: Option<String>,
    pub tool_calls: Option<String>,
    pub tool_call_id: Option<String>,
    pub created_at: i64,
}

} // verus!
