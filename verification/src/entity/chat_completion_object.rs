//! The aggregated (unary) response shape.

use vstd::prelude::*;

use crate::entity::create_chat_completion::{FinishReason, ToolCall};

verus! {

/// A complete response to one request.
#[derive(Debug, Clone, PartialEq)]
pub struct Response {
    pub id: String,
    pub choices: Vec<Choice>,
    /// The Unix timestamp, in seconds, of when the completion was created.
    pub created: u64,
    pub model: String,
    pub system_fingerprint: String,
    pub object: String,
    pub usage: Usage,
}

#[derive(Debug, Clone, PartialEq)]
pub struct Message {
    pub content: Option<String>,
    pub reasoning: Option<String>,
    pub tool_calls: Option<Vec<ToolCall>>,
    pub role: Role,
}

/// The author of a message.
#[derive(Debug, Clone, Copy, PartialEq, Eq, Structural)]
pub enum Role {
    System,
    User,
    Assistant,
    Tool,
}

impl Role {
    /// The wire name of the role.
    pub fn as_str(&self) -> (r: &'static str)
        ensures
            self is System ==> r@ == "system"@,
            self is User ==> r@ == "user"@,
            self is Assistant ==> r@ == "assistant"@,
            self is Tool ==> r@ == "tool"@,
    {
        match *self {
            Role::System => "system",
            Role::User => "user",
            Role::Assistant => "assistant",
            Role::Tool => "tool",
        }
    }
}

#[derive(Debug, Clone, PartialEq)]
pub struct Choice {
    pub index: usize,
    pub message: Message,
    pub finish_reason: Option<FinishReason>,
}

/// Token usage of one completed request.
#[derive(Debug, Clone, Copy, PartialEq, Eq, Structural)]
pub struct Usage {
    pub prompt_tokens: u32,
    pub completion_tokens: u32,
    pub total_tokens: u32,
}

} // verus!
