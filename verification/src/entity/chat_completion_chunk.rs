//! The incremental (streamed) response shape, and the accumulator that
//! rebuilds a unary response from streamed fragments.

use vstd::prelude::*;

use crate::entity::chat_completion_object::{
    Message as ObjectMessage, Response as ObjectResponse, Role, Usage,
    Choice as ObjectChoice,
};
use crate::entity::create_chat_completion::{FinishReason, ToolCall};

verus! {

/// One streamed unit: either a data chunk or the end-of-stream marker.
#[derive(Debug, Clone, PartialEq)]
pub enum Chunk {
    Done,
    Data(ChunkResponse),
}

#[derive(Debug, Clone, PartialEq)]
pub struct ChunkResponse {
    pub id: String,
    pub choices: Vec<Choice>,
    /// The Unix timestamp, in seconds, of when the completion was created.
    pub created: u64,
    pub model: String,
    pub system_fingerprint: String,
    pub service_tier: Option<String>,
    pub object: String,
    pub usage: Option<Usage>,
}

#[derive(Debug, Clone, PartialEq)]
pub struct Choice {
    pub index: usize,
    pub delta: DeltaMessage,
    pub finish_reason: Option<FinishReason>,
}

/// The incremental unit: an optional role announcement, text fragment,
/// reasoning fragment and tool-call fragment.
#[derive(Debug, Clone, PartialEq)]
pub struct DeltaMessage {
    pub content: Option<String>,
    pub reasoning: Option<String>,
    pub tool_calls: Option<Vec<ToolCallChunk>>,
    pub role: Option<Role>,
}

#[derive(Debug, Clone, PartialEq)]
pub struct ToolCallChunk {
    pub index: usize,
    pub id: Option<String>,
    pub kind: Option<String>,
    pub function: ToolCallFunctionObjChunk,
}

#[derive(Debug, Clone, PartialEq)]
pub struct ToolCallFunctionObjChunk {
    pub name: Option<String>,
    pub arguments: String,
}

/// Marker for the `[DONE]` sentinel in wire form.
#[derive(Debug, Clone, Copy, PartialEq, Eq, Structural)]
pub struct ChunkResponseDone;

/// The per-response accumulator: identifier and model captured once, the
/// visible-text and reasoning buffers, completed tool calls, and the mapped
/// finish reason.
#[derive(Debug, Clone, PartialEq)]
pub struct OpenaiEventDataParser {
    pub id: String,
    pub model: String,
    pub created: u64,
    pub object: String,
    pub content: String,
    pub think_content: String,
    pub tool_calls: Vec<ToolCall>,
    pub finish_reason: Option<FinishReason>,
}

impl OpenaiEventDataParser {
    /// A fresh accumulator with empty buffers.
    pub fn new() -> (r: OpenaiEventDataParser)
        ensures
            r.id@ == Seq::<char>::empty(),
            r.model@ == Seq::<char>::empty(),
            r.created == 0,
            r.object@ == "chat.completion.chunk"@,
            r.content@ == Seq::<char>::empty(),
            r.think_content@ == Seq::<char>::empty(),
            r.tool_calls@ == Seq::<ToolCall>::empty(),
            r.finish_reason is None,
    {
        OpenaiEventDataParser {
            id: String::new(),
            model: String::new(),
            created: 0,
            object: "chat.completion.chunk".to_owned(),
            content: String::new(),
            think_content: String::new(),
            tool_calls: Vec::new(),
            finish_reason: None,
        }
    }

    /// Capture the response identifier once; later values never overwrite.
    pub fn update_id_if_empty(&mut self, id: &str)
        ensures
            final(self).id@ == if old(self).id@.len() == 0 {
                id@
            } else {
                old(self).id@
            },
            final(self).model == old(self).model,
            final(self).created == old(self).created,
            final(self).object == old(self).object,
            final(self).content == old(self).content,
            final(self).think_content == old(self).think_content,
            final(self).tool_calls == old(self).tool_calls,
            final(self).finish_reason == old(self).finish_reason,
    {
        if self.id.as_str().is_empty() {
            self.id = id.to_owned();
        }
    }

    /// Capture the model name once; later values never overwrite.
    pub fn update_model_if_empty(&mut self, model: &str)
        ensures
            final(self).model@ == if old(self).model@.len() == 0 {
                model@
            } else {
                old(self).model@
            },
            final(self).id == old(self).id,
            final(self).created == old(self).created,
            final(self).object == old(self).object,
            final(self).content == old(self).content,
            final(self).think_content == old(self).think_content,
            final(self).tool_calls == old(self).tool_calls,
            final(self).finish_reason == old(self).finish_reason,
    {
        if self.model.as_str().is_empty() {
            self.model = model.to_owned();
        }
    }

    /// Append a visible-text fragment.
    pub fn push_content(&mut self, fragment: &str)
        ensures
            final(self).content@ == old(self).content@ + fragment@,
            final(self).id == old(self).id,
            final(self).model == old(self).model,
            final(self).created == old(self).created,
            final(self).object == old(self).object,
            final(self).think_content == old(self).think_content,
            final(self).tool_calls == old(self).tool_calls,
            final(self).finish_reason == old(self).finish_reason,
    {
        self.content.append(fragment);
    }

    /// Append a reasoning fragment.
    pub fn push_thinking(&mut self, fragment: &str)
        ensures
            final(self).think_content@ == old(self).think_content@ + fragment@,
            final(self).id == old(self).id,
            final(self).model == old(self).model,
            final(self).created == old(self).created,
            final(self).object == old(self).object,
            final(self).content == old(self).content,
            final(self).tool_calls == old(self).tool_calls,
            final(self).finish_reason == old(self).finish_reason,
    {
        self.think_content.append(fragment);
    }

    /// Record a completed tool call.
    pub fn push_tool_call(&mut self, tool_call: ToolCall)
        ensures
            final(self).tool_calls@ == old(self).tool_calls@.push(tool_call),
            final(self).id == old(self).id,
            final(self).model == old(self).model,
            final(self).created == old(self).created,
            final(self).object == old(self).object,
            final(self).content == old(self).content,
            final(self).think_content == old(self).think_content,
            final(self).finish_reason == old(self).finish_reason,
    {
        self.tool_calls.push(tool_call);
    }

    /// Record the mapped finish reason.
    pub fn set_finish_reason(&mut self, finish_reason: Option<FinishReason>)
        ensures
            final(self).finish_reason == finish_reason,
            final(self).id == old(self).id,
            final(self).model == old(self).model,
            final(self).created == old(self).created,
            final(self).object == old(self).object,
            final(self).content == old(self).content,
            final(self).think_content == old(self).think_content,
            final(self).tool_calls == old(self).tool_calls,
    {
        self.finish_reason = finish_reason;
    }

    /// Assemble the unary response from the accumulated state: the buffers
    /// become the single choice's message, empty buffers and empty tool-call
    /// lists are omitted.
    pub fn response(self) -> (r: ObjectResponse)
        ensures
            r.id == self.id,
            r.created == self.created,
            r.model == self.model,
            r.object == self.object,
            r.system_fingerprint@ == Seq::<char>::empty(),
            r.usage == (Usage { prompt_tokens: 0, completion_tokens: 0, total_tokens: 0 }),
            r.choices@.len() == 1,
            r.choices@[0].index == 0,
            r.choices@[0].finish_reason == self.finish_reason,
            r.choices@[0].message.role == Role::Assistant,
            r.choices@[0].message.content == if self.content@.len() == 0 {
                Option::<String>::None
            } else {
                Some(self.content)
            },
            r.choices@[0].message.reasoning == if self.think_content@.len() == 0 {
                Option::<String>::None
            } else {
                Some(self.think_content)
            },
            r.choices@[0].message.tool_calls == if self.tool_calls@.len() == 0 {
                Option::<Vec<ToolCall>>::None
            } else {
                Some(self.tool_calls)
            },
    {
        let OpenaiEventDataParser {
            id,
            model,
            created,
            object,
            content,
            think_content,
            tool_calls,
            finish_reason,
        } = self;
        let content_opt = if content.as_str().is_empty() {
            None
        } else {
            Some(content)
        };
        let reasoning_opt = if think_content.as_str().is_empty() {
            None
        } else {
            Some(think_content)
        };
        let tool_calls_opt = if tool_calls.is_empty() {
            None
        } else {
            Some(tool_calls)
        };
        let message = ObjectMessage {
            content: content_opt,
            reasoning: reasoning_opt,
            tool_calls: tool_calls_opt,
            role: Role::Assistant,
        };
        let choice = ObjectChoice { index: 0, message, finish_reason };
        let mut choices: Vec<ObjectChoice> = Vec::new();
        choices.push(choice);
        ObjectResponse {
            id,
            choices,
            created,
            model,
            system_fingerprint: String::new(),
            object,
            usage: Usage { prompt_tokens: 0, completion_tokens: 0, total_tokens: 0 },
        }
    }
}

} // verus!
