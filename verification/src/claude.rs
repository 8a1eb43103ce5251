//! The stream translation engine: one instance per in-flight response,
//! consuming the vendor's decoded stream events in arrival order and emitting
//! normalized chunks, immediately actionable tool calls, and on demand the
//! aggregated response.

use vstd::prelude::*;

use crate::entity::chat_completion_chunk::{
    Choice, Chunk, ChunkResponse, DeltaMessage, OpenaiEventDataParser,
};
use crate::entity::chat_completion_object::{
    Response as OpenaiResponse, Role as OpenaiRole, Usage as OpenaiUsage,
};
use crate::entity::create_chat_completion::{
    Content as OaContent, ContentPart as OaContentPart, FinishReason, Message as OaMessage,
    ToolCall, ToolCallFunction, ToolCallFunctionObj,
};
use crate::jsonval::{json_parses, json_parses_to_object, JsonValue};
use crate::messages::{
    view_of_opt_string, BaseContentBlock, BaseContentBlockView, ContentBlockView,
    DeltaContentBlock, Message, MessageContent, MessageContentView, MessageView,
    RequestOnlyContentBlockView, ResponseContentBlock, Role, StopReason, ToolUseContentBlock,
    view_of_messages,
};
use crate::request::lemma_view_msgs_push;
use crate::response::Response as ClaudeResponse;
use crate::strutil::str_eq;
use crate::stream_response::{ErrorData, EventData};

verus! {

/// Why translating a stream failed.
#[derive(Debug, Clone, PartialEq)]
pub enum TranslationError {
    /// The stream reported an explicit vendor error payload.
    VendorError { error: ErrorData },
    /// An event payload did not match any known shape.
    DecodeError { message: String },
}

/// The fixed, total table from vendor stop reasons to finish reasons.
pub open spec fn spec_map_stop_reason(reason: StopReason) -> FinishReason {
    match reason {
        StopReason::EndTurn => FinishReason::Stop,
        StopReason::MaxTokens => FinishReason::Length,
        StopReason::StopSequence => FinishReason::Stop,
        StopReason::ToolUse => FinishReason::ToolCalls,
    }
}

impl From<StopReason> for FinishReason {
    fn from(reason: StopReason) -> (r: FinishReason) {
        match reason {
            StopReason::EndTurn => FinishReason::Stop,
            StopReason::MaxTokens => FinishReason::Length,
            StopReason::StopSequence => FinishReason::Stop,
            StopReason::ToolUse => FinishReason::ToolCalls,
        }
    }
}

impl vstd::std_specs::convert::FromSpecImpl<StopReason> for FinishReason {
    open spec fn obeys_from_spec() -> bool {
        true
    }

    open spec fn from_spec(reason: StopReason) -> FinishReason {
        spec_map_stop_reason(reason)
    }
}

/// An in-progress tool invocation: identifier and name from the opening
/// event, and the argument fragments concatenated in arrival order.
#[derive(Debug, Clone, PartialEq)]
pub struct OpenToolCall {
    pub index: u32,
    pub id: String,
    pub name: String,
    pub arguments: String,
}

/// Whether some accumulator is open at the block index.
pub open spec fn spec_has_open(s: Seq<OpenToolCall>, index: u32) -> bool {
    exists|i: int| 0 <= i < s.len() && (#[trigger] s[i]).index == index
}

/// The position of the first accumulator open at the block index.
pub open spec fn spec_open_pos(s: Seq<OpenToolCall>, index: u32) -> int {
    choose|i: int|
        0 <= i < s.len() && (#[trigger] s[i]).index == index && forall|j: int|
            0 <= j < i ==> (#[trigger] s[j]).index != index
}

/// The first open accumulator at the block index, by linear scan.
fn find_open(open_tool_calls: &Vec<OpenToolCall>, index: u32) -> (r: Option<usize>)
    ensures
        r is Some <==> spec_has_open(open_tool_calls@, index),
        match r {
            Some(p) => p == spec_open_pos(open_tool_calls@, index) && p < open_tool_calls@.len()
                && open_tool_calls@[p as int].index == index,
            None => true,
        },
{
    let n = open_tool_calls.len();
    for i in 0..n
        invariant
            n == open_tool_calls@.len(),
            forall|j: int| 0 <= j < i ==> (#[trigger] open_tool_calls@[j]).index != index,
    {
        if open_tool_calls[i].index == index {
            proof {
                let s = open_tool_calls@;
                let q = spec_open_pos(s, index);
                assert(0 <= q < s.len() && s[q].index == index && forall|j: int|
                    0 <= j < q ==> (#[trigger] s[j]).index != index);
                if q < i as int {
                    assert(s[q].index != index);
                }
                if q > i as int {
                    assert(s[i as int].index != index);
                }
            }
            return Some(i);
        }
    }
    None
}

/// The saturating sum of two token counts.
pub open spec fn spec_sat_add_u32(a: u32, b: u32) -> u32 {
    if a + b <= u32::MAX {
        (a + b) as u32
    } else {
        u32::MAX
    }
}

fn sat_add_u32(a: u32, b: u32) -> (r: u32)
    ensures
        r == spec_sat_add_u32(a, b),
{
    if a <= u32::MAX - b {
        a + b
    } else {
        u32::MAX
    }
}

/// The header every emitted data chunk carries: the captured identifier,
/// creation time and model, the chunk object tag and no usage report.
pub open spec fn spec_chunk_header(
    cr: ChunkResponse,
    id: Seq<char>,
    created: u64,
    model: Seq<char>,
) -> bool {
    &&& cr.id@ == id
    &&& cr.created == created
    &&& cr.model@ == model
    &&& cr.system_fingerprint@.len() == 0
    &&& cr.service_tier is None
    &&& cr.object@ == "chat.completion.chunk"@
    &&& cr.usage is None
}

pub open spec fn view_of_opt_str(o: Option<&str>) -> Option<Seq<char>> {
    match o {
        Some(s) => Some(s@),
        None => None,
    }
}

/// A data chunk with exactly one choice carrying the given fragments.
pub open spec fn spec_choice_chunk(
    ch: Chunk,
    id: Seq<char>,
    created: u64,
    model: Seq<char>,
    index: usize,
    content: Option<Seq<char>>,
    reasoning: Option<Seq<char>>,
    role: Option<OpenaiRole>,
    finish_reason: Option<FinishReason>,
) -> bool {
    match ch {
        Chunk::Data(cr) => {
            &&& spec_chunk_header(cr, id, created, model)
            &&& cr.choices@.len() == 1
            &&& cr.choices@[0].index == index
            &&& cr.choices@[0].finish_reason == finish_reason
            &&& view_of_opt_string(cr.choices@[0].delta.content) == content
            &&& view_of_opt_string(cr.choices@[0].delta.reasoning) == reasoning
            &&& cr.choices@[0].delta.tool_calls is None
            &&& cr.choices@[0].delta.role == role
        },
        Chunk::Done => false,
    }
}

/// Translates one vendor stream into normalized chunks and, on demand, the
/// aggregated response; owns all per-response state.
#[derive(Debug, Clone, PartialEq)]
pub struct ClaudeEventDataParser {
    pub usage: OpenaiUsage,
    pub parser: OpenaiEventDataParser,
    pub stop_reason: Option<StopReason>,
    pub stop_sequence: Option<String>,
    pub open_tool_calls: Vec<OpenToolCall>,
    pub claude_tool_calls: Vec<ToolUseContentBlock>,
    pub signature: Option<String>,
}

impl ClaudeEventDataParser {
    /// A fresh engine with empty buffers and no captured metadata.
    pub fn new() -> (r: ClaudeEventDataParser)
        ensures
            r.usage == (OpenaiUsage { prompt_tokens: 0, completion_tokens: 0, total_tokens: 0 }),
            r.parser.id@.len() == 0,
            r.parser.model@.len() == 0,
            r.parser.created == 0,
            r.parser.object@ == "chat.completion.chunk"@,
            r.parser.content@.len() == 0,
            r.parser.think_content@.len() == 0,
            r.parser.tool_calls@.len() == 0,
            r.parser.finish_reason is None,
            r.stop_reason is None,
            r.stop_sequence is None,
            r.open_tool_calls@.len() == 0,
            r.claude_tool_calls@.len() == 0,
            r.signature is None,
    {
        ClaudeEventDataParser {
            usage: OpenaiUsage { prompt_tokens: 0, completion_tokens: 0, total_tokens: 0 },
            parser: OpenaiEventDataParser::new(),
            stop_reason: None,
            stop_sequence: None,
            open_tool_calls: Vec::new(),
            claude_tool_calls: Vec::new(),
            signature: None,
        }
    }

    /// A chunk carrying only this response's header and no choice.
    pub fn default_chunk(&self) -> (r: Chunk)
        ensures
            r matches Chunk::Data(cr) && spec_chunk_header(
                cr,
                self.parser.id@,
                self.parser.created,
                self.parser.model@,
            ) && cr.choices@.len() == 0,
    {
        Chunk::Data(
            ChunkResponse {
                id: self.parser.id.clone(),
                choices: Vec::new(),
                created: self.parser.created,
                model: self.parser.model.clone(),
                system_fingerprint: String::new(),
                service_tier: None,
                object: "chat.completion.chunk".to_owned(),
                usage: None,
            },
        )
    }

    /// A chunk with one choice carrying the given fragments.
    pub fn chunk_with_choice(
        &self,
        index: usize,
        text: Option<&str>,
        reasoning: Option<&str>,
        role: Option<OpenaiRole>,
        finish_reason: Option<FinishReason>,
    ) -> (r: Chunk)
        ensures
            spec_choice_chunk(
                r,
                self.parser.id@,
                self.parser.created,
                self.parser.model@,
                index,
                view_of_opt_str(text),
                view_of_opt_str(reasoning),
                role,
                finish_reason,
            ),
    {
        let content = match text {
            Some(s) => Some(s.to_owned()),
            None => None,
        };
        let reasoning_owned = match reasoning {
            Some(s) => Some(s.to_owned()),
            None => None,
        };
        let mut choices: Vec<Choice> = Vec::new();
        choices.push(
            Choice {
                index,
                delta: DeltaMessage {
                    content,
                    reasoning: reasoning_owned,
                    tool_calls: None,
                    role,
                },
                finish_reason,
            },
        );
        Chunk::Data(
            ChunkResponse {
                id: self.parser.id.clone(),
                choices,
                created: self.parser.created,
                model: self.parser.model.clone(),
                system_fingerprint: String::new(),
                service_tier: None,
                object: "chat.completion.chunk".to_owned(),
                usage: None,
            },
        )
    }
}

} // verus!

verus! {


impl Default for ClaudeEventDataParser {
    /// A fresh engine, as `new` builds it.
    fn default() -> (r: ClaudeEventDataParser)
        ensures
            r.usage == (OpenaiUsage { prompt_tokens: 0, completion_tokens: 0, total_tokens: 0 }),
            r.parser.id@.len() == 0,
            r.parser.model@.len() == 0,
            r.parser.created == 0,
            r.parser.content@.len() == 0,
            r.parser.think_content@.len() == 0,
            r.parser.tool_calls@.len() == 0,
            r.parser.finish_reason is None,
            r.stop_reason is None,
            r.stop_sequence is None,
            r.open_tool_calls@.len() == 0,
            r.claude_tool_calls@.len() == 0,
            r.signature is None,
    {
        ClaudeEventDataParser::new()
    }
}

impl ClaudeEventDataParser {
    /// Those parts of the engine state that no event other than
    /// `message_start` touches.
    pub open spec fn spec_same_metadata(self, other: ClaudeEventDataParser) -> bool {
        &&& self.parser.id == other.parser.id
        &&& self.parser.model == other.parser.model
        &&& self.parser.created == other.parser.created
        &&& self.parser.object == other.parser.object
        &&& self.usage == other.usage
    }

    /// Those parts of the engine state that only tool-call events touch.
    pub open spec fn spec_same_tool_state(self, other: ClaudeEventDataParser) -> bool {
        &&& self.open_tool_calls == other.open_tool_calls
        &&& self.claude_tool_calls == other.claude_tool_calls
        &&& self.parser.tool_calls == other.parser.tool_calls
    }

    /// Those parts of the engine state that only text or reasoning deltas
    /// touch.
    pub open spec fn spec_same_buffers(self, other: ClaudeEventDataParser) -> bool {
        &&& self.parser.content == other.parser.content
        &&& self.parser.think_content == other.parser.think_content
        &&& self.signature == other.signature
    }

    /// Those parts of the engine state that only `message_delta` touches.
    pub open spec fn spec_same_stop_state(self, other: ClaudeEventDataParser) -> bool {
        &&& self.stop_reason == other.stop_reason
        &&& self.stop_sequence == other.stop_sequence
        &&& self.parser.finish_reason == other.parser.finish_reason
    }

    /// Consume one decoded stream event, in arrival order.
    ///
    /// Returns the normalized chunk the event maps to, if any, and a
    /// completed tool call the moment its final fragment arrives. An explicit
    /// vendor error aborts with a `VendorError` and leaves the accumulated
    /// state untouched, so the aggregated response stays available.
    #[verifier::rlimit(100)]
    #[verifier::spinoff_prover]
    pub fn parse(&mut self, data: &EventData) -> (r: Result<
        (Option<Chunk>, Option<ToolCall>),
        TranslationError,
    >)
        ensures
            match data {
                EventData::Error { error } => {
                    &&& r matches Err(TranslationError::VendorError { error: e }) && e@ == error@
                    &&& *final(self) == *old(self)
                },
                EventData::MessageStart { message } => {
                    &&& r matches Ok((c, t)) && t is None && (c matches Some(ch)
                        && spec_choice_chunk(
                        ch,
                        final(self).parser.id@,
                        final(self).parser.created,
                        final(self).parser.model@,
                        0,
                        None,
                        None,
                        Some(OpenaiRole::Assistant),
                        None,
                    ))
                    &&& final(self).parser.id@ == if old(self).parser.id@.len() == 0 {
                        message.id@
                    } else {
                        old(self).parser.id@
                    }
                    &&& final(self).parser.model@ == if old(self).parser.model@.len() == 0 {
                        message.model@
                    } else {
                        old(self).parser.model@
                    }
                    &&& final(self).usage.prompt_tokens == (match message.usage.input_tokens {
                        Some(v) => v,
                        None => 0u32,
                    })
                    &&& final(self).usage.completion_tokens == message.usage.output_tokens
                    &&& final(self).usage.total_tokens == old(self).usage.total_tokens
                    &&& final(self).parser.created == old(self).parser.created
                    &&& final(self).parser.object == old(self).parser.object
                    &&& final(self).spec_same_buffers(*old(self))
                    &&& final(self).spec_same_tool_state(*old(self))
                    &&& final(self).spec_same_stop_state(*old(self))
                },
                EventData::Ping => {
                    &&& r matches Ok((c, t)) && c is None && t is None
                    &&& *final(self) == *old(self)
                },
                EventData::ContentBlockStart { index, content_block } => {
                    &&& r matches Ok((c, t)) && c is None && t is None
                    &&& match content_block {
                        BaseContentBlock::ToolUse(tu) => {
                            &&& final(self).open_tool_calls@.len() as int == if spec_has_open(
                                old(self).open_tool_calls@,
                                *index,
                            ) {
                                old(self).open_tool_calls@.len() as int
                            } else {
                                (old(self).open_tool_calls@.len() + 1) as int
                            }
                            &&& {
                                let p = if spec_has_open(old(self).open_tool_calls@, *index) {
                                    spec_open_pos(old(self).open_tool_calls@, *index)
                                } else {
                                    old(self).open_tool_calls@.len() as int
                                };
                                &&& final(self).open_tool_calls@[p].index == *index
                                &&& final(self).open_tool_calls@[p].id@ == tu.id@
                                &&& final(self).open_tool_calls@[p].name@ == tu.name@
                                &&& final(self).open_tool_calls@[p].arguments@.len() == 0
                                &&& forall|j: int|
                                    0 <= j < old(self).open_tool_calls@.len() && j != p
                                        ==> final(self).open_tool_calls@[j] == old(
                                        self,
                                    ).open_tool_calls@[j]
                            }
                            &&& final(self).claude_tool_calls == old(self).claude_tool_calls
                            &&& final(self).parser.tool_calls == old(self).parser.tool_calls
                            &&& final(self).spec_same_metadata(*old(self))
                            &&& final(self).spec_same_buffers(*old(self))
                            &&& final(self).spec_same_stop_state(*old(self))
                        },
                        _ => *final(self) == *old(self),
                    }
                },
                EventData::ContentBlockDelta { index, delta } => match delta {
                    DeltaContentBlock::TextDelta { text } => {
                        &&& r matches Ok((c, t)) && t is None && (c matches Some(ch)
                            && spec_choice_chunk(
                            ch,
                            final(self).parser.id@,
                            final(self).parser.created,
                            final(self).parser.model@,
                            *index as usize,
                            Some(text@),
                            None,
                            None,
                            None,
                        ))
                        &&& final(self).parser.content@ == old(self).parser.content@ + text@
                        &&& final(self).parser.think_content == old(self).parser.think_content
                        &&& final(self).signature == old(self).signature
                        &&& final(self).spec_same_metadata(*old(self))
                        &&& final(self).spec_same_tool_state(*old(self))
                        &&& final(self).spec_same_stop_state(*old(self))
                    },
                    DeltaContentBlock::ThinkingDelta { thinking } => {
                        &&& r matches Ok((c, t)) && t is None && (c matches Some(ch)
                            && spec_choice_chunk(
                            ch,
                            final(self).parser.id@,
                            final(self).parser.created,
                            final(self).parser.model@,
                            *index as usize,
                            None,
                            Some(thinking@),
                            None,
                            None,
                        ))
                        &&& final(self).parser.think_content@ == old(self).parser.think_content@
                            + thinking@
                        &&& final(self).parser.content == old(self).parser.content
                        &&& final(self).signature == old(self).signature
                        &&& final(self).spec_same_metadata(*old(self))
                        &&& final(self).spec_same_tool_state(*old(self))
                        &&& final(self).spec_same_stop_state(*old(self))
                    },
                    DeltaContentBlock::SignatureDelta { signature } => {
                        &&& r matches Ok((c, t)) && c is None && t is None
                        &&& final(self).signature matches Some(sig) && sig@ == signature@
                        &&& final(self).parser.content == old(self).parser.content
                        &&& final(self).parser.think_content == old(self).parser.think_content
                        &&& final(self).spec_same_metadata(*old(self))
                        &&& final(self).spec_same_tool_state(*old(self))
                        &&& final(self).spec_same_stop_state(*old(self))
                    },
                    DeltaContentBlock::InputJsonDelta { partial_json } => {
                        &&& r matches Ok((c, t)) && c is None && t is None
                        &&& if spec_has_open(old(self).open_tool_calls@, *index) {
                            let p = spec_open_pos(old(self).open_tool_calls@, *index);
                            &&& final(self).open_tool_calls@.len() == old(self).open_tool_calls@.len()
                            &&& final(self).open_tool_calls@[p].index == old(
                                self,
                            ).open_tool_calls@[p].index
                            &&& final(self).open_tool_calls@[p].id == old(self).open_tool_calls@[p].id
                            &&& final(self).open_tool_calls@[p].name == old(
                                self,
                            ).open_tool_calls@[p].name
                            &&& final(self).open_tool_calls@[p].arguments@ == old(
                                self,
                            ).open_tool_calls@[p].arguments@ + partial_json@
                            &&& forall|j: int|
                                0 <= j < old(self).open_tool_calls@.len() && j != p
                                    ==> final(self).open_tool_calls@[j] == old(self).open_tool_calls@[j]
                            &&& final(self).claude_tool_calls == old(self).claude_tool_calls
                            &&& final(self).parser.tool_calls == old(self).parser.tool_calls
                            &&& final(self).spec_same_metadata(*old(self))
                            &&& final(self).spec_same_buffers(*old(self))
                            &&& final(self).spec_same_stop_state(*old(self))
                        } else {
                            *final(self) == *old(self)
                        }
                    },
                },
                EventData::ContentBlockStop { index } => {
                    if spec_has_open(old(self).open_tool_calls@, *index) {
                        let p = spec_open_pos(old(self).open_tool_calls@, *index);
                        let oc = old(self).open_tool_calls@[p];
                        &&& r matches Ok((c, t)) && c is None && (t matches Some(
                            ToolCall::Function(f),
                        ) && f.id@ == oc.id@ && f.function.name@ == oc.name@
                            && f.function.arguments@ == oc.arguments@)
                        &&& final(self).open_tool_calls@ == old(self).open_tool_calls@.remove(p)
                        &&& final(self).parser.tool_calls@.len() == old(self).parser.tool_calls@.len() + 1
                        &&& final(self).parser.tool_calls@.drop_last() == old(self).parser.tool_calls@
                        &&& final(self).parser.tool_calls@.last() matches ToolCall::Function(g) && g.id@
                            == oc.id@ && g.function.name@ == oc.name@ && g.function.arguments@
                            == oc.arguments@
                        &&& if json_parses(oc.arguments@) {
                            &&& final(self).claude_tool_calls@.len() == old(
                                self,
                            ).claude_tool_calls@.len() + 1
                            &&& final(self).claude_tool_calls@.drop_last() == old(self).claude_tool_calls@
                            &&& final(self).claude_tool_calls@.last().id@ == oc.id@
                            &&& final(self).claude_tool_calls@.last().name@ == oc.name@
                            &&& final(self).claude_tool_calls@.last().input.spec_is_object()
                                == json_parses_to_object(oc.arguments@)
                        } else {
                            final(self).claude_tool_calls == old(self).claude_tool_calls
                        }
                        &&& final(self).spec_same_metadata(*old(self))
                        &&& final(self).spec_same_buffers(*old(self))
                        &&& final(self).spec_same_stop_state(*old(self))
                    } else {
                        &&& r matches Ok((c, t)) && c is None && t is None
                        &&& *final(self) == *old(self)
                    }
                },
                EventData::MessageDelta { delta, usage } => {
                    &&& r matches Ok((c, t)) && t is None && (c matches Some(ch)
                        && spec_choice_chunk(
                        ch,
                        final(self).parser.id@,
                        final(self).parser.created,
                        final(self).parser.model@,
                        0,
                        None,
                        None,
                        None,
                        Some(spec_map_stop_reason(delta.stop_reason)),
                    ))
                    &&& final(self).usage.completion_tokens == spec_sat_add_u32(
                        old(self).usage.completion_tokens,
                        usage.output_tokens,
                    )
                    &&& final(self).usage.prompt_tokens == old(self).usage.prompt_tokens
                    &&& final(self).usage.total_tokens == old(self).usage.total_tokens
                    &&& final(self).parser.finish_reason == Some(spec_map_stop_reason(delta.stop_reason))
                    &&& final(self).stop_reason == Some(delta.stop_reason)
                    &&& final(self).stop_sequence == old(self).stop_sequence
                    &&& final(self).parser.id == old(self).parser.id
                    &&& final(self).parser.model == old(self).parser.model
                    &&& final(self).parser.created == old(self).parser.created
                    &&& final(self).parser.object == old(self).parser.object
                    &&& final(self).spec_same_buffers(*old(self))
                    &&& final(self).spec_same_tool_state(*old(self))
                },
                EventData::MessageStop => {
                    &&& r matches Ok((c, t)) && t is None && c == Some(Chunk::Done)
                    &&& *final(self) == *old(self)
                },
            },
    {
        match data {
            EventData::Error { error } => {
                Err(TranslationError::VendorError { error: error.duplicate() })
            },
            EventData::MessageStart { message } => {
                self.parser.update_id_if_empty(message.id.as_str());
                self.parser.update_model_if_empty(message.model.as_str());
                self.usage.prompt_tokens = match message.usage.input_tokens {
                    Some(v) => v,
                    None => 0,
                };
                self.usage.completion_tokens = message.usage.output_tokens;
                let chunk = self.chunk_with_choice(0, None, None, Some(OpenaiRole::Assistant), None);
                Ok((Some(chunk), None))
            },
            EventData::Ping => Ok((None, None)),
            EventData::ContentBlockStart { index, content_block } => {
                match content_block {
                    BaseContentBlock::ToolUse(tu) => {
                        let opened = OpenToolCall {
                            index: *index,
                            id: tu.id.clone(),
                            name: tu.name.clone(),
                            arguments: String::new(),
                        };
                        let ghost before = self.open_tool_calls@;
                        match find_open(&self.open_tool_calls, *index) {
                            Some(p) => {
                                let _ = self.open_tool_calls.remove(p);
                                self.open_tool_calls.insert(p, opened);
                                proof {
                                    assert(self.open_tool_calls@ =~= before.update(
                                        p as int,
                                        opened,
                                    ));
                                }
                            },
                            None => {
                                self.open_tool_calls.push(opened);
                            },
                        }
                        Ok((None, None))
                    },
                    BaseContentBlock::Text { .. } => Ok((None, None)),
                    BaseContentBlock::Thinking { .. } => Ok((None, None)),
                }
            },
            EventData::ContentBlockDelta { index, delta } => match delta {
                DeltaContentBlock::TextDelta { text } => {
                    self.parser.push_content(text.as_str());
                    let chunk = self.chunk_with_choice(
                        *index as usize,
                        Some(text.as_str()),
                        None,
                        None,
                        None,
                    );
                    Ok((Some(chunk), None))
                },
                DeltaContentBlock::ThinkingDelta { thinking } => {
                    self.parser.push_thinking(thinking.as_str());
                    let chunk = self.chunk_with_choice(
                        *index as usize,
                        None,
                        Some(thinking.as_str()),
                        None,
                        None,
                    );
                    Ok((Some(chunk), None))
                },
                DeltaContentBlock::SignatureDelta { signature } => {
                    self.signature = Some(signature.clone());
                    Ok((None, None))
                },
                DeltaContentBlock::InputJsonDelta { partial_json } => {
                    let ghost before = self.open_tool_calls@;
                    match find_open(&self.open_tool_calls, *index) {
                        Some(p) => {
                            let oc = self.open_tool_calls.remove(p);
                            let OpenToolCall { index: oidx, id, name, arguments } = oc;
                            let mut arguments = arguments;
                            arguments.append(partial_json.as_str());
                            let updated = OpenToolCall { index: oidx, id, name, arguments };
                            self.open_tool_calls.insert(p, updated);
                            proof {
                                assert(self.open_tool_calls@ =~= before.update(p as int, updated));
                            }
                            Ok((None, None))
                        },
                        None => Ok((None, None)),
                    }
                },
            },
            EventData::ContentBlockStop { index } => {
                let ghost before = self.open_tool_calls@;
                match find_open(&self.open_tool_calls, *index) {
                    Some(p) => {
                        let oc = self.open_tool_calls.remove(p);
                        let tool_call = ToolCall::Function(
                            ToolCallFunction {
                                id: oc.id.clone(),
                                function: ToolCallFunctionObj {
                                    name: oc.name.clone(),
                                    arguments: oc.arguments.clone(),
                                },
                            },
                        );
                        self.parser.push_tool_call(
                            ToolCall::Function(
                                ToolCallFunction {
                                    id: oc.id.clone(),
                                    function: ToolCallFunctionObj {
                                        name: oc.name.clone(),
                                        arguments: oc.arguments.clone(),
                                    },
                                },
                            ),
                        );
                        match JsonValue::from_text(oc.arguments.as_str()) {
                            Some(input) => {
                                self.claude_tool_calls.push(
                                    ToolUseContentBlock { id: oc.id, name: oc.name, input },
                                );
                            },
                            None => {},
                        }
                        Ok((None, Some(tool_call)))
                    },
                    None => Ok((None, None)),
                }
            },
            EventData::MessageDelta { delta, usage } => {
                self.usage.completion_tokens = sat_add_u32(
                    self.usage.completion_tokens,
                    usage.output_tokens,
                );
                let mapped = FinishReason::from(delta.stop_reason);
                self.parser.set_finish_reason(Some(mapped));
                self.stop_reason = Some(delta.stop_reason);
                let chunk = self.chunk_with_choice(0, None, None, None, Some(mapped));
                Ok((Some(chunk), None))
            },
            EventData::MessageStop => Ok((Some(Chunk::Done), None)),
        }
    }
}

} // verus!

verus! {

impl ClaudeEventDataParser {
    /// Assemble the aggregated normalized response from the accumulator:
    /// the single choice from the buffers, and the summed token usage.
    pub fn response(self) -> (r: OpenaiResponse)
        ensures
            r.id == self.parser.id,
            r.created == self.parser.created,
            r.model == self.parser.model,
            r.object@ == "chat.completion"@,
            r.system_fingerprint@.len() == 0,
            r.usage.prompt_tokens == self.usage.prompt_tokens,
            r.usage.completion_tokens == self.usage.completion_tokens,
            r.usage.total_tokens == spec_sat_add_u32(
                self.usage.prompt_tokens,
                self.usage.completion_tokens,
            ),
            r.choices@.len() == 1,
            r.choices@[0].index == 0,
            r.choices@[0].finish_reason == self.parser.finish_reason,
            r.choices@[0].message.role == OpenaiRole::Assistant,
            r.choices@[0].message.content == if self.parser.content@.len() == 0 {
                Option::<String>::None
            } else {
                Some(self.parser.content)
            },
            r.choices@[0].message.reasoning == if self.parser.think_content@.len() == 0 {
                Option::<String>::None
            } else {
                Some(self.parser.think_content)
            },
            r.choices@[0].message.tool_calls == if self.parser.tool_calls@.len() == 0 {
                Option::<Vec<ToolCall>>::None
            } else {
                Some(self.parser.tool_calls)
            },
    {
        let ClaudeEventDataParser { usage, mut parser, .. } = self;
        parser.object = "chat.completion".to_owned();
        let mut res = parser.response();
        res.usage = OpenaiUsage {
            prompt_tokens: usage.prompt_tokens,
            completion_tokens: usage.completion_tokens,
            total_tokens: sat_add_u32(usage.prompt_tokens, usage.completion_tokens),
        };
        res
    }

    /// Assemble the vendor-shaped aggregated response: the reasoning buffer
    /// with its pending signature, then the visible-text buffer, then each
    /// completed tool call, each block omitted when empty.
    pub fn claude_response(&self) -> (r: ClaudeResponse)
        ensures
            r.id@ == self.parser.id@,
            r.kind@ == "message"@,
            r.role == Role::Assistant,
            r.model@ == self.parser.model@,
            r.stop_reason == self.stop_reason,
            r.stop_sequence is None,
            r.usage.input_tokens == Some(self.usage.prompt_tokens),
            r.usage.output_tokens == self.usage.completion_tokens,
            r.content@.len() == spec_think_count(*self) + spec_text_count(*self)
                + self.claude_tool_calls@.len(),
            self.parser.think_content@.len() > 0 ==> (r.content@[0] matches
                ResponseContentBlock::Base(BaseContentBlock::Thinking { thinking, signature })
                && thinking@ == self.parser.think_content@ && view_of_opt_string(signature)
                == view_of_opt_string(self.signature)),
            self.parser.content@.len() > 0 ==> (r.content@[spec_think_count(*self)] matches
                ResponseContentBlock::Base(BaseContentBlock::Text { text }) && text@
                == self.parser.content@),
            forall|i: int|
                0 <= i < self.claude_tool_calls@.len() ==> (#[trigger] r.content@[spec_think_count(
                    *self,
                ) + spec_text_count(*self) + i] matches ResponseContentBlock::Base(
                    BaseContentBlock::ToolUse(t),
                ) && t.id@ == self.claude_tool_calls@[i].id@ && t.name@
                    == self.claude_tool_calls@[i].name@ && t.input@
                    == self.claude_tool_calls@[i].input@),
    {
        let mut content: Vec<ResponseContentBlock> = Vec::new();
        if !self.parser.think_content.as_str().is_empty() {
            let signature = match &self.signature {
                Some(s) => Some(s.clone()),
                None => None,
            };
            content.push(
                ResponseContentBlock::Base(
                    BaseContentBlock::Thinking {
                        thinking: self.parser.think_content.clone(),
                        signature,
                    },
                ),
            );
            proof {
                assert(content@[0] matches ResponseContentBlock::Base(
                    BaseContentBlock::Thinking { thinking: th, signature: sg },
                ) && th@ == self.parser.think_content@ && view_of_opt_string(sg)
                    == view_of_opt_string(self.signature));
            }
        }
        if !self.parser.content.as_str().is_empty() {
            let ghost tb = spec_think_count(*self);
            content.push(
                ResponseContentBlock::Base(
                    BaseContentBlock::Text { text: self.parser.content.clone() },
                ),
            );
            proof {
                assert(content@[tb] matches ResponseContentBlock::Base(
                    BaseContentBlock::Text { text: tx },
                ) && tx@ == self.parser.content@);
            }
        }
        let ghost base = content@;
        let n = self.claude_tool_calls.len();
        for i in 0..n
            invariant
                n == self.claude_tool_calls@.len(),
                content@.len() == base.len() + i,
                forall|j: int| 0 <= j < base.len() ==> content@[j] == base[j],
                forall|j: int|
                    0 <= j < i ==> (#[trigger] content@[base.len() + j] matches
                        ResponseContentBlock::Base(BaseContentBlock::ToolUse(t)) && t.id@
                        == self.claude_tool_calls@[j].id@ && t.name@
                        == self.claude_tool_calls@[j].name@ && t.input@
                        == self.claude_tool_calls@[j].input@),
        {
            let block = self.claude_tool_calls[i].duplicate();
            content.push(ResponseContentBlock::Base(BaseContentBlock::ToolUse(block)));
        }
        proof {
            if self.parser.think_content@.len() > 0 {
                assert(content@[0] == base[0]);
            }
            if self.parser.content@.len() > 0 {
                assert(content@[spec_think_count(*self)] == base[spec_think_count(*self)]);
            }
        }
        ClaudeResponse {
            id: self.parser.id.clone(),
            kind: "message".to_owned(),
            role: Role::Assistant,
            content,
            model: self.parser.model.clone(),
            stop_reason: self.stop_reason,
            stop_sequence: None,
            usage: crate::messages::Usage {
                input_tokens: Some(self.usage.prompt_tokens),
                output_tokens: self.usage.completion_tokens,
            },
        }
    }
}

impl crate::magi::EventDataParser<EventData> for ClaudeEventDataParser {
    type Error = TranslationError;

    type Output = (Option<Chunk>, Option<ToolCall>);

    type UnarayResponse = OpenaiResponse;

    fn parse(&mut self, data: &EventData) -> Result<
        (Option<Chunk>, Option<ToolCall>),
        TranslationError,
    > {
        ClaudeEventDataParser::parse(self, data)
    }

    fn response(self) -> OpenaiResponse {
        ClaudeEventDataParser::response(self)
    }
}

/// One when the reasoning buffer is non-empty, else zero.
pub open spec fn spec_think_count(p: ClaudeEventDataParser) -> int {
    if p.parser.think_content@.len() > 0 {
        1int
    } else {
        0int
    }
}

/// One when the visible-text buffer is non-empty, else zero.
pub open spec fn spec_text_count(p: ClaudeEventDataParser) -> int {
    if p.parser.content@.len() > 0 {
        1int
    } else {
        0int
    }
}

} // verus!

verus! {

/// Whether the text begins with the given prefix.
pub open spec fn spec_starts_with(s: Seq<char>, prefix: Seq<char>) -> bool {
    s.len() >= prefix.len() && s.take(prefix.len() as int) == prefix
}

fn str_starts_with(s: &str, prefix: &str) -> (r: bool)
    ensures
        r == spec_starts_with(s@, prefix@),
{
    let n = prefix.unicode_len();
    if s.unicode_len() < n {
        proof {
            assert(!spec_starts_with(s@, prefix@));
        }
        return false;
    }
    for i in 0..n
        invariant
            n == prefix@.len(),
            s@.len() >= n,
            forall|j: int| 0 <= j < i ==> s@[j] == prefix@[j],
    {
        if s.get_char(i) != prefix.get_char(i) {
            proof {
                assert(s@.take(n as int)[i as int] != prefix@[i as int]);
            }
            return false;
        }
    }
    proof {
        assert(s@.take(n as int) =~= prefix@);
    }
    true
}

/// No comma occurs strictly before index `i`.
pub open spec fn spec_no_comma_before(s: Seq<char>, i: int) -> bool {
    forall|j: int| 0 <= j < i ==> s[j] != ','
}

/// The index of the first comma; meaningful only when one exists.
pub open spec fn spec_first_comma(s: Seq<char>) -> int {
    choose|i: int| 0 <= i < s.len() && s[i] == ',' && spec_no_comma_before(s, i)
}

pub open spec fn spec_has_comma(s: Seq<char>) -> bool {
    exists|i: int| 0 <= i < s.len() && s[i] == ','
}

fn find_comma(s: &str) -> (r: Option<usize>)
    ensures
        r is Some <==> spec_has_comma(s@),
        match r {
            Some(p) => p == spec_first_comma(s@) && p < s@.len() && s@[p as int] == ','
                && spec_no_comma_before(s@, p as int),
            None => true,
        },
{
    let n = s.unicode_len();
    for i in 0..n
        invariant
            n == s@.len(),
            spec_no_comma_before(s@, i as int),
    {
        if s.get_char(i) == ',' {
            proof {
                let q = spec_first_comma(s@);
                assert(0 <= q < s@.len() && s@[q] == ',' && spec_no_comma_before(s@, q));
                if q < i as int {
                    assert(s@[q] != ',');
                }
                if q > i as int {
                    assert(s@[i as int] != ',');
                }
            }
            return Some(i);
        }
    }
    None
}

/// The media type a data URL's prefix names, for the four image formats the
/// vendor accepts; anything else, or a text without a comma, has none.
pub open spec fn spec_mime_from_base64(s: Seq<char>) -> Option<Seq<char>> {
    if !spec_has_comma(s) {
        None
    } else {
        let p = s.take(spec_first_comma(s));
        if p == "data:image/jpeg;base64"@ {
            Some("image/jpeg"@)
        } else if p == "data:image/png;base64"@ {
            Some("image/png"@)
        } else if p == "data:image/gif;base64"@ {
            Some("image/gif"@)
        } else if p == "data:image/webp;base64"@ {
            Some("image/webp"@)
        } else {
            None
        }
    }
}

/// The media type named by a base64 data URL, for the four image formats the
/// vendor accepts.
pub fn parse_mime_from_base64(s: &str) -> (r: Option<String>)
    ensures
        view_of_opt_string(r) == spec_mime_from_base64(s@),
{
    match find_comma(s) {
        None => None,
        Some(p) => {
            let prefix = s.substring_char(0, p);
            if str_eq(prefix, "data:image/jpeg;base64") {
                Some("image/jpeg".to_owned())
            } else if str_eq(prefix, "data:image/png;base64") {
                Some("image/png".to_owned())
            } else if str_eq(prefix, "data:image/gif;base64") {
                Some("image/gif".to_owned())
            } else if str_eq(prefix, "data:image/webp;base64") {
                Some("image/webp".to_owned())
            } else {
                None
            }
        },
    }
}

} // verus!

verus! {

/// The blocks one user content part contributes: a text part becomes a text
/// block; an image part becomes an image block when its URL is a recognized
/// base64 data URL, and is dropped otherwise (remote image URLs are not
/// supported by the target dialect).
pub open spec fn spec_part_blocks(p: OaContentPart) -> Seq<ContentBlockView> {
    match p {
        OaContentPart::Text(t) => seq![
            ContentBlockView::Base(BaseContentBlockView::Text(t.text@)),
        ],
        OaContentPart::Image(ip) => {
            let url = ip.image_url.url@;
            if !spec_starts_with(url, "http"@) && spec_mime_from_base64(url) is Some {
                seq![
                    ContentBlockView::RequestOnly(
                        RequestOnlyContentBlockView::Image {
                            media_type: spec_mime_from_base64(url)->0,
                            data: url,
                        },
                    ),
                ]
            } else {
                Seq::empty()
            }
        },
    }
}

pub open spec fn spec_parts_blocks(parts: Seq<OaContentPart>) -> Seq<ContentBlockView>
    decreases parts.len(),
{
    if parts.len() == 0 {
        Seq::empty()
    } else {
        spec_parts_blocks(parts.drop_last()) + spec_part_blocks(parts.last())
    }
}

/// The conversation the target dialect sees: system messages are lifted out,
/// user and assistant texts carry over, user part lists become block lists,
/// and assistant messages without text are dropped.
pub open spec fn spec_converted_messages(s: Seq<OaMessage>) -> Seq<MessageView>
    decreases s.len(),
{
    if s.len() == 0 {
        Seq::empty()
    } else {
        let prefix = spec_converted_messages(s.drop_last());
        match s.last() {
            OaMessage::System(_) => prefix,
            OaMessage::User(um) => match um.content {
                OaContent::Text(t) => prefix.push(
                    MessageView { role: Role::User, content: MessageContentView::Text(t@) },
                ),
                OaContent::Array(parts) => prefix.push(
                    MessageView {
                        role: Role::User,
                        content: MessageContentView::Blocks(spec_parts_blocks(parts@)),
                    },
                ),
            },
            OaMessage::Assistant(am) => match am.content {
                Some(t) => prefix.push(
                    MessageView { role: Role::Assistant, content: MessageContentView::Text(t@) },
                ),
                None => prefix,
            },
            OaMessage::Tool(_) => prefix,
        }
    }
}

/// The system prompt the conversation carries: the last system message wins.
pub open spec fn spec_system_text(s: Seq<OaMessage>) -> Option<Seq<char>>
    decreases s.len(),
{
    if s.len() == 0 {
        None
    } else {
        match s.last() {
            OaMessage::System(sm) => Some(sm.content@),
            _ => spec_system_text(s.drop_last()),
        }
    }
}

/// Convert a caller conversation into the target dialect's message list and
/// extracted system prompt.
pub fn convert_messages(messages: Vec<OaMessage>) -> (r: (Vec<Message>, Option<String>))
    ensures
        view_of_messages(r.0@) == spec_converted_messages(messages@),
        view_of_opt_string(r.1) == spec_system_text(messages@),
{
    let ghost orig = messages@;
    let mut rest = messages;
    let mut out: Vec<Message> = Vec::new();
    let mut system_message: Option<String> = None;
    let ghost mut k: int = 0;
    while rest.len() > 0
        invariant
            0 <= k <= orig.len(),
            rest@ =~= orig.subrange(k, orig.len() as int),
            view_of_messages(out@) =~= spec_converted_messages(orig.take(k)),
            view_of_opt_string(system_message) == spec_system_text(orig.take(k)),
        decreases rest.len(),
    {
        let ghost prev = rest@;
        let m = rest.remove(0);
        proof {
            assert(m == orig[k]);
            assert(rest@ =~= orig.subrange(k + 1, orig.len() as int)) by {
                assert forall|j: int| 0 <= j < rest@.len() implies rest@[j] == orig[k + 1 + j] by {
                    assert(rest@[j] == prev[j + 1]);
                }
            }
            assert(orig.take(k + 1).drop_last() =~= orig.take(k));
            assert(orig.take(k + 1).last() == orig[k]);
        }
        let ghost out_prev = out@;
        match m {
            OaMessage::System(system) => {
                system_message = Some(system.content);
            },
            OaMessage::User(user) => match user.content {
                OaContent::Text(text) => {
                    out.push(Message { role: Role::User, content: MessageContent::Text(text) });
                    proof {
                        lemma_view_msgs_push(out_prev, out@[out@.len() - 1]);
                    }
                },
                OaContent::Array(parts) => {
                    let ghost parts_v = parts@;
                    let mut parts_rest = parts;
                    let mut blocks: Vec<crate::messages::ContentBlock> = Vec::new();
                    let ghost mut pk: int = 0;
                    while parts_rest.len() > 0
                        invariant
                            0 <= pk <= parts_v.len(),
                            parts_rest@ =~= parts_v.subrange(pk, parts_v.len() as int),
                            crate::request::view_of_blocks(blocks@) =~= spec_parts_blocks(
                                parts_v.take(pk),
                            ),
                        decreases parts_rest.len(),
                    {
                        let ghost p_prev = parts_rest@;
                        let p = parts_rest.remove(0);
                        proof {
                            assert(p == parts_v[pk]);
                            assert(parts_rest@ =~= parts_v.subrange(pk + 1, parts_v.len() as int))
                                by {
                                assert forall|j: int| 0 <= j < parts_rest@.len()
                                    implies parts_rest@[j] == parts_v[pk + 1 + j] by {
                                    assert(parts_rest@[j] == p_prev[j + 1]);
                                }
                            }
                            assert(parts_v.take(pk + 1).drop_last() =~= parts_v.take(pk));
                            assert(parts_v.take(pk + 1).last() == parts_v[pk]);
                        }
                        let ghost blocks_prev = blocks@;
                        match p {
                            OaContentPart::Text(text_part) => {
                                blocks.push(
                                    crate::messages::ContentBlock::Base(
                                        BaseContentBlock::Text { text: text_part.text },
                                    ),
                                );
                                proof {
                                    assert(crate::request::view_of_blocks(blocks@)
                                        =~= spec_parts_blocks(parts_v.take(pk)).push(
                                        blocks@[blocks@.len() - 1]@,
                                    )) by {
                                        assert forall|j: int| 0 <= j < blocks@.len()
                                            implies crate::request::view_of_blocks(blocks@)[j]
                                            == spec_parts_blocks(parts_v.take(pk)).push(
                                            blocks@[blocks@.len() - 1]@,
                                        )[j] by {
                                            if j < blocks_prev.len() {
                                                assert(blocks@[j] == blocks_prev[j]);
                                                assert(crate::request::view_of_blocks(
                                                    blocks_prev,
                                                )[j] == blocks_prev[j]@);
                                            }
                                        }
                                    }
                                    assert(crate::request::view_of_blocks(blocks@)
                                        =~= spec_parts_blocks(parts_v.take(pk + 1)));
                                }
                            },
                            OaContentPart::Image(image_part) => {
                                let url_is_http = str_starts_with(
                                    image_part.image_url.url.as_str(),
                                    "http",
                                );
                                if !url_is_http {
                                    match parse_mime_from_base64(
                                        image_part.image_url.url.as_str(),
                                    ) {
                                        Some(mime) => {
                                            blocks.push(
                                                crate::messages::ContentBlock::RequestOnly(
                                                    crate::messages::RequestOnlyContentBlock::Image {
                                                        source: crate::messages::ImageSource::Base64 {
                                                            media_type: mime,
                                                            data: image_part.image_url.url,
                                                        },
                                                    },
                                                ),
                                            );
                                            proof {
                                                assert forall|j: int| 0 <= j < blocks@.len()
                                                    implies crate::request::view_of_blocks(
                                                    blocks@,
                                                )[j] == spec_parts_blocks(parts_v.take(pk)).push(
                                                    blocks@[blocks@.len() - 1]@,
                                                )[j] by {
                                                    if j < blocks_prev.len() {
                                                        assert(blocks@[j] == blocks_prev[j]);
                                                        assert(crate::request::view_of_blocks(
                                                            blocks_prev,
                                                        )[j] == blocks_prev[j]@);
                                                    }
                                                }
                                                assert(crate::request::view_of_blocks(blocks@)
                                                    =~= spec_parts_blocks(parts_v.take(pk + 1)));
                                            }
                                        },
                                        None => {
                                            proof {
                                                assert(crate::request::view_of_blocks(blocks@)
                                                    =~= spec_parts_blocks(parts_v.take(pk + 1)));
                                            }
                                        },
                                    }
                                } else {
                                    proof {
                                        assert(crate::request::view_of_blocks(blocks@)
                                            =~= spec_parts_blocks(parts_v.take(pk + 1)));
                                    }
                                }
                            },
                        }
                        proof {
                            pk = pk + 1;
                        }
                    }
                    proof {
                        assert(parts_v.take(parts_v.len() as int) =~= parts_v);
                    }
                    out.push(
                        Message { role: Role::User, content: MessageContent::Blocks(blocks) },
                    );
                    proof {
                        lemma_view_msgs_push(out_prev, out@[out@.len() - 1]);
                    }
                },
            },
            OaMessage::Assistant(assistant) => {
                match assistant.content {
                    Some(text) => {
                        out.push(
                            Message { role: Role::Assistant, content: MessageContent::Text(text) },
                        );
                        proof {
                            lemma_view_msgs_push(out_prev, out@[out@.len() - 1]);
                        }
                    },
                    None => {},
                }
            },
            OaMessage::Tool(_) => {},
        }
        proof {
            assert(view_of_messages(out@) =~= spec_converted_messages(orig.take(k + 1)));
            k = k + 1;
        }
    }
    proof {
        assert(orig.take(orig.len() as int) =~= orig);
    }
    (out, system_message)
}

} // verus!
