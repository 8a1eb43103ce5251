//! The content model: the tagged-union vocabulary of message content and the
//! per-variant emptiness predicates the conversation normalizer builds on.

use vstd::prelude::*;

use crate::jsonval::{JsonValue, JsonValueView};
use crate::strutil::{is_blank, str_is_blank};

verus! {

/// The two conversation roles.
#[derive(Debug, Clone, Copy, PartialEq, Eq, Structural)]
pub enum Role {
    User,
    Assistant,
}

/// One conversation turn.
#[derive(Debug, Clone, PartialEq)]
pub struct Message {
    pub role: Role,
    pub content: MessageContent,
}

/// Message content is shape-discriminated: a bare text or a block list.
#[derive(Debug, Clone, PartialEq)]
pub enum MessageContent {
    Text(String),
    Blocks(Vec<ContentBlock>),
}

/// Blocks valid in requests, responses and stream deltas.
#[derive(Debug, Clone, PartialEq)]
pub enum BaseContentBlock {
    Text { text: String },
    Thinking { thinking: String, signature: Option<String> },
    ToolUse(ToolUseContentBlock),
}

/// A tool invocation with its structured input.
#[derive(Debug, Clone, PartialEq)]
pub struct ToolUseContentBlock {
    pub id: String,
    pub name: String,
    pub input: JsonValue,
}

/// Blocks valid only when a caller constructs a request.
#[derive(Debug, Clone, PartialEq)]
pub enum RequestOnlyContentBlock {
    Image { source: ImageSource },
    Document { source: Option<String>, id: Option<String> },
    ToolResult { tool_use_id: String, content: String },
}

/// Every block kind a request may carry.
#[derive(Debug, Clone, PartialEq)]
pub enum ContentBlock {
    Base(BaseContentBlock),
    RequestOnly(RequestOnlyContentBlock),
    RedactedThinking(RedactedThinkingContentBlock),
}

/// Every block kind a response may carry.
#[derive(Debug, Clone, PartialEq)]
pub enum ResponseContentBlock {
    Base(BaseContentBlock),
    RedactedThinking(RedactedThinkingContentBlock),
}

/// Reasoning withheld by the vendor; valid in responses and streams only.
#[derive(Debug, Clone, PartialEq)]
pub enum RedactedThinkingContentBlock {
    RedactedThinking { data: String },
}

/// Incremental fragments delivered during streaming.
#[derive(Debug, Clone, PartialEq)]
pub enum DeltaContentBlock {
    TextDelta { text: String },
    InputJsonDelta { partial_json: String },
    ThinkingDelta { thinking: String },
    SignatureDelta { signature: String },
}

#[derive(Debug, Clone, PartialEq)]
pub enum ImageSource {
    Base64 { media_type: String, data: String },
}

#[derive(Debug, Clone, PartialEq)]
pub enum DocumentSource {
    Base64 { media_type: String, data: String },
}

/// Vendor-reported token counts.
#[derive(Debug, Clone, Copy, PartialEq, Eq, Structural)]
pub struct Usage {
    pub input_tokens: Option<u32>,
    pub output_tokens: u32,
}

/// The vendor's vocabulary for why generation ended.
#[derive(Debug, Clone, Copy, PartialEq, Eq, Structural)]
pub enum StopReason {
    EndTurn,
    MaxTokens,
    StopSequence,
    ToolUse,
}

// ---------------------------------------------------------------------------
// Mathematical views
// ---------------------------------------------------------------------------

pub struct MessageView {
    pub role: Role,
    pub content: MessageContentView,
}

pub enum MessageContentView {
    Text(Seq<char>),
    Blocks(Seq<ContentBlockView>),
}

pub enum ContentBlockView {
    Base(BaseContentBlockView),
    RequestOnly(RequestOnlyContentBlockView),
    RedactedThinking(Seq<char>),
}

pub enum BaseContentBlockView {
    Text(Seq<char>),
    Thinking { thinking: Seq<char>, signature: Option<Seq<char>> },
    ToolUse { id: Seq<char>, name: Seq<char>, input: JsonValueView },
}

pub enum RequestOnlyContentBlockView {
    Image { media_type: Seq<char>, data: Seq<char> },
    Document { source: Option<Seq<char>>, id: Option<Seq<char>> },
    ToolResult { tool_use_id: Seq<char>, content: Seq<char> },
}

pub open spec fn view_of_opt_string(o: Option<String>) -> Option<Seq<char>> {
    match o {
        Some(s) => Some(s@),
        None => None,
    }
}

impl View for BaseContentBlock {
    type V = BaseContentBlockView;

    open spec fn view(&self) -> BaseContentBlockView {
        match self {
            BaseContentBlock::Text { text } => BaseContentBlockView::Text(text@),
            BaseContentBlock::Thinking { thinking, signature } => BaseContentBlockView::Thinking {
                thinking: thinking@,
                signature: view_of_opt_string(*signature),
            },
            BaseContentBlock::ToolUse(t) => BaseContentBlockView::ToolUse {
                id: t.id@,
                name: t.name@,
                input: t.input@,
            },
        }
    }
}

impl View for RequestOnlyContentBlock {
    type V = RequestOnlyContentBlockView;

    open spec fn view(&self) -> RequestOnlyContentBlockView {
        match self {
            RequestOnlyContentBlock::Image {
                source: ImageSource::Base64 { media_type, data },
            } => RequestOnlyContentBlockView::Image { media_type: media_type@, data: data@ },
            RequestOnlyContentBlock::Document { source, id } => {
                RequestOnlyContentBlockView::Document {
                    source: view_of_opt_string(*source),
                    id: view_of_opt_string(*id),
                }
            },
            RequestOnlyContentBlock::ToolResult { tool_use_id, content } => {
                RequestOnlyContentBlockView::ToolResult {
                    tool_use_id: tool_use_id@,
                    content: content@,
                }
            },
        }
    }
}

impl View for ContentBlock {
    type V = ContentBlockView;

    open spec fn view(&self) -> ContentBlockView {
        match self {
            ContentBlock::Base(b) => ContentBlockView::Base(b@),
            ContentBlock::RequestOnly(b) => ContentBlockView::RequestOnly(b@),
            ContentBlock::RedactedThinking(
                RedactedThinkingContentBlock::RedactedThinking { data },
            ) => ContentBlockView::RedactedThinking(data@),
        }
    }
}

impl View for MessageContent {
    type V = MessageContentView;

    open spec fn view(&self) -> MessageContentView {
        match self {
            MessageContent::Text(t) => MessageContentView::Text(t@),
            MessageContent::Blocks(bs) => MessageContentView::Blocks(
                bs@.map_values(|b: ContentBlock| b@),
            ),
        }
    }
}

impl View for Message {
    type V = MessageView;

    open spec fn view(&self) -> MessageView {
        MessageView { role: self.role, content: self.content@ }
    }
}

pub open spec fn view_of_messages(s: Seq<Message>) -> Seq<MessageView> {
    s.map_values(|m: Message| m@)
}

// ---------------------------------------------------------------------------
// Emptiness
// ---------------------------------------------------------------------------

/// The per-variant emptiness predicate of a single block.
pub open spec fn spec_block_empty(b: ContentBlockView) -> bool {
    match b {
        ContentBlockView::Base(BaseContentBlockView::Text(text)) => is_blank(text),
        ContentBlockView::Base(
            BaseContentBlockView::Thinking { thinking, .. },
        ) => is_blank(thinking),
        ContentBlockView::Base(BaseContentBlockView::ToolUse { id, name, input }) => id.len() == 0
            || name.len() == 0 || !input.object,
        ContentBlockView::RequestOnly(
            RequestOnlyContentBlockView::Image { media_type, data },
        ) => is_blank(media_type) || is_blank(data),
        ContentBlockView::RequestOnly(
            RequestOnlyContentBlockView::Document { source, id },
        ) => source is None || id is None,
        ContentBlockView::RequestOnly(
            RequestOnlyContentBlockView::ToolResult { tool_use_id, content },
        ) => tool_use_id.len() == 0 || is_blank(content),
        ContentBlockView::RedactedThinking(data) => data.len() == 0,
    }
}

/// Every block in the list is empty; holds of the empty list.
pub open spec fn spec_all_blocks_empty(bs: Seq<ContentBlockView>) -> bool {
    forall|i: int| 0 <= i < bs.len() ==> spec_block_empty(#[trigger] bs[i])
}

/// Content is empty when its text is blank, or every block is empty, or the
/// block list itself is empty.
pub open spec fn spec_content_empty(c: MessageContentView) -> bool {
    match c {
        MessageContentView::Text(t) => is_blank(t),
        MessageContentView::Blocks(bs) => spec_all_blocks_empty(bs),
    }
}

pub open spec fn spec_message_empty(m: MessageView) -> bool {
    spec_content_empty(m.content)
}

impl ContentBlock {
    /// Whether this block carries no usable content.
    pub fn is_empty(&self) -> (r: bool)
        ensures
            r == spec_block_empty(self@),
    {
        match self {
            ContentBlock::Base(base) => match base {
                BaseContentBlock::Text { text } => str_is_blank(text.as_str()),
                BaseContentBlock::ToolUse(tool_use) => tool_use.id.as_str().is_empty()
                    || tool_use.name.as_str().is_empty() || !tool_use.input.is_object(),
                BaseContentBlock::Thinking { thinking, .. } => str_is_blank(thinking.as_str()),
            },
            ContentBlock::RequestOnly(req_only) => match req_only {
                RequestOnlyContentBlock::Image { source } => match source {
                    ImageSource::Base64 { media_type, data } => str_is_blank(media_type.as_str())
                        || str_is_blank(data.as_str()),
                },
                RequestOnlyContentBlock::Document { source, id } => source.is_none()
                    || id.is_none(),
                RequestOnlyContentBlock::ToolResult { tool_use_id, content } => {
                    tool_use_id.as_str().is_empty() || str_is_blank(content.as_str())
                },
            },
            ContentBlock::RedactedThinking(redacted_thinking) => match redacted_thinking {
                RedactedThinkingContentBlock::RedactedThinking { data } => {
                    data.as_str().is_empty()
                },
            },
        }
    }
}

/// Whether every block in the list is empty.
fn all_blocks_empty(blocks: &Vec<ContentBlock>) -> (r: bool)
    ensures
        r == forall|i: int| 0 <= i < blocks@.len() ==> spec_block_empty((#[trigger] blocks@[i])@),
{
    let n = blocks.len();
    for i in 0..n
        invariant
            n == blocks.len(),
            forall|j: int| 0 <= j < i ==> spec_block_empty((#[trigger] blocks@[j])@),
    {
        if !blocks[i].is_empty() {
            return false;
        }
    }
    true
}

/// Whether some block in the list is redacted reasoning.
fn has_redacted_block(blocks: &Vec<ContentBlock>) -> (r: bool)
    ensures
        r == exists|i: int| 0 <= i < blocks@.len() && (#[trigger] blocks@[i])@ is RedactedThinking,
{
    let n = blocks.len();
    for i in 0..n
        invariant
            n == blocks.len(),
            forall|j: int| 0 <= j < i ==> !((#[trigger] blocks@[j])@ is RedactedThinking),
    {
        if let ContentBlock::RedactedThinking(_) = &blocks[i] {
            return true;
        }
    }
    false
}

impl MessageContent {
    /// Whether the whole content is empty.
    pub fn is_all_empty(&self) -> (r: bool)
        ensures
            r == spec_content_empty(self@),
    {
        match self {
            MessageContent::Text(s) => str_is_blank(s.as_str()),
            MessageContent::Blocks(blocks) => {
                let r = all_blocks_empty(blocks);
                proof {
                    let bs = self@->Blocks_0;
                    assert forall|j: int| 0 <= j < bs.len() implies (#[trigger] bs[j])
                        == blocks@[j]@ by {}
                    if r {
                        assert forall|j: int| 0 <= j < bs.len() implies spec_block_empty(
                            #[trigger] bs[j],
                        ) by {
                            assert(spec_block_empty(blocks@[j]@));
                        }
                    } else {
                        let i = choose|i: int|
                            0 <= i < blocks@.len() && !spec_block_empty((#[trigger] blocks@[i])@);
                        assert(!spec_block_empty(bs[i]));
                    }
                }
                r
            },
        }
    }

    /// Whether every block is of a kind a request body accepts; redacted
    /// reasoning is refused.
    pub open spec fn spec_valid_for_request(&self) -> bool {
        match self@ {
            MessageContentView::Text(_) => true,
            MessageContentView::Blocks(bs) => forall|i: int|
                0 <= i < bs.len() ==> !(#[trigger] bs[i] is RedactedThinking),
        }
    }

    /// Validate that the content carries only block kinds a request accepts;
    /// the error names the refused kind.
    pub fn validate(&self) -> (r: Result<(), String>)
        ensures
            r is Ok <==> self.spec_valid_for_request(),
    {
        match self {
            MessageContent::Text(_) => Ok(()),
            MessageContent::Blocks(blocks) => {
                let bad = has_redacted_block(blocks);
                proof {
                    let bs = self@->Blocks_0;
                    assert forall|j: int| 0 <= j < bs.len() implies (#[trigger] bs[j])
                        == blocks@[j]@ by {}
                    if bad {
                        let i = choose|i: int|
                            0 <= i < blocks@.len() && (#[trigger] blocks@[i])@
                                is RedactedThinking;
                        assert(bs[i] is RedactedThinking);
                    } else {
                        assert forall|j: int| 0 <= j < bs.len() implies !(#[trigger] bs[j]
                            is RedactedThinking) by {
                            assert(!(blocks@[j]@ is RedactedThinking));
                        }
                    }
                }
                if bad {
                    Err(
                        "invalid content block type: redacted thinking is not allowed in a request body".to_owned(),
                    )
                } else {
                    Ok(())
                }
            },
        }
    }
}

impl Message {
    /// Whether the message's content is entirely empty.
    pub fn is_all_empty(&self) -> (r: bool)
        ensures
            r == spec_message_empty(self@),
    {
        self.content.is_all_empty()
    }

    /// Validate the message for use in a request body.
    pub fn validate(&self) -> (r: Result<(), String>)
        ensures
            r is Ok <==> self.content.spec_valid_for_request(),
    {
        self.content.validate()
    }
}

impl ToolUseContentBlock {
    /// An identical block.
    pub fn duplicate(&self) -> (r: ToolUseContentBlock)
        ensures
            r.id@ == self.id@,
            r.name@ == self.name@,
            r.input@ == self.input@,
    {
        ToolUseContentBlock {
            id: self.id.clone(),
            name: self.name.clone(),
            input: self.input.duplicate(),
        }
    }
}

/// Emptiness of a streaming fragment: text fragments are empty when blank,
/// the other fragment kinds when their payload has no characters.
pub open spec fn spec_delta_empty(d: &DeltaContentBlock) -> bool {
    match d {
        DeltaContentBlock::TextDelta { text } => is_blank(text@),
        DeltaContentBlock::InputJsonDelta { partial_json } => partial_json@.len() == 0,
        DeltaContentBlock::ThinkingDelta { thinking } => thinking@.len() == 0,
        DeltaContentBlock::SignatureDelta { signature } => signature@.len() == 0,
    }
}

impl DeltaContentBlock {
    /// Whether this streaming fragment carries nothing.
    pub fn is_empty(&self) -> (r: bool)
        ensures
            r == spec_delta_empty(self),
    {
        match self {
            DeltaContentBlock::TextDelta { text } => str_is_blank(text.as_str()),
            DeltaContentBlock::InputJsonDelta { partial_json } => {
                partial_json.as_str().is_empty()
            },
            DeltaContentBlock::ThinkingDelta { thinking } => thinking.as_str().is_empty(),
            DeltaContentBlock::SignatureDelta { signature } => signature.as_str().is_empty(),
        }
    }
}

} // verus!
