//! Token-count estimation for requests and responses, using byte-pair
//! encoding for the text and fixed per-message and per-name surcharges.
//!
//! The counting follows the shape the upstream service documents: every
//! message costs a fixed overhead plus its text, every reply is primed with
//! a fixed three tokens, and tool definitions contribute a rendered type
//! declaration header plus their parameter schemas. Arithmetic saturates at
//! the numeric bounds instead of failing.

use vstd::prelude::*;

pub use crate::image_token::get_image_tokens;

use crate::entity::chat_completion_object::Choice;
use crate::entity::create_chat_completion::{
    spec_join, Content, ContentPart, Message, Tool, ToolCall,
};
use crate::image_token::spec_image_tokens;

verus! {

#[verifier::external_type_specification]
#[verifier::external_body]
pub struct ExCoreBPE(tiktoken_rs::CoreBPE);

/// The number of cl100k byte-pair tokens the text encodes to, special tokens
/// allowed; a function of the text alone.
pub uninterp spec fn cl100k_token_count(s: Seq<char>) -> usize;

/// Relies on tiktoken_rs::cl100k_base: builds the tokenizer from its fixed
/// embedded vocabulary; may fail, and nothing further is assumed of it.
#[verifier::external_body]
fn cl100k_base_bpe() -> Option<tiktoken_rs::CoreBPE> {
    tiktoken_rs::cl100k_base().ok()
}

/// A token counter over some text encoding.
pub trait TokenCounter {
    /// The count this counter assigns to a text.
    spec fn spec_count(&self, content: Seq<char>) -> usize;

    fn count(&self, content: &str) -> (r: usize)
        ensures
            r == self.spec_count(content@),
    ;
}

/// A byte-pair token counter over the fixed cl100k vocabulary; every value
/// of this type counts identically.
pub struct BpeTokenCounter {
    bpe: tiktoken_rs::CoreBPE,
}

impl BpeTokenCounter {
    /// A counter for the given model family; every supported model uses the
    /// cl100k vocabulary. Fails only when the embedded vocabulary cannot be
    /// loaded.
    pub fn new(_model: &str) -> Option<BpeTokenCounter> {
        match cl100k_base_bpe() {
            Some(bpe) => Some(BpeTokenCounter { bpe }),
            None => None,
        }
    }
}

/// Relies on tiktoken_rs::CoreBPE::encode_with_special_tokens: over the
/// fixed cl100k vocabulary every `BpeTokenCounter` holds, and with every
/// special token allowed, the count it yields is a function of the text
/// alone.
#[verifier::external_body]
fn cl100k_count(counter: &BpeTokenCounter, content: &str) -> (r: usize)
    ensures
        r == cl100k_token_count(content@),
{
    counter.bpe.encode_with_special_tokens(content).len()
}

impl TokenCounter for BpeTokenCounter {
    open spec fn spec_count(&self, content: Seq<char>) -> usize {
        cl100k_token_count(content)
    }

    fn count(&self, content: &str) -> (r: usize) {
        cl100k_count(self, content)
    }
}

/// Saturating i32 addition.
pub open spec fn spec_sat_add_i32(a: i32, b: i32) -> i32 {
    if a + b > i32::MAX {
        i32::MAX
    } else if a + b < i32::MIN {
        i32::MIN
    } else {
        (a + b) as i32
    }
}

fn sat_add_i32(a: i32, b: i32) -> (r: i32)
    ensures
        r == spec_sat_add_i32(a, b),
{
    if b >= 0 {
        if a <= i32::MAX - b {
            a + b
        } else {
            i32::MAX
        }
    } else {
        if a >= i32::MIN - b {
            a + b
        } else {
            i32::MIN
        }
    }
}

/// Saturating usize addition.
pub open spec fn spec_sat_add_usize(a: usize, b: usize) -> usize {
    if a + b > usize::MAX {
        usize::MAX
    } else {
        (a + b) as usize
    }
}

fn sat_add_usize(a: usize, b: usize) -> (r: usize)
    ensures
        r == spec_sat_add_usize(a, b),
{
    if a <= usize::MAX - b {
        a + b
    } else {
        usize::MAX
    }
}

/// An image's contribution as an i32 surcharge, saturating.
pub open spec fn spec_image_surcharge(p: ImageContentPartTokens) -> i32 {
    match p {
        ImageContentPartTokens::Counted(t) => if t > i32::MAX {
            i32::MAX
        } else {
            t as i32
        },
        ImageContentPartTokens::Uncounted => 0,
    }
}

/// Helper view of an image part for the token count.
pub enum ImageContentPartTokens {
    Counted(u32),
    Uncounted,
}

pub open spec fn spec_image_part_tokens(p: ContentPart) -> ImageContentPartTokens {
    match p {
        ContentPart::Image(img) => match img.dimensions {
            Some(d) => ImageContentPartTokens::Counted(
                spec_image_tokens(d.0, d.1, img.image_url.detail),
            ),
            None => ImageContentPartTokens::Uncounted,
        },
        ContentPart::Text(_) => ImageContentPartTokens::Uncounted,
    }
}

/// The name, text and tool-call fragments one message contributes to the
/// concatenated prompt text, in push order.
pub open spec fn spec_message_texts(m: Message) -> Seq<Seq<char>> {
    match m {
        Message::System(sm) => spec_opt_name(sm.name).push(sm.content@),
        Message::User(um) => spec_opt_name(um.name) + spec_user_content_texts(um.content),
        Message::Assistant(am) => spec_opt_name(am.name) + spec_opt_text(am.content)
            + spec_tool_call_texts(am.tool_calls),
        Message::Tool(tm) => seq![tm.content@],
    }
}

pub open spec fn spec_opt_name(n: Option<String>) -> Seq<Seq<char>> {
    match n {
        Some(s) => seq![s@],
        None => Seq::empty(),
    }
}

pub open spec fn spec_opt_text(n: Option<String>) -> Seq<Seq<char>> {
    match n {
        Some(s) => seq![s@],
        None => Seq::empty(),
    }
}

pub open spec fn spec_user_content_texts(c: Content) -> Seq<Seq<char>> {
    match c {
        Content::Text(t) => seq![t@],
        Content::Array(parts) => spec_part_texts(parts@),
    }
}

pub open spec fn spec_part_texts(parts: Seq<ContentPart>) -> Seq<Seq<char>>
    decreases parts.len(),
{
    if parts.len() == 0 {
        Seq::empty()
    } else {
        let prefix = spec_part_texts(parts.drop_last());
        match parts.last() {
            ContentPart::Text(t) => prefix.push(t.text@),
            ContentPart::Image(_) => prefix,
        }
    }
}

pub open spec fn spec_tool_call_texts(tc: Option<Vec<ToolCall>>) -> Seq<Seq<char>> {
    match tc {
        Some(v) => spec_tool_call_seq_texts(v@),
        None => Seq::empty(),
    }
}

pub open spec fn spec_tool_call_seq_texts(v: Seq<ToolCall>) -> Seq<Seq<char>>
    decreases v.len(),
{
    if v.len() == 0 {
        Seq::empty()
    } else {
        let prefix = spec_tool_call_seq_texts(v.drop_last());
        match v.last() {
            ToolCall::Function(f) => prefix.push(f.function.name@).push(f.function.arguments@),
        }
    }
}

/// The non-text surcharge one message adds: a per-name surcharge and each
/// counted image's token cost, saturating, in evaluation order.
pub open spec fn spec_message_surcharge(m: Message, tokens_per_name: i32) -> i32 {
    match m {
        Message::System(sm) => if sm.name is Some {
            tokens_per_name
        } else {
            0
        },
        Message::User(um) => {
            let base: i32 = if um.name is Some {
                tokens_per_name
            } else {
                0
            };
            match um.content {
                Content::Text(_) => base,
                Content::Array(parts) => spec_image_fold(parts@, base),
            }
        },
        Message::Assistant(am) => if am.name is Some {
            tokens_per_name
        } else {
            0
        },
        Message::Tool(_) => 0,
    }
}

pub open spec fn spec_image_fold(parts: Seq<ContentPart>, base: i32) -> i32
    decreases parts.len(),
{
    if parts.len() == 0 {
        base
    } else {
        spec_sat_add_i32(
            spec_image_fold(parts.drop_last(), base),
            spec_image_surcharge(spec_image_part_tokens(parts.last())),
        )
    }
}

/// The views of a list of borrowed texts.
pub open spec fn spec_strs_views(s: Seq<&str>) -> Seq<Seq<char>> {
    s.map_values(|x: &str| x@)
}

/// The accumulated fixed surcharges of a message list: the per-message
/// overhead and each message's own surcharge, saturating, in order.
pub open spec fn spec_base_fold(msgs: Seq<Message>, tpm: i32, tpn: i32) -> i32
    decreases msgs.len(),
{
    if msgs.len() == 0 {
        0
    } else {
        spec_sat_add_i32(
            spec_sat_add_i32(spec_base_fold(msgs.drop_last(), tpm, tpn), tpm),
            spec_message_surcharge(msgs.last(), tpn),
        )
    }
}

/// The text fragments a message list contributes, in order.
pub open spec fn spec_messages_texts(msgs: Seq<Message>) -> Seq<Seq<char>>
    decreases msgs.len(),
{
    if msgs.len() == 0 {
        Seq::empty()
    } else {
        spec_messages_texts(msgs.drop_last()) + spec_message_texts(msgs.last())
    }
}

/// The rendered header fragments of one tool definition.
pub open spec fn spec_tool_header_texts(t: Tool) -> Seq<Seq<char>> {
    let desc: Seq<Seq<char>> = match t.function.description {
        Some(d) => seq!["// "@, d@, "\n"@],
        None => Seq::empty(),
    };
    desc + seq!["namespace functions\n type "@, t.function.name@, "=>\n"@]
}

/// The header fragments of a tool list, in order.
pub open spec fn spec_tools_texts(tools: Seq<Tool>) -> Seq<Seq<char>>
    decreases tools.len(),
{
    if tools.len() == 0 {
        Seq::empty()
    } else {
        spec_tools_texts(tools.drop_last()) + spec_tool_header_texts(tools.last())
    }
}

/// The parameter-schema text of a tool list: each tool's canonical schema
/// text, when present, each followed by a line break.
pub open spec fn spec_tools_schema_text(tools: Seq<Tool>) -> Seq<char>
    decreases tools.len(),
{
    if tools.len() == 0 {
        Seq::empty()
    } else {
        let prefix = spec_tools_schema_text(tools.drop_last());
        let params: Seq<char> = match tools.last().function.parameters {
            Some(p) => p@.text,
            None => Seq::empty(),
        };
        prefix + params + "\n"@
    }
}

/// The complete prompt token estimate: the fixed surcharges plus three
/// reply-priming tokens, clamped at zero, plus the count of the joined text
/// fragments and the count of the schema text, saturating.
pub open spec fn spec_request_count(
    msgs: Seq<Message>,
    tools: Option<Seq<Tool>>,
    tpm: i32,
    tpn: i32,
    cnt: spec_fn(Seq<char>) -> usize,
) -> usize {
    let base = spec_sat_add_i32(spec_base_fold(msgs, tpm, tpn), 3);
    let clamped: usize = if base < 0 {
        0
    } else {
        base as usize
    };
    let texts = spec_messages_texts(msgs) + (match tools {
        Some(ts) => spec_tools_texts(ts),
        None => Seq::empty(),
    });
    let schema_text = match tools {
        Some(ts) => spec_tools_schema_text(ts),
        None => Seq::empty(),
    };
    spec_sat_add_usize(spec_sat_add_usize(clamped, cnt(spec_join(texts, " "@))), cnt(schema_text))
}

/// The text a completed response's choices contribute: each choice's content
/// and a rendered header and arguments for each of its tool calls.
pub open spec fn spec_response_text(choices: Seq<Choice>) -> Seq<char>
    decreases choices.len(),
{
    if choices.len() == 0 {
        Seq::empty()
    } else {
        spec_response_text(choices.drop_last()) + spec_choice_text(choices.last())
    }
}

pub open spec fn spec_choice_text(c: Choice) -> Seq<char> {
    let content: Seq<char> = match c.message.content {
        Some(t) => t@,
        None => Seq::empty(),
    };
    content + (match c.message.tool_calls {
        Some(tcs) => spec_choice_tool_text(tcs@),
        None => Seq::empty(),
    })
}

pub open spec fn spec_choice_tool_text(tcs: Seq<ToolCall>) -> Seq<char>
    decreases tcs.len(),
{
    if tcs.len() == 0 {
        Seq::empty()
    } else {
        spec_choice_tool_text(tcs.drop_last()) + (match tcs.last() {
            ToolCall::Function(f) => "namespace functions\n type "@ + f.function.name@ + "=>\n"@
                + f.function.arguments@ + "\n"@,
        })
    }
}

/// The completion token estimate: the count of the concatenated choice text.
pub open spec fn spec_response_count(
    choices: Seq<Choice>,
    cnt: spec_fn(Seq<char>) -> usize,
) -> usize {
    cnt(spec_response_text(choices))
}

} // verus!

verus! {

/// The per-message and per-name token surcharges of the target model family.
pub struct OpenaiTokens {
    tokens_per_name: i32,
    tokens_per_message: i32,
}

/// Join borrowed texts with a single space between consecutive entries.
fn join_strs(parts: &Vec<&str>, sep: &str) -> (r: String)
    ensures
        r@ == spec_join(spec_strs_views(parts@), sep@),
{
    let mut out = String::new();
    let n = parts.len();
    for i in 0..n
        invariant
            n == parts@.len(),
            out@ == spec_join(spec_strs_views(parts@).take(i as int), sep@),
    {
        proof {
            let vs = spec_strs_views(parts@);
            assert(vs[i as int] == parts@[i as int]@);
            assert(vs.take(i + 1).drop_last() =~= vs.take(i as int));
            assert(vs.take(i + 1).last() == vs[i as int]);
        }
        if i > 0 {
            out.append(sep);
        }
        out.append(parts[i]);
        proof {
            let vs = spec_strs_views(parts@);
            if i == 0 {
                assert(vs.take(1).len() == 1);
                assert(out@ =~= vs.take(1)[0]);
            } else {
                assert(vs.take(i + 1).len() >= 2);
            }
        }
    }
    proof {
        assert(spec_strs_views(parts@).take(n as int) =~= spec_strs_views(parts@));
    }
    out
}

impl OpenaiTokens {
    /// Surcharges for the current model generation: four tokens per message,
    /// and a name replaces the role rather than costing extra.
    pub fn new(tokens_per_message: Option<i32>, tokens_per_name: Option<i32>) -> (r: OpenaiTokens)
        ensures
            r.spec_tokens_per_message() == (match tokens_per_message {
                Some(v) => v,
                None => 4i32,
            }),
            r.spec_tokens_per_name() == (match tokens_per_name {
                Some(v) => v,
                None => -1i32,
            }),
    {
        let tokens_per_message = match tokens_per_message {
            Some(v) => v,
            None => 4,
        };
        let tokens_per_name = match tokens_per_name {
            Some(v) => v,
            None => -1,
        };
        OpenaiTokens { tokens_per_name, tokens_per_message }
    }

    pub closed spec fn spec_tokens_per_message(&self) -> i32 {
        self.tokens_per_message
    }

    pub closed spec fn spec_tokens_per_name(&self) -> i32 {
        self.tokens_per_name
    }

    /// Collect one message's text fragments and return its fixed surcharge.
    fn parse_prompt_message<'a>(
        &self,
        contents: &mut Vec<&'a str>,
        message: &'a Message,
    ) -> (r: i32)
        ensures
            spec_strs_views(final(contents)@) == spec_strs_views(old(contents)@)
                + spec_message_texts(*message),
            r == spec_message_surcharge(*message, self.spec_tokens_per_name()),
    {
        let ghost base_views = spec_strs_views(contents@);
        let mut temp_counter: i32 = 0;
        match message {
            Message::System(m) => {
                match &m.name {
                    Some(name) => {
                        temp_counter = sat_add_i32(temp_counter, self.tokens_per_name);
                        contents.push(name.as_str());
                        proof {
                            assert(temp_counter == self.tokens_per_name);
                        }
                    },
                    None => {},
                }
                contents.push(m.content.as_str());
                proof {
                    assert(spec_strs_views(contents@) =~= base_views + spec_message_texts(
                        *message,
                    ));
                }
            },
            Message::User(m) => {
                match &m.name {
                    Some(name) => {
                        temp_counter = sat_add_i32(temp_counter, self.tokens_per_name);
                        contents.push(name.as_str());
                    },
                    None => {},
                }
                let ghost named_views = spec_strs_views(contents@);
                let ghost name_base: i32 = temp_counter;
                match &m.content {
                    Content::Text(text) => {
                        contents.push(text.as_str());
                        proof {
                            assert(spec_strs_views(contents@) =~= base_views + spec_message_texts(
                                *message,
                            ));
                        }
                    },
                    Content::Array(array) => {
                        let n = array.len();
                        for i in 0..n
                            invariant
                                n == array@.len(),
                                spec_strs_views(contents@) =~= named_views + spec_part_texts(
                                    array@.take(i as int),
                                ),
                                temp_counter == spec_image_fold(array@.take(i as int), name_base),
                        {
                            proof {
                                assert(array@.take(i + 1).drop_last() =~= array@.take(i as int));
                                assert(array@.take(i + 1).last() == array@[i as int]);
                            }
                            let ghost before = spec_strs_views(contents@);
                            match &array[i] {
                                ContentPart::Text(t) => {
                                    contents.push(t.text.as_str());
                                    proof {
                                        assert(spec_strs_views(contents@) =~= before.push(
                                            t.text@,
                                        ));
                                        assert(spec_strs_views(contents@) =~= named_views
                                            + spec_part_texts(array@.take(i + 1)));
                                    }
                                },
                                ContentPart::Image(image) => {
                                    match image.dimensions {
                                        Some((w, h)) => {
                                            let t = get_image_tokens(
                                                (w, h),
                                                &image.image_url.detail,
                                            );
                                            let ti: i32 = if t > i32::MAX as u32 {
                                                i32::MAX
                                            } else {
                                                t as i32
                                            };
                                            temp_counter = sat_add_i32(temp_counter, ti);
                                        },
                                        None => {},
                                    }
                                    proof {
                                        assert(spec_strs_views(contents@) =~= named_views
                                            + spec_part_texts(array@.take(i + 1)));
                                    }
                                },
                            }
                        }
                        proof {
                            assert(array@.take(n as int) =~= array@);
                            assert(spec_strs_views(contents@) =~= base_views + spec_message_texts(
                                *message,
                            ));
                        }
                    },
                }
            },
            Message::Assistant(m) => {
                match &m.name {
                    Some(name) => {
                        temp_counter = sat_add_i32(temp_counter, self.tokens_per_name);
                        contents.push(name.as_str());
                    },
                    None => {},
                }
                match &m.content {
                    Some(content) => {
                        contents.push(content.as_str());
                    },
                    None => {},
                }
                let ghost pre_tools = spec_strs_views(contents@);
                match &m.tool_calls {
                    Some(tools) => {
                        let n = tools.len();
                        for i in 0..n
                            invariant
                                n == tools@.len(),
                                spec_strs_views(contents@) =~= pre_tools
                                    + spec_tool_call_seq_texts(tools@.take(i as int)),
                        {
                            proof {
                                assert(tools@.take(i + 1).drop_last() =~= tools@.take(i as int));
                                assert(tools@.take(i + 1).last() == tools@[i as int]);
                            }
                            let ghost before = spec_strs_views(contents@);
                            match &tools[i] {
                                ToolCall::Function(function_call) => {
                                    contents.push(function_call.function.name.as_str());
                                    contents.push(function_call.function.arguments.as_str());
                                    proof {
                                        assert(spec_strs_views(contents@) =~= before.push(
                                            function_call.function.name@,
                                        ).push(function_call.function.arguments@));
                                        assert(spec_strs_views(contents@) =~= pre_tools
                                            + spec_tool_call_seq_texts(tools@.take(i + 1)));
                                    }
                                },
                            }
                        }
                        proof {
                            assert(tools@.take(n as int) =~= tools@);
                        }
                    },
                    None => {},
                }
                proof {
                    assert(spec_strs_views(contents@) =~= base_views + spec_message_texts(
                        *message,
                    ));
                }
            },
            Message::Tool(m) => {
                contents.push(m.content.as_str());
                proof {
                    assert(spec_strs_views(contents@) =~= base_views + spec_message_texts(
                        *message,
                    ));
                }
            },
        }
        temp_counter
    }

    /// Estimate the prompt tokens of a request: fixed surcharges, the texts
    /// the messages and tool headers contribute, and the tool parameter
    /// schemas, counted by the given counter.
    pub fn request_count(
        &mut self,
        messages: &[Message],
        tools: Option<&[Tool]>,
        counter: &impl TokenCounter,
    ) -> (r: usize)
        ensures
            r == spec_request_count(
                messages@,
                (match tools {
                    Some(ts) => Some(ts@),
                    None => None,
                }),
                old(self).spec_tokens_per_message(),
                old(self).spec_tokens_per_name(),
                |s: Seq<char>| counter.spec_count(s),
            ),
            *final(self) == *old(self),
    {
        let mut req_contents: Vec<&str> = Vec::new();
        let mut tool_msgs = String::new();
        let mut num_tokens: i32 = 0;
        let n = messages.len();
        for i in 0..n
            invariant
                n == messages@.len(),
                num_tokens == spec_base_fold(
                    messages@.take(i as int),
                    self.spec_tokens_per_message(),
                    self.spec_tokens_per_name(),
                ),
                spec_strs_views(req_contents@) =~= spec_messages_texts(messages@.take(i as int)),
                *self == *old(self),
        {
            proof {
                assert(messages@.take(i + 1).drop_last() =~= messages@.take(i as int));
                assert(messages@.take(i + 1).last() == messages@[i as int]);
            }
            num_tokens = sat_add_i32(num_tokens, self.tokens_per_message);
            let temp = self.parse_prompt_message(&mut req_contents, &messages[i]);
            num_tokens = sat_add_i32(num_tokens, temp);
        }
        proof {
            assert(messages@.take(n as int) =~= messages@);
        }
        num_tokens = sat_add_i32(num_tokens, 3);
        match tools {
            Some(tools) => {
                let tn = tools.len();
                for i in 0..tn
                    invariant
                        tn == tools@.len(),
                        spec_strs_views(req_contents@) =~= spec_messages_texts(messages@)
                            + spec_tools_texts(tools@.take(i as int)),
                        tool_msgs@ == spec_tools_schema_text(tools@.take(i as int)),
                        num_tokens == spec_sat_add_i32(
                            spec_base_fold(
                                messages@,
                                self.spec_tokens_per_message(),
                                self.spec_tokens_per_name(),
                            ),
                            3,
                        ),
                        *self == *old(self),
                {
                    proof {
                        assert(tools@.take(i + 1).drop_last() =~= tools@.take(i as int));
                        assert(tools@.take(i + 1).last() == tools@[i as int]);
                    }
                    let ghost before = spec_strs_views(req_contents@);
                    let ghost msgs_before = tool_msgs@;
                    let tool = &tools[i];
                    match &tool.function.description {
                        Some(desc) => {
                            req_contents.push("// ");
                            req_contents.push(desc.as_str());
                            req_contents.push("\n");
                        },
                        None => {},
                    }
                    req_contents.push("namespace functions\n type ");
                    req_contents.push(tool.function.name.as_str());
                    req_contents.push("=>\n");
                    match &tool.function.parameters {
                        Some(parameters_json) => {
                            tool_msgs.append(parameters_json.text());
                        },
                        None => {},
                    }
                    tool_msgs.append("\n");
                    proof {
                        assert(spec_strs_views(req_contents@) =~= before + spec_tool_header_texts(
                            tools@[i as int],
                        ));
                        assert(spec_strs_views(req_contents@) =~= spec_messages_texts(messages@)
                            + spec_tools_texts(tools@.take(i + 1)));
                        assert(tool_msgs@ =~= spec_tools_schema_text(tools@.take(i + 1)));
                    }
                }
                proof {
                    assert(tools@.take(tn as int) =~= tools@);
                }
            },
            None => {},
        }
        let clamped: usize = if num_tokens < 0 {
            0
        } else {
            num_tokens as usize
        };
        let concat_contents = join_strs(&req_contents, " ");
        let with_texts = sat_add_usize(clamped, counter.count(concat_contents.as_str()));
        let total = sat_add_usize(with_texts, counter.count(tool_msgs.as_str()));
        total
    }

    /// Estimate the completion tokens of a response: the concatenated choice
    /// texts counted by the given counter.
    pub fn response_count(&mut self, choices: &[Choice], counter: &impl TokenCounter) -> (r: usize)
        ensures
            r == spec_response_count(choices@, |s: Seq<char>| counter.spec_count(s)),
            *final(self) == *old(self),
    {
        let mut content = String::new();
        let n = choices.len();
        for i in 0..n
            invariant
                n == choices@.len(),
                content@ == spec_response_text(choices@.take(i as int)),
        {
            proof {
                assert(choices@.take(i + 1).drop_last() =~= choices@.take(i as int));
                assert(choices@.take(i + 1).last() == choices@[i as int]);
            }
            let ghost before = content@;
            let choice = &choices[i];
            match &choice.message.content {
                Some(c) => {
                    content.append(c.as_str());
                },
                None => {},
            }
            let ghost with_content = content@;
            match &choice.message.tool_calls {
                Some(tools) => {
                    let tn = tools.len();
                    for j in 0..tn
                        invariant
                            tn == tools@.len(),
                            content@ == with_content + spec_choice_tool_text(
                                tools@.take(j as int),
                            ),
                    {
                        proof {
                            assert(tools@.take(j + 1).drop_last() =~= tools@.take(j as int));
                            assert(tools@.take(j + 1).last() == tools@[j as int]);
                        }
                        match &tools[j] {
                            ToolCall::Function(function_call) => {
                                content.append("namespace functions\n type ");
                                content.append(function_call.function.name.as_str());
                                content.append("=>\n");
                                content.append(function_call.function.arguments.as_str());
                            },
                        }
                        content.append("\n");
                        proof {
                            assert(content@ =~= with_content + spec_choice_tool_text(
                                tools@.take(j + 1),
                            ));
                        }
                    }
                    proof {
                        assert(tools@.take(tn as int) =~= tools@);
                    }
                },
                None => {},
            }
            proof {
                assert(content@ =~= spec_response_text(choices@.take(i + 1)));
            }
        }
        proof {
            assert(choices@.take(n as int) =~= choices@);
        }
        counter.count(content.as_str())
    }
}

/// Estimate the prompt tokens of a request with the cl100k tokenizer and the
/// default surcharges; fails only when the tokenizer cannot be loaded.
pub fn prompt_tokens(model: &str, messages: &[Message], tools: Option<&[Tool]>) -> (r: Option<
    usize,
>)
    ensures
        r matches Some(v) ==> v == spec_request_count(
            messages@,
            (match tools {
                Some(ts) => Some(ts@),
                None => None,
            }),
            4i32,
            -1i32,
            |s: Seq<char>| cl100k_token_count(s),
        ),
{
    match BpeTokenCounter::new(model) {
        Some(counter) => {
            let mut openai_tokens = OpenaiTokens::new(None, None);
            Some(openai_tokens.request_count(messages, tools, &counter))
        },
        None => None,
    }
}

/// Estimate the completion tokens of a response with the cl100k tokenizer;
/// fails only when the tokenizer cannot be loaded.
pub fn completion_tokens(model: &str, choices: &[Choice]) -> (r: Option<usize>)
    ensures
        r matches Some(v) ==> v == spec_response_count(
            choices@,
            |s: Seq<char>| cl100k_token_count(s),
        ),
{
    match BpeTokenCounter::new(model) {
        Some(counter) => {
            let mut openai_tokens = OpenaiTokens::new(None, None);
            Some(openai_tokens.response_count(choices, &counter))
        },
        None => None,
    }
}

/// The token usage of one exchange, estimated with the cl100k tokenizer:
/// prompt tokens from the request's messages and tools, completion tokens
/// from the response's choices; fails only when the tokenizer cannot be
/// loaded.
pub fn usage(
    model: &str,
    messages: &[Message],
    tools: Option<&[Tool]>,
    choices: &[Choice],
) -> (r: Option<crate::entity::chat_completion_object::Usage>)
    ensures
        r matches Some(u) ==> {
            let p = spec_request_count(
                messages@,
                (match tools {
                    Some(ts) => Some(ts@),
                    None => None,
                }),
                4i32,
                -1i32,
                |s: Seq<char>| cl100k_token_count(s),
            );
            let c = spec_response_count(choices@, |s: Seq<char>| cl100k_token_count(s));
            &&& u.prompt_tokens as int == if p > u32::MAX {
                u32::MAX as int
            } else {
                p as int
            }
            &&& u.completion_tokens as int == if c > u32::MAX {
                u32::MAX as int
            } else {
                c as int
            }
            &&& u.total_tokens == crate::claude::spec_sat_add_u32(
                u.prompt_tokens,
                u.completion_tokens,
            )
        },
{
    match BpeTokenCounter::new(model) {
        Some(counter) => {
            let mut openai_tokens = OpenaiTokens::new(None, None);
            let prompt = openai_tokens.request_count(messages, tools, &counter);
            let completion = openai_tokens.response_count(choices, &counter);
            let pt: u32 = if prompt > u32::MAX as usize {
                u32::MAX
            } else {
                prompt as u32
            };
            let ct: u32 = if completion > u32::MAX as usize {
                u32::MAX
            } else {
                completion as u32
            };
            let tt: u32 = if pt <= u32::MAX - ct {
                pt + ct
            } else {
                u32::MAX
            };
            Some(
                crate::entity::chat_completion_object::Usage {
                    prompt_tokens: pt,
                    completion_tokens: ct,
                    total_tokens: tt,
                },
            )
        },
        None => None,
    }
}

} // verus!
