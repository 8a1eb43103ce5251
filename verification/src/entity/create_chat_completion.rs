//! Request-construction shapes: messages, tools and sampling options.

use vstd::prelude::*;

verus! {

/// Up to four sequences at which generation stops.
#[derive(Debug, Clone, PartialEq)]
pub enum Stop {
    String(String),
    Array(Vec<String>),
}

#[derive(Debug, Clone, PartialEq)]
pub struct Tool {
    pub kind: ToolType,
    pub function: FunctionTool,
}

#[derive(Debug, Clone, PartialEq)]
pub struct FunctionTool {
    pub name: String,
    pub description: Option<String>,
    pub parameters: Option<crate::jsonval::JsonValue>,
}

#[derive(Debug, Clone, Copy, PartialEq, Eq, Structural)]
pub enum ToolType {
    Function,
}

/// Why the model stopped generating.
#[derive(Debug, Clone, Copy, PartialEq, Eq, Structural)]
pub enum FinishReason {
    Stop,
    Length,
    ToolCalls,
    ContentFilter,
}

/// One conversation message, tagged by its author's role.
#[derive(Debug, Clone, PartialEq)]
pub enum Message {
    System(SystemMessage),
    User(UserMessage),
    Assistant(AssistantMessage),
    Tool(ToolMessage),
}

#[derive(Debug, Clone, PartialEq)]
pub struct SystemMessage {
    pub content: String,
    pub name: Option<String>,
}

#[derive(Debug, Clone, PartialEq)]
pub struct UserMessage {
    pub content: Content,
    pub name: Option<String>,
}

/// User content is shape-discriminated: a bare text or a part list.
#[derive(Debug, Clone, PartialEq)]
pub enum Content {
    Text(String),
    Array(Vec<ContentPart>),
}

#[derive(Debug, Clone, PartialEq)]
pub enum ContentPart {
    Text(TextContentPart),
    Image(ImageContentPart),
}

#[derive(Debug, Clone, PartialEq)]
pub struct TextContentPart {
    pub text: String,
}

#[derive(Debug, Clone, Copy, PartialEq, Eq, Structural)]
pub enum ImageUrlDetail {
    Auto,
    Low,
    High,
}

#[derive(Debug, Clone, PartialEq)]
pub struct ImageUrl {
    pub url: String,
    pub detail: Option<ImageUrlDetail>,
}

#[derive(Debug, Clone, PartialEq)]
pub struct ImageContentPart {
    pub image_url: ImageUrl,
    /// Width and height in pixels, used only for token estimation.
    pub dimensions: Option<(u32, u32)>,
}

#[derive(Debug, Clone, PartialEq)]
pub struct AssistantMessage {
    pub content: Option<String>,
    pub name: Option<String>,
    pub tool_calls: Option<Vec<ToolCall>>,
}

#[derive(Debug, Clone, PartialEq)]
pub enum ToolCall {
    Function(ToolCallFunction),
}

impl ToolCall {
    /// The identifier of this call.
    pub fn id(&self) -> (r: &str)
        ensures
            r@ == self->Function_0.id@,
    {
        match self {
            ToolCall::Function(f) => f.id.as_str(),
        }
    }

    /// The name of the function called.
    pub fn name(&self) -> (r: &str)
        ensures
            r@ == self->Function_0.function.name@,
    {
        match self {
            ToolCall::Function(f) => f.function.name.as_str(),
        }
    }
}

#[derive(Debug, Clone, PartialEq)]
pub struct ToolCallFunction {
    pub id: String,
    pub function: ToolCallFunctionObj,
}

#[derive(Debug, Clone, PartialEq)]
pub struct ToolCallFunctionObj {
    pub name: String,
    /// The arguments as the model generated them, in JSON text form; not
    /// necessarily valid JSON.
    pub arguments: String,
}

#[derive(Debug, Clone, PartialEq)]
pub struct ToolMessage {
    pub content: String,
    pub tool_call_id: String,
}

#[derive(Debug, Clone, PartialEq)]
pub enum ToolChoice {
    NoTool,
    Auto,
    Function(ToolChoiceFunction),
}

#[derive(Debug, Clone, PartialEq)]
pub struct ToolChoiceFunction {
    pub kind: ToolType,
    pub function: FunctionName,
}

#[derive(Debug, Clone, PartialEq)]
pub struct FunctionName {
    pub name: String,
}

#[derive(Debug, Clone, Copy, PartialEq, Eq, Structural)]
pub struct StreamOptions {
    pub include_usage: Option<bool>,
}

#[derive(Debug, Clone, PartialEq)]
pub struct WebSearchOptions {
    pub search_context_size: Option<String>,
    pub user_location: Option<WebSearchUserLocation>,
}

#[derive(Debug, Clone, PartialEq)]
pub struct WebSearchUserLocation {
    pub kind: String,
    pub approximate: WebSearchUserLocationApproximate,
}

#[derive(Debug, Clone, PartialEq)]
pub struct WebSearchUserLocationApproximate {
    pub city: Option<String>,
    pub country: Option<String>,
    pub region: Option<String>,
    pub timezone: Option<String>,
}

#[derive(Debug, Clone, Copy, PartialEq, Eq, Structural)]
pub enum ReasoningEffort {
    High,
    Medium,
    Low,
}

#[derive(Debug, Clone, PartialEq)]
pub struct OpenRouterReasoning {
    pub effort: ReasoningEffort,
    pub exclude: bool,
}

/// The views of the text parts of a part list, in order.
pub open spec fn spec_text_parts(parts: Seq<ContentPart>) -> Seq<Seq<char>>
    decreases parts.len(),
{
    if parts.len() == 0 {
        Seq::empty()
    } else {
        let prefix = spec_text_parts(parts.drop_last());
        match parts.last() {
            ContentPart::Text(t) => prefix.push(t.text@),
            ContentPart::Image(_) => prefix,
        }
    }
}

/// The pieces joined with `sep` between consecutive pieces.
pub open spec fn spec_join(ss: Seq<Seq<char>>, sep: Seq<char>) -> Seq<char>
    decreases ss.len(),
{
    if ss.len() == 0 {
        Seq::empty()
    } else if ss.len() == 1 {
        ss[0]
    } else {
        spec_join(ss.drop_last(), sep) + sep + ss.last()
    }
}

/// The text a user message carries: its bare text, or its text parts joined
/// with `sep`.
pub open spec fn spec_user_text(c: Content, sep: Seq<char>) -> Seq<char> {
    match c {
        Content::Text(t) => t@,
        Content::Array(parts) => spec_join(spec_text_parts(parts@), sep),
    }
}

/// No message strictly before index `i` is a user message.
pub open spec fn spec_no_user_before(s: Seq<Message>, i: int) -> bool {
    forall|j: int| 0 <= j < i ==> !(#[trigger] s[j] is User)
}

/// No message strictly after index `i` is a user message.
pub open spec fn spec_no_user_after(s: Seq<Message>, i: int) -> bool {
    forall|j: int| i < j < s.len() ==> !(#[trigger] s[j] is User)
}

/// The first user message of the conversation, if one exists.
pub fn first_user_message(messages: &Vec<Message>) -> (r: Option<&Message>)
    ensures
        r is Some <==> exists|i: int| 0 <= i < messages@.len() && messages@[i] is User,
        match r {
            Some(m) => exists|i: int|
                0 <= i < messages@.len() && *m == #[trigger] messages@[i] && messages@[i] is User
                    && spec_no_user_before(messages@, i),
            None => true,
        },
{
    let n = messages.len();
    for i in 0..n
        invariant
            n == messages@.len(),
            spec_no_user_before(messages@, i as int),
    {
        if let Message::User(_) = &messages[i] {
            return Some(&messages[i]);
        }
    }
    None
}

/// The last user message of the conversation, if one exists.
pub fn last_user_message(messages: &Vec<Message>) -> (r: Option<&Message>)
    ensures
        r is Some <==> exists|i: int| 0 <= i < messages@.len() && messages@[i] is User,
        match r {
            Some(m) => exists|i: int|
                0 <= i < messages@.len() && *m == #[trigger] messages@[i] && messages@[i] is User
                    && spec_no_user_after(messages@, i),
            None => true,
        },
{
    let n = messages.len();
    let mut i = n;
    while i > 0
        invariant
            i <= n,
            n == messages@.len(),
            spec_no_user_after(messages@, i - 1),
        decreases i,
    {
        i = i - 1;
        if let Message::User(_) = &messages[i] {
            return Some(&messages[i]);
        }
    }
    None
}

/// The text parts of a part list joined with `sep`.
fn joined_text_parts(parts: &Vec<ContentPart>, sep: &str) -> (r: String)
    ensures
        r@ == spec_join(spec_text_parts(parts@), sep@),
{
    let mut out = String::new();
    let mut started = false;
    let n = parts.len();
    for i in 0..n
        invariant
            n == parts@.len(),
            started == (spec_text_parts(parts@.take(i as int)).len() > 0),
            out@ == spec_join(spec_text_parts(parts@.take(i as int)), sep@),
    {
        proof {
            assert(parts@.take(i + 1).drop_last() =~= parts@.take(i as int));
            assert(parts@.take(i + 1).last() == parts@[i as int]);
        }
        let ghost out_before = out@;
        let ghost p = spec_text_parts(parts@.take(i as int));
        match &parts[i] {
            ContentPart::Text(t) => {
                if started {
                    out.append(sep);
                }
                out.append(t.text.as_str());
                proof {
                    assert(spec_text_parts(parts@.take(i + 1)) == p.push(t.text@));
                    if p.len() == 0 {
                        assert(p.push(t.text@).len() == 1);
                        assert(p.push(t.text@)[0] == t.text@);
                        assert(spec_join(p.push(t.text@), sep@) == t.text@);
                        assert(out@ =~= t.text@);
                    } else {
                        assert(p.push(t.text@).drop_last() =~= p);
                        assert(p.push(t.text@).last() == t.text@);
                        assert(spec_join(p.push(t.text@), sep@) == spec_join(p, sep@) + sep@
                            + t.text@);
                        assert(out@ =~= out_before + sep@ + t.text@);
                    }
                }
                started = true;
            },
            ContentPart::Image(_) => {
                proof {
                    assert(spec_text_parts(parts@.take(i + 1)) == p);
                }
            },
        }
    }
    proof {
        assert(parts@.take(n as int) =~= parts@);
    }
    out
}

/// The text of the first user message: its bare text, or its text parts
/// concatenated.
pub fn first_user_message_text(messages: &Vec<Message>) -> (r: Option<String>)
    ensures
        r is Some <==> exists|i: int| 0 <= i < messages@.len() && messages@[i] is User,
        match r {
            Some(t) => exists|i: int|
                0 <= i < messages@.len() && #[trigger] messages@[i] is User
                    && spec_no_user_before(messages@, i) && t@ == spec_user_text(
                    messages@[i]->User_0.content,
                    ""@,
                ),
            None => true,
        },
{
    match first_user_message(messages) {
        Some(m) => match m {
            Message::User(user_message) => match &user_message.content {
                Content::Text(text) => Some(text.clone()),
                Content::Array(parts) => Some(joined_text_parts(parts, "")),
            },
            _ => None,
        },
        None => None,
    }
}

/// The text of the last user message: its bare text, or its text parts
/// joined with a single space.
pub fn last_user_message_text(messages: &Vec<Message>) -> (r: Option<String>)
    ensures
        r is Some <==> exists|i: int| 0 <= i < messages@.len() && messages@[i] is User,
        match r {
            Some(t) => exists|i: int|
                0 <= i < messages@.len() && #[trigger] messages@[i] is User
                    && spec_no_user_after(messages@, i) && t@ == spec_user_text(
                    messages@[i]->User_0.content,
                    " "@,
                ),
            None => true,
        },
{
    match last_user_message(messages) {
        Some(m) => match m {
            Message::User(user_message) => match &user_message.content {
                Content::Text(text) => Some(text.clone()),
                Content::Array(parts) => Some(joined_text_parts(parts, " ")),
            },
            _ => None,
        },
        None => None,
    }
}

} // verus!
