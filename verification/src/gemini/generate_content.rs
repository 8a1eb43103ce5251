//! The content vocabulary of the generate-content dialect.

use vstd::prelude::*;

use crate::jsonval::{JsonValue, JsonValueView};
use crate::strutil::{is_blank, str_is_blank};

verus! {

/// One conversation turn: a role and its ordered parts.
#[derive(Debug, Clone, PartialEq)]
pub struct Content {
    pub role: Role,
    pub parts: Vec<Part>,
}

/// The two roles this dialect distinguishes.
#[derive(Debug, Clone, Copy, PartialEq, Eq, Structural)]
pub enum Role {
    User,
    Model,
}

/// One typed unit of content.
#[derive(Debug, Clone, PartialEq)]
pub enum Part {
    Text(String),
    Inline(InlineData),
    FunctionCall(FunctionCall),
    FunctionResponse(FunctionResponse),
    File(FileData),
}

#[derive(Debug, Clone, PartialEq)]
pub struct InlineData {
    pub mime_type: String,
    pub data: String,
    pub video_metadata: Option<VideoMetadata>,
}

/// A predicted function invocation returned from the model.
#[derive(Debug, Clone, PartialEq)]
pub struct FunctionCall {
    pub name: String,
    pub args: Option<JsonValue>,
}

/// The caller's reply to a function invocation.
#[derive(Debug, Clone, PartialEq)]
pub struct FunctionResponse {
    pub name: String,
    pub response: JsonValue,
}

#[derive(Debug, Clone, PartialEq)]
pub struct FileData {
    pub mime_type: String,
    pub file_uri: String,
    pub video_metadata: Option<VideoMetadata>,
}

#[derive(Debug, Clone, Copy, PartialEq, Eq, Structural)]
pub struct VideoMetadata {
    pub start_offset: VideoOffset,
    pub end_offset: VideoOffset,
}

#[derive(Debug, Clone, Copy, PartialEq, Eq, Structural)]
pub struct VideoOffset {
    pub seconds: i64,
    pub nanos: i32,
}

/// The categories of harm a safety policy can address.
#[derive(Debug, Clone, Copy, PartialEq, Eq, Structural)]
pub enum HarmCategory {
    SexuallyExplicit,
    HateSpeech,
    Harassment,
    DangerousContent,
}

// ---------------------------------------------------------------------------
// Views and emptiness
// ---------------------------------------------------------------------------

pub enum PartView {
    Text(Seq<char>),
    Inline { mime_type: Seq<char>, data: Seq<char>, video_metadata: Option<VideoMetadata> },
    FunctionCall { name: Seq<char>, args: Option<JsonValueView> },
    FunctionResponse { name: Seq<char>, response: JsonValueView },
    File { mime_type: Seq<char>, file_uri: Seq<char>, video_metadata: Option<VideoMetadata> },
}

pub struct ContentView {
    pub role: Role,
    pub parts: Seq<PartView>,
}

impl View for Part {
    type V = PartView;

    open spec fn view(&self) -> PartView {
        match self {
            Part::Text(t) => PartView::Text(t@),
            Part::Inline(d) => PartView::Inline {
                mime_type: d.mime_type@,
                data: d.data@,
                video_metadata: d.video_metadata,
            },
            Part::FunctionCall(c) => PartView::FunctionCall {
                name: c.name@,
                args: match c.args {
                    Some(a) => Some(a@),
                    None => None,
                },
            },
            Part::FunctionResponse(r) => PartView::FunctionResponse {
                name: r.name@,
                response: r.response@,
            },
            Part::File(f) => PartView::File {
                mime_type: f.mime_type@,
                file_uri: f.file_uri@,
                video_metadata: f.video_metadata,
            },
        }
    }
}

impl View for Content {
    type V = ContentView;

    open spec fn view(&self) -> ContentView {
        ContentView { role: self.role, parts: self.parts@.map_values(|p: Part| p@) }
    }
}

pub open spec fn view_of_contents(s: Seq<Content>) -> Seq<ContentView> {
    s.map_values(|c: Content| c@)
}

/// The per-variant emptiness predicate of one part.
pub open spec fn spec_part_empty(p: PartView) -> bool {
    match p {
        PartView::Text(s) => is_blank(s),
        PartView::Inline { data, .. } => is_blank(data),
        PartView::FunctionCall { name, .. } => is_blank(name),
        PartView::FunctionResponse { name, response } => is_blank(name) || response.null,
        PartView::File { mime_type, file_uri, .. } => is_blank(file_uri) || is_blank(mime_type),
    }
}

impl Part {
    /// Whether this part carries no usable content.
    pub fn is_empty(&self) -> (r: bool)
        ensures
            r == spec_part_empty(self@),
    {
        match self {
            Part::Text(s) => str_is_blank(s.as_str()),
            Part::Inline(data) => str_is_blank(data.data.as_str()),
            Part::FunctionCall(call) => str_is_blank(call.name.as_str()),
            Part::FunctionResponse(response) => str_is_blank(response.name.as_str())
                || response.response.is_null(),
            Part::File(file) => str_is_blank(file.file_uri.as_str()) || str_is_blank(
                file.mime_type.as_str(),
            ),
        }
    }
}

} // verus!
