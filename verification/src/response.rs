//! The vendor's aggregated response shape.

use vstd::prelude::*;

use crate::messages::{ResponseContentBlock, Role, StopReason, Usage};

verus! {

/// A complete vendor response.
#[derive(Debug, Clone, PartialEq)]
pub struct Response {
    pub id: String,
    /// The object kind on the wire; always the text `message`.
    pub kind: String,
    pub role: Role,
    pub content: Vec<ResponseContentBlock>,
    pub model: String,
    pub stop_reason: Option<StopReason>,
    pub stop_sequence: Option<String>,
    pub usage: Usage,
}

} // verus!
