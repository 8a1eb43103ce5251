//! Response-side declarations of the generate-content dialect.

use vstd::prelude::*;

use crate::gemini::generate_content::HarmCategory;

verus! {

/// Why the model stopped generating tokens.
#[derive(Debug, Clone, Copy, PartialEq, Eq, Structural)]
pub enum FinishReason {
    Unspecified,
    Stop,
    MaxTokens,
    Safety,
    Recitation,
    Other,
}

/// Safety rating of one response candidate for one category.
#[derive(Debug, Clone, Copy, PartialEq, Eq, Structural)]
pub struct SafetyRating {
    pub category: HarmCategory,
    pub probability: HarmProbability,
    pub blocked: Option<bool>,
}

/// The probability that a piece of content is harmful.
#[derive(Debug, Clone, Copy, PartialEq, Eq, Structural)]
pub enum HarmProbability {
    Unspecified,
    Negligible,
    Low,
    Medium,
    High,
}

#[derive(Debug, Clone, PartialEq)]
pub struct CitationMetadata {
    pub citation_sources: Vec<CitationSource>,
}

#[derive(Debug, Clone, PartialEq)]
pub struct CitationSource {
    pub start_index: Option<u32>,
    pub end_index: Option<u32>,
    pub uri: Option<String>,
    pub title: Option<String>,
    pub license: Option<String>,
    pub publication_date: Option<PublicationDate>,
}

#[derive(Debug, Clone, Copy, PartialEq, Eq, Structural)]
pub struct PublicationDate {
    pub year: Option<u32>,
    pub month: Option<u32>,
    pub day: Option<u32>,
}

#[derive(Debug, Clone, PartialEq)]
pub struct PromptFeedback {
    pub block_reason: Option<BlockReason>,
    pub safety_ratings: Option<Vec<SafetyRating>>,
}

#[derive(Debug, Clone, Copy, PartialEq, Eq, Structural)]
pub enum BlockReason {
    Unspecified,
    Safety,
    Other,
}

} // verus!
