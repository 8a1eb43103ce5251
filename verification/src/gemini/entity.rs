//! The earlier request-body vocabulary of the generate-content dialect, kept
//! for callers still on it.

use vstd::prelude::*;

verus! {

/// The two roles this dialect distinguishes.
#[derive(Debug, Clone, Copy, PartialEq, Eq, Structural)]
pub enum Role {
    User,
    Model,
}

/// One typed unit of content.
#[derive(Debug, Clone, PartialEq)]
pub enum ContentPart {
    Text(String),
    Inline(InlineData),
    File(FileData),
}

#[derive(Debug, Clone, PartialEq)]
pub struct InlineData {
    pub mime_type: String,
    pub data: String,
    pub video_metadata: Option<VideoMetadata>,
}

#[derive(Debug, Clone, PartialEq)]
pub struct FileData {
    pub mime_type: String,
    pub file_uri: String,
    pub video_metadata: Option<VideoMetadata>,
}

#[derive(Debug, Clone, Copy, PartialEq, Eq, Structural)]
pub struct VideoMetadata {
    pub start_offset: VideoOffset,
    pub end_offset: VideoOffset,
}

#[derive(Debug, Clone, Copy, PartialEq, Eq, Structural)]
pub struct VideoOffset {
    pub seconds: i64,
    pub nanos: i32,
}

#[derive(Debug, Clone, Copy, PartialEq, Eq, Structural)]
pub struct SafetySetting {
    pub category: SafetySettingCategory,
    pub threshold: SafetySettingThreshold,
}

/// The safety category a threshold applies to.
#[derive(Debug, Clone, Copy, PartialEq, Eq, Structural)]
pub enum SafetySettingCategory {
    HarmCategorySexuallyExplicit,
    HarmCategoryHateSpeech,
    HarmCategoryHarassment,
    HarmCategoryDangerousContent,
}

/// The probability threshold at which a response is blocked.
#[derive(Debug, Clone, Copy, PartialEq, Eq, Structural)]
pub enum SafetySettingThreshold {
    BlockNone,
    BlockLowAndAbove,
    BlockMedAndAbove,
    BlockOnlyHigh,
}

} // verus!
