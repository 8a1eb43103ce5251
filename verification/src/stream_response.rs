//! The vendor's incremental stream events: a closed tagged union, one value
//! per server-sent event, plus the vendor error payload shapes.

use vstd::prelude::*;

use crate::messages::{BaseContentBlock, DeltaContentBlock, StopReason, Usage};
use crate::response::Response;
use crate::strutil::str_eq;

verus! {

/// The names the wire uses for event kinds.
#[derive(Debug, Clone, Copy, PartialEq, Eq, Structural)]
pub enum EventName {
    Unspecified,
    Error,
    MessageStart,
    ContentBlockDelta,
    ContentBlockStart,
    Ping,
    ContentBlockStop,
    MessageDelta,
    MessageStop,
}

impl EventName {
    /// The event kind a wire name denotes; unknown names map to
    /// `Unspecified` rather than failing.
    pub fn from_str(s: &str) -> (r: EventName)
        ensures
            r == spec_event_name(s@),
    {
        if str_eq(s, "error") {
            EventName::Error
        } else if str_eq(s, "message_start") {
            EventName::MessageStart
        } else if str_eq(s, "content_block_start") {
            EventName::ContentBlockStart
        } else if str_eq(s, "ping") {
            EventName::Ping
        } else if str_eq(s, "content_block_delta") {
            EventName::ContentBlockDelta
        } else if str_eq(s, "content_block_stop") {
            EventName::ContentBlockStop
        } else if str_eq(s, "message_delta") {
            EventName::MessageDelta
        } else if str_eq(s, "message_stop") {
            EventName::MessageStop
        } else {
            EventName::Unspecified
        }
    }
}

/// The fixed table from wire names to event kinds.
pub open spec fn spec_event_name(s: Seq<char>) -> EventName {
    if s == "error"@ {
        EventName::Error
    } else if s == "message_start"@ {
        EventName::MessageStart
    } else if s == "content_block_start"@ {
        EventName::ContentBlockStart
    } else if s == "ping"@ {
        EventName::Ping
    } else if s == "content_block_delta"@ {
        EventName::ContentBlockDelta
    } else if s == "content_block_stop"@ {
        EventName::ContentBlockStop
    } else if s == "message_delta"@ {
        EventName::MessageDelta
    } else if s == "message_stop"@ {
        EventName::MessageStop
    } else {
        EventName::Unspecified
    }
}

/// One already-decoded stream event.
#[derive(Debug, Clone, PartialEq)]
pub enum EventData {
    Error { error: ErrorData },
    MessageStart { message: Response },
    ContentBlockStart { index: u32, content_block: BaseContentBlock },
    Ping,
    ContentBlockDelta { index: u32, delta: DeltaContentBlock },
    ContentBlockStop { index: u32 },
    MessageDelta { delta: MessageDelta, usage: Usage },
    MessageStop,
}

/// The vendor error payload shapes.
#[derive(Debug, Clone, PartialEq)]
pub enum ErrorData {
    OverloadedError { message: String },
    InternalServerError { message: String },
    BadRequestError { message: String },
    UnauthorizedError { message: String },
}

/// The mathematical value of an error payload.
pub enum ErrorDataView {
    OverloadedError { message: Seq<char> },
    InternalServerError { message: Seq<char> },
    BadRequestError { message: Seq<char> },
    UnauthorizedError { message: Seq<char> },
}

impl View for ErrorData {
    type V = ErrorDataView;

    open spec fn view(&self) -> ErrorDataView {
        match self {
            ErrorData::OverloadedError { message } => ErrorDataView::OverloadedError {
                message: message@,
            },
            ErrorData::InternalServerError { message } => ErrorDataView::InternalServerError {
                message: message@,
            },
            ErrorData::BadRequestError { message } => ErrorDataView::BadRequestError {
                message: message@,
            },
            ErrorData::UnauthorizedError { message } => ErrorDataView::UnauthorizedError {
                message: message@,
            },
        }
    }
}

/// The display form of an error payload: its kind, a separator and its
/// message.
pub open spec fn spec_error_display(e: ErrorDataView) -> Seq<char> {
    match e {
        ErrorDataView::OverloadedError { message } => "OverloadedError: "@ + message,
        ErrorDataView::InternalServerError { message } => "InternalServerError: "@ + message,
        ErrorDataView::BadRequestError { message } => "BadRequestError: "@ + message,
        ErrorDataView::UnauthorizedError { message } => "UnauthorizedError: "@ + message,
    }
}

impl ErrorData {
    /// An identical payload.
    pub fn duplicate(&self) -> (r: ErrorData)
        ensures
            r@ == self@,
    {
        match self {
            ErrorData::OverloadedError { message } => ErrorData::OverloadedError {
                message: message.clone(),
            },
            ErrorData::InternalServerError { message } => ErrorData::InternalServerError {
                message: message.clone(),
            },
            ErrorData::BadRequestError { message } => ErrorData::BadRequestError {
                message: message.clone(),
            },
            ErrorData::UnauthorizedError { message } => ErrorData::UnauthorizedError {
                message: message.clone(),
            },
        }
    }

    /// The human-readable form of the payload.
    pub fn display_string(&self) -> (r: String)
        ensures
            r@ == spec_error_display(self@),
    {
        match self {
            ErrorData::OverloadedError { message } => {
                let mut s = "OverloadedError: ".to_owned();
                s.append(message.as_str());
                s
            },
            ErrorData::InternalServerError { message } => {
                let mut s = "InternalServerError: ".to_owned();
                s.append(message.as_str());
                s
            },
            ErrorData::BadRequestError { message } => {
                let mut s = "BadRequestError: ".to_owned();
                s.append(message.as_str());
                s
            },
            ErrorData::UnauthorizedError { message } => {
                let mut s = "UnauthorizedError: ".to_owned();
                s.append(message.as_str());
                s
            },
        }
    }
}

/// The payload of a `message_delta` event.
#[derive(Debug, Clone, PartialEq)]
pub struct MessageDelta {
    pub stop_reason: StopReason,
    pub stop_sequence: Option<String>,
}

} // verus!
