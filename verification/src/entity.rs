//! The normalized request, response and stream-chunk shapes downstream code
//! consumes.

pub mod chat_completion_chunk;
pub mod chat_completion_object;
pub mod create_chat_completion;
