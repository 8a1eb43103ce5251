//! Chat-interaction normalization across large-language-model vendor APIs.
//!
//! The crate models message content as tagged unions, repairs arbitrary
//! message sequences into the strict alternating-role form the vendor APIs
//! require, and translates vendor stream events into normalized incremental
//! chunks and aggregated responses.

pub mod claude;
pub mod entity;
pub mod gemini;
pub mod image_token;
pub mod jsonval;
pub mod magi;
pub mod messages;
pub mod request;
pub mod response;
pub mod stream_response;
pub mod strutil;
pub mod tiktoken;
