//! The second vendor dialect: its content model, request repair pass and
//! response shapes.

pub mod entity;
pub mod generate_content;
pub mod generate_request;
pub mod generate_response;
