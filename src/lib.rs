//! Typed request and response values for a chat-completion service, with a
//! builder that clamps its sampling parameters to their documented ranges.

pub mod chat;
pub mod float;
pub mod json;
pub mod models;
