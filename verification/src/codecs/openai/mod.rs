//! OpenAI's wires, and those of the endpoints that follow them.

pub mod chat;
pub mod responses;
