//! Stream framing: server-sent events and the AWS binary event stream.

pub mod eventstream;
pub mod sse;
