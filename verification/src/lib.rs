//! Provider-neutral LLM client logic: wire codecs, framing, model directories,
//! file and image services, and layered provider configuration.
//!
//! Every function here is verified. Transport, authentication and storage stay
//! with the application around the library.

pub mod codecs;
pub mod configuration;
pub mod content;
pub mod directory;
pub mod encoding;
pub mod exact_json;
pub mod files;
pub mod framing;
pub mod images;
pub mod json;
pub mod pointers;
pub mod presets;
pub mod protocol;
pub mod sorted;
pub mod text;
pub mod transport;
pub mod views;
