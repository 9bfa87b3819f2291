//! Image generation and editing: request rules, wire forms and task handling.

pub mod decode;
pub mod encode;
pub mod error;
pub mod laws;
pub mod service;
pub mod validate;

pub use error::{ImageDispatch, ImageError, ImageErrorView};
pub use service::ImageService;
