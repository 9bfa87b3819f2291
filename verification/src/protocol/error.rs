//! What a call to a provider can fail with.

use crate::protocol::message::{ProviderFileSource, ProviderFileSourceView};
use vstd::prelude::*;

verus! {

#[derive(Debug, Clone, PartialEq, Eq)]
pub enum LlmError {
    InvalidRequest { message: String },
    UnsupportedCapability { message: String },
    Authentication { message: String },
    PermissionDenied { message: String },
    ModelUnavailable { message: String },
    QuotaExceeded { message: String },
    /// `retry_after` is in seconds.
    RateLimited { message: String, retry_after: Option<u64> },
    Overloaded { message: String },
    RequestTooLarge { message: String },
    ContextOverflow { message: String, limit: Option<u64>, actual: Option<u64> },
    ProviderInternal { message: String },
    StreamInterrupted { message: String },
    TransportTimeout { message: String },
    /// A provider still works on the file; it can be asked for again.
    ProviderFileProcessing { message: String, file: ProviderFileSource },
}

pub enum LlmErrorView {
    InvalidRequest { message: Seq<char> },
    UnsupportedCapability { message: Seq<char> },
    Authentication { message: Seq<char> },
    PermissionDenied { message: Seq<char> },
    ModelUnavailable { message: Seq<char> },
    QuotaExceeded { message: Seq<char> },
    RateLimited { message: Seq<char>, retry_after: Option<u64> },
    Overloaded { message: Seq<char> },
    RequestTooLarge { message: Seq<char> },
    ContextOverflow { message: Seq<char>, limit: Option<u64>, actual: Option<u64> },
    ProviderInternal { message: Seq<char> },
    StreamInterrupted { message: Seq<char> },
    TransportTimeout { message: Seq<char> },
    ProviderFileProcessing { message: Seq<char>, file: ProviderFileSourceView },
}

impl View for LlmError {
    type V = LlmErrorView;

    open spec fn view(&self) -> LlmErrorView {
        match self {
            LlmError::InvalidRequest { message } => LlmErrorView::InvalidRequest { message: message@ },
            LlmError::UnsupportedCapability { message } => LlmErrorView::UnsupportedCapability {
                message: message@,
            },
            LlmError::Authentication { message } => LlmErrorView::Authentication { message: message@ },
            LlmError::PermissionDenied { message } => LlmErrorView::PermissionDenied { message: message@ },
            LlmError::ModelUnavailable { message } => LlmErrorView::ModelUnavailable { message: message@ },
            LlmError::QuotaExceeded { message } => LlmErrorView::QuotaExceeded { message: message@ },
            LlmError::RateLimited { message, retry_after } => LlmErrorView::RateLimited {
                message: message@,
                retry_after: *retry_after,
            },
            LlmError::Overloaded { message } => LlmErrorView::Overloaded { message: message@ },
            LlmError::RequestTooLarge { message } => LlmErrorView::RequestTooLarge { message: message@ },
            LlmError::ContextOverflow { message, limit, actual } => LlmErrorView::ContextOverflow {
                message: message@,
                limit: *limit,
                actual: *actual,
            },
            LlmError::ProviderInternal { message } => LlmErrorView::ProviderInternal { message: message@ },
            LlmError::StreamInterrupted { message } => LlmErrorView::StreamInterrupted { message: message@ },
            LlmError::TransportTimeout { message } => LlmErrorView::TransportTimeout { message: message@ },
            LlmError::ProviderFileProcessing { message, file } => LlmErrorView::ProviderFileProcessing {
                message: message@,
                file: file@,
            },
        }
    }
}

impl DeepView for LlmError {
    type V = LlmErrorView;

    open spec fn deep_view(&self) -> LlmErrorView {
        self@
    }
}

pub open spec fn invalid_view(message: Seq<char>) -> LlmErrorView {
    LlmErrorView::InvalidRequest { message }
}

pub open spec fn unsupported_view(message: Seq<char>) -> LlmErrorView {
    LlmErrorView::UnsupportedCapability { message }
}

pub open spec fn internal_view(message: Seq<char>) -> LlmErrorView {
    LlmErrorView::ProviderInternal { message }
}

pub fn invalid(message: &str) -> (error: LlmError)
    ensures
        error@ == invalid_view(message@),
{
    LlmError::InvalidRequest { message: message.to_owned() }
}

pub fn unsupported(message: &str) -> (error: LlmError)
    ensures
        error@ == unsupported_view(message@),
{
    LlmError::UnsupportedCapability { message: message.to_owned() }
}

pub fn internal(message: &str) -> (error: LlmError)
    ensures
        error@ == internal_view(message@),
{
    LlmError::ProviderInternal { message: message.to_owned() }
}

} // verus!
