//! What an image call can fail with.

use crate::protocol::error;
use crate::protocol::{LlmError, LlmErrorView};
use crate::text;
use vstd::prelude::*;

verus! {

/// How far a failed call had come.
#[derive(Debug, Clone, Copy, PartialEq, Eq, Structural)]
pub enum ImageDispatch {
    NotSent,
    Rejected,
    Unknown,
    Accepted,
}

#[derive(Debug, Clone, PartialEq, Eq)]
pub enum ImageError {
    Llm(LlmError),
    InvalidResponse(String),
    TaskScopeMismatch(String),
    /// The request failed after it was sent.
    Dispatched { source: LlmError, dispatch: ImageDispatch },
}

pub enum ImageErrorView {
    Llm(LlmErrorView),
    InvalidResponse(Seq<char>),
    TaskScopeMismatch(Seq<char>),
    Dispatched { source: LlmErrorView, dispatch: ImageDispatch },
}

impl View for ImageError {
    type V = ImageErrorView;

    open spec fn view(&self) -> ImageErrorView {
        match self {
            ImageError::Llm(error) => ImageErrorView::Llm(error@),
            ImageError::InvalidResponse(message) => ImageErrorView::InvalidResponse(message@),
            ImageError::TaskScopeMismatch(message) => ImageErrorView::TaskScopeMismatch(message@),
            ImageError::Dispatched { source, dispatch } => ImageErrorView::Dispatched {
                source: source@,
                dispatch: *dispatch,
            },
        }
    }
}

impl DeepView for ImageError {
    type V = ImageErrorView;

    open spec fn deep_view(&self) -> ImageErrorView {
        self@
    }
}

pub open spec fn dispatch_of(error: ImageErrorView) -> ImageDispatch {
    match error {
        ImageErrorView::Llm(_) | ImageErrorView::TaskScopeMismatch(_) => ImageDispatch::NotSent,
        ImageErrorView::InvalidResponse(_) => ImageDispatch::Accepted,
        ImageErrorView::Dispatched { dispatch, .. } => dispatch,
    }
}

pub open spec fn dispatch_name(dispatch: ImageDispatch) -> Seq<char> {
    match dispatch {
        ImageDispatch::NotSent => "NotSent"@,
        ImageDispatch::Rejected => "Rejected"@,
        ImageDispatch::Unknown => "Unknown"@,
        ImageDispatch::Accepted => "Accepted"@,
    }
}

impl ImageDispatch {
    pub fn name(self) -> (name: &'static str)
        ensures
            name@ == dispatch_name(self),
    {
        match self {
            ImageDispatch::NotSent => "NotSent",
            ImageDispatch::Rejected => "Rejected",
            ImageDispatch::Unknown => "Unknown",
            ImageDispatch::Accepted => "Accepted",
        }
    }
}

/// The text of an error, given how the error inside it is displayed where it holds
/// one.
pub open spec fn message_of(error: ImageErrorView, source: Seq<char>) -> Seq<char> {
    match error {
        ImageErrorView::Llm(_) => source,
        ImageErrorView::InvalidResponse(message) => "invalid image response: "@ + message,
        ImageErrorView::TaskScopeMismatch(message) =>
        "image task cannot be used with this connection: "@ + message,
        ImageErrorView::Dispatched { dispatch, .. } => "image request failed after dispatch ("@
            + dispatch_name(dispatch) + "): "@ + source,
    }
}

impl ImageError {
    /// The text of the error, given how the error inside it is displayed where it
    /// holds one.
    pub fn message(&self, source: &str) -> (message: String)
        ensures
            message@ == message_of(self@, source@),
    {
        match self {
            ImageError::Llm(_) => source.to_owned(),
            ImageError::InvalidResponse(message) => text::cat2("invalid image response: ", message),
            ImageError::TaskScopeMismatch(message) => text::cat2(
                "image task cannot be used with this connection: ",
                message,
            ),
            ImageError::Dispatched { dispatch, .. } => text::cat4(
                "image request failed after dispatch (",
                dispatch.name(),
                "): ",
                source,
            ),
        }
    }

    /// Whether a failed generation could already have reached the provider.
    pub fn dispatch(&self) -> (result: ImageDispatch)
        ensures
            result == dispatch_of(self@),
    {
        match self {
            ImageError::Llm(_) | ImageError::TaskScopeMismatch(_) => ImageDispatch::NotSent,
            ImageError::InvalidResponse(_) => ImageDispatch::Accepted,
            ImageError::Dispatched { dispatch, .. } => *dispatch,
        }
    }
}

pub open spec fn invalid_view(message: Seq<char>) -> ImageErrorView {
    ImageErrorView::Llm(error::invalid_view(message))
}

pub open spec fn unsupported_view(message: Seq<char>) -> ImageErrorView {
    ImageErrorView::Llm(error::unsupported_view(message))
}

pub fn invalid(message: &str) -> (result: ImageError)
    ensures
        result@ == invalid_view(message@),
{
    ImageError::Llm(error::invalid(message))
}

pub fn unsupported(message: &str) -> (result: ImageError)
    ensures
        result@ == unsupported_view(message@),
{
    ImageError::Llm(error::unsupported(message))
}

/// An error in a response says how far the call had come by its status.
pub open spec fn classified(error: ImageErrorView, status: u16) -> ImageErrorView {
    match error {
        ImageErrorView::Llm(source) => ImageErrorView::Dispatched {
            source,
            dispatch: if 400 <= status < 500 {
                ImageDispatch::Rejected
            } else if 200 <= status < 300 {
                ImageDispatch::Accepted
            } else {
                ImageDispatch::Unknown
            },
        },
        other => other,
    }
}

pub fn classify_response_error(error: ImageError, status: u16) -> (result: ImageError)
    ensures
        result@ == classified(error@, status),
{
    match error {
        ImageError::Llm(source) => ImageError::Dispatched {
            source,
            dispatch: if 400 <= status && status < 500 {
                ImageDispatch::Rejected
            } else if 200 <= status && status < 300 {
                ImageDispatch::Accepted
            } else {
                ImageDispatch::Unknown
            },
        },
        other => other,
    }
}

} // verus!
