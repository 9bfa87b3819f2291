//! The wire codecs.

pub mod addresses;
pub mod anthropic;
pub mod clouds;
pub mod controls;
pub mod extras;
pub mod findings;
pub mod file_search_decode;
pub mod gemini;
pub mod hosted;
pub mod inference;
pub mod input;
pub mod laws;
pub mod openai;
pub mod replies;
pub mod request_controls;
pub mod speaking;
pub mod stream;
pub mod usage;
pub mod web_search;
pub mod web_search_decode;
pub mod wire;

pub use input::{CodecContext, ContentBinding, EncodeRequest, PreparedMedia, RequestMode};

use crate::protocol::error;
use crate::protocol::{
    CompletionRequest, CompletionResponse, CompletionResponseView, InferenceReport,
    InferenceReportView, LlmError, LlmErrorView, ProtocolFamily, StreamEvent, StreamEventView,
    UsageReport, UsageReportView,
};
use crate::text;
use crate::transport::{HttpRequest, HttpRequestView, HttpResponse};
use crate::views;
use vstd::prelude::*;

verus! {

/// What a decoder makes of one frame, or of the end: the events, or an error.
pub type Decoded = Result<Seq<StreamEventView>, LlmErrorView>;

/// Protocol event parsing. Framing belongs to [`StreamDecoder`].
pub trait EventDecoder: View + Sized {
    /// The state after a frame, and what the frame holds.
    spec fn frame_step(state: Self::V, frame: Seq<u8>) -> (Self::V, Decoded);

    /// The state after the end, and what the end adds.
    spec fn finish_step(state: Self::V) -> (Self::V, Decoded);

    /// The state once the response's headers are known.
    spec fn headers_step(state: Self::V, headers: extras::HeaderViews) -> Self::V;

    /// What the state knows of inference.
    spec fn report_of(state: Self::V) -> InferenceReportView;

    /// What the state knows of usage.
    spec fn usage_of(state: Self::V) -> UsageReportView;

    fn decode_frame(&mut self, frame: &[u8]) -> (result: Result<Vec<StreamEvent>, LlmError>)
        ensures
            (final(self)@, views::res(result)) == Self::frame_step(old(self)@, frame@),
    ;

    fn finish(&mut self) -> (result: Result<Vec<StreamEvent>, LlmError>)
        ensures
            (final(self)@, views::res(result)) == Self::finish_step(old(self)@),
    ;

    fn set_response_headers(&mut self, headers: &Vec<(String, String)>)
        ensures
            final(self)@ == Self::headers_step(old(self)@, headers.deep_view()),
    ;

    fn inference_report(&self) -> (report: InferenceReport)
        ensures
            report@ == Self::report_of(self@),
    ;

    fn usage_report(&self) -> (report: UsageReport)
        ensures
            report@ == Self::usage_of(self@),
    ;
}

/// What comes out of a stream: events, and at most one error.
pub type Items = Seq<Result<StreamEventView, LlmErrorView>>;

/// The views of what comes out of a stream.
pub open spec fn item_views(items: Seq<Result<StreamEvent, LlmError>>) -> Items {
    Seq::new(items.len(), |i: int| views::res(items[i]))
}

/// Stateful decoder for arbitrary transport byte chunks. A batch may hold events
/// followed by one error; consumers keep that order.
pub trait StreamDecoder: View + Sized {
    /// The state after a chunk, and what the chunk completes.
    spec fn push_step(state: Self::V, bytes: Seq<u8>) -> (Self::V, Items);

    /// The state after the end, and what the end adds.
    spec fn close_step(state: Self::V) -> (Self::V, Items);

    /// The state once the response's headers are known.
    spec fn with_headers(state: Self::V, headers: extras::HeaderViews) -> Self::V;

    /// What the state knows of inference.
    spec fn known_inference(state: Self::V) -> InferenceReportView;

    /// What the state knows of usage.
    spec fn known_usage(state: Self::V) -> UsageReportView;

    fn set_response_headers(&mut self, headers: &Vec<(String, String)>)
        ensures
            final(self)@ == Self::with_headers(old(self)@, headers.deep_view()),
    ;

    fn push_bytes(&mut self, bytes: &[u8]) -> (items: Vec<Result<StreamEvent, LlmError>>)
        ensures
            (final(self)@, item_views(items@)) == Self::push_step(old(self)@, bytes@),
    ;

    fn finish(&mut self) -> (items: Vec<Result<StreamEvent, LlmError>>)
        ensures
            (final(self)@, item_views(items@)) == Self::close_step(old(self)@),
    ;

    fn inference_report(&self) -> (report: InferenceReport)
        ensures
            report@ == Self::known_inference(self@),
    ;

    fn usage_report(&self) -> (report: UsageReport)
        ensures
            report@ == Self::known_usage(self@),
    ;
}

/// One codec per protocol family. It owns request encoding, response decoding,
/// error classification and the stream decoder.
pub trait WireCodec: Sized {
    type Decoder: StreamDecoder;

    spec fn family_of(&self) -> ProtocolFamily;

    spec fn validation(&self, req: CompletionRequest, context: CodecContext) -> Result<
        (),
        LlmErrorView,
    >;

    spec fn requested_of(&self, req: CompletionRequest, context: CodecContext) -> Result<
        InferenceReportView,
        LlmErrorView,
    >;

    spec fn encoded_of(&self, req: EncodeRequest, context: CodecContext) -> Result<
        HttpRequestView,
        LlmErrorView,
    >;

    spec fn decoded_of(&self, response: HttpResponse, context: CodecContext) -> Result<
        CompletionResponseView,
        LlmErrorView,
    >;

    spec fn start_of(&self, context: CodecContext) -> <Self::Decoder as View>::V;

    fn family(&self) -> (family: ProtocolFamily)
        ensures
            family == self.family_of(),
    ;

    /// Validates control settings before uploads or authentication have side
    /// effects.
    fn validate_request(&self, req: &CompletionRequest, context: &CodecContext) -> (result: Result<
        (),
        LlmError,
    >)
        ensures
            views::res(result) == self.validation(*req, *context),
    ;

    /// Request metadata for pricing and reporting, native body defaults included.
    fn request_inference(&self, req: &CompletionRequest, context: &CodecContext) -> (result: Result<
        InferenceReport,
        LlmError,
    >)
        ensures
            views::res(result) == self.requested_of(*req, *context),
    ;

    fn encode_request(&self, req: EncodeRequest, context: &CodecContext) -> (result: Result<
        HttpRequest,
        LlmError,
    >)
        ensures
            views::res(result) == self.encoded_of(req, *context),
    ;

    fn encoded_body_len(&self, req: EncodeRequest, context: &CodecContext) -> (result: Result<
        usize,
        LlmError,
    >)
        ensures
            match self.encoded_of(req, *context) {
                Ok(request) => result matches Ok(len) && len == request.body.len(),
                Err(error) => result matches Err(found) && found@ == error,
            },
    ;

    fn decode_response(&self, response: &HttpResponse, context: &CodecContext) -> (result: Result<
        CompletionResponse,
        LlmError,
    >)
        ensures
            views::res(result) == self.decoded_of(*response, *context),
    ;

    fn stream_decoder(&self, context: &CodecContext) -> (decoder: Self::Decoder)
        ensures
            decoder@ == self.start_of(*context),
    ;
}

/// The family's name in messages.
pub open spec fn family_name(family: ProtocolFamily) -> Seq<char> {
    match family {
        ProtocolFamily::OpenAiChat => "OpenAiChat"@,
        ProtocolFamily::OpenAiResponses => "OpenAiResponses"@,
        ProtocolFamily::AnthropicMessages => "AnthropicMessages"@,
        ProtocolFamily::GeminiGenerateContent => "GeminiGenerateContent"@,
        ProtocolFamily::AzureOpenAi => "AzureOpenAi"@,
        ProtocolFamily::VertexClaude => "VertexClaude"@,
        ProtocolFamily::VertexGemini => "VertexGemini"@,
        ProtocolFamily::BedrockClaude => "BedrockClaude"@,
        ProtocolFamily::FoundryClaude => "FoundryClaude"@,
    }
}

fn name_of(family: ProtocolFamily) -> (result: &'static str)
    ensures
        result@ == family_name(family),
{
    match family {
        ProtocolFamily::OpenAiChat => "OpenAiChat",
        ProtocolFamily::OpenAiResponses => "OpenAiResponses",
        ProtocolFamily::AnthropicMessages => "AnthropicMessages",
        ProtocolFamily::GeminiGenerateContent => "GeminiGenerateContent",
        ProtocolFamily::AzureOpenAi => "AzureOpenAi",
        ProtocolFamily::VertexClaude => "VertexClaude",
        ProtocolFamily::VertexGemini => "VertexGemini",
        ProtocolFamily::BedrockClaude => "BedrockClaude",
        ProtocolFamily::FoundryClaude => "FoundryClaude",
    }
}

/// A result that says only what went wrong.
pub open spec fn checked(error: Option<LlmErrorView>) -> Result<(), LlmErrorView> {
    match error {
        Some(error) => Err(error),
        None => Ok(()),
    }
}

pub open spec fn continuation_error(req: CompletionRequest, family: ProtocolFamily) -> Option<
    LlmErrorView,
> {
    if req.previous_response_id is Some {
        Some(
            error::unsupported_view(family_name(family) + " cannot continue a Responses id"@),
        )
    } else {
        None
    }
}

/// A Responses continuation id is endpoint-side state, not an optional hint.
/// Every other wire refuses it rather than silently starting a fresh turn.
pub fn reject_responses_continuation(req: &CompletionRequest, family: ProtocolFamily) -> (result:
    Result<(), LlmError>)
    ensures
        views::res(result) == checked(continuation_error(*req, family)),
{
    if req.previous_response_id.is_some() {
        return Err(
            error::unsupported(
                &text::cat2(name_of(family), " cannot continue a Responses id"),
            ),
        );
    }
    Ok(())
}

pub open spec fn unresolved_attachment() -> LlmErrorView {
    error::unsupported_view("app attachment reached a wire codec before resolution"@)
}

pub fn unresolved_attachment_error() -> (error: LlmError)
    ensures
        error@ == unresolved_attachment(),
{
    error::unsupported("app attachment reached a wire codec before resolution")
}

pub open spec fn wrong_protocol() -> LlmErrorView {
    error::unsupported_view("provider file reference does not match the active protocol"@)
}

pub fn provider_file_protocol_error() -> (error: LlmError)
    ensures
        error@ == wrong_protocol(),
{
    error::unsupported("provider file reference does not match the active protocol")
}

} // verus!
