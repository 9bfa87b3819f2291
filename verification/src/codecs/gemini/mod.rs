//! The `generateContent` wire. What sets it apart:
//!
//! - a tool result names its function, and echoes the provider's call id where it
//!   gave one; the encoder finds both in the earlier calls;
//! - the assistant's role is `model`;
//! - a prompt over the context window arrives as HTTP 400 `INVALID_ARGUMENT`, and
//!   has to become an overflow for the turn to be compacted.

pub mod decode;
pub mod encode;
pub mod events;
pub mod laws;
pub mod stream;

pub use decode::classify_error;
pub use encode::generate_content_url;

use crate::codecs::stream::{SseDecoder, SseView};
use crate::codecs::{self, CodecContext, EncodeRequest, WireCodec};
use crate::codecs::{inference, wire};
use crate::protocol::{
    CompletionRequest, CompletionResponse, CompletionResponseView, InferenceReport,
    InferenceReportView, LlmError, LlmErrorView, ProtocolFamily,
};
use crate::transport::{HttpRequest, HttpRequestView, HttpResponse};
use stream::{GeminiStreamDecoder, GeminiStreamView};
use vstd::prelude::*;

verus! {

#[derive(Debug, Default, Clone, Copy)]
pub struct GeminiCodec;

impl WireCodec for GeminiCodec {
    type Decoder = SseDecoder<GeminiStreamDecoder>;

    open spec fn family_of(&self) -> ProtocolFamily {
        ProtocolFamily::GeminiGenerateContent
    }

    open spec fn validation(&self, req: CompletionRequest, context: CodecContext) -> Result<
        (),
        LlmErrorView,
    > {
        codecs::checked(
            inference::validation_error(req, context.profile, context.request_model@),
        )
    }

    open spec fn requested_of(&self, req: CompletionRequest, context: CodecContext) -> Result<
        InferenceReportView,
        LlmErrorView,
    > {
        inference::requested_report(req, context.profile)
    }

    open spec fn encoded_of(&self, req: EncodeRequest, context: CodecContext) -> Result<
        HttpRequestView,
        LlmErrorView,
    > {
        wire::sent(encode::encoded(req, context))
    }

    open spec fn decoded_of(&self, response: HttpResponse, context: CodecContext) -> Result<
        CompletionResponseView,
        LlmErrorView,
    > {
        decode::decoded(response, context.profile)
    }

    open spec fn start_of(&self, context: CodecContext) -> SseView<GeminiStreamView> {
        codecs::stream::fresh(stream::gemini_start(context))
    }

    fn family(&self) -> (family: ProtocolFamily) {
        ProtocolFamily::GeminiGenerateContent
    }

    fn validate_request(&self, req: &CompletionRequest, context: &CodecContext) -> (result: Result<
        (),
        LlmError,
    >) {
        inference::validate(req, &context.profile, &context.request_model)
    }

    fn request_inference(&self, req: &CompletionRequest, context: &CodecContext) -> (result: Result<
        InferenceReport,
        LlmError,
    >) {
        inference::requested(req, &context.profile)
    }

    fn encode_request(&self, req: EncodeRequest, context: &CodecContext) -> (result: Result<
        HttpRequest,
        LlmError,
    >) {
        Ok(encode::request(req, context)?.encode())
    }

    fn encoded_body_len(&self, req: EncodeRequest, context: &CodecContext) -> (result: Result<
        usize,
        LlmError,
    >) {
        Ok(encode::request(req, context)?.body_len())
    }

    fn decode_response(&self, response: &HttpResponse, context: &CodecContext) -> (result: Result<
        CompletionResponse,
        LlmError,
    >) {
        decode::response(response, &context.profile)
    }

    fn stream_decoder(&self, context: &CodecContext) -> (decoder: Self::Decoder) {
        SseDecoder::new(GeminiStreamDecoder::configured(context))
    }
}

} // verus!
