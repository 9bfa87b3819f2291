//! The Messages wire. What sets it apart:
//!
//! - thinking carries a signature, and a replay without it is refused rather than
//!   sent: the provider would reject it on a later turn, far from the cause;
//! - beta headers accumulate, joined by commas;
//! - `max_tokens` is required, so it has a default;
//! - unknown event and delta types are ignored, as the wire's contract asks.

pub mod decode;
pub mod encode;
pub mod events;
pub mod laws;
pub mod stream;

pub use decode::classify_error;

use crate::codecs::stream::{SseDecoder, SseView};
use crate::codecs::{self, CodecContext, EncodeRequest, WireCodec};
use crate::codecs::{extras, inference, wire};
use crate::protocol::{
    CompletionRequest, CompletionResponse, CompletionResponseView, InferenceReport,
    InferenceReportView, LlmError, LlmErrorView, ProtocolFamily,
};
use crate::transport::{HttpRequest, HttpRequestView, HttpResponse};
use stream::{AnthropicStreamDecoder, AnthropicStreamView};
use vstd::prelude::*;

verus! {

/// The version of the API that this codec speaks. A profile may state another one
/// as `extra.api_version`.
pub const DEFAULT_API_VERSION: &'static str = extras::DEFAULT_ANTHROPIC_API_VERSION;

#[derive(Debug, Default, Clone, Copy)]
pub struct AnthropicMessagesCodec;

impl WireCodec for AnthropicMessagesCodec {
    type Decoder = SseDecoder<AnthropicStreamDecoder>;

    open spec fn family_of(&self) -> ProtocolFamily {
        ProtocolFamily::AnthropicMessages
    }

    open spec fn validation(&self, req: CompletionRequest, context: CodecContext) -> Result<
        (),
        LlmErrorView,
    > {
        codecs::checked(
            inference::validation_error(req, context.profile, context.request_model@),
        )
    }

    open spec fn requested_of(&self, req: CompletionRequest, context: CodecContext) -> Result<
        InferenceReportView,
        LlmErrorView,
    > {
        inference::requested_report(req, context.profile)
    }

    open spec fn encoded_of(&self, req: EncodeRequest, context: CodecContext) -> Result<
        HttpRequestView,
        LlmErrorView,
    > {
        wire::sent(encode::encoded(req, context))
    }

    open spec fn decoded_of(&self, response: HttpResponse, context: CodecContext) -> Result<
        CompletionResponseView,
        LlmErrorView,
    > {
        decode::decoded(response, context.profile)
    }

    open spec fn start_of(&self, context: CodecContext) -> SseView<AnthropicStreamView> {
        codecs::stream::fresh(stream::anthropic_start(context))
    }

    fn family(&self) -> (family: ProtocolFamily) {
        ProtocolFamily::AnthropicMessages
    }

    fn validate_request(&self, req: &CompletionRequest, context: &CodecContext) -> (result: Result<
        (),
        LlmError,
    >) {
        inference::validate(req, &context.profile, &context.request_model)
    }

    fn request_inference(&self, req: &CompletionRequest, context: &CodecContext) -> (result: Result<
        InferenceReport,
        LlmError,
    >) {
        inference::requested(req, &context.profile)
    }

    fn encode_request(&self, req: EncodeRequest, context: &CodecContext) -> (result: Result<
        HttpRequest,
        LlmError,
    >) {
        Ok(encode::request(req, context)?.encode())
    }

    fn encoded_body_len(&self, req: EncodeRequest, context: &CodecContext) -> (result: Result<
        usize,
        LlmError,
    >) {
        Ok(encode::request(req, context)?.body_len())
    }

    fn decode_response(&self, response: &HttpResponse, context: &CodecContext) -> (result: Result<
        CompletionResponse,
        LlmError,
    >) {
        decode::response(response, &context.profile)
    }

    fn stream_decoder(&self, context: &CodecContext) -> (decoder: Self::Decoder) {
        SseDecoder::new(AnthropicStreamDecoder::configured(context))
    }
}

} // verus!
