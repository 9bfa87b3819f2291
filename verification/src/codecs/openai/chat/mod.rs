//! The Chat Completions wire. One codec serves every provider that speaks it;
//! what is provider-specific is keyed off the profile.

pub mod decode;
pub mod encode;
pub mod events;
pub mod laws;
pub mod reasoning;
pub mod stream;

pub use decode::classify_error;

use crate::codecs::stream::{SseDecoder, SseView};
use crate::codecs::{self, CodecContext, EncodeRequest, WireCodec};
use crate::codecs::{inference, wire};
use crate::protocol::{
    CompletionRequest, CompletionResponse, CompletionResponseView, InferenceReport,
    InferenceReportView, LlmError, LlmErrorView, ProtocolFamily,
};
use crate::transport::{HttpRequest, HttpRequestView, HttpResponse};
use stream::{ChatStreamView, OpenAiStreamDecoder};
use vstd::prelude::*;

verus! {

#[derive(Debug, Default, Clone, Copy)]
pub struct OpenAiChatCodec;

impl OpenAiChatCodec {
    pub fn new() -> (codec: Self)
        ensures
            codec == OpenAiChatCodec,
    {
        OpenAiChatCodec
    }
}

impl WireCodec for OpenAiChatCodec {
    type Decoder = SseDecoder<OpenAiStreamDecoder>;

    open spec fn family_of(&self) -> ProtocolFamily {
        ProtocolFamily::OpenAiChat
    }

    open spec fn validation(&self, req: CompletionRequest, context: CodecContext) -> Result<
        (),
        LlmErrorView,
    > {
        codecs::checked(
            inference::validation_error(req, context.profile, context.request_model@),
        )
    }

    open spec fn requested_of(&self, req: CompletionRequest, context: CodecContext) -> Result<
        InferenceReportView,
        LlmErrorView,
    > {
        inference::requested_report(req, context.profile)
    }

    open spec fn encoded_of(&self, req: EncodeRequest, context: CodecContext) -> Result<
        HttpRequestView,
        LlmErrorView,
    > {
        wire::sent(encode::encoded(req, context))
    }

    open spec fn decoded_of(&self, response: HttpResponse, context: CodecContext) -> Result<
        CompletionResponseView,
        LlmErrorView,
    > {
        decode::decoded(response, context.profile)
    }

    open spec fn start_of(&self, context: CodecContext) -> SseView<ChatStreamView> {
        codecs::stream::fresh(stream::chat_start(context))
    }

    fn family(&self) -> (family: ProtocolFamily) {
        ProtocolFamily::OpenAiChat
    }

    fn validate_request(&self, req: &CompletionRequest, context: &CodecContext) -> (result: Result<
        (),
        LlmError,
    >) {
        inference::validate(req, &context.profile, &context.request_model)
    }

    fn request_inference(&self, req: &CompletionRequest, context: &CodecContext) -> (result: Result<
        InferenceReport,
        LlmError,
    >) {
        inference::requested(req, &context.profile)
    }

    fn encode_request(&self, req: EncodeRequest, context: &CodecContext) -> (result: Result<
        HttpRequest,
        LlmError,
    >) {
        Ok(encode::request(req, context)?.encode())
    }

    fn encoded_body_len(&self, req: EncodeRequest, context: &CodecContext) -> (result: Result<
        usize,
        LlmError,
    >) {
        Ok(encode::request(req, context)?.body_len())
    }

    fn decode_response(&self, response: &HttpResponse, context: &CodecContext) -> (result: Result<
        CompletionResponse,
        LlmError,
    >) {
        decode::response(response, &context.profile)
    }

    fn stream_decoder(&self, context: &CodecContext) -> (decoder: Self::Decoder) {
        SseDecoder::new(OpenAiStreamDecoder::configured(context))
    }
}

} // verus!
