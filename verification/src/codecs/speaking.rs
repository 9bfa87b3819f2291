//! Which wire a codec speaks: what it sends and reads is what that wire has.

use crate::codecs::anthropic::{self, AnthropicMessagesCodec};
use crate::codecs::gemini::{self, GeminiCodec};
use crate::codecs::hosted::{
    self, AzureOpenAiCodec, BedrockClaudeCodec, FoundryClaudeCodec, VertexClaudeCodec,
    VertexGeminiCodec,
};
use crate::codecs::inference;
use crate::codecs::input::{CodecContext, EncodeRequest};
use crate::codecs::openai::chat::{self, OpenAiChatCodec};
use crate::codecs::openai::responses::{self, OpenAiResponsesCodec};
use crate::codecs::stream;
use crate::codecs::wire::WireRequestView;
use crate::codecs::WireCodec;
use crate::json;
use crate::protocol::{LlmErrorView, ProtocolFamily};
use crate::transport::{HttpRequestView, HttpResponse};
use vstd::prelude::*;

verus! {

/// A request over HTTP is the one that the wire has: to the same address, with the same
/// headers, and with the text of the same body; or it is the same error.
pub open spec fn carries(
    request: Result<HttpRequestView, LlmErrorView>,
    wire: Result<WireRequestView, LlmErrorView>,
) -> bool {
    match (request, wire) {
        (Ok(request), Ok(wire)) => {
            &&& request.method == "POST"@
            &&& request.url == wire.url
            &&& request.headers == wire.headers
            &&& request.body == json::bytes_of(wire.body)
        },
        (Err(a), Err(b)) => a == b,
        _ => false,
    }
}

/// Every codec of the library's own wires sends and reads what its wire has, under the
/// name of its family.
pub proof fn a_codec_speaks_its_wire(
    req: EncodeRequest,
    response: HttpResponse,
    context: CodecContext,
)
    ensures
        AnthropicMessagesCodec.family_of() == ProtocolFamily::AnthropicMessages,
        carries(
            AnthropicMessagesCodec.encoded_of(req, context),
            anthropic::encode::encoded(req, context),
        ),
        AnthropicMessagesCodec.decoded_of(response, context) == anthropic::decode::decoded(
            response,
            context.profile,
        ),
        AnthropicMessagesCodec.start_of(context) == stream::fresh(
            anthropic::stream::anthropic_start(context),
        ),
        OpenAiChatCodec.family_of() == ProtocolFamily::OpenAiChat,
        carries(OpenAiChatCodec.encoded_of(req, context), chat::encode::encoded(req, context)),
        OpenAiChatCodec.decoded_of(response, context) == chat::decode::decoded(
            response,
            context.profile,
        ),
        OpenAiChatCodec.start_of(context) == stream::fresh(chat::stream::chat_start(context)),
        OpenAiResponsesCodec.family_of() == ProtocolFamily::OpenAiResponses,
        carries(
            OpenAiResponsesCodec.encoded_of(req, context),
            responses::encode::encoded(req, context),
        ),
        OpenAiResponsesCodec.decoded_of(response, context) == responses::decode::decoded(
            response,
            context.profile,
        ),
        GeminiCodec.family_of() == ProtocolFamily::GeminiGenerateContent,
        carries(GeminiCodec.encoded_of(req, context), gemini::encode::encoded(req, context)),
        GeminiCodec.decoded_of(response, context) == gemini::decode::decoded(
            response,
            context.profile,
        ),
{
}

/// Every codec of a cloud route sends what the route makes of the wire behind it, and
/// reads what that wire has.
pub proof fn a_cloud_codec_speaks_the_wire_behind_it(
    req: EncodeRequest,
    response: HttpResponse,
    context: CodecContext,
)
    ensures
        AzureOpenAiCodec.family_of() == ProtocolFamily::AzureOpenAi,
        carries(AzureOpenAiCodec.encoded_of(req, context), hosted::azure_encoded(req, context)),
        AzureOpenAiCodec.decoded_of(response, context) == chat::decode::decoded(
            response,
            context.profile,
        ),
        AzureOpenAiCodec.start_of(context) == stream::fresh(chat::stream::chat_start(context)),
        FoundryClaudeCodec.family_of() == ProtocolFamily::FoundryClaude,
        carries(
            FoundryClaudeCodec.encoded_of(req, context),
            anthropic::encode::encoded(req, context),
        ),
        FoundryClaudeCodec.decoded_of(response, context) == anthropic::decode::decoded(
            response,
            context.profile,
        ),
        VertexClaudeCodec.family_of() == ProtocolFamily::VertexClaude,
        carries(VertexClaudeCodec.encoded_of(req, context), hosted::vertex_encoded(req, context)),
        VertexClaudeCodec.decoded_of(response, context) == anthropic::decode::decoded(
            response,
            context.profile,
        ),
        VertexGeminiCodec.family_of() == ProtocolFamily::VertexGemini,
        carries(
            VertexGeminiCodec.encoded_of(req, context),
            gemini::encode::encoded_to(req, hosted::vertex_gemini_url(context), context),
        ),
        VertexGeminiCodec.decoded_of(response, context) == gemini::decode::decoded(
            response,
            context.profile,
        ),
        BedrockClaudeCodec.family_of() == ProtocolFamily::BedrockClaude,
        carries(BedrockClaudeCodec.encoded_of(req, context), hosted::bedrock_encoded(req, context)),
        BedrockClaudeCodec.decoded_of(response, context) == anthropic::decode::decoded(
            response,
            context.profile,
        ),
{
}

/// A request is refused before it is sent for the same reasons on every wire: what its
/// controls ask of the model that it names.
pub proof fn a_request_is_checked_alike(req: EncodeRequest, context: CodecContext)
    ensures
        ({
            let error = inference::validation_error(
                *req.request,
                context.profile,
                context.request_model@,
            );
            &&& AnthropicMessagesCodec.validation(*req.request, context) is Ok <==> error is None
            &&& OpenAiChatCodec.validation(*req.request, context) is Ok <==> error is None
            &&& OpenAiResponsesCodec.validation(*req.request, context) is Ok <==> error is None
            &&& GeminiCodec.validation(*req.request, context) is Ok <==> error is None
            &&& AzureOpenAiCodec.validation(*req.request, context) is Ok <==> error is None
            &&& VertexClaudeCodec.validation(*req.request, context) is Ok <==> error is None
            &&& BedrockClaudeCodec.validation(*req.request, context) is Ok <==> error is None
        }),
{
}

} // verus!
