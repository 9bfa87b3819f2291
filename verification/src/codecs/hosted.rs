//! The hosted variants: the same wires, somewhere else.
//!
//! These families are no wires of their own. They are the Chat Completions, the
//! Messages or the `generateContent` body, reached through a cloud's URL layout and
//! credential. They wrap the codec of the wire, so a fix there reaches all of them.
//! The credential is not here: the authenticator of the connection attaches it.

use crate::codecs::anthropic;
use crate::codecs::anthropic::stream::{AnthropicStreamDecoder, AnthropicStreamView};
use crate::codecs::extras::HeaderViews;
use crate::codecs::gemini;
use crate::codecs::gemini::stream::{GeminiStreamDecoder, GeminiStreamView};
use crate::codecs::openai::chat;
use crate::codecs::openai::chat::stream::{ChatStreamView, OpenAiStreamDecoder};
use crate::codecs::stream::{self, Out, SseDecoder, SseView};
use crate::codecs::wire::{self, WireRequest, WireRequestView};
use crate::codecs::{self, inference};
use crate::codecs::{
    CodecContext, Decoded, EncodeRequest, EventDecoder, Items, StreamDecoder, WireCodec,
};
use crate::encoding;
use crate::framing::eventstream::{self, EventStreamMessage, EventStreamSplitter, MessageView};
use crate::json::{self, Entries, Json, JsonView};
use crate::protocol::error;
use crate::protocol::{
    CompletionRequest, CompletionResponse, CompletionResponseView, InferenceReport,
    InferenceReportView, LlmError, LlmErrorView, ProtocolFamily, ProviderProfile, StreamEvent,
    StreamEventView, UsageReport, UsageReportView,
};
use crate::text;
use crate::transport::{HttpRequest, HttpRequestView, HttpResponse};
use crate::views;
use vstd::prelude::*;

verus! {

broadcast use {crate::views::group_views, crate::json::group_json};

/// The version that Vertex expects in the body, where a profile states no other.
pub const VERTEX_ANTHROPIC_VERSION: &'static str = "vertex-2023-10-16";

/// The version that Bedrock expects in the body: its own, not the date of the
/// first-party API.
pub const BEDROCK_ANTHROPIC_VERSION: &'static str = "bedrock-2023-05-31";

/// The members of a body.
pub open spec fn members(body: JsonView) -> Entries {
    match body {
        JsonView::Object(entries) => entries,
        _ => Seq::empty(),
    }
}

fn into_members(body: Json) -> (entries: Vec<(String, Json)>)
    ensures
        entries.deep_view() == members(body@),
{
    match body {
        Json::Object(entries) => entries,
        _ => json::fields(),
    }
}

/// The headers without those of the exact name.
pub open spec fn without_named(headers: HeaderViews, name: Seq<char>, i: int, before: HeaderViews) -> HeaderViews
    decreases headers.len() - i,
{
    if i < 0 || i >= headers.len() {
        before
    } else {
        without_named(
            headers,
            name,
            i + 1,
            if headers[i].0 == name {
                before
            } else {
                before.push(headers[i])
            },
        )
    }
}

fn drop_named(headers: &Vec<(String, String)>, name: &str) -> (result: Vec<(String, String)>)
    ensures
        result.deep_view() == without_named(headers.deep_view(), name@, 0, Seq::empty()),
{
    let mut out: Vec<(String, String)> = Vec::new();
    assert(out.deep_view() =~= Seq::empty());
    let mut i: usize = 0;
    while i < headers.len()
        invariant
            i <= headers.len(),
            without_named(headers.deep_view(), name@, 0, Seq::empty()) == without_named(
                headers.deep_view(),
                name@,
                i as int,
                out.deep_view(),
            ),
        decreases headers.len() - i,
    {
        assert(headers.deep_view()[i as int] == headers@[i as int].deep_view());
        if !text::same(&headers[i].0, name) {
            out.push((headers[i].0.clone(), headers[i].1.clone()));
        }
        i = i + 1;
    }
    out
}

/// The deployment: an explicit one, or else the wire model, which is how Azure
/// profiles are usually written.
pub open spec fn deployment_of(context: CodecContext) -> Seq<char> {
    match context.profile.azure {
        Some(azure) => match azure.deployment {
            Some(deployment) => deployment@,
            None => context.request_model@,
        },
        None => context.request_model@,
    }
}

/// The version of Azure's API that the profile names.
pub open spec fn azure_version(profile: ProviderProfile) -> Option<Seq<char>> {
    match profile.azure {
        Some(azure) => azure.api_version.deep_view(),
        None => None,
    }
}

/// The Chat Completions body at a deployment's URL, without the model, which Azure
/// rejects there.
pub open spec fn azure_encoded(wire: EncodeRequest, context: CodecContext) -> Result<
    WireRequestView,
    LlmErrorView,
> {
    match chat::encode::encoded(wire, context) {
        Err(error) => Err(error),
        Ok(http) => match azure_version(context.profile) {
            None => Err(
                error::invalid_view(
                    "profile "@ + text::debug_text(context.profile.profile_name@)
                        + " is an Azure deployment but names no azure.api_version"@,
                ),
            ),
            Some(version) => Ok(
                WireRequestView {
                    url: text::without_trailing(context.profile.base_url@, '/')
                        + "/openai/deployments/"@ + deployment_of(context)
                        + "/chat/completions?api-version="@ + version,
                    body: JsonView::Object(json::without(members(http.body), "model"@)),
                    ..http
                },
            ),
        },
    }
}

fn azure_request(wire: EncodeRequest, context: &CodecContext) -> (result: Result<
    WireRequest,
    LlmError,
>)
    ensures
        views::res(result) == azure_encoded(wire, *context),
{
    let profile = &context.profile;
    let http = chat::encode::request(wire, context)?;
    let mut version: Option<&str> = None;
    let mut deployment = context.request_model.as_str();
    if let Some(azure) = &profile.azure {
        if let Some(found) = &azure.api_version {
            version = Some(found.as_str());
        }
        if let Some(found) = &azure.deployment {
            deployment = found.as_str();
        }
    }
    let version = match version {
        Some(version) => version,
        None => return Err(
            error::invalid(
                &text::cat3(
                    "profile ",
                    &text::debug(&profile.profile_name),
                    " is an Azure deployment but names no azure.api_version",
                ),
            ),
        ),
    };
    let mut body = into_members(http.body);
    let _ = json::unset(&mut body, "model");
    Ok(
        WireRequest {
            url: text::cat5(
                &text::trim_end_char(&profile.base_url, '/'),
                "/openai/deployments/",
                deployment,
                "/chat/completions?api-version=",
                version,
            ),
            headers: http.headers,
            body: Json::Object(body),
        },
    )
}

/// The Messages body at a Vertex publisher URL: the model is in the URL, not in the
/// body, and the version moves from a header into the body.
pub open spec fn vertex_encoded(wire: EncodeRequest, context: CodecContext) -> Result<
    WireRequestView,
    LlmErrorView,
> {
    match anthropic::encode::encoded(wire, context) {
        Err(error) => Err(error),
        Ok(http) => Ok(
            WireRequestView {
                url: text::without_trailing(context.profile.base_url@, '/')
                    + "/publishers/anthropic/models/"@ + context.request_model@ + (
                if context.stream {
                    ":streamRawPredict"@
                } else {
                    ":rawPredict"@
                }),
                headers: without_named(http.headers, "anthropic-version"@, 0, Seq::empty()),
                body: JsonView::Object(
                    json::put(
                        json::without(members(http.body), "model"@),
                        "anthropic_version"@,
                        JsonView::Str(
                            anthropic::encode::api_version(
                                context.profile,
                                VERTEX_ANTHROPIC_VERSION@,
                            ),
                        ),
                    ),
                ),
            },
        ),
    }
}

fn vertex_request(wire: EncodeRequest, context: &CodecContext) -> (result: Result<
    WireRequest,
    LlmError,
>)
    ensures
        views::res(result) == vertex_encoded(wire, *context),
{
    let profile = &context.profile;
    let http = anthropic::encode::request(wire, context)?;
    let action = if context.stream {
        ":streamRawPredict"
    } else {
        ":rawPredict"
    };
    let mut body = into_members(http.body);
    let _ = json::unset(&mut body, "model");
    json::set(
        &mut body,
        "anthropic_version",
        json::string(anthropic::encode::version_of(profile, VERTEX_ANTHROPIC_VERSION)),
    );
    Ok(
        WireRequest {
            url: text::cat4(
                &text::trim_end_char(&profile.base_url, '/'),
                "/publishers/anthropic/models/",
                &context.request_model,
                action,
            ),
            headers: drop_named(&http.headers, "anthropic-version"),
            body: Json::Object(body),
        },
    )
}

/// The `generateContent` body at a Vertex publisher URL.
pub open spec fn vertex_gemini_url(context: CodecContext) -> Seq<char> {
    gemini::encode::content_url(
        text::without_trailing(context.profile.base_url@, '/') + "/publishers/google"@,
        context.request_model@,
        context.stream,
    )
}

fn vertex_gemini_request(wire: EncodeRequest, context: &CodecContext) -> (result: Result<
    WireRequest,
    LlmError,
>)
    ensures
        views::res(result) == gemini::encode::encoded_to(
            wire,
            vertex_gemini_url(*context),
            *context,
        ),
{
    let base = text::cat2(
        &text::trim_end_char(&context.profile.base_url, '/'),
        "/publishers/google",
    );
    let url = gemini::generate_content_url(&base, &context.request_model, context.stream);
    gemini::encode::request_to(wire, &url, context)
}

pub open spec fn no_segments() -> LlmErrorView {
    error::invalid_view("Bedrock base URL cannot accept path segments"@)
}

/// Bedrock's endpoint of a model. The model's id is one segment of the path, even
/// where it holds a slash. A URL whose offsets might not fit in 32 bits takes no
/// segments.
pub open spec fn bedrock_url(base: Seq<char>, model: Seq<char>, action: Seq<char>) -> Result<
    Seq<char>,
    LlmErrorView,
> {
    let trimmed = text::without_trailing(base, '/');
    let segments = seq!["model"@, model, action];
    match encoding::url_text(trimmed) {
        Err(e) => Err(error::invalid_view("Bedrock base URL is invalid: "@ + e)),
        Ok(url) => if !encoding::url_fits(url, segments) {
            Err(no_segments())
        } else {
            match encoding::url_with_segments(trimmed, segments) {
                Ok(url) => Ok(url),
                Err(Some(e)) => Err(error::invalid_view("Bedrock base URL is invalid: "@ + e)),
                Err(None) => Err(no_segments()),
            }
        },
    }
}

fn bedrock_model_url(base: &str, model: &str, action: &str) -> (result: Result<String, LlmError>)
    ensures
        views::res(result) == bedrock_url(base@, model@, action@),
{
    let trimmed = text::trim_end_char(base, '/');
    let mut segments: Vec<String> = Vec::new();
    segments.push("model".to_owned());
    segments.push(model.to_owned());
    segments.push(action.to_owned());
    assert(segments.deep_view() =~= seq!["model"@, model@, action@]);
    let url = match encoding::whole_url(&trimmed) {
        Ok(url) => url,
        Err(e) => return Err(error::invalid(&text::cat2("Bedrock base URL is invalid: ", &e))),
    };
    if !encoding::fits(&url, &segments) {
        return Err(error::invalid("Bedrock base URL cannot accept path segments"));
    }
    match encoding::with_segments(&trimmed, &segments) {
        Ok(url) => Ok(url),
        Err(Some(e)) => Err(error::invalid(&text::cat2("Bedrock base URL is invalid: ", &e))),
        Err(None) => Err(error::invalid("Bedrock base URL cannot accept path segments")),
    }
}

/// The action of an endpoint, which chooses streaming.
pub open spec fn bedrock_action(stream: bool) -> Seq<char> {
    if stream {
        "invoke-with-response-stream"@
    } else {
        "invoke"@
    }
}

/// The Messages body on Bedrock: the model is in the path and leaves the body, the
/// version moves into the body as Bedrock's own and leaves the headers, and the
/// stream flag goes, because the endpoint chooses streaming.
pub open spec fn bedrock_encoded(wire: EncodeRequest, context: CodecContext) -> Result<
    WireRequestView,
    LlmErrorView,
> {
    match anthropic::encode::encoded(wire, context) {
        Err(error) => Err(error),
        Ok(http) => match bedrock_url(
            context.profile.base_url@,
            context.request_model@,
            bedrock_action(context.stream),
        ) {
            Err(error) => Err(error),
            Ok(url) => Ok(
                WireRequestView {
                    url,
                    headers: without_named(http.headers, "anthropic-version"@, 0, Seq::empty()),
                    body: JsonView::Object(
                        json::put(
                            json::without(json::without(members(http.body), "model"@), "stream"@),
                            "anthropic_version"@,
                            JsonView::Str(BEDROCK_ANTHROPIC_VERSION@),
                        ),
                    ),
                },
            ),
        },
    }
}

fn bedrock_request(wire: EncodeRequest, context: &CodecContext) -> (result: Result<
    WireRequest,
    LlmError,
>)
    ensures
        views::res(result) == bedrock_encoded(wire, *context),
{
    let http = anthropic::encode::request(wire, context)?;
    let action = if context.stream {
        "invoke-with-response-stream"
    } else {
        "invoke"
    };
    proof {
        reveal_strlit("invoke-with-response-stream");
        reveal_strlit("invoke");
        assert("invoke-with-response-stream"@.len() == 27 && "invoke"@.len() == 6);
    }
    let url = bedrock_model_url(&context.profile.base_url, &context.request_model, action)?;
    let mut body = into_members(http.body);
    let _ = json::unset(&mut body, "model");
    let _ = json::unset(&mut body, "stream");
    json::set(&mut body, "anthropic_version", json::string(BEDROCK_ANTHROPIC_VERSION));
    Ok(
        WireRequest {
            url,
            headers: drop_named(&http.headers, "anthropic-version"),
            body: Json::Object(body),
        },
    )
}

/// Unwraps AWS event-stream frames and hands what is inside to the Messages
/// decoder: the JSON that it would have got over SSE.
pub struct BedrockStreamDecoder {
    frames: EventStreamSplitter,
    inner: AnthropicStreamDecoder,
    ended: bool,
}

pub struct BedrockView {
    pub frames: Seq<u8>,
    pub inner: AnthropicStreamView,
    pub ended: bool,
}

impl View for BedrockStreamDecoder {
    type V = BedrockView;

    closed spec fn view(&self) -> BedrockView {
        BedrockView { frames: self.frames@, inner: self.inner@, ended: self.ended }
    }
}

/// The event that a message carries: `{"bytes": "<base64 of the event's JSON>"}`.
pub open spec fn event_bytes(payload: Seq<u8>) -> Result<Seq<u8>, LlmErrorView> {
    match json::parsed(payload) {
        Err(e) => Err(
            eventstream::interrupted_view("event-stream payload is not JSON: "@ + e),
        ),
        Ok(value) => match json::str_at(value, "bytes"@) {
            None => Err(
                eventstream::interrupted_view("event-stream payload has no `bytes` field"@),
            ),
            Some(encoded) => match encoding::base64_decoded(encoded) {
                Ok(bytes) => Ok(bytes),
                Err(e) => Err(
                    eventstream::interrupted_view("event-stream `bytes` is not base64: "@ + e),
                ),
            },
        },
    }
}

fn interrupted(message: String) -> (error: LlmError)
    ensures
        error@ == eventstream::interrupted_view(message@),
{
    LlmError::StreamInterrupted { message }
}

fn read_event(payload: &Vec<u8>) -> (result: Result<Vec<u8>, LlmError>)
    ensures
        match event_bytes(payload@) {
            Ok(bytes) => result matches Ok(found) && found@ == bytes,
            Err(error) => result matches Err(found) && found@ == error,
        },
{
    let value = match json::parse(payload.as_slice()) {
        Ok(value) => value,
        Err(e) => return Err(interrupted(text::cat2("event-stream payload is not JSON: ", &e))),
    };
    let encoded = match value.str_at("bytes") {
        Some(encoded) => encoded,
        None => return Err(interrupted("event-stream payload has no `bytes` field".to_owned())),
    };
    match encoding::base64_decode(encoded) {
        Ok(bytes) => Ok(bytes),
        Err(e) => Err(interrupted(text::cat2("event-stream `bytes` is not base64: ", &e))),
    }
}

/// An exception of the provider.
pub open spec fn exception_error(message: MessageView) -> LlmErrorView {
    let kind = match eventstream::header_value(message.headers, ":exception-type"@) {
        Some(kind) => kind,
        None => "unknown"@,
    };
    eventstream::interrupted_view(
        "provider stream exception "@ + kind + ": "@ + text::lossy_text(message.payload),
    )
}

/// What one message makes. Other message types carry no model output.
pub open spec fn message_step(state: AnthropicStreamView, message: MessageView) -> (
    AnthropicStreamView,
    Decoded,
) {
    match eventstream::header_value(message.headers, ":message-type"@) {
        Some(kind) => if kind == "event"@ {
            match event_bytes(message.payload) {
                Ok(bytes) => AnthropicStreamDecoder::frame_step(state, bytes),
                Err(error) => (state, Err(error)),
            }
        } else if kind == "exception"@ || kind == "error"@ {
            (state, Err(exception_error(message)))
        } else {
            (state, Ok(Seq::empty()))
        },
        None => (state, Ok(Seq::empty())),
    }
}

/// The decoder and what has come out, once the messages from the `i`th on are
/// there: none after the stream is over.
pub open spec fn with_messages(
    state: AnthropicStreamView,
    out: Out,
    messages: Seq<MessageView>,
    i: int,
) -> (AnthropicStreamView, Out)
    decreases messages.len() - i,
{
    if i < 0 || i >= messages.len() || out.ended {
        (state, out)
    } else {
        let (next, result) = message_step(state, messages[i]);
        with_messages(next, stream::with_result(out, result), messages, i + 1)
    }
}

/// The state after a chunk, and what comes out of it.
pub open spec fn after_chunk(state: BedrockView, bytes: Seq<u8>) -> (BedrockView, Items) {
    if state.ended {
        (state, Seq::empty())
    } else {
        let drained = eventstream::drain(state.frames + bytes, seq![]);
        let (inner, out) = match drained.broken {
            Some(message) => (
                state.inner,
                stream::with_result(
                    stream::nothing(),
                    Err(eventstream::interrupted_view(message)),
                ),
            ),
            None => with_messages(state.inner, stream::nothing(), drained.messages, 0),
        };
        (BedrockView { frames: drained.rest, inner, ended: out.ended }, out.items)
    }
}

/// The error of a stream that stopped within a frame.
pub open spec fn cut_error(frames: Seq<u8>) -> LlmErrorView {
    eventstream::interrupted_view(
        "event-stream ended mid-frame with "@ + text::decimal_text(frames.len())
            + " unconsumed bytes"@,
    )
}

/// The state after the end, and what comes out of it. A truncated final frame is
/// an interruption, not a clean end.
pub open spec fn after_end(state: BedrockView) -> (BedrockView, Items) {
    if state.ended {
        (state, Seq::empty())
    } else {
        let (inner, result) = if state.frames.len() > 0 {
            (state.inner, Err(cut_error(state.frames)))
        } else {
            AnthropicStreamDecoder::finish_step(state.inner)
        };
        (
            BedrockView { inner, ended: true, ..state },
            stream::with_result(stream::nothing(), result).items,
        )
    }
}

impl BedrockStreamDecoder {
    pub fn configured(context: &CodecContext) -> (decoder: Self)
        ensures
            decoder@ == bedrock_start(*context),
    {
        BedrockStreamDecoder {
            frames: EventStreamSplitter::new(),
            inner: AnthropicStreamDecoder::configured(context),
            ended: false,
        }
    }

    fn message(&mut self, message: &EventStreamMessage) -> (result: Result<
        Vec<StreamEvent>,
        LlmError,
    >)
        ensures
            (final(self)@.inner, views::res(result)) == message_step(
                old(self)@.inner,
                message@,
            ),
            final(self)@.frames == old(self)@.frames,
            final(self)@.ended == old(self)@.ended,
    {
        let kind = match message.header(":message-type") {
            Some(kind) => kind,
            None => return Ok(Vec::new()),
        };
        if text::same(kind, "event") {
            let bytes = read_event(&message.payload)?;
            return self.inner.decode_frame(bytes.as_slice());
        }
        if text::same(kind, "exception") || text::same(kind, "error") {
            let kind = match message.header(":exception-type") {
                Some(kind) => kind,
                None => "unknown",
            };
            let body = text::lossy(message.payload.as_slice());
            return Err(
                interrupted(text::cat4("provider stream exception ", kind, ": ", &body)),
            );
        }
        Ok(Vec::new())
    }
}

/// The state before any byte came in.
pub open spec fn bedrock_start(context: CodecContext) -> BedrockView {
    BedrockView {
        frames: Seq::empty(),
        inner: anthropic::stream::anthropic_start(context),
        ended: false,
    }
}

impl StreamDecoder for BedrockStreamDecoder {
    open spec fn push_step(state: BedrockView, bytes: Seq<u8>) -> (BedrockView, Items) {
        after_chunk(state, bytes)
    }

    open spec fn close_step(state: BedrockView) -> (BedrockView, Items) {
        after_end(state)
    }

    open spec fn with_headers(state: BedrockView, headers: HeaderViews) -> BedrockView {
        BedrockView {
            inner: AnthropicStreamDecoder::headers_step(state.inner, headers),
            ..state
        }
    }

    open spec fn known_inference(state: BedrockView) -> InferenceReportView {
        AnthropicStreamDecoder::report_of(state.inner)
    }

    open spec fn known_usage(state: BedrockView) -> UsageReportView {
        AnthropicStreamDecoder::usage_of(state.inner)
    }

    fn set_response_headers(&mut self, headers: &Vec<(String, String)>) {
        self.inner.set_response_headers(headers);
    }

    fn push_bytes(&mut self, bytes: &[u8]) -> (items: Vec<Result<StreamEvent, LlmError>>) {
        let mut items: Vec<Result<StreamEvent, LlmError>> = Vec::new();
        assert(codecs::item_views(items@) =~= Seq::empty());
        if self.ended {
            return items;
        }
        let ghost start = self@;
        let messages = match self.frames.feed(bytes) {
            Ok(messages) => messages,
            Err(error) => {
                self.ended = stream::append(&mut items, Err(error));
                return items;
            },
        };
        let ghost drained = eventstream::drain(start.frames + bytes@, seq![]);
        let ghost all = messages.deep_view();
        let ghost whole = with_messages(start.inner, stream::nothing(), all, 0);
        let mut i: usize = 0;
        while i < messages.len() && !self.ended
            invariant
                i <= messages.len(),
                all == messages.deep_view(),
                self@.frames == drained.rest,
                whole == with_messages(
                    self@.inner,
                    Out { items: codecs::item_views(items@), ended: self.ended },
                    all,
                    i as int,
                ),
            decreases messages.len() - i,
        {
            assert(all[i as int] == messages@[i as int].deep_view());
            let result = self.message(&messages[i]);
            self.ended = stream::append(&mut items, result);
            i = i + 1;
        }
        assert(whole == (
            self@.inner,
            Out { items: codecs::item_views(items@), ended: self.ended },
        ));
        items
    }

    fn finish(&mut self) -> (items: Vec<Result<StreamEvent, LlmError>>) {
        let mut items: Vec<Result<StreamEvent, LlmError>> = Vec::new();
        assert(codecs::item_views(items@) =~= Seq::empty());
        if self.ended {
            return items;
        }
        let result = match self.frames.finish() {
            Ok(()) => self.inner.finish(),
            Err(error) => Err(error),
        };
        stream::append(&mut items, result);
        self.ended = true;
        items
    }

    fn inference_report(&self) -> (report: InferenceReport) {
        self.inner.inference_report()
    }

    fn usage_report(&self) -> (report: UsageReport) {
        self.inner.usage_report()
    }
}

/// Azure OpenAI: the Chat Completions body at a deployment URL.
#[derive(Debug, Default, Clone, Copy)]
pub struct AzureOpenAiCodec;

impl WireCodec for AzureOpenAiCodec {
    type Decoder = SseDecoder<OpenAiStreamDecoder>;

    open spec fn family_of(&self) -> ProtocolFamily {
        ProtocolFamily::AzureOpenAi
    }

    open spec fn validation(&self, req: CompletionRequest, context: CodecContext) -> Result<
        (),
        LlmErrorView,
    > {
        codecs::checked(
            inference::validation_error(req, context.profile, context.request_model@),
        )
    }

    open spec fn requested_of(&self, req: CompletionRequest, context: CodecContext) -> Result<
        InferenceReportView,
        LlmErrorView,
    > {
        inference::requested_report(req, context.profile)
    }

    open spec fn encoded_of(&self, req: EncodeRequest, context: CodecContext) -> Result<
        HttpRequestView,
        LlmErrorView,
    > {
        wire::sent(azure_encoded(req, context))
    }

    open spec fn decoded_of(&self, response: HttpResponse, context: CodecContext) -> Result<
        CompletionResponseView,
        LlmErrorView,
    > {
        chat::decode::decoded(response, context.profile)
    }

    open spec fn start_of(&self, context: CodecContext) -> SseView<ChatStreamView> {
        stream::fresh(chat::stream::chat_start(context))
    }

    fn family(&self) -> (family: ProtocolFamily) {
        ProtocolFamily::AzureOpenAi
    }

    fn validate_request(&self, req: &CompletionRequest, context: &CodecContext) -> (result: Result<
        (),
        LlmError,
    >) {
        inference::validate(req, &context.profile, &context.request_model)
    }

    fn request_inference(&self, req: &CompletionRequest, context: &CodecContext) -> (result: Result<
        InferenceReport,
        LlmError,
    >) {
        inference::requested(req, &context.profile)
    }

    fn encode_request(&self, req: EncodeRequest, context: &CodecContext) -> (result: Result<
        HttpRequest,
        LlmError,
    >) {
        Ok(azure_request(req, context)?.encode())
    }

    fn encoded_body_len(&self, req: EncodeRequest, context: &CodecContext) -> (result: Result<
        usize,
        LlmError,
    >) {
        Ok(azure_request(req, context)?.body_len())
    }

    fn decode_response(&self, response: &HttpResponse, context: &CodecContext) -> (result: Result<
        CompletionResponse,
        LlmError,
    >) {
        chat::decode::response(response, &context.profile)
    }

    fn stream_decoder(&self, context: &CodecContext) -> (decoder: Self::Decoder) {
        SseDecoder::new(OpenAiStreamDecoder::configured(context))
    }
}

/// The Messages wire under an Azure AI Foundry endpoint. Only the base URL and the
/// credential differ.
#[derive(Debug, Default, Clone, Copy)]
pub struct FoundryClaudeCodec;

impl WireCodec for FoundryClaudeCodec {
    type Decoder = SseDecoder<AnthropicStreamDecoder>;

    open spec fn family_of(&self) -> ProtocolFamily {
        ProtocolFamily::FoundryClaude
    }

    open spec fn validation(&self, req: CompletionRequest, context: CodecContext) -> Result<
        (),
        LlmErrorView,
    > {
        codecs::checked(
            inference::validation_error(req, context.profile, context.request_model@),
        )
    }

    open spec fn requested_of(&self, req: CompletionRequest, context: CodecContext) -> Result<
        InferenceReportView,
        LlmErrorView,
    > {
        inference::requested_report(req, context.profile)
    }

    open spec fn encoded_of(&self, req: EncodeRequest, context: CodecContext) -> Result<
        HttpRequestView,
        LlmErrorView,
    > {
        wire::sent(anthropic::encode::encoded(req, context))
    }

    open spec fn decoded_of(&self, response: HttpResponse, context: CodecContext) -> Result<
        CompletionResponseView,
        LlmErrorView,
    > {
        anthropic::decode::decoded(response, context.profile)
    }

    open spec fn start_of(&self, context: CodecContext) -> SseView<AnthropicStreamView> {
        stream::fresh(anthropic::stream::anthropic_start(context))
    }

    fn family(&self) -> (family: ProtocolFamily) {
        ProtocolFamily::FoundryClaude
    }

    fn validate_request(&self, req: &CompletionRequest, context: &CodecContext) -> (result: Result<
        (),
        LlmError,
    >) {
        inference::validate(req, &context.profile, &context.request_model)
    }

    fn request_inference(&self, req: &CompletionRequest, context: &CodecContext) -> (result: Result<
        InferenceReport,
        LlmError,
    >) {
        inference::requested(req, &context.profile)
    }

    fn encode_request(&self, req: EncodeRequest, context: &CodecContext) -> (result: Result<
        HttpRequest,
        LlmError,
    >) {
        Ok(anthropic::encode::request(req, context)?.encode())
    }

    fn encoded_body_len(&self, req: EncodeRequest, context: &CodecContext) -> (result: Result<
        usize,
        LlmError,
    >) {
        Ok(anthropic::encode::request(req, context)?.body_len())
    }

    fn decode_response(&self, response: &HttpResponse, context: &CodecContext) -> (result: Result<
        CompletionResponse,
        LlmError,
    >) {
        anthropic::decode::response(response, &context.profile)
    }

    fn stream_decoder(&self, context: &CodecContext) -> (decoder: Self::Decoder) {
        SseDecoder::new(AnthropicStreamDecoder::configured(context))
    }
}

/// The Messages body at a Vertex AI publisher URL.
#[derive(Debug, Default, Clone, Copy)]
pub struct VertexClaudeCodec;

impl WireCodec for VertexClaudeCodec {
    type Decoder = SseDecoder<AnthropicStreamDecoder>;

    open spec fn family_of(&self) -> ProtocolFamily {
        ProtocolFamily::VertexClaude
    }

    open spec fn validation(&self, req: CompletionRequest, context: CodecContext) -> Result<
        (),
        LlmErrorView,
    > {
        codecs::checked(
            inference::validation_error(req, context.profile, context.request_model@),
        )
    }

    open spec fn requested_of(&self, req: CompletionRequest, context: CodecContext) -> Result<
        InferenceReportView,
        LlmErrorView,
    > {
        inference::requested_report(req, context.profile)
    }

    open spec fn encoded_of(&self, req: EncodeRequest, context: CodecContext) -> Result<
        HttpRequestView,
        LlmErrorView,
    > {
        wire::sent(vertex_encoded(req, context))
    }

    open spec fn decoded_of(&self, response: HttpResponse, context: CodecContext) -> Result<
        CompletionResponseView,
        LlmErrorView,
    > {
        anthropic::decode::decoded(response, context.profile)
    }

    open spec fn start_of(&self, context: CodecContext) -> SseView<AnthropicStreamView> {
        stream::fresh(anthropic::stream::anthropic_start(context))
    }

    fn family(&self) -> (family: ProtocolFamily) {
        ProtocolFamily::VertexClaude
    }

    fn validate_request(&self, req: &CompletionRequest, context: &CodecContext) -> (result: Result<
        (),
        LlmError,
    >) {
        inference::validate(req, &context.profile, &context.request_model)
    }

    fn request_inference(&self, req: &CompletionRequest, context: &CodecContext) -> (result: Result<
        InferenceReport,
        LlmError,
    >) {
        inference::requested(req, &context.profile)
    }

    fn encode_request(&self, req: EncodeRequest, context: &CodecContext) -> (result: Result<
        HttpRequest,
        LlmError,
    >) {
        Ok(vertex_request(req, context)?.encode())
    }

    fn encoded_body_len(&self, req: EncodeRequest, context: &CodecContext) -> (result: Result<
        usize,
        LlmError,
    >) {
        Ok(vertex_request(req, context)?.body_len())
    }

    fn decode_response(&self, response: &HttpResponse, context: &CodecContext) -> (result: Result<
        CompletionResponse,
        LlmError,
    >) {
        anthropic::decode::response(response, &context.profile)
    }

    fn stream_decoder(&self, context: &CodecContext) -> (decoder: Self::Decoder) {
        SseDecoder::new(AnthropicStreamDecoder::configured(context))
    }
}

/// The `generateContent` body at a Vertex AI publisher URL.
#[derive(Debug, Default, Clone, Copy)]
pub struct VertexGeminiCodec;

impl WireCodec for VertexGeminiCodec {
    type Decoder = SseDecoder<GeminiStreamDecoder>;

    open spec fn family_of(&self) -> ProtocolFamily {
        ProtocolFamily::VertexGemini
    }

    open spec fn validation(&self, req: CompletionRequest, context: CodecContext) -> Result<
        (),
        LlmErrorView,
    > {
        codecs::checked(
            inference::validation_error(req, context.profile, context.request_model@),
        )
    }

    open spec fn requested_of(&self, req: CompletionRequest, context: CodecContext) -> Result<
        InferenceReportView,
        LlmErrorView,
    > {
        inference::requested_report(req, context.profile)
    }

    open spec fn encoded_of(&self, req: EncodeRequest, context: CodecContext) -> Result<
        HttpRequestView,
        LlmErrorView,
    > {
        wire::sent(gemini::encode::encoded_to(req, vertex_gemini_url(context), context))
    }

    open spec fn decoded_of(&self, response: HttpResponse, context: CodecContext) -> Result<
        CompletionResponseView,
        LlmErrorView,
    > {
        gemini::decode::decoded(response, context.profile)
    }

    open spec fn start_of(&self, context: CodecContext) -> SseView<GeminiStreamView> {
        stream::fresh(gemini::stream::gemini_start(context))
    }

    fn family(&self) -> (family: ProtocolFamily) {
        ProtocolFamily::VertexGemini
    }

    fn validate_request(&self, req: &CompletionRequest, context: &CodecContext) -> (result: Result<
        (),
        LlmError,
    >) {
        inference::validate(req, &context.profile, &context.request_model)
    }

    fn request_inference(&self, req: &CompletionRequest, context: &CodecContext) -> (result: Result<
        InferenceReport,
        LlmError,
    >) {
        inference::requested(req, &context.profile)
    }

    fn encode_request(&self, req: EncodeRequest, context: &CodecContext) -> (result: Result<
        HttpRequest,
        LlmError,
    >) {
        Ok(vertex_gemini_request(req, context)?.encode())
    }

    fn encoded_body_len(&self, req: EncodeRequest, context: &CodecContext) -> (result: Result<
        usize,
        LlmError,
    >) {
        Ok(vertex_gemini_request(req, context)?.body_len())
    }

    fn decode_response(&self, response: &HttpResponse, context: &CodecContext) -> (result: Result<
        CompletionResponse,
        LlmError,
    >) {
        gemini::decode::response(response, &context.profile)
    }

    fn stream_decoder(&self, context: &CodecContext) -> (decoder: Self::Decoder) {
        SseDecoder::new(GeminiStreamDecoder::configured(context))
    }
}

/// The Messages body on Amazon Bedrock, streamed as AWS event-stream frames.
#[derive(Debug, Default, Clone, Copy)]
pub struct BedrockClaudeCodec;

impl WireCodec for BedrockClaudeCodec {
    type Decoder = BedrockStreamDecoder;

    open spec fn family_of(&self) -> ProtocolFamily {
        ProtocolFamily::BedrockClaude
    }

    open spec fn validation(&self, req: CompletionRequest, context: CodecContext) -> Result<
        (),
        LlmErrorView,
    > {
        codecs::checked(
            inference::validation_error(req, context.profile, context.request_model@),
        )
    }

    open spec fn requested_of(&self, req: CompletionRequest, context: CodecContext) -> Result<
        InferenceReportView,
        LlmErrorView,
    > {
        inference::requested_report(req, context.profile)
    }

    open spec fn encoded_of(&self, req: EncodeRequest, context: CodecContext) -> Result<
        HttpRequestView,
        LlmErrorView,
    > {
        wire::sent(bedrock_encoded(req, context))
    }

    open spec fn decoded_of(&self, response: HttpResponse, context: CodecContext) -> Result<
        CompletionResponseView,
        LlmErrorView,
    > {
        anthropic::decode::decoded(response, context.profile)
    }

    open spec fn start_of(&self, context: CodecContext) -> BedrockView {
        bedrock_start(context)
    }

    fn family(&self) -> (family: ProtocolFamily) {
        ProtocolFamily::BedrockClaude
    }

    fn validate_request(&self, req: &CompletionRequest, context: &CodecContext) -> (result: Result<
        (),
        LlmError,
    >) {
        inference::validate(req, &context.profile, &context.request_model)
    }

    fn request_inference(&self, req: &CompletionRequest, context: &CodecContext) -> (result: Result<
        InferenceReport,
        LlmError,
    >) {
        inference::requested(req, &context.profile)
    }

    fn encode_request(&self, req: EncodeRequest, context: &CodecContext) -> (result: Result<
        HttpRequest,
        LlmError,
    >) {
        Ok(bedrock_request(req, context)?.encode())
    }

    fn encoded_body_len(&self, req: EncodeRequest, context: &CodecContext) -> (result: Result<
        usize,
        LlmError,
    >) {
        Ok(bedrock_request(req, context)?.body_len())
    }

    fn decode_response(&self, response: &HttpResponse, context: &CodecContext) -> (result: Result<
        CompletionResponse,
        LlmError,
    >) {
        anthropic::decode::response(response, &context.profile)
    }

    fn stream_decoder(&self, context: &CodecContext) -> (decoder: Self::Decoder) {
        BedrockStreamDecoder::configured(context)
    }
}

/// A Bedrock stream that stops within a frame is an interruption.
pub proof fn a_cut_bedrock_stream_is_an_interruption(state: BedrockView)
    requires
        !state.ended,
        state.frames.len() > 0,
    ensures
        BedrockStreamDecoder::close_step(state).1 == seq![
            Err::<StreamEventView, LlmErrorView>(cut_error(state.frames)),
        ],
        cut_error(state.frames) is StreamInterrupted,
{
    assert(BedrockStreamDecoder::close_step(state).1 =~= seq![
        Err::<StreamEventView, LlmErrorView>(cut_error(state.frames)),
    ]);
}

} // verus!
