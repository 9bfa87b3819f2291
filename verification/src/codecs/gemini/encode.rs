//! Request encoding for `generateContent`.

use crate::codecs::extras;
use crate::codecs::inference::{self, Draft};
use crate::codecs::input;
use crate::codecs::openai::chat;
use crate::codecs::web_search;
use crate::codecs::wire::{WireRequest, WireRequestView};
use crate::codecs::{self, CodecContext, EncodeRequest};
use crate::encoding;
use crate::files::policy;
use crate::json::{self, Entries, Json, JsonView};
use crate::protocol::error;
use crate::protocol::{
    AttachmentRef, CompletionRequest, ContentBlock, ConversationMessage, DocumentSource,
    ImageSource, LlmError, LlmErrorView, MessageRole, ProtocolFamily, ProviderFileSource,
    SystemBlock, ToolChoice, ToolSpec, VideoSource,
};
use crate::text;
use crate::views;
use vstd::prelude::*;

verus! {

broadcast use {crate::views::group_views, crate::json::group_json};

/// `{base}/models/{model}:generateContent`, or the variant that streams.
pub open spec fn content_url(base: Seq<char>, model: Seq<char>, stream: bool) -> Seq<char> {
    text::without_trailing(base, '/') + "/models/"@ + model + (if stream {
        ":streamGenerateContent?alt=sse"@
    } else {
        ":generateContent"@
    })
}

pub fn generate_content_url(base: &str, model: &str, stream: bool) -> (url: String)
    ensures
        url@ == content_url(base@, model@, stream),
{
    let base = text::trim_end_char(base, '/');
    if stream {
        text::cat4(&base, "/models/", model, ":streamGenerateContent?alt=sse")
    } else {
        text::cat4(&base, "/models/", model, ":generateContent")
    }
}

/// Data that stands in the request.
pub open spec fn inline_part(media_type: Seq<char>, data: Seq<char>) -> JsonView {
    json::obj1(
        "inlineData"@,
        json::obj2("mimeType"@, JsonView::Str(media_type), "data"@, JsonView::Str(data)),
    )
}

fn inline_json(media_type: &str, data: &str) -> (json: Json)
    ensures
        json@ == inline_part(media_type@, data@),
{
    json::object1(
        "inlineData",
        json::object2("mimeType", json::string(media_type), "data", json::string(data)),
    )
}

/// Data at a URL, whose type the server states.
pub open spec fn url_part(url: Seq<char>) -> JsonView {
    json::obj1("fileData"@, json::obj1("fileUri"@, JsonView::Str(url)))
}

fn url_json(url: &str) -> (json: Json)
    ensures
        json@ == url_part(url@),
{
    json::object1("fileData", json::object1("fileUri", json::string(url)))
}

/// A file that the provider holds.
pub open spec fn file_part(media_type: Seq<char>, uri: Seq<char>) -> JsonView {
    json::obj1(
        "fileData"@,
        json::obj2("mimeType"@, JsonView::Str(media_type), "fileUri"@, JsonView::Str(uri)),
    )
}

fn file_json(media_type: &str, uri: &str) -> (json: Json)
    ensures
        json@ == file_part(media_type@, uri@),
{
    json::object1(
        "fileData",
        json::object2("mimeType", json::string(media_type), "fileUri", json::string(uri)),
    )
}

/// Whether a file was uploaded for this wire.
pub open spec fn on_this_wire(protocol: ProtocolFamily) -> bool {
    protocol == ProtocolFamily::GeminiGenerateContent || protocol == ProtocolFamily::VertexGemini
}

/// The part of a provider file, or why it cannot be named.
pub open spec fn provider_part(file: ProviderFileSource, context: CodecContext) -> Result<
    JsonView,
    LlmErrorView,
> {
    match policy::file_error(
        file@,
        context.profile,
        context.file_account_scope.deep_view(),
    ) {
        Some(error) => Err(error),
        None => if !on_this_wire(file.protocol) {
            Err(codecs::wrong_protocol())
        } else {
            match (file.uri.deep_view(), file.media_type.deep_view()) {
                (None, _) => Err(
                    error::invalid_view("Gemini provider file reference is missing its file URI"@),
                ),
                (_, None) => Err(
                    error::invalid_view(
                        "Gemini provider file reference is missing its media type"@,
                    ),
                ),
                (Some(uri), Some(media_type)) => Ok(file_part(media_type, uri)),
            }
        },
    }
}

fn encode_file(file: &ProviderFileSource, context: &CodecContext) -> (result: Result<Json, LlmError>)
    ensures
        views::res(result) == provider_part(*file, *context),
{
    policy::validate_provider_file(file, &context.profile, &context.file_account_scope)?;
    if !(file.protocol == ProtocolFamily::GeminiGenerateContent || file.protocol
        == ProtocolFamily::VertexGemini) {
        return Err(codecs::provider_file_protocol_error());
    }
    let uri = match &file.uri {
        Some(uri) => uri,
        None => return Err(
            error::invalid("Gemini provider file reference is missing its file URI"),
        ),
    };
    match &file.media_type {
        Some(media_type) => Ok(file_json(media_type, uri)),
        None => Err(error::invalid("Gemini provider file reference is missing its media type")),
    }
}

/// The part of a video that the provider holds.
pub open spec fn video_file_part(file: ProviderFileSource, context: CodecContext) -> Result<
    JsonView,
    LlmErrorView,
> {
    match policy::file_error(
        file@,
        context.profile,
        context.file_account_scope.deep_view(),
    ) {
        Some(error) => Err(error),
        None => match (file.uri.deep_view(), file.media_type.deep_view()) {
            (None, _) => Err(
                error::invalid_view("Gemini video file reference is missing its file URI"@),
            ),
            (_, None) => Err(
                error::invalid_view("Gemini video file reference is missing its media type"@),
            ),
            (Some(uri), Some(media_type)) => if !"video/"@.is_prefix_of(text::lower(media_type)) {
                Err(
                    error::invalid_view("Gemini video file reference has a non-video media type"@),
                )
            } else {
                Ok(file_part(media_type, uri))
            },
        },
    }
}

fn encode_video_file(file: &ProviderFileSource, context: &CodecContext) -> (result: Result<
    Json,
    LlmError,
>)
    ensures
        views::res(result) == video_file_part(*file, *context),
{
    policy::validate_provider_file(file, &context.profile, &context.file_account_scope)?;
    let uri = match &file.uri {
        Some(uri) => uri,
        None => return Err(error::invalid("Gemini video file reference is missing its file URI")),
    };
    let media_type = match &file.media_type {
        Some(media_type) => media_type,
        None => return Err(
            error::invalid("Gemini video file reference is missing its media type"),
        ),
    };
    if !text::starts_with(&text::to_lower(media_type), "video/") {
        return Err(error::invalid("Gemini video file reference has a non-video media type"));
    }
    Ok(file_json(media_type, uri))
}

/// The name and the provider's id of the first call of the id among the blocks
/// from the `i`th on.
pub open spec fn call_among(blocks: Seq<ContentBlock>, id: Seq<char>, i: int) -> Option<
    (Seq<char>, Option<Seq<char>>),
>
    decreases blocks.len() - i,
{
    if i < 0 || i >= blocks.len() {
        None
    } else {
        match blocks[i] {
            ContentBlock::ToolUse { id: of, name, provider_id, .. } => if of@ == id {
                Some((name@, provider_id.deep_view()))
            } else {
                call_among(blocks, id, i + 1)
            },
            _ => call_among(blocks, id, i + 1),
        }
    }
}

/// The name and the provider's id of the first call of the id in the messages from
/// the `m`th on.
pub open spec fn call_in(messages: Seq<ConversationMessage>, id: Seq<char>, m: int) -> Option<
    (Seq<char>, Option<Seq<char>>),
>
    decreases messages.len() - m,
{
    if m < 0 || m >= messages.len() {
        None
    } else {
        match call_among(messages[m].content@, id, 0) {
            Some(call) => Some(call),
            None => call_in(messages, id, m + 1),
        }
    }
}

fn find_among(blocks: &Vec<ContentBlock>, id: &str) -> (result: Option<(String, Option<String>)>)
    ensures
        result.deep_view() == call_among(blocks@, id@, 0),
{
    let mut i: usize = 0;
    while i < blocks.len()
        invariant
            i <= blocks.len(),
            call_among(blocks@, id@, 0) == call_among(blocks@, id@, i as int),
        decreases blocks.len() - i,
    {
        if let ContentBlock::ToolUse { id: of, name, provider_id, .. } = &blocks[i] {
            if text::same(of, id) {
                let provider_id = match provider_id {
                    Some(provider_id) => Some(provider_id.clone()),
                    None => None,
                };
                return Some((name.clone(), provider_id));
            }
        }
        i = i + 1;
    }
    None
}

fn find_call(messages: &Vec<ConversationMessage>, id: &str) -> (result: Option<
    (String, Option<String>),
>)
    ensures
        result.deep_view() == call_in(messages@, id@, 0),
{
    let mut m: usize = 0;
    while m < messages.len()
        invariant
            m <= messages.len(),
            call_in(messages@, id@, 0) == call_in(messages@, id@, m as int),
        decreases messages.len() - m,
    {
        let found = find_among(&messages[m].content, id);
        if found.is_some() {
            return found;
        }
        m = m + 1;
    }
    None
}

/// The entries with a signature, where there is one.
pub open spec fn signed(entries: Entries, signature: Option<Seq<char>>) -> JsonView {
    JsonView::Object(
        match signature {
            Some(signature) => json::put(
                entries,
                "thoughtSignature"@,
                JsonView::Str(signature),
            ),
            None => entries,
        },
    )
}

fn sign(entries: Vec<(String, Json)>, signature: &Option<String>) -> (json: Json)
    ensures
        json@ == signed(entries.deep_view(), signature.deep_view()),
{
    let mut entries = entries;
    if let Some(signature) = signature {
        json::set(&mut entries, "thoughtSignature", json::string(signature));
    }
    Json::Object(entries)
}

/// The entries with the provider's id, where there is one.
pub open spec fn identified(entries: Entries, id: Option<Seq<char>>) -> JsonView {
    JsonView::Object(
        match id {
            Some(id) => json::put(entries, "id"@, JsonView::Str(id)),
            None => entries,
        },
    )
}

fn identify(entries: Vec<(String, Json)>, id: &Option<String>) -> (json: Json)
    ensures
        json@ == identified(entries.deep_view(), id.deep_view()),
{
    let mut entries = entries;
    if let Some(id) = id {
        json::set(&mut entries, "id", json::string(id));
    }
    Json::Object(entries)
}

/// A call. Its local id is not sent, only one that the provider gave.
pub open spec fn call_part(
    name: Seq<char>,
    input: JsonView,
    provider_id: Option<Seq<char>>,
    signature: Option<Seq<char>>,
) -> JsonView {
    signed(
        json::put(
            Seq::empty(),
            "functionCall"@,
            identified(
                json::put(
                    json::put(Seq::empty(), "name"@, JsonView::Str(name)),
                    "args"@,
                    input,
                ),
                provider_id,
            ),
        ),
        signature,
    )
}

fn encode_call(name: &str, input: &Json, provider_id: &Option<String>, signature: &Option<String>) -> (json:
    Json)
    ensures
        json@ == call_part(name@, input@, provider_id.deep_view(), signature.deep_view()),
{
    let mut call = json::fields();
    json::set(&mut call, "name", json::string(name));
    json::set(&mut call, "args", input.dup());
    let mut part = json::fields();
    json::set(&mut part, "functionCall", identify(call, provider_id));
    sign(part, signature)
}

/// A result, which this wire keys by the function's name and the provider's id.
pub open spec fn response_part(
    name: Seq<char>,
    provider_id: Option<Seq<char>>,
    content: Seq<char>,
) -> JsonView {
    json::obj1(
        "functionResponse"@,
        identified(
            json::put(
                json::put(Seq::empty(), "name"@, JsonView::Str(name)),
                "response"@,
                json::obj1("result"@, JsonView::Str(content)),
            ),
            provider_id,
        ),
    )
}

fn encode_response(name: &str, provider_id: &Option<String>, content: &str) -> (json: Json)
    ensures
        json@ == response_part(name@, provider_id.deep_view(), content@),
{
    let mut response = json::fields();
    json::set(&mut response, "name", json::string(name));
    json::set(&mut response, "response", json::object1("result", json::string(content)));
    json::object1("functionResponse", identify(response, provider_id))
}

pub open spec fn unmatched_error(id: Seq<char>) -> LlmErrorView {
    error::invalid_view(
        "a tool result for "@ + id
            + " has no matching call in the transcript, and this wire keys results by function name"@,
    )
}

/// The part of an image.
pub open spec fn image_part(source: ImageSource, context: CodecContext) -> Result<
    JsonView,
    LlmErrorView,
> {
    match source {
        ImageSource::Base64 { media_type, data } => Ok(inline_part(media_type@, data@)),
        ImageSource::Url { url } => Ok(url_part(url@)),
        ImageSource::Attachment { .. } => Err(codecs::unresolved_attachment()),
        ImageSource::ProviderFile { file } => provider_part(file, context),
    }
}

fn encode_image(source: &ImageSource, context: &CodecContext) -> (result: Result<Json, LlmError>)
    ensures
        views::res(result) == image_part(*source, *context),
{
    match source {
        ImageSource::Base64 { media_type, data } => Ok(inline_json(media_type, data)),
        ImageSource::Url { url } => Ok(url_json(url)),
        ImageSource::Attachment { .. } => Err(codecs::unresolved_attachment_error()),
        ImageSource::ProviderFile { file } => encode_file(file, context),
    }
}

/// The part of a document.
pub open spec fn document_part(source: DocumentSource, context: CodecContext) -> Result<
    JsonView,
    LlmErrorView,
> {
    match source {
        DocumentSource::Base64 { media_type, data } => Ok(inline_part(media_type@, data@)),
        DocumentSource::Text { media_type, data } => Ok(
            inline_part(
                media_type@,
                encoding::base64_encoded(vstd::utf8::encode_utf8(data@)),
            ),
        ),
        DocumentSource::Url { url } => Ok(url_part(url@)),
        DocumentSource::Attachment { .. } => Err(codecs::unresolved_attachment()),
        DocumentSource::ProviderFile { file } => provider_part(file, context),
    }
}

fn encode_document(source: &DocumentSource, context: &CodecContext) -> (result: Result<
    Json,
    LlmError,
>)
    ensures
        views::res(result) == document_part(*source, *context),
{
    match source {
        DocumentSource::Base64 { media_type, data } => Ok(inline_json(media_type, data)),
        DocumentSource::Text { media_type, data } => Ok(
            inline_json(media_type, &encoding::base64_encode(data.as_str().as_bytes())),
        ),
        DocumentSource::Url { url } => Ok(url_json(url)),
        DocumentSource::Attachment { .. } => Err(codecs::unresolved_attachment_error()),
        DocumentSource::ProviderFile { file } => encode_file(file, context),
    }
}

/// The part of a video.
pub open spec fn video_part(source: VideoSource, context: CodecContext) -> Result<
    JsonView,
    LlmErrorView,
> {
    match source {
        VideoSource::Base64 { media_type, data } => Ok(inline_part(media_type@, data@)),
        VideoSource::Url { url } => Ok(url_part(url@)),
        VideoSource::Attachment { .. } => Err(codecs::unresolved_attachment()),
        VideoSource::ProviderFile { file } => video_file_part(file, context),
    }
}

fn encode_video(source: &VideoSource, context: &CodecContext) -> (result: Result<Json, LlmError>)
    ensures
        views::res(result) == video_part(*source, *context),
{
    match source {
        VideoSource::Base64 { media_type, data } => Ok(inline_json(media_type, data)),
        VideoSource::Url { url } => Ok(url_json(url)),
        VideoSource::Attachment { .. } => Err(codecs::unresolved_attachment_error()),
        VideoSource::ProviderFile { file } => encode_video_file(file, context),
    }
}

/// A part that is there.
pub open spec fn some_part(part: Result<JsonView, LlmErrorView>) -> Result<
    Option<JsonView>,
    LlmErrorView,
> {
    match part {
        Ok(part) => Ok(Some(part)),
        Err(error) => Err(error),
    }
}

/// The part of a block, if it has one.
pub open spec fn part_of(block: ContentBlock, context: CodecContext, wire: EncodeRequest) -> Result<
    Option<JsonView>,
    LlmErrorView,
> {
    match input::media_for(wire, block) {
        Err(error) => Err(error),
        Ok(Some(media)) => Ok(
            Some(
                inline_part(
                    media.attachment.media_type@,
                    encoding::base64_encoded(media.bytes@),
                ),
            ),
        ),
        Ok(None) => match block {
            ContentBlock::ProviderContent { .. } => Err(
                error::unsupported_view("native content cannot be replayed on Gemini"@),
            ),
            ContentBlock::Text { text, thought_signature } => Ok(
                Some(
                    signed(
                        json::put(Seq::empty(), "text"@, JsonView::Str(text@)),
                        thought_signature.deep_view(),
                    ),
                ),
            ),
            ContentBlock::Thinking { text, signature } => Ok(
                Some(
                    signed(
                        json::put(
                            json::put(Seq::empty(), "text"@, JsonView::Str(text@)),
                            "thought"@,
                            JsonView::Bool(true),
                        ),
                        signature.deep_view(),
                    ),
                ),
            ),
            ContentBlock::RedactedThinking { .. } => Ok(None),
            ContentBlock::ToolUse { name, input, provider_id, thought_signature, .. } => Ok(
                Some(
                    call_part(
                        name@,
                        input@,
                        provider_id.deep_view(),
                        thought_signature.deep_view(),
                    ),
                ),
            ),
            ContentBlock::ToolResult { tool_use_id, content, .. } => match call_in(
                wire.request.messages@,
                tool_use_id@,
                0,
            ) {
                Some((name, provider_id)) => Ok(
                    Some(response_part(name, provider_id, content@)),
                ),
                None => Err(unmatched_error(tool_use_id@)),
            },
            ContentBlock::Image { source } => some_part(image_part(source, context)),
            ContentBlock::Document { source, .. } => some_part(document_part(source, context)),
            ContentBlock::Video { source } => some_part(video_part(source, context)),
        },
    }
}

fn encode_part(block: &ContentBlock, context: &CodecContext, wire: EncodeRequest) -> (result: Result<
    Option<Json>,
    LlmError,
>)
    ensures
        views::res(result) == part_of(*block, *context, wire),
{
    let media = wire.inline_media(block)?;
    if let Some(media) = media {
        return Ok(
            Some(
                inline_json(&media.attachment.media_type, &encoding::base64_encode(media.bytes)),
            ),
        );
    }
    match block {
        ContentBlock::ProviderContent { .. } => Err(
            error::unsupported("native content cannot be replayed on Gemini"),
        ),
        ContentBlock::Text { text, thought_signature } => {
            let mut part = json::fields();
            json::set(&mut part, "text", json::string(text));
            Ok(Some(sign(part, thought_signature)))
        },
        ContentBlock::Thinking { text, signature } => {
            let mut part = json::fields();
            json::set(&mut part, "text", json::string(text));
            json::set(&mut part, "thought", Json::Bool(true));
            Ok(Some(sign(part, signature)))
        },
        ContentBlock::RedactedThinking { .. } => Ok(None),
        ContentBlock::ToolUse { name, input, provider_id, thought_signature, .. } => Ok(
            Some(encode_call(name, input, provider_id, thought_signature)),
        ),
        ContentBlock::ToolResult { tool_use_id, content, .. } => match find_call(
            &wire.request.messages,
            tool_use_id,
        ) {
            Some((name, provider_id)) => Ok(Some(encode_response(&name, &provider_id, content))),
            None => Err(
                error::invalid(
                    &text::cat3(
                        "a tool result for ",
                        tool_use_id,
                        " has no matching call in the transcript, and this wire keys results by function name",
                    ),
                ),
            ),
        },
        ContentBlock::Image { source } => {
            let part = encode_image(source, context)?;
            Ok(Some(part))
        },
        ContentBlock::Document { source, .. } => {
            let part = encode_document(source, context)?;
            Ok(Some(part))
        },
        ContentBlock::Video { source } => {
            let part = encode_video(source, context)?;
            Ok(Some(part))
        },
    }
}

/// The parts of the blocks from the `i`th on, after those before.
pub open spec fn parts_of(
    blocks: Seq<ContentBlock>,
    i: int,
    before: Seq<JsonView>,
    context: CodecContext,
    wire: EncodeRequest,
) -> Result<Seq<JsonView>, LlmErrorView>
    decreases blocks.len() - i,
{
    if i < 0 || i >= blocks.len() {
        Ok(before)
    } else {
        match part_of(blocks[i], context, wire) {
            Err(error) => Err(error),
            Ok(Some(part)) => parts_of(blocks, i + 1, before.push(part), context, wire),
            Ok(None) => parts_of(blocks, i + 1, before, context, wire),
        }
    }
}

fn encode_parts(blocks: &Vec<&ContentBlock>, context: &CodecContext, wire: EncodeRequest) -> (result:
    Result<Vec<Json>, LlmError>)
    ensures
        views::res(result) == parts_of(
            views::plain(blocks@),
            0,
            Seq::empty(),
            *context,
            wire,
        ),
{
    let mut parts: Vec<Json> = Vec::new();
    let mut i: usize = 0;
    while i < blocks.len()
        invariant
            i <= blocks.len(),
            parts_of(views::plain(blocks@), 0, Seq::empty(), *context, wire) == parts_of(
                views::plain(blocks@),
                i as int,
                parts.deep_view(),
                *context,
                wire,
            ),
        decreases blocks.len() - i,
    {
        let part = encode_part(blocks[i], context, wire)?;
        if let Some(part) = part {
            parts.push(part);
        }
        i = i + 1;
    }
    Ok(parts)
}

/// The contents of the messages from the `m`th on, after those before. A message
/// without parts is left out.
pub open spec fn contents_of(
    before: Seq<JsonView>,
    m: int,
    context: CodecContext,
    wire: EncodeRequest,
) -> Result<Seq<JsonView>, LlmErrorView>
    decreases wire.request.messages@.len() - m,
{
    if m < 0 || m >= wire.request.messages@.len() {
        Ok(before)
    } else {
        let role = wire.request.messages@[m].role;
        if role == MessageRole::System {
            Err(
                error::invalid_view("the system prompt belongs in `systemInstruction`"@),
            )
        } else {
            match parts_of(input::message_blocks(wire, m), 0, Seq::empty(), context, wire) {
                Err(error) => Err(error),
                Ok(parts) => contents_of(
                    if parts.len() == 0 {
                        before
                    } else {
                        before.push(
                            json::obj2(
                                "role"@,
                                JsonView::Str(
                                    if role == MessageRole::Assistant {
                                        "model"@
                                    } else {
                                        "user"@
                                    },
                                ),
                                "parts"@,
                                JsonView::Array(parts),
                            ),
                        )
                    },
                    m + 1,
                    context,
                    wire,
                ),
            }
        }
    }
}

fn contents(context: &CodecContext, wire: EncodeRequest) -> (result: Result<Vec<Json>, LlmError>)
    ensures
        views::res(result) == contents_of(Seq::empty(), 0, *context, wire),
{
    let mut out: Vec<Json> = Vec::new();
    let mut m: usize = 0;
    while m < wire.request.messages.len()
        invariant
            m <= wire.request.messages@.len(),
            contents_of(Seq::empty(), 0, *context, wire) == contents_of(
                out.deep_view(),
                m as int,
                *context,
                wire,
            ),
        decreases wire.request.messages.len() - m,
    {
        let role = wire.request.messages[m].role;
        if role == MessageRole::System {
            return Err(error::invalid("the system prompt belongs in `systemInstruction`"));
        }
        let blocks = wire.message(m);
        let parts = encode_parts(&blocks, context, wire)?;
        if parts.len() > 0 {
            let name = if role == MessageRole::Assistant {
                "model"
            } else {
                "user"
            };
            out.push(json::object2("role", json::string(name), "parts", Json::Array(parts)));
        }
        m = m + 1;
    }
    Ok(out)
}

/// The system prompt as parts.
pub open spec fn system_json(system: Seq<SystemBlock>) -> JsonView {
    json::obj1(
        "parts"@,
        JsonView::Array(
            Seq::new(
                system.len(),
                |i: int| json::obj1("text"@, JsonView::Str(system[i].text@)),
            ),
        ),
    )
}

fn encode_system(system: &Vec<SystemBlock>) -> (json: Json)
    ensures
        json@ == system_json(system@),
{
    let mut parts: Vec<Json> = Vec::new();
    let mut i: usize = 0;
    while i < system.len()
        invariant
            i <= system.len(),
            parts@.len() == i,
            forall|k: int|
                0 <= k < i ==> (#[trigger] parts@[k])@ == json::obj1(
                    "text"@,
                    JsonView::Str(system@[k].text@),
                ),
        decreases system.len() - i,
    {
        parts.push(json::object1("text", json::string(&system[i].text)));
        i = i + 1;
    }
    assert(parts.deep_view() =~= Seq::new(
        system@.len(),
        |i: int| json::obj1("text"@, JsonView::Str(system@[i].text@)),
    ));
    json::object1("parts", Json::Array(parts))
}

/// A tool as this wire declares it.
pub open spec fn tool_json(tool: ToolSpec) -> JsonView {
    json::obj3(
        "name"@,
        JsonView::Str(tool.name@),
        "description"@,
        JsonView::Str(tool.description@),
        "parameters"@,
        tool.input_schema@,
    )
}

/// The tools: one group of declarations.
pub open spec fn tools_json(tools: Seq<ToolSpec>) -> JsonView {
    JsonView::Array(
        seq![
            json::obj1(
                "functionDeclarations"@,
                JsonView::Array(Seq::new(tools.len(), |i: int| tool_json(tools[i]))),
            ),
        ],
    )
}

fn encode_tools(tools: &Vec<ToolSpec>) -> (json: Json)
    ensures
        json@ == tools_json(tools@),
{
    let mut items: Vec<Json> = Vec::new();
    let mut i: usize = 0;
    while i < tools.len()
        invariant
            i <= tools.len(),
            items@.len() == i,
            forall|k: int| 0 <= k < i ==> (#[trigger] items@[k])@ == tool_json(tools@[k]),
        decreases tools.len() - i,
    {
        items.push(
            json::object3(
                "name",
                json::string(&tools[i].name),
                "description",
                json::string(&tools[i].description),
                "parameters",
                tools[i].input_schema.dup(),
            ),
        );
        i = i + 1;
    }
    assert(items.deep_view() =~= Seq::new(tools@.len(), |i: int| tool_json(tools@[i])));
    json::array1(json::object1("functionDeclarations", Json::Array(items)))
}

pub open spec fn mode_json(mode: Seq<char>) -> JsonView {
    json::obj1("functionCallingConfig"@, json::obj1("mode"@, JsonView::Str(mode)))
}

/// The caller's tool selection.
pub open spec fn choice_json(choice: ToolChoice) -> JsonView {
    match choice {
        ToolChoice::Auto => mode_json("AUTO"@),
        ToolChoice::Any => mode_json("ANY"@),
        ToolChoice::Forbidden => mode_json("NONE"@),
        ToolChoice::Tool { name } => json::obj1(
            "functionCallingConfig"@,
            json::obj2(
                "mode"@,
                JsonView::Str("ANY"@),
                "allowedFunctionNames"@,
                JsonView::Array(seq![JsonView::Str(name@)]),
            ),
        ),
    }
}

fn mode_of(mode: &str) -> (json: Json)
    ensures
        json@ == mode_json(mode@),
{
    json::object1("functionCallingConfig", json::object1("mode", json::string(mode)))
}

fn encode_tool_choice(choice: &ToolChoice) -> (json: Json)
    ensures
        json@ == choice_json(*choice),
{
    match choice {
        ToolChoice::Auto => mode_of("AUTO"),
        ToolChoice::Any => mode_of("ANY"),
        ToolChoice::Forbidden => mode_of("NONE"),
        ToolChoice::Tool { name } => json::object1(
            "functionCallingConfig",
            json::object2(
                "mode",
                json::string("ANY"),
                "allowedFunctionNames",
                json::array1(json::string(name)),
            ),
        ),
    }
}

/// The limits of the request.
pub open spec fn generation_of(req: CompletionRequest) -> Entries {
    let limited = match req.max_tokens {
        Some(max) => json::put(Seq::empty(), "maxOutputTokens"@, json::uint_view(max as u64)),
        None => Seq::empty(),
    };
    let warm = match req.temperature {
        Some(t) => json::put(limited, "temperature"@, JsonView::Number(t@)),
        None => limited,
    };
    if req.stop_sequences@.len() == 0 {
        warm
    } else {
        json::put(warm, "stopSequences"@, json::text_array(req.stop_sequences.deep_view()))
    }
}

fn generation(req: &CompletionRequest) -> (entries: Vec<(String, Json)>)
    ensures
        entries.deep_view() == generation_of(*req),
{
    let mut entries = json::fields();
    if let Some(max) = req.max_tokens {
        json::set(&mut entries, "maxOutputTokens", json::uint(max as u64));
    }
    if let Some(t) = &req.temperature {
        json::set(&mut entries, "temperature", Json::Number(t.dup()));
    }
    if req.stop_sequences.len() > 0 {
        json::set(&mut entries, "stopSequences", json::strings(&req.stop_sequences));
    }
    entries
}

/// The body that the request itself makes. The contents take their place at the
/// end.
pub open spec fn body_of(req: CompletionRequest) -> Entries {
    let begun = json::put(Seq::empty(), "contents"@, JsonView::Null);
    let instructed = if req.system@.len() == 0 {
        begun
    } else {
        json::put(begun, "systemInstruction"@, system_json(req.system@))
    };
    let tooled = if req.tools@.len() == 0 {
        instructed
    } else {
        json::put(
            json::put(instructed, "tools"@, tools_json(req.tools@)),
            "toolConfig"@,
            choice_json(req.tool_choice),
        )
    };
    if generation_of(req).len() == 0 {
        tooled
    } else {
        json::put(tooled, "generationConfig"@, JsonView::Object(generation_of(req)))
    }
}

fn build_body(req: &CompletionRequest) -> (body: Vec<(String, Json)>)
    ensures
        body.deep_view() == body_of(*req),
{
    let mut body = json::fields();
    json::set(&mut body, "contents", Json::Null);
    if req.system.len() > 0 {
        json::set(&mut body, "systemInstruction", encode_system(&req.system));
    }
    if req.tools.len() > 0 {
        json::set(&mut body, "tools", encode_tools(&req.tools));
        json::set(&mut body, "toolConfig", encode_tool_choice(&req.tool_choice));
    }
    let generation = generation(req);
    if generation.len() > 0 {
        json::set(&mut body, "generationConfig", Json::Object(generation));
    }
    body
}

/// The request to a URL. The body is the same wherever this wire is hosted, and
/// holds no stream flag: the URL says whether to stream.
pub open spec fn encoded_to(wire: EncodeRequest, url: Seq<char>, context: CodecContext) -> Result<
    WireRequestView,
    LlmErrorView,
> {
    let req = *wire.request;
    let profile = context.profile;
    let continuation = codecs::continuation_error(req, ProtocolFamily::GeminiGenerateContent);
    if continuation is Some {
        Err(continuation->0)
    } else if req.file_search is Some {
        Err(
            error::unsupported_view(
                "hosted file search is supported only on Qwen Responses profiles"@,
            ),
        )
    } else {
        match contents_of(Seq::empty(), 0, context, wire) {
            Err(error) => Err(error),
            Ok(contents) => match web_search::with_search(req, profile, body_of(req)) {
                Err(error) => Err(error),
                Ok(body) => match inference::applied(
                    req,
                    context,
                    body,
                    chat::encode::json_headers(),
                ) {
                    Err(error) => Err(error),
                    Ok((body, headers)) => Ok(
                        WireRequestView {
                            url,
                            headers: extras::with_extra_headers(profile, headers).0,
                            // Inference has checked both spellings of the tier and
                            // kept the canonical one.
                            body: JsonView::Object(
                                json::put(
                                    json::without(
                                        extras::with_extra_body(profile, body).0,
                                        "service_tier"@,
                                    ),
                                    "contents"@,
                                    JsonView::Array(contents),
                                ),
                            ),
                        },
                    ),
                },
            },
        }
    }
}

pub fn request_to(wire: EncodeRequest, url: &str, context: &CodecContext) -> (result: Result<
    WireRequest,
    LlmError,
>)
    ensures
        views::res(result) == encoded_to(wire, url@, *context),
{
    let req = wire.request;
    let profile = &context.profile;
    codecs::reject_responses_continuation(req, ProtocolFamily::GeminiGenerateContent)?;
    if req.file_search.is_some() {
        return Err(
            error::unsupported("hosted file search is supported only on Qwen Responses profiles"),
        );
    }
    let contents = contents(context, wire)?;
    let body = web_search::apply(req, profile, build_body(req))?;
    let draft = inference::apply(
        req,
        context,
        Draft { body, headers: chat::encode::content_type_header() },
    )?;
    let mut body = draft.body;
    let mut headers = draft.headers;
    extras::merge_body(profile, &mut body);
    let _ = json::unset(&mut body, "service_tier");
    extras::merge_headers(profile, &mut headers);
    json::set(&mut body, "contents", Json::Array(contents));
    Ok(WireRequest { url: url.to_owned(), headers, body: Json::Object(body) })
}

/// The request of this wire.
pub open spec fn encoded(wire: EncodeRequest, context: CodecContext) -> Result<
    WireRequestView,
    LlmErrorView,
> {
    match policy::direct_files_error(
        input::all_blocks(wire),
        0,
        context.profile,
        context.request_model@,
        context.file_account_scope.deep_view(),
    ) {
        Some(error) => Err(error),
        None => encoded_to(
            wire,
            content_url(context.profile.base_url@, context.request_model@, context.stream),
            context,
        ),
    }
}

pub fn request(wire: EncodeRequest, context: &CodecContext) -> (result: Result<
    WireRequest,
    LlmError,
>)
    ensures
        views::res(result) == encoded(wire, *context),
{
    let profile = &context.profile;
    let blocks = wire.blocks();
    policy::validate_direct_provider_file_inputs(
        &blocks,
        profile,
        &context.request_model,
        &context.file_account_scope,
    )?;
    let url = generate_content_url(&profile.base_url, &context.request_model, context.stream);
    request_to(wire, &url, context)
}

/// A result echoes its call: it names the function, and carries the provider's id
/// exactly where the call had one. The local id is not sent.
pub proof fn a_result_echoes_its_call(
    block: ContentBlock,
    context: CodecContext,
    wire: EncodeRequest,
)
    requires
        block is ToolResult,
        call_in(wire.request.messages@, block->tool_use_id@, 0) is Some,
    ensures
        ({
            let (name, provider_id) = call_in(
                wire.request.messages@,
                block->tool_use_id@,
                0,
            )->0;
            &&& part_of(block, context, wire) is Ok
            &&& part_of(block, context, wire)->Ok_0 is Some
            &&& json::member2(
                part_of(block, context, wire)->Ok_0->0,
                "functionResponse"@,
                "name"@,
            ) == Some(JsonView::Str(name))
            &&& json::member2(
                part_of(block, context, wire)->Ok_0->0,
                "functionResponse"@,
                "id"@,
            ) == (match provider_id {
                Some(id) => Some(JsonView::Str(id)),
                None => None,
            })
        }),
{
    let (name, provider_id) = call_in(wire.request.messages@, block->tool_use_id@, 0)->0;
    let named = json::put(Seq::empty(), "name"@, JsonView::Str(name));
    let result = json::obj1("result"@, JsonView::Str(block->ToolResult_content@));
    let answered = json::put(named, "response"@, result);
    reveal_strlit("name");
    reveal_strlit("response");
    reveal_strlit("id");
    assert("name"@.len() == 4 && "response"@.len() == 8 && "id"@.len() == 2);
    assert(json::entry(Seq::<(Seq<char>, JsonView)>::empty(), "id"@) is None);
    json::put_then_entry(Seq::empty(), "name"@, JsonView::Str(name), "id"@);
    json::put_then_entry(Seq::empty(), "name"@, JsonView::Str(name), "name"@);
    json::put_then_entry(named, "response"@, result, "name"@);
    json::put_then_entry(named, "response"@, result, "id"@);
    match provider_id {
        Some(id) => {
            json::put_then_entry(answered, "id"@, JsonView::Str(id), "id"@);
            json::put_then_entry(answered, "id"@, JsonView::Str(id), "name"@);
        },
        None => {},
    }
    json::put_then_entry(
        Seq::empty(),
        "functionResponse"@,
        identified(answered, provider_id),
        "functionResponse"@,
    );
}

} // verus!
