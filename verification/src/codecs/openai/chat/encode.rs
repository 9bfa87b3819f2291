//! Request encoding. What an endpoint needs beyond the wire is said by the
//! profile's `extra`, never by a provider name alone.

use crate::codecs::extras;
use crate::codecs::inference::{self, Draft};
use crate::codecs::input;
use crate::codecs::openai::chat::reasoning;
use crate::codecs::web_search;
use crate::codecs::wire::{self, WireRequest, WireRequestView};
use crate::codecs::{self, CodecContext, EncodeRequest};
use crate::encoding;
use crate::files::policy;
use crate::json::{self, Entries, Json, JsonView};
use crate::protocol::error;
use crate::protocol::profile;
use crate::protocol::{
    AttachmentRef, CompletionRequest, ContentBlock, DocumentSource, ImageSource, LlmError,
    LlmErrorView, MessageRole, ProtocolFamily, ProviderFileSource, ProviderFileSourceView,
    ProviderProfile, SystemBlock, ToolChoice, ToolSpec,
};
use crate::text;
use crate::views;
use vstd::prelude::*;

verus! {

broadcast use {crate::views::group_views, crate::json::group_json};

pub const QWEN_LONG_MAX_FILE_REFERENCES: usize = 100;

/// Whether the endpoint takes files only as PDF.
pub open spec fn pdf_only_of(profile: ProviderProfile) -> bool {
    profile::flag_of(profile, "chat_pdf_only"@) || encoding::url_host(profile.base_url@) == Some(
        "api.openai.com"@,
    )
}

fn pdf_only(profile: &ProviderProfile) -> (result: bool)
    ensures
        result == pdf_only_of(*profile),
{
    if profile::flag(profile, "chat_pdf_only") {
        return true;
    }
    match encoding::host_of(&profile.base_url) {
        Some(host) => text::same(&host, "api.openai.com"),
        None => false,
    }
}

/// What encoding a message depends on, beside the message.
#[derive(Debug, Clone, Copy, PartialEq, Eq, Structural)]
pub struct Quirks {
    pub keep_reasoning: bool,
    pub pdf_only: bool,
    pub qwen_long: bool,
}

/// A message under construction: the wire messages that are done, and what the
/// next one will hold.
pub struct ChatDraft {
    pub out: Vec<Json>,
    pub parts: Vec<Json>,
    pub reasoning: String,
    pub calls: Vec<Json>,
    pub native: Option<Vec<(String, Json)>>,
}

pub struct ChatDraftView {
    pub out: Seq<JsonView>,
    pub parts: Seq<JsonView>,
    pub reasoning: Seq<char>,
    pub calls: Seq<JsonView>,
    pub native: Option<Entries>,
}

impl DeepView for ChatDraft {
    type V = ChatDraftView;

    open spec fn deep_view(&self) -> ChatDraftView {
        ChatDraftView {
            out: self.out.deep_view(),
            parts: self.parts.deep_view(),
            reasoning: self.reasoning@,
            calls: self.calls.deep_view(),
            native: self.native.deep_view(),
        }
    }
}

/// A text part.
pub open spec fn text_part(text: Seq<char>) -> JsonView {
    json::obj2("type"@, JsonView::Str("text"@), "text"@, JsonView::Str(text))
}

/// An image part.
pub open spec fn image_part(url: Seq<char>) -> JsonView {
    json::obj2(
        "type"@,
        JsonView::Str("image_url"@),
        "image_url"@,
        json::obj1("url"@, JsonView::Str(url)),
    )
}

fn image_json(url: &str) -> (json: Json)
    ensures
        json@ == image_part(url@),
{
    json::object2(
        "type",
        json::string("image_url"),
        "image_url",
        json::object1("url", json::string(url)),
    )
}

/// A file part.
pub open spec fn file_part(key: Seq<char>, value: Seq<char>) -> JsonView {
    json::obj2(
        "type"@,
        JsonView::Str("file"@),
        "file"@,
        json::obj1(key, JsonView::Str(value)),
    )
}

fn file_json(key: &str, value: &str) -> (json: Json)
    ensures
        json@ == file_part(key@, value@),
{
    json::object2(
        "type",
        json::string("file"),
        "file",
        json::object1(key, json::string(value)),
    )
}

pub open spec fn pdf_error() -> LlmErrorView {
    error::unsupported_view("OpenAI Chat Completions accepts only PDF file input"@)
}

fn pdf_refusal() -> (error: LlmError)
    ensures
        error@ == pdf_error(),
{
    error::unsupported("OpenAI Chat Completions accepts only PDF file input")
}

pub open spec fn video_error() -> LlmErrorView {
    error::unsupported_view("Chat Completions does not support video content blocks"@)
}

fn video_refusal() -> (error: LlmError)
    ensures
        error@ == video_error(),
{
    error::unsupported("Chat Completions does not support video content blocks")
}

pub open spec fn image_file_error() -> LlmErrorView {
    error::unsupported_view("Chat Completions image input does not support provider file ids"@)
}

fn image_file_refusal() -> (error: LlmError)
    ensures
        error@ == image_file_error(),
{
    error::unsupported("Chat Completions image input does not support provider file ids")
}

/// The part of an attachment whose bytes are at hand.
pub open spec fn media_part(
    block: ContentBlock,
    attachment: AttachmentRef,
    bytes: Seq<u8>,
    pdf_only: bool,
) -> Result<JsonView, LlmErrorView> {
    let uri = wire::data_uri(attachment.media_type@, encoding::base64_encoded(bytes));
    match block {
        ContentBlock::Image { .. } => Ok(image_part(uri)),
        ContentBlock::Document { .. } => if pdf_only && attachment.media_type@
            != "application/pdf"@ {
            Err(pdf_error())
        } else {
            Ok(file_part("file_data"@, uri))
        },
        _ => Err(video_error()),
    }
}

fn inline(block: &ContentBlock, attachment: &AttachmentRef, bytes: &[u8], pdf_only: bool) -> (result:
    Result<Json, LlmError>)
    ensures
        views::res(result) == media_part(*block, *attachment, bytes@, pdf_only),
{
    match block {
        ContentBlock::Image { .. } => Ok(
            image_json(&wire::bytes_url(&attachment.media_type, bytes)),
        ),
        ContentBlock::Document { .. } => {
            if pdf_only && !text::same(&attachment.media_type, "application/pdf") {
                return Err(pdf_refusal());
            }
            Ok(file_json("file_data", &wire::bytes_url(&attachment.media_type, bytes)))
        },
        _ => Err(video_refusal()),
    }
}

/// Whether a file is one that Qwen-Long reads by its id.
pub open spec fn extracted(file: ProviderFileSourceView) -> bool {
    file.protocol == ProtocolFamily::OpenAiChat && file.purpose == Some("file-extract"@)
}

fn is_extracted(file: &ProviderFileSource) -> (result: bool)
    ensures
        result == extracted(file@),
{
    let purpose = match &file.purpose {
        Some(purpose) => text::same(purpose, "file-extract"),
        None => false,
    };
    file.protocol == ProtocolFamily::OpenAiChat && purpose
}

/// What an image becomes: a part, nothing, or an error.
pub open spec fn image_content(
    source: ImageSource,
    quirks: Quirks,
    context: CodecContext,
) -> Result<Option<JsonView>, LlmErrorView> {
    match source {
        ImageSource::ProviderFile { file } => match policy::file_error(
            file@,
            context.profile,
            context.file_account_scope.deep_view(),
        ) {
            Some(error) => Err(error),
            None => if quirks.qwen_long && extracted(file@) {
                Ok(None)
            } else {
                Err(image_file_error())
            },
        },
        ImageSource::Attachment { .. } => Err(codecs::unresolved_attachment()),
        ImageSource::Url { url } => Ok(Some(image_part(url@))),
        ImageSource::Base64 { media_type, data } => Ok(
            Some(image_part(wire::data_uri(media_type@, data@))),
        ),
    }
}

fn encode_image(source: &ImageSource, quirks: Quirks, context: &CodecContext) -> (result: Result<
    Option<Json>,
    LlmError,
>)
    ensures
        views::res(result) == image_content(*source, quirks, *context),
{
    match source {
        ImageSource::ProviderFile { file } => {
            policy::validate_provider_file(file, &context.profile, &context.file_account_scope)?;
            if quirks.qwen_long && is_extracted(file) {
                return Ok(None);
            }
            Err(image_file_refusal())
        },
        ImageSource::Attachment { .. } => Err(codecs::unresolved_attachment_error()),
        ImageSource::Url { url } => Ok(Some(image_json(url))),
        ImageSource::Base64 { media_type, data } => Ok(
            Some(image_json(&wire::data_url(media_type, data))),
        ),
    }
}

/// The data URI of a document that stands in the request. This wire expects
/// inline data, so a hosted URL cannot be represented.
pub open spec fn document_data(source: DocumentSource, pdf_only: bool) -> Result<
    Seq<char>,
    LlmErrorView,
> {
    match source {
        DocumentSource::Base64 { media_type, data } => if pdf_only && media_type@
            != "application/pdf"@ {
            Err(pdf_error())
        } else {
            Ok(wire::data_uri(media_type@, data@))
        },
        DocumentSource::Text { media_type, data } => if pdf_only {
            Err(pdf_error())
        } else {
            Ok(
                wire::data_uri(
                    media_type@,
                    encoding::base64_encoded(vstd::utf8::encode_utf8(data@)),
                ),
            )
        },
        DocumentSource::Url { .. } => Err(
            error::unsupported_view(
                "Chat Completions does not support document URLs; provide inline document data"@,
            ),
        ),
        DocumentSource::Attachment { .. } => Err(codecs::unresolved_attachment()),
        DocumentSource::ProviderFile { .. } => Err(
            error::unsupported_view(
                "Chat Completions provider file references must be prepared as PDF input"@,
            ),
        ),
    }
}

/// The base64 text of bytes.
pub fn base64_of(bytes: &[u8]) -> (result: String)
    ensures
        result@ == encoding::base64_encoded(bytes@),
{
    encoding::base64_encode(bytes)
}

fn document_url(source: &DocumentSource, pdf_only: bool) -> (result: Result<String, LlmError>)
    ensures
        views::res(result) == document_data(*source, pdf_only),
{
    match source {
        DocumentSource::Base64 { media_type, data } => {
            if pdf_only && !text::same(media_type, "application/pdf") {
                return Err(pdf_refusal());
            }
            Ok(wire::data_url(media_type, data))
        },
        DocumentSource::Text { media_type, data } => {
            if pdf_only {
                return Err(pdf_refusal());
            }
            Ok(wire::data_url(media_type, &base64_of(data.as_str().as_bytes())))
        },
        DocumentSource::Url { .. } => Err(
            error::unsupported(
                "Chat Completions does not support document URLs; provide inline document data",
            ),
        ),
        DocumentSource::Attachment { .. } => Err(codecs::unresolved_attachment_error()),
        DocumentSource::ProviderFile { .. } => Err(
            error::unsupported(
                "Chat Completions provider file references must be prepared as PDF input",
            ),
        ),
    }
}

/// What a document becomes: a part, nothing, or an error.
pub open spec fn document_content(
    source: DocumentSource,
    quirks: Quirks,
    context: CodecContext,
) -> Result<Option<JsonView>, LlmErrorView> {
    match source {
        DocumentSource::ProviderFile { file } => match policy::file_error(
            file@,
            context.profile,
            context.file_account_scope.deep_view(),
        ) {
            Some(error) => Err(error),
            None => if file.protocol != ProtocolFamily::OpenAiChat {
                Err(codecs::wrong_protocol())
            } else if quirks.qwen_long && context.profile.provider_id@ == "qwen"@ && extracted(
                file@,
            ) {
                Ok(None)
            } else if !quirks.pdf_only || file@.media_type != Some("application/pdf"@) {
                Err(
                    error::unsupported_view(
                        "Chat Completions provider file references are supported only for PDF input"@,
                    ),
                )
            } else {
                Ok(Some(file_part("file_id"@, file.file_id@)))
            },
        },
        _ => match document_data(source, quirks.pdf_only) {
            Err(error) => Err(error),
            Ok(data) => Ok(Some(file_part("file_data"@, data))),
        },
    }
}

fn encode_document(source: &DocumentSource, quirks: Quirks, context: &CodecContext) -> (result: Result<
    Option<Json>,
    LlmError,
>)
    ensures
        views::res(result) == document_content(*source, quirks, *context),
{
    if let DocumentSource::ProviderFile { file } = source {
        policy::validate_provider_file(file, &context.profile, &context.file_account_scope)?;
        if file.protocol != ProtocolFamily::OpenAiChat {
            return Err(codecs::provider_file_protocol_error());
        }
        if quirks.qwen_long && text::same(&context.profile.provider_id, "qwen") && is_extracted(
            file,
        ) {
            return Ok(None);
        }
        let pdf = match &file.media_type {
            Some(media_type) => text::same(media_type, "application/pdf"),
            None => false,
        };
        if !quirks.pdf_only || !pdf {
            return Err(
                error::unsupported(
                    "Chat Completions provider file references are supported only for PDF input",
                ),
            );
        }
        return Ok(Some(file_json("file_id", &file.file_id)));
    }
    let data = document_url(source, quirks.pdf_only)?;
    Ok(Some(file_json("file_data", &data)))
}

/// Whether every part is text.
pub open spec fn all_text(parts: Seq<JsonView>) -> bool {
    forall|i: int|
        0 <= i < parts.len() ==> json::str_at(#[trigger] parts[i], "type"@) == Some("text"@)
}

/// The texts of the parts, from the `i`th on.
pub open spec fn part_texts(parts: Seq<JsonView>, i: int, before: Seq<Seq<char>>) -> Seq<Seq<char>>
    decreases parts.len() - i,
{
    if i < 0 || i >= parts.len() {
        before
    } else {
        match json::str_at(parts[i], "text"@) {
            Some(text) => part_texts(parts, i + 1, before.push(text)),
            None => part_texts(parts, i + 1, before),
        }
    }
}

/// The content of a message: a text where every part is one.
pub open spec fn content_of(parts: Seq<JsonView>) -> JsonView {
    if all_text(parts) {
        JsonView::Str(text::joined(part_texts(parts, 0, Seq::empty()), "\n"@))
    } else {
        JsonView::Array(parts)
    }
}

fn content(parts: &Vec<Json>) -> (json: Json)
    ensures
        json@ == content_of(parts.deep_view()),
{
    let mut texts: Vec<String> = Vec::new();
    let mut i: usize = 0;
    while i < parts.len()
        invariant
            i <= parts.len(),
            forall|k: int|
                0 <= k < i ==> json::str_at(#[trigger] parts.deep_view()[k], "type"@) == Some(
                    "text"@,
                ),
            part_texts(parts.deep_view(), 0, Seq::empty()) == part_texts(
                parts.deep_view(),
                i as int,
                texts.deep_view(),
            ),
        decreases parts.len() - i,
    {
        assert(parts.deep_view()[i as int] == parts@[i as int]@);
        let is_text = match parts[i].str_at("type") {
            Some(kind) => text::same(kind, "text"),
            None => false,
        };
        if !is_text {
            return Json::Array(json::dup_items(parts));
        }
        if let Some(text) = parts[i].str_at("text") {
            texts.push(text.to_owned());
        }
        i = i + 1;
    }
    Json::Str(text::join(&texts, "\n"))
}

/// The wire message that what is pending makes, in the role.
pub open spec fn pending_message(draft: ChatDraftView, role: Seq<char>) -> Entries {
    let none = Seq::<(Seq<char>, JsonView)>::empty();
    let spoken = if draft.calls.len() == 0 {
        role
    } else {
        "assistant"@
    };
    let plain = json::put(
        json::put(none, "role"@, JsonView::Str(spoken)),
        "content"@,
        if spoken == "assistant"@ && draft.parts.len() == 0 {
            JsonView::Null
        } else {
            content_of(draft.parts)
        },
    );
    let reasoned = if spoken != "assistant"@ {
        plain
    } else {
        match draft.native {
            Some(native) => json::put_all(plain, native, 0),
            None => if draft.reasoning.len() > 0 {
                json::put(plain, "reasoning_content"@, JsonView::Str(draft.reasoning))
            } else {
                plain
            },
        }
    };
    if draft.calls.len() > 0 {
        json::put(reasoned, "tool_calls"@, JsonView::Array(draft.calls))
    } else {
        reasoned
    }
}

/// The draft with what is pending made into a message.
pub open spec fn flushed(draft: ChatDraftView, role: Seq<char>) -> ChatDraftView {
    if draft.parts.len() == 0 && draft.reasoning.len() == 0 && draft.calls.len() == 0
        && draft.native is None {
        draft
    } else {
        ChatDraftView {
            out: draft.out.push(JsonView::Object(pending_message(draft, role))),
            parts: Seq::empty(),
            reasoning: Seq::empty(),
            calls: Seq::empty(),
            native: if draft.calls.len() > 0 || role == "assistant"@ {
                None
            } else {
                draft.native
            },
        }
    }
}

fn flush(draft: ChatDraft, role: &str) -> (result: ChatDraft)
    ensures
        result.deep_view() == flushed(draft.deep_view(), role@),
{
    let mut draft = draft;
    if draft.parts.len() == 0 && text::is_empty(&draft.reasoning) && draft.calls.len() == 0
        && draft.native.is_none() {
        return draft;
    }
    let spoken = if draft.calls.len() == 0 {
        role
    } else {
        "assistant"
    };
    let assistant = text::same(spoken, "assistant");
    let mut message = json::fields();
    json::set(&mut message, "role", json::string(spoken));
    let content = if assistant && draft.parts.len() == 0 {
        Json::Null
    } else {
        content(&draft.parts)
    };
    json::set(&mut message, "content", content);
    let mut native = draft.native;
    if assistant {
        match native {
            Some(fields) => {
                json::set_all(&mut message, &fields);
                native = None;
            },
            None => {
                if !text::is_empty(&draft.reasoning) {
                    json::set(&mut message, "reasoning_content", Json::Str(draft.reasoning));
                }
                native = None;
            },
        }
    }
    if draft.calls.len() > 0 {
        json::set(&mut message, "tool_calls", Json::Array(draft.calls));
    }
    let mut out = draft.out;
    out.push(Json::Object(message));
    ChatDraft {
        out,
        parts: Vec::new(),
        reasoning: String::new(),
        calls: Vec::new(),
        native,
    }
}

/// A tool call.
pub open spec fn call_json(id: Seq<char>, name: Seq<char>, input: JsonView) -> JsonView {
    json::obj3(
        "id"@,
        JsonView::Str(id),
        "type"@,
        JsonView::Str("function"@),
        "function"@,
        json::obj2(
            "name"@,
            JsonView::Str(name),
            "arguments"@,
            JsonView::Str(json::text_of(input)),
        ),
    )
}

/// A tool's result, as a message of its own.
pub open spec fn result_json(id: Seq<char>, content: Seq<char>) -> JsonView {
    json::obj3(
        "role"@,
        JsonView::Str("tool"@),
        "tool_call_id"@,
        JsonView::Str(id),
        "content"@,
        JsonView::Str(content),
    )
}

/// The draft with a part that may be there.
pub open spec fn with_part(draft: ChatDraftView, part: Option<JsonView>) -> ChatDraftView {
    match part {
        Some(part) => ChatDraftView { parts: draft.parts.push(part), ..draft },
        None => draft,
    }
}

/// The draft once a block of the message is in it.
pub open spec fn with_block(
    draft: ChatDraftView,
    block: ContentBlock,
    role: MessageRole,
    quirks: Quirks,
    context: CodecContext,
    wire: EncodeRequest,
) -> Result<ChatDraftView, LlmErrorView> {
    match input::media_for(wire, block) {
        Err(error) => Err(error),
        Ok(Some(media)) => match media_part(
            block,
            *media.attachment,
            media.bytes@,
            pdf_only_of(context.profile),
        ) {
            Err(error) => Err(error),
            Ok(part) => Ok(with_part(draft, Some(part))),
        },
        Ok(None) => match block {
            // Read before the blocks: the envelope describes the whole message,
            // tool calls in front of it included.
            ContentBlock::ProviderContent { .. } => Ok(draft),
            ContentBlock::Text { text, .. } => Ok(with_part(draft, Some(text_part(text@)))),
            ContentBlock::Thinking { text, .. } => Ok(
                if quirks.keep_reasoning && draft.native is None && role == MessageRole::Assistant {
                    ChatDraftView { reasoning: draft.reasoning + text@, ..draft }
                } else {
                    draft
                },
            ),
            ContentBlock::Image { source } => match image_content(source, quirks, context) {
                Err(error) => Err(error),
                Ok(part) => Ok(with_part(draft, part)),
            },
            ContentBlock::Document { source, .. } => match document_content(
                source,
                quirks,
                context,
            ) {
                Err(error) => Err(error),
                Ok(part) => Ok(with_part(draft, part)),
            },
            // This wire has no slot for signed reasoning.
            ContentBlock::RedactedThinking { .. } => Ok(draft),
            ContentBlock::Video { .. } => Err(video_error()),
            ContentBlock::ToolUse { id, name, input, .. } => Ok(
                ChatDraftView { calls: draft.calls.push(call_json(id@, name@, input@)), ..draft },
            ),
            ContentBlock::ToolResult { tool_use_id, content, .. } => {
                let done = flushed(draft, role_name(role));
                Ok(
                    ChatDraftView {
                        out: done.out.push(result_json(tool_use_id@, content@)),
                        ..done
                    },
                )
            },
        },
    }
}

pub open spec fn role_name(role: MessageRole) -> Seq<char> {
    match role {
        MessageRole::User => "user"@,
        MessageRole::Assistant => "assistant"@,
        MessageRole::System => "system"@,
    }
}

pub fn name_of(role: MessageRole) -> (result: &'static str)
    ensures
        result@ == role_name(role),
{
    match role {
        MessageRole::User => "user",
        MessageRole::Assistant => "assistant",
        MessageRole::System => "system",
    }
}

fn push_part(draft: ChatDraft, part: Option<Json>) -> (result: ChatDraft)
    ensures
        result.deep_view() == with_part(draft.deep_view(), part.deep_view()),
{
    let mut draft = draft;
    if let Some(part) = part {
        draft.parts.push(part);
    }
    draft
}

fn encode_block(
    draft: ChatDraft,
    block: &ContentBlock,
    role: MessageRole,
    quirks: Quirks,
    context: &CodecContext,
    wire: EncodeRequest,
) -> (result: Result<ChatDraft, LlmError>)
    ensures
        views::res(result) == with_block(
            draft.deep_view(),
            *block,
            role,
            quirks,
            *context,
            wire,
        ),
{
    let media = wire.inline_media(block)?;
    if let Some(media) = media {
        let part = inline(block, media.attachment, media.bytes, pdf_only(&context.profile))?;
        return Ok(push_part(draft, Some(part)));
    }
    match block {
        ContentBlock::ProviderContent { .. } => Ok(draft),
        ContentBlock::Text { text, .. } => {
            let part = json::object2("type", json::string("text"), "text", json::string(text));
            Ok(push_part(draft, Some(part)))
        },
        ContentBlock::Thinking { text, .. } => {
            let mut draft = draft;
            if quirks.keep_reasoning && draft.native.is_none() && role == MessageRole::Assistant {
                draft.reasoning.append(text);
            }
            Ok(draft)
        },
        ContentBlock::Image { source } => {
            let part = encode_image(source, quirks, context)?;
            Ok(push_part(draft, part))
        },
        ContentBlock::Document { source, .. } => {
            let part = encode_document(source, quirks, context)?;
            Ok(push_part(draft, part))
        },
        ContentBlock::RedactedThinking { .. } => Ok(draft),
        ContentBlock::Video { .. } => Err(video_refusal()),
        ContentBlock::ToolUse { id, name, input, .. } => {
            let mut draft = draft;
            let call = json::object3(
                "id",
                json::string(id),
                "type",
                json::string("function"),
                "function",
                json::object2(
                    "name",
                    json::string(name),
                    "arguments",
                    Json::Str(json::to_text(input)),
                ),
            );
            draft.calls.push(call);
            Ok(draft)
        },
        ContentBlock::ToolResult { tool_use_id, content, .. } => {
            let mut done = flush(draft, name_of(role));
            done.out.push(
                json::object3(
                    "role",
                    json::string("tool"),
                    "tool_call_id",
                    json::string(tool_use_id),
                    "content",
                    json::string(content),
                ),
            );
            Ok(done)
        },
    }
}

/// The reasoning metadata among the blocks from the `i`th on, after what was
/// found before.
pub open spec fn native_of(
    blocks: Seq<ContentBlock>,
    i: int,
    found: Option<Entries>,
    role: MessageRole,
) -> Result<Option<Entries>, LlmErrorView>
    decreases blocks.len() - i,
{
    if i < 0 || i >= blocks.len() {
        Ok(found)
    } else {
        match blocks[i] {
            ContentBlock::ProviderContent { protocol, value } => if role
                != MessageRole::Assistant {
                Err(
                    error::invalid_view(
                        "Chat reasoning metadata belongs to an assistant message"@,
                    ),
                )
            } else if found is Some {
                Err(
                    error::invalid_view(
                        "an assistant message may contain only one Chat reasoning envelope"@,
                    ),
                )
            } else {
                match reasoning::replayed(protocol, value@) {
                    Err(error) => Err(error),
                    Ok(native) => native_of(blocks, i + 1, Some(native), role),
                }
            },
            _ => native_of(blocks, i + 1, found, role),
        }
    }
}

fn find_native(blocks: &Vec<&ContentBlock>, role: MessageRole) -> (result: Result<
    Option<Vec<(String, Json)>>,
    LlmError,
>)
    ensures
        views::res(result) == native_of(views::plain(blocks@), 0, None, role),
{
    let mut found: Option<Vec<(String, Json)>> = None;
    let mut i: usize = 0;
    while i < blocks.len()
        invariant
            i <= blocks.len(),
            native_of(views::plain(blocks@), 0, None, role) == native_of(
                views::plain(blocks@),
                i as int,
                found.deep_view(),
                role,
            ),
        decreases blocks.len() - i,
    {
        if let ContentBlock::ProviderContent { protocol, value } = blocks[i] {
            if role != MessageRole::Assistant {
                return Err(
                    error::invalid("Chat reasoning metadata belongs to an assistant message"),
                );
            }
            if found.is_some() {
                return Err(
                    error::invalid(
                        "an assistant message may contain only one Chat reasoning envelope",
                    ),
                );
            }
            found = Some(reasoning::replay_fields(*protocol, value)?);
        }
        i = i + 1;
    }
    Ok(found)
}

/// The draft once the blocks from the `i`th on are in it.
pub open spec fn with_blocks(
    draft: ChatDraftView,
    blocks: Seq<ContentBlock>,
    i: int,
    role: MessageRole,
    quirks: Quirks,
    context: CodecContext,
    wire: EncodeRequest,
) -> Result<ChatDraftView, LlmErrorView>
    decreases blocks.len() - i,
{
    if i < 0 || i >= blocks.len() {
        Ok(draft)
    } else {
        match with_block(draft, blocks[i], role, quirks, context, wire) {
            Err(error) => Err(error),
            Ok(draft) => with_blocks(draft, blocks, i + 1, role, quirks, context, wire),
        }
    }
}

/// The wire messages of a conversation message. A tool result cannot share a
/// message with text, so what is pending is flushed first and the result becomes
/// a message of its own.
pub open spec fn message_json(
    blocks: Seq<ContentBlock>,
    role: MessageRole,
    quirks: Quirks,
    context: CodecContext,
    wire: EncodeRequest,
) -> Result<Seq<JsonView>, LlmErrorView> {
    match native_of(blocks, 0, None, role) {
        Err(error) => Err(error),
        Ok(native) => {
            let draft = ChatDraftView {
                out: Seq::empty(),
                parts: Seq::empty(),
                reasoning: Seq::empty(),
                calls: Seq::empty(),
                native,
            };
            match with_blocks(draft, blocks, 0, role, quirks, context, wire) {
                Err(error) => Err(error),
                Ok(draft) => Ok(flushed(draft, role_name(role)).out),
            }
        },
    }
}

pub fn encode_message(
    blocks: &Vec<&ContentBlock>,
    role: MessageRole,
    quirks: Quirks,
    context: &CodecContext,
    wire: EncodeRequest,
) -> (result: Result<Vec<Json>, LlmError>)
    ensures
        views::res(result) == message_json(
            views::plain(blocks@),
            role,
            quirks,
            *context,
            wire,
        ),
{
    let native = find_native(blocks, role)?;
    let mut draft = ChatDraft {
        out: Vec::new(),
        parts: Vec::new(),
        reasoning: String::new(),
        calls: Vec::new(),
        native,
    };
    let ghost first = draft.deep_view();
    let ghost whole = message_json(views::plain(blocks@), role, quirks, *context, wire);
    let ghost all = with_blocks(
        first,
        views::plain(blocks@),
        0,
        role,
        quirks,
        *context,
        wire,
    );
    assert(first.reasoning =~= Seq::empty());
    assert(whole == (match all {
        Err(error) => Err(error),
        Ok(draft) => Ok::<Seq<JsonView>, LlmErrorView>(flushed(draft, role_name(role)).out),
    }));
    let mut i: usize = 0;
    while i < blocks.len()
        invariant
            i <= blocks.len(),
            whole == message_json(views::plain(blocks@), role, quirks, *context, wire),
            whole == (match all {
                Err(error) => Err(error),
                Ok(draft) => Ok::<Seq<JsonView>, LlmErrorView>(
                    flushed(draft, role_name(role)).out,
                ),
            }),
            all == with_blocks(
                draft.deep_view(),
                views::plain(blocks@),
                i as int,
                role,
                quirks,
                *context,
                wire,
            ),
        decreases blocks.len() - i,
    {
        draft = encode_block(draft, blocks[i], role, quirks, context, wire)?;
        i = i + 1;
    }
    Ok(flush(draft, name_of(role)).out)
}

/// The request field of the output token limit.
pub open spec fn limit_field(profile: ProviderProfile) -> Result<Seq<char>, LlmErrorView> {
    match json::member(profile.extra@, "max_tokens_field"@) {
        None => Ok("max_tokens"@),
        Some(JsonView::Str(field)) => if field == "max_tokens"@ || field
            == "max_completion_tokens"@ {
            Ok(field)
        } else {
            Err(limit_field_error())
        },
        _ => Err(limit_field_error()),
    }
}

pub open spec fn limit_field_error() -> LlmErrorView {
    error::invalid_view(
        "profile extra.max_tokens_field must be \"max_tokens\" or \"max_completion_tokens\""@,
    )
}

fn max_tokens_field(profile: &ProviderProfile) -> (result: Result<&'static str, LlmError>)
    ensures
        match result {
            Ok(field) => limit_field(*profile) == Ok::<Seq<char>, LlmErrorView>(field@),
            Err(error) => limit_field(*profile) == Err::<Seq<char>, LlmErrorView>(error@),
        },
{
    match profile.extra.get("max_tokens_field") {
        None => Ok("max_tokens"),
        Some(Json::Str(field)) => if text::same(field, "max_tokens") {
            Ok("max_tokens")
        } else if text::same(field, "max_completion_tokens") {
            Ok("max_completion_tokens")
        } else {
            Err(
                error::invalid(
                    "profile extra.max_tokens_field must be \"max_tokens\" or \"max_completion_tokens\"",
                ),
            )
        },
        Some(_) => Err(
            error::invalid(
                "profile extra.max_tokens_field must be \"max_tokens\" or \"max_completion_tokens\"",
            ),
        ),
    }
}

/// A tool as this wire declares it.
pub open spec fn tool_json(tool: ToolSpec) -> JsonView {
    json::obj2(
        "type"@,
        JsonView::Str("function"@),
        "function"@,
        json::obj4(
            "name"@,
            JsonView::Str(tool.name@),
            "description"@,
            JsonView::Str(tool.description@),
            "parameters"@,
            tool.input_schema@,
            "strict"@,
            json::bool_or_null(tool.strict),
        ),
    )
}

pub fn encode_tool(tool: &ToolSpec) -> (json: Json)
    ensures
        json@ == tool_json(*tool),
{
    json::object2(
        "type",
        json::string("function"),
        "function",
        json::object4(
            "name",
            json::string(&tool.name),
            "description",
            json::string(&tool.description),
            "parameters",
            tool.input_schema.dup(),
            "strict",
            json::optional_bool(tool.strict),
        ),
    )
}

/// The tools as this wire declares them.
pub open spec fn tools_json(tools: Seq<ToolSpec>) -> JsonView {
    JsonView::Array(Seq::new(tools.len(), |i: int| tool_json(tools[i])))
}

fn encode_tools(tools: &Vec<ToolSpec>) -> (json: Json)
    ensures
        json@ == tools_json(tools@),
{
    let mut items: Vec<Json> = Vec::new();
    let mut i: usize = 0;
    while i < tools.len()
        invariant
            i <= tools.len(),
            items@.len() == i,
            forall|k: int| 0 <= k < i ==> (#[trigger] items@[k])@ == tool_json(tools@[k]),
        decreases tools.len() - i,
    {
        items.push(encode_tool(&tools[i]));
        i = i + 1;
    }
    let json = Json::Array(items);
    assert(json@->Array_0 =~= tools_json(tools@)->Array_0);
    json
}

/// The caller's tool selection.
pub open spec fn choice_json(choice: ToolChoice) -> JsonView {
    match choice {
        ToolChoice::Auto => JsonView::Str("auto"@),
        ToolChoice::Forbidden => JsonView::Str("none"@),
        ToolChoice::Any => JsonView::Str("required"@),
        ToolChoice::Tool { name } => json::obj2(
            "type"@,
            JsonView::Str("function"@),
            "function"@,
            json::obj1("name"@, JsonView::Str(name@)),
        ),
    }
}

fn encode_tool_choice(choice: &ToolChoice) -> (json: Json)
    ensures
        json@ == choice_json(*choice),
{
    match choice {
        ToolChoice::Auto => json::string("auto"),
        ToolChoice::Forbidden => json::string("none"),
        ToolChoice::Any => json::string("required"),
        ToolChoice::Tool { name } => json::object2(
            "type",
            json::string("function"),
            "function",
            json::object1("name", json::string(name)),
        ),
    }
}

/// The texts of the system blocks.
pub open spec fn system_texts(system: Seq<SystemBlock>) -> Seq<Seq<char>> {
    Seq::new(system.len(), |i: int| system[i].text@)
}

/// The system prompt: this wire has one slot, and cannot express which part is
/// cacheable.
pub open spec fn system_text(system: Seq<SystemBlock>) -> Seq<char> {
    text::joined(system_texts(system), "\n\n"@)
}

pub fn join_system(system: &Vec<SystemBlock>) -> (result: String)
    ensures
        result@ == system_text(system@),
{
    let mut texts: Vec<String> = Vec::new();
    let mut i: usize = 0;
    while i < system.len()
        invariant
            i <= system.len(),
            texts@.len() == i,
            forall|k: int| 0 <= k < i ==> (#[trigger] texts@[k])@ == system@[k].text@,
        decreases system.len() - i,
    {
        texts.push(system[i].text.clone());
        i = i + 1;
    }
    assert(texts.deep_view() =~= system_texts(system@));
    text::join(&texts, "\n\n")
}

pub open spec fn role_message(role: Seq<char>, content: Seq<char>) -> JsonView {
    json::obj2("role"@, JsonView::Str(role), "content"@, JsonView::Str(content))
}

fn system_json(content: &str) -> (json: Json)
    ensures
        json@ == role_message("system"@, content@),
{
    json::object2("role", json::string("system"), "content", json::string(content))
}

/// Whether a Qwen-Long model is asked.
pub open spec fn is_qwen_long(context: CodecContext) -> bool {
    context.profile.provider_id@ == "qwen"@ && policy::qwen_long_model(context.request_model@)
}

/// The file of an image or document block.
pub open spec fn qwen_file(block: ContentBlock) -> Option<ProviderFileSource> {
    match block {
        ContentBlock::Document { source: DocumentSource::ProviderFile { file }, .. } => Some(file),
        ContentBlock::Image { source: ImageSource::ProviderFile { file } } => Some(file),
        _ => None,
    }
}

fn find_qwen_file(block: &ContentBlock) -> (result: Option<&ProviderFileSource>)
    ensures
        match result {
            Some(file) => qwen_file(*block) == Some(*file),
            None => qwen_file(*block) is None,
        },
{
    match block {
        ContentBlock::Document { source, .. } => match source {
            DocumentSource::ProviderFile { file } => Some(file),
            _ => None,
        },
        ContentBlock::Image { source } => match source {
            ImageSource::ProviderFile { file } => Some(file),
            _ => None,
        },
        _ => None,
    }
}

/// The references of the files among the blocks from the `i`th on.
pub open spec fn qwen_refs(
    blocks: Seq<ContentBlock>,
    i: int,
    before: Seq<Seq<char>>,
    context: CodecContext,
) -> Result<Seq<Seq<char>>, LlmErrorView>
    decreases blocks.len() - i,
{
    if i < 0 || i >= blocks.len() {
        Ok(before)
    } else {
        match qwen_file(blocks[i]) {
            None => qwen_refs(blocks, i + 1, before, context),
            Some(file) => match policy::file_error(
                file@,
                context.profile,
                context.file_account_scope.deep_view(),
            ) {
                Some(error) => Err(error),
                None => if !extracted(file@) {
                    Err(codecs::wrong_protocol())
                } else if !policy::qwen_file_id(file.file_id@) {
                    Err(
                        error::invalid_view(
                            "Qwen-Long file IDs must contain only letters, digits, hyphens, or underscores"@,
                        ),
                    )
                } else {
                    qwen_refs(blocks, i + 1, before.push("fileid://"@ + file.file_id@), context)
                },
            },
        }
    }
}

fn find_qwen_refs(blocks: &Vec<&ContentBlock>, context: &CodecContext) -> (result: Result<
    Vec<String>,
    LlmError,
>)
    ensures
        views::res(result) == qwen_refs(views::plain(blocks@), 0, Seq::empty(), *context),
{
    let mut refs: Vec<String> = Vec::new();
    let mut i: usize = 0;
    while i < blocks.len()
        invariant
            i <= blocks.len(),
            qwen_refs(views::plain(blocks@), 0, Seq::empty(), *context) == qwen_refs(
                views::plain(blocks@),
                i as int,
                refs.deep_view(),
                *context,
            ),
        decreases blocks.len() - i,
    {
        if let Some(file) = find_qwen_file(blocks[i]) {
            policy::validate_provider_file(file, &context.profile, &context.file_account_scope)?;
            if !is_extracted(file) {
                return Err(codecs::provider_file_protocol_error());
            }
            if !policy::valid_qwen_file_id(&file.file_id) {
                return Err(
                    error::invalid(
                        "Qwen-Long file IDs must contain only letters, digits, hyphens, or underscores",
                    ),
                );
            }
            refs.push(text::cat2("fileid://", &file.file_id));
        }
        i = i + 1;
    }
    Ok(refs)
}

/// Whether the wire messages are one system message that says something.
pub open spec fn one_system(encoded: Seq<JsonView>) -> bool {
    &&& encoded.len() == 1
    &&& json::str_at(encoded[0], "role"@) == Some("system"@)
    &&& json::str_at(encoded[0], "content"@) is Some
    &&& !text::blank(json::str_at(encoded[0], "content"@)->0)
}

fn is_one_system(encoded: &Vec<Json>) -> (result: bool)
    ensures
        result == one_system(encoded.deep_view()),
{
    if encoded.len() != 1 {
        return false;
    }
    assert(encoded.deep_view()[0] == encoded@[0]@);
    let system = match encoded[0].str_at("role") {
        Some(role) => text::same(role, "system"),
        None => false,
    };
    match encoded[0].str_at("content") {
        Some(content) => system && !text::is_blank(content),
        None => false,
    }
}

/// The messages in front of the conversation, and how many of its messages they
/// have taken up.
pub open spec fn front_of(wire: EncodeRequest, quirks: Quirks, context: CodecContext) -> Result<
    (Seq<JsonView>, int),
    LlmErrorView,
> {
    let system = wire.request.system@;
    let said = system_text(system);
    let first = if system.len() > 0 && (!quirks.qwen_long || !text::blank(said)) {
        seq![role_message("system"@, said)]
    } else {
        Seq::empty()
    };
    if !quirks.qwen_long {
        Ok((first, 0))
    } else {
        match qwen_refs(input::all_blocks(wire), 0, Seq::empty(), context) {
            Err(error) => Err(error),
            Ok(refs) => if refs.len() == 0 {
                Ok((first, 0))
            } else if refs.len() > QWEN_LONG_MAX_FILE_REFERENCES {
                Err(
                    error::invalid_view(
                        "Qwen-Long accepts at most 100 file references per request"@,
                    ),
                )
            } else {
                let listed = role_message("system"@, text::joined(refs, ","@));
                let default = role_message("system"@, "You are a helpful assistant."@);
                if first.len() > 0 {
                    Ok((first.push(listed), 0))
                } else if wire.request.messages@.len() > 0 && wire.request.messages@[0].role
                    == MessageRole::System {
                    match message_json(
                        input::message_blocks(wire, 0),
                        MessageRole::System,
                        quirks,
                        context,
                        wire,
                    ) {
                        Err(error) => Err(error),
                        Ok(encoded) => if one_system(encoded) {
                            Ok((seq![encoded[0], listed], 1))
                        } else {
                            Ok((seq![default, listed], 0))
                        },
                    }
                } else {
                    Ok((seq![default, listed], 0))
                }
            },
        }
    }
}

fn front(wire: EncodeRequest, quirks: Quirks, context: &CodecContext) -> (result: Result<
    (Vec<Json>, usize),
    LlmError,
>)
    ensures
        match result {
            Ok((messages, taken)) => taken <= wire.request.messages@.len() && front_of(
                wire,
                quirks,
                *context,
            ) == Ok::<(Seq<JsonView>, int), LlmErrorView>((messages.deep_view(), taken as int)),
            Err(error) => front_of(wire, quirks, *context) == Err::<
                (Seq<JsonView>, int),
                LlmErrorView,
            >(error@),
        },
{
    let req = wire.request;
    let mut messages: Vec<Json> = Vec::new();
    if req.system.len() > 0 {
        let said = join_system(&req.system);
        if !quirks.qwen_long || !text::is_blank(&said) {
            messages.push(system_json(&said));
            assert(messages.deep_view() =~= seq![role_message("system"@, said@)]);
        }
    }
    if !quirks.qwen_long {
        return Ok((messages, 0));
    }
    let blocks = wire.blocks();
    let refs = find_qwen_refs(&blocks, context)?;
    if refs.len() == 0 {
        return Ok((messages, 0));
    }
    if refs.len() > QWEN_LONG_MAX_FILE_REFERENCES {
        return Err(
            error::invalid("Qwen-Long accepts at most 100 file references per request"),
        );
    }
    let listed = system_json(&text::join(&refs, ","));
    let ghost default = role_message("system"@, "You are a helpful assistant."@);
    if messages.len() > 0 {
        messages.push(listed);
        return Ok((messages, 0));
    }
    if req.messages.len() > 0 && req.messages[0].role == MessageRole::System {
        let first = wire.message(0);
        let encoded = encode_message(&first, MessageRole::System, quirks, context, wire)?;
        if is_one_system(&encoded) {
            let mut messages = encoded;
            let ghost one = messages.deep_view();
            messages.push(listed);
            assert(messages.deep_view() =~= seq![one[0], listed@]);
            return Ok((messages, 1));
        }
    }
    messages.push(system_json("You are a helpful assistant."));
    messages.push(listed);
    assert(messages.deep_view() =~= seq![default, listed@]);
    Ok((messages, 0))
}

/// The wire messages, once those of the conversation from the `m`th on follow.
pub open spec fn with_messages(
    before: Seq<JsonView>,
    m: int,
    quirks: Quirks,
    context: CodecContext,
    wire: EncodeRequest,
) -> Result<Seq<JsonView>, LlmErrorView>
    decreases wire.request.messages@.len() - m,
{
    if m < 0 || m >= wire.request.messages@.len() {
        Ok(before)
    } else {
        match message_json(
            input::message_blocks(wire, m),
            wire.request.messages@[m].role,
            quirks,
            context,
            wire,
        ) {
            Err(error) => Err(error),
            Ok(encoded) => with_messages(before + encoded, m + 1, quirks, context, wire),
        }
    }
}

fn add_messages(
    before: Vec<Json>,
    from: usize,
    quirks: Quirks,
    context: &CodecContext,
    wire: EncodeRequest,
) -> (result: Result<Vec<Json>, LlmError>)
    requires
        from <= wire.request.messages@.len(),
    ensures
        views::res(result) == with_messages(
            before.deep_view(),
            from as int,
            quirks,
            *context,
            wire,
        ),
{
    let ghost first = before.deep_view();
    let mut messages = before;
    let mut m: usize = from;
    while m < wire.request.messages.len()
        invariant
            m <= wire.request.messages@.len(),
            first == before.deep_view(),
            with_messages(first, from as int, quirks, *context, wire) == with_messages(
                messages.deep_view(),
                m as int,
                quirks,
                *context,
                wire,
            ),
        decreases wire.request.messages.len() - m,
    {
        let blocks = wire.message(m);
        let encoded = encode_message(
            &blocks,
            wire.request.messages[m].role,
            quirks,
            context,
            wire,
        )?;
        messages = json::concat(messages, encoded);
        m = m + 1;
    }
    Ok(messages)
}

/// The body of a request, before what the profile adds.
pub open spec fn body_of(
    messages: Seq<JsonView>,
    limit: Seq<char>,
    req: CompletionRequest,
    context: CodecContext,
) -> Entries {
    let base = json::put(
        json::put(
            Seq::<(Seq<char>, JsonView)>::empty(),
            "model"@,
            JsonView::Str(context.request_model@),
        ),
        "messages"@,
        JsonView::Array(messages),
    );
    let streamed = if context.stream {
        let on = json::put(base, "stream"@, JsonView::Bool(true));
        // Some endpoints leave the usage out of a stream unless it is asked for.
        if profile::flag_of(context.profile, "stream_usage_opt_in"@) {
            json::put(on, "stream_options"@, json::obj1("include_usage"@, JsonView::Bool(true)))
        } else {
            on
        }
    } else {
        base
    };
    let limited = match req.max_tokens {
        Some(max) => json::put(streamed, limit, json::uint_view(max as u64)),
        None => streamed,
    };
    let warmed = match req.temperature {
        Some(t) => json::put(limited, "temperature"@, JsonView::Number(t@)),
        None => limited,
    };
    let stopped = if req.stop_sequences@.len() > 0 {
        json::put(warmed, "stop"@, json::text_array(req.stop_sequences.deep_view()))
    } else {
        warmed
    };
    if req.tools@.len() > 0 {
        json::put(
            json::put(stopped, "tools"@, tools_json(req.tools@)),
            "tool_choice"@,
            choice_json(req.tool_choice),
        )
    } else {
        stopped
    }
}

fn build_body(messages: Vec<Json>, limit: &str, req: &CompletionRequest, context: &CodecContext) -> (body:
    Vec<(String, Json)>)
    ensures
        body.deep_view() == body_of(messages.deep_view(), limit@, *req, *context),
{
    let mut body = json::fields();
    json::set(&mut body, "model", json::string(&context.request_model));
    json::set(&mut body, "messages", Json::Array(messages));
    if context.stream {
        json::set(&mut body, "stream", Json::Bool(true));
        if profile::flag(&context.profile, "stream_usage_opt_in") {
            json::set(
                &mut body,
                "stream_options",
                json::object1("include_usage", Json::Bool(true)),
            );
        }
    }
    if let Some(max) = req.max_tokens {
        json::set(&mut body, limit, json::uint(max as u64));
    }
    if let Some(t) = &req.temperature {
        json::set(&mut body, "temperature", Json::Number(t.dup()));
    }
    if req.stop_sequences.len() > 0 {
        json::set(&mut body, "stop", json::strings(&req.stop_sequences));
    }
    if req.tools.len() > 0 {
        json::set(&mut body, "tools", encode_tools(&req.tools));
        json::set(&mut body, "tool_choice", encode_tool_choice(&req.tool_choice));
    }
    body
}

/// The request as it goes out, given its body and headers.
pub open spec fn finished(
    body: Entries,
    headers: extras::HeaderViews,
    limit: Seq<char>,
    req: CompletionRequest,
    profile: ProviderProfile,
) -> WireRequestView {
    let merged = extras::with_extra_body(profile, body).0;
    // The typed limit is authoritative: what the profile adds must not send the
    // other spelling beside it.
    let alternate = if limit == "max_tokens"@ {
        "max_completion_tokens"@
    } else {
        "max_tokens"@
    };
    WireRequestView {
        url: text::without_trailing(profile.base_url@, '/') + "/chat/completions"@,
        headers: extras::with_extra_headers(profile, headers).0,
        body: JsonView::Object(
            if req.max_tokens is Some {
                json::without(merged, alternate)
            } else {
                merged
            },
        ),
    }
}

fn finish(draft: Draft, limit: &str, req: &CompletionRequest, profile: &ProviderProfile) -> (result:
    WireRequest)
    ensures
        result.deep_view() == finished(
            draft.body.deep_view(),
            draft.headers.deep_view(),
            limit@,
            *req,
            *profile,
        ),
{
    let mut body = draft.body;
    let mut headers = draft.headers;
    extras::merge_body(profile, &mut body);
    if req.max_tokens.is_some() {
        let alternate = if text::same(limit, "max_tokens") {
            "max_completion_tokens"
        } else {
            "max_tokens"
        };
        let _ = json::unset(&mut body, alternate);
    }
    extras::merge_headers(profile, &mut headers);
    WireRequest {
        url: text::cat2(&text::trim_end_char(&profile.base_url, '/'), "/chat/completions"),
        headers,
        body: Json::Object(body),
    }
}

/// What keeps a request from being encoded, before its messages are looked at.
pub open spec fn refusal(wire: EncodeRequest, context: CodecContext) -> Option<LlmErrorView> {
    let profile = context.profile;
    let blocks = input::all_blocks(wire);
    let files = policy::direct_files_error(
        blocks,
        0,
        profile,
        context.request_model@,
        context.file_account_scope.deep_view(),
    );
    if files is Some {
        files
    } else if codecs::continuation_error(*wire.request, ProtocolFamily::OpenAiChat) is Some {
        codecs::continuation_error(*wire.request, ProtocolFamily::OpenAiChat)
    } else if wire.request.file_search is Some {
        Some(
            error::unsupported_view(
                "hosted file search is supported only on Qwen Responses profiles"@,
            ),
        )
    } else {
        match limit_field(profile) {
            Err(error) => Some(error),
            Ok(_) => if !is_qwen_long(context) {
                None
            } else if !policy::qwen_long_host(encoding::url_host(profile.base_url@)) {
                Some(
                    error::unsupported_view(
                        "Qwen-Long is supported only on a Beijing Qwen endpoint"@,
                    ),
                )
            } else if policy::any_inline(blocks) {
                Some(policy::inline_error())
            } else {
                None
            },
        }
    }
}

/// What encoding this connection's messages depends on.
pub open spec fn quirks_of(context: CodecContext) -> Quirks {
    Quirks {
        keep_reasoning: profile::flag_of(context.profile, "preserve_reasoning_content"@),
        pdf_only: pdf_only_of(context.profile),
        qwen_long: is_qwen_long(context),
    }
}

/// The wire messages of a request.
pub open spec fn messages_of(wire: EncodeRequest, context: CodecContext) -> Result<
    Seq<JsonView>,
    LlmErrorView,
> {
    let quirks = quirks_of(context);
    match front_of(wire, quirks, context) {
        Err(error) => Err(error),
        Ok((front, taken)) => with_messages(front, taken, quirks, context, wire),
    }
}

pub open spec fn json_headers() -> extras::HeaderViews {
    seq![("content-type"@, "application/json"@)]
}

/// The request of the Chat Completions wire.
pub open spec fn encoded(wire: EncodeRequest, context: CodecContext) -> Result<
    WireRequestView,
    LlmErrorView,
> {
    let req = *wire.request;
    let profile = context.profile;
    match refusal(wire, context) {
        Some(error) => Err(error),
        None => match messages_of(wire, context) {
            Err(error) => Err(error),
            Ok(messages) => {
                let limit = limit_field(profile)->Ok_0;
                match web_search::with_search(
                    req,
                    profile,
                    body_of(messages, limit, req, context),
                ) {
                    Err(error) => Err(error),
                    Ok(body) => match inference::applied(req, context, body, json_headers()) {
                        Err(error) => Err(error),
                        Ok((body, headers)) => Ok(finished(body, headers, limit, req, profile)),
                    },
                }
            },
        },
    }
}

pub fn content_type_header() -> (headers: Vec<(String, String)>)
    ensures
        headers.deep_view() == json_headers(),
{
    let mut headers: Vec<(String, String)> = Vec::new();
    headers.push(("content-type".to_owned(), "application/json".to_owned()));
    assert(headers.deep_view() =~= json_headers());
    headers
}

pub fn request(wire: EncodeRequest, context: &CodecContext) -> (result: Result<
    WireRequest,
    LlmError,
>)
    ensures
        views::res(result) == encoded(wire, *context),
{
    let req = wire.request;
    let profile = &context.profile;
    let blocks = wire.blocks();
    policy::validate_direct_provider_file_inputs(
        &blocks,
        profile,
        &context.request_model,
        &context.file_account_scope,
    )?;
    codecs::reject_responses_continuation(req, ProtocolFamily::OpenAiChat)?;
    if req.file_search.is_some() {
        return Err(
            error::unsupported("hosted file search is supported only on Qwen Responses profiles"),
        );
    }
    let limit = max_tokens_field(profile)?;
    let qwen_long = text::same(&profile.provider_id, "qwen") && policy::is_qwen_long_model(
        &context.request_model,
    );
    if qwen_long {
        if !policy::qwen_long_region_supported(profile) {
            return Err(
                error::unsupported("Qwen-Long is supported only on a Beijing Qwen endpoint"),
            );
        }
        policy::validate_qwen_long_blocks(&blocks)?;
    }
    let quirks = Quirks {
        keep_reasoning: profile::flag(profile, "preserve_reasoning_content"),
        pdf_only: pdf_only(profile),
        qwen_long,
    };
    let (front, taken) = front(wire, quirks, context)?;
    let messages = add_messages(front, taken, quirks, context, wire)?;
    let body = web_search::apply(req, profile, build_body(messages, limit, req, context))?;
    let draft = inference::apply(
        req,
        context,
        Draft { body, headers: content_type_header() },
    )?;
    Ok(finish(draft, limit, req, profile))
}

} // verus!
