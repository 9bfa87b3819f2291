//! Request encoding for the Messages API.

use crate::codecs::extras;
use crate::codecs::file_search_decode;
use crate::codecs::inference::{self, Draft};
use crate::codecs::input;
use crate::codecs::web_search;
use crate::codecs::wire::{WireRequest, WireRequestView};
use crate::codecs::{self, CodecContext, EncodeRequest};
use crate::encoding;
use crate::files::policy;
use crate::json::{self, Entries, Json, JsonView};
use crate::protocol::error;
use crate::protocol::profile;
use crate::protocol::{
    AttachmentRef, CompletionRequest, ContentBlock, DocumentSource, ImageSource, LlmError,
    LlmErrorView, MessageRole, ProtocolFamily, ProviderFileSource, ProviderProfile, SystemBlock,
    ToolChoice, ToolSpec, VideoSource,
};
use crate::text;
use crate::views;
use vstd::prelude::*;

verus! {

broadcast use {crate::views::group_views, crate::json::group_json};

/// The wire requires a limit, so a request that sets none still carries one.
pub const DEFAULT_MAX_TOKENS: u64 = 4096;

/// A source of media: what kind it is, and what it says.
pub open spec fn source_json(kind: Seq<char>, key: Seq<char>, value: Seq<char>) -> JsonView {
    json::obj2("type"@, JsonView::Str(kind), key, JsonView::Str(value))
}

fn source_of(kind: &str, key: &str, value: &str) -> (json: Json)
    ensures
        json@ == source_json(kind@, key@, value@),
{
    json::object2("type", json::string(kind), key, json::string(value))
}

/// A source whose data stands in the request.
pub open spec fn data_json(kind: Seq<char>, media_type: Seq<char>, data: Seq<char>) -> JsonView {
    json::obj3(
        "type"@,
        JsonView::Str(kind),
        "media_type"@,
        JsonView::Str(media_type),
        "data"@,
        JsonView::Str(data),
    )
}

fn data_of(kind: &str, media_type: &str, data: &str) -> (json: Json)
    ensures
        json@ == data_json(kind@, media_type@, data@),
{
    json::object3(
        "type",
        json::string(kind),
        "media_type",
        json::string(media_type),
        "data",
        json::string(data),
    )
}

/// A block of media.
pub open spec fn media_json(kind: Seq<char>, source: JsonView) -> JsonView {
    json::obj2("type"@, JsonView::Str(kind), "source"@, source)
}

fn media_of(kind: &str, source: Json) -> (json: Json)
    ensures
        json@ == media_json(kind@, source@),
{
    json::object2("type", json::string(kind), "source", source)
}

/// A document, with its title where it has one.
pub open spec fn document_json(source: JsonView, title: Option<Seq<char>>) -> JsonView {
    match title {
        Some(title) => json::obj3(
            "type"@,
            JsonView::Str("document"@),
            "source"@,
            source,
            "title"@,
            JsonView::Str(title),
        ),
        None => media_json("document"@, source),
    }
}

fn document_of(source: Json, title: &Option<String>) -> (json: Json)
    ensures
        json@ == document_json(source@, title.deep_view()),
{
    match title {
        Some(title) => json::object3(
            "type",
            json::string("document"),
            "source",
            source,
            "title",
            json::string(title),
        ),
        None => media_of("document", source),
    }
}

/// Why a provider file cannot be named on this wire.
pub open spec fn file_refusal(file: ProviderFileSource, context: CodecContext) -> Option<
    LlmErrorView,
> {
    match policy::file_error(
        file@,
        context.profile,
        context.file_account_scope.deep_view(),
    ) {
        Some(error) => Some(error),
        None => if file.protocol != ProtocolFamily::AnthropicMessages {
            Some(codecs::wrong_protocol())
        } else {
            None
        },
    }
}

fn check_file(file: &ProviderFileSource, context: &CodecContext) -> (result: Result<(), LlmError>)
    ensures
        views::res(result) == codecs::checked(file_refusal(*file, *context)),
{
    policy::validate_provider_file(file, &context.profile, &context.file_account_scope)?;
    if file.protocol != ProtocolFamily::AnthropicMessages {
        return Err(codecs::provider_file_protocol_error());
    }
    Ok(())
}

/// Whether a media type names an image.
pub open spec fn image_type(media_type: Option<Seq<char>>) -> bool {
    match media_type {
        Some(media_type) => "image/"@.is_prefix_of(text::lower(text::trimmed(media_type))),
        None => false,
    }
}

fn is_image_type(media_type: Option<&str>) -> (result: bool)
    ensures
        result == image_type(media_type.deep_view()),
{
    match media_type {
        Some(media_type) => text::starts_with(
            &text::to_lower(&text::trim(media_type)),
            "image/",
        ),
        None => false,
    }
}

pub open spec fn image_document_error() -> LlmErrorView {
    error::invalid_view("Anthropic document blocks cannot use an image media type"@)
}

fn image_document_refusal() -> (error: LlmError)
    ensures
        error@ == image_document_error(),
{
    error::invalid("Anthropic document blocks cannot use an image media type")
}

pub open spec fn video_error() -> LlmErrorView {
    error::unsupported_view(
        "MiniMax video input requires a provider file uploaded for video_understanding"@,
    )
}

fn video_refusal() -> (error: LlmError)
    ensures
        error@ == video_error(),
{
    error::unsupported(
        "MiniMax video input requires a provider file uploaded for video_understanding",
    )
}

/// The block of an attachment whose bytes are at hand.
pub open spec fn media_block(block: ContentBlock, attachment: AttachmentRef, bytes: Seq<u8>) -> Result<
    JsonView,
    LlmErrorView,
> {
    let source = data_json(
        "base64"@,
        attachment.media_type@,
        encoding::base64_encoded(bytes),
    );
    match block {
        ContentBlock::Image { .. } => Ok(media_json("image"@, source)),
        ContentBlock::Document { title, .. } => if image_type(Some(attachment.media_type@)) {
            Err(image_document_error())
        } else {
            Ok(document_json(source, title.deep_view()))
        },
        _ => Err(video_error()),
    }
}

fn inline(block: &ContentBlock, attachment: &AttachmentRef, bytes: &[u8]) -> (result: Result<
    Json,
    LlmError,
>)
    ensures
        views::res(result) == media_block(*block, *attachment, bytes@),
{
    let source = data_of("base64", &attachment.media_type, &encoding::base64_encode(bytes));
    match block {
        ContentBlock::Image { .. } => Ok(media_of("image", source)),
        ContentBlock::Document { title, .. } => {
            if is_image_type(Some(attachment.media_type.as_str())) {
                return Err(image_document_refusal());
            }
            Ok(document_of(source, title))
        },
        _ => Err(video_refusal()),
    }
}

/// The block of an image.
pub open spec fn image_block(source: ImageSource, context: CodecContext) -> Result<
    JsonView,
    LlmErrorView,
> {
    match source {
        ImageSource::Base64 { media_type, data } => Ok(
            media_json("image"@, data_json("base64"@, media_type@, data@)),
        ),
        ImageSource::Url { url } => Ok(
            media_json("image"@, source_json("url"@, "url"@, url@)),
        ),
        ImageSource::Attachment { .. } => Err(codecs::unresolved_attachment()),
        ImageSource::ProviderFile { file } => match file_refusal(file, context) {
            Some(error) => Err(error),
            None => Ok(media_json("image"@, source_json("file"@, "file_id"@, file.file_id@))),
        },
    }
}

fn encode_image(source: &ImageSource, context: &CodecContext) -> (result: Result<Json, LlmError>)
    ensures
        views::res(result) == image_block(*source, *context),
{
    match source {
        ImageSource::Base64 { media_type, data } => Ok(
            media_of("image", data_of("base64", media_type, data)),
        ),
        ImageSource::Url { url } => Ok(media_of("image", source_of("url", "url", url))),
        ImageSource::Attachment { .. } => Err(codecs::unresolved_attachment_error()),
        ImageSource::ProviderFile { file } => {
            check_file(file, context)?;
            Ok(media_of("image", source_of("file", "file_id", &file.file_id)))
        },
    }
}

/// The media type that a document source states.
pub open spec fn document_type(source: DocumentSource) -> Option<Seq<char>> {
    match source {
        DocumentSource::Base64 { media_type, .. } => Some(media_type@),
        DocumentSource::Text { media_type, .. } => Some(media_type@),
        DocumentSource::Attachment { attachment } => Some(attachment.media_type@),
        DocumentSource::ProviderFile { file } => file.media_type.deep_view(),
        DocumentSource::Url { .. } => None,
    }
}

fn type_of(source: &DocumentSource) -> (result: Option<&str>)
    ensures
        result.deep_view() == document_type(*source),
{
    match source {
        DocumentSource::Base64 { media_type, .. } => Some(media_type.as_str()),
        DocumentSource::Text { media_type, .. } => Some(media_type.as_str()),
        DocumentSource::Attachment { attachment } => Some(attachment.media_type.as_str()),
        DocumentSource::ProviderFile { file } => match &file.media_type {
            Some(media_type) => Some(media_type.as_str()),
            None => None,
        },
        DocumentSource::Url { .. } => None,
    }
}

/// The block of a document.
pub open spec fn document_block(
    source: DocumentSource,
    title: Option<Seq<char>>,
    context: CodecContext,
) -> Result<JsonView, LlmErrorView> {
    if image_type(document_type(source)) {
        Err(image_document_error())
    } else {
        match source {
            DocumentSource::Base64 { media_type, data } => Ok(
                document_json(data_json("base64"@, media_type@, data@), title),
            ),
            DocumentSource::Text { media_type, data } => Ok(
                document_json(data_json("text"@, media_type@, data@), title),
            ),
            DocumentSource::Url { url } => Ok(
                document_json(source_json("url"@, "url"@, url@), title),
            ),
            DocumentSource::Attachment { .. } => Err(codecs::unresolved_attachment()),
            DocumentSource::ProviderFile { file } => match file_refusal(file, context) {
                Some(error) => Err(error),
                None => Ok(
                    document_json(source_json("file"@, "file_id"@, file.file_id@), title),
                ),
            },
        }
    }
}

fn encode_document(source: &DocumentSource, title: &Option<String>, context: &CodecContext) -> (result:
    Result<Json, LlmError>)
    ensures
        views::res(result) == document_block(*source, title.deep_view(), *context),
{
    if is_image_type(type_of(source)) {
        return Err(image_document_refusal());
    }
    match source {
        DocumentSource::Base64 { media_type, data } => Ok(
            document_of(data_of("base64", media_type, data), title),
        ),
        DocumentSource::Text { media_type, data } => Ok(
            document_of(data_of("text", media_type, data), title),
        ),
        DocumentSource::Url { url } => Ok(document_of(source_of("url", "url", url), title)),
        DocumentSource::Attachment { .. } => Err(codecs::unresolved_attachment_error()),
        DocumentSource::ProviderFile { file } => {
            check_file(file, context)?;
            Ok(document_of(source_of("file", "file_id", &file.file_id), title))
        },
    }
}

/// The block of a video, which only one model reads, from a file uploaded for it.
pub open spec fn video_block(source: VideoSource, context: CodecContext) -> Result<
    JsonView,
    LlmErrorView,
> {
    match source {
        VideoSource::ProviderFile { file } => match policy::file_error(
            file@,
            context.profile,
            context.file_account_scope.deep_view(),
        ) {
            Some(error) => Err(error),
            None => if context.profile.provider_id@ != "minimax"@ || text::lower(
                context.request_model@,
            ) != text::lower("minimax-m3"@) || file.protocol
                != ProtocolFamily::AnthropicMessages || file.purpose.deep_view() != Some(
                "video_understanding"@,
            ) {
                Err(
                    error::unsupported_view(
                        "video file references are supported only by MiniMax M3"@,
                    ),
                )
            } else {
                Ok(
                    media_json(
                        "video"@,
                        source_json("url"@, "url"@, "mm_file://"@ + file.file_id@),
                    ),
                )
            },
        },
        _ => Err(video_error()),
    }
}

fn encode_video(source: &VideoSource, context: &CodecContext) -> (result: Result<Json, LlmError>)
    ensures
        views::res(result) == video_block(*source, *context),
{
    let file = match source {
        VideoSource::ProviderFile { file } => file,
        _ => return Err(video_refusal()),
    };
    policy::validate_provider_file(file, &context.profile, &context.file_account_scope)?;
    let purpose = match &file.purpose {
        Some(purpose) => text::same(purpose, "video_understanding"),
        None => false,
    };
    if !text::same(&context.profile.provider_id, "minimax") || !text::same_ignoring_case(
        &context.request_model,
        "minimax-m3",
    ) || file.protocol != ProtocolFamily::AnthropicMessages || !purpose {
        return Err(
            error::unsupported("video file references are supported only by MiniMax M3"),
        );
    }
    Ok(media_of("video", source_of("url", "url", &text::cat2("mm_file://", &file.file_id))))
}

/// The result of a tool.
pub open spec fn result_block(
    id: Seq<char>,
    content: Seq<char>,
    failed: bool,
    blocks: Option<Seq<JsonView>>,
) -> JsonView {
    let content = match blocks {
        Some(blocks) => JsonView::Array(blocks),
        None => JsonView::Str(content),
    };
    if failed {
        json::obj4(
            "type"@,
            JsonView::Str("tool_result"@),
            "tool_use_id"@,
            JsonView::Str(id),
            "content"@,
            content,
            "is_error"@,
            JsonView::Bool(true),
        )
    } else {
        json::obj3(
            "type"@,
            JsonView::Str("tool_result"@),
            "tool_use_id"@,
            JsonView::Str(id),
            "content"@,
            content,
        )
    }
}

fn encode_result(id: &str, content: &str, failed: bool, blocks: &Option<Vec<Json>>) -> (json: Json)
    ensures
        json@ == result_block(id@, content@, failed, blocks.deep_view()),
{
    let content = match blocks {
        Some(blocks) => Json::Array(json::dup_items(blocks)),
        None => json::string(content),
    };
    if failed {
        json::object4(
            "type",
            json::string("tool_result"),
            "tool_use_id",
            json::string(id),
            "content",
            content,
            "is_error",
            Json::Bool(true),
        )
    } else {
        json::object3(
            "type",
            json::string("tool_result"),
            "tool_use_id",
            json::string(id),
            "content",
            content,
        )
    }
}

/// Thinking, with the signature without which the provider refuses a replay.
pub open spec fn thinking_block(text: Seq<char>, signature: Option<Seq<char>>, unsigned: bool) -> Result<
    JsonView,
    LlmErrorView,
> {
    match signature {
        Some(signature) => Ok(
            json::obj3(
                "type"@,
                JsonView::Str("thinking"@),
                "thinking"@,
                JsonView::Str(text),
                "signature"@,
                JsonView::Str(signature),
            ),
        ),
        None => if unsigned {
            Ok(json::obj2("type"@, JsonView::Str("thinking"@), "thinking"@, JsonView::Str(text)))
        } else {
            Err(
                error::invalid_view("a thinking block needs its signature to round-trip"@),
            )
        },
    }
}

fn encode_thinking(text: &str, signature: &Option<String>, unsigned: bool) -> (result: Result<
    Json,
    LlmError,
>)
    ensures
        views::res(result) == thinking_block(text@, signature.deep_view(), unsigned),
{
    match signature {
        Some(signature) => Ok(
            json::object3(
                "type",
                json::string("thinking"),
                "thinking",
                json::string(text),
                "signature",
                json::string(signature),
            ),
        ),
        None => if unsigned {
            Ok(json::object2("type", json::string("thinking"), "thinking", json::string(text)))
        } else {
            Err(error::invalid("a thinking block needs its signature to round-trip"))
        },
    }
}

/// A content block on this wire.
pub open spec fn block_json(
    block: ContentBlock,
    unsigned: bool,
    context: CodecContext,
    wire: EncodeRequest,
) -> Result<JsonView, LlmErrorView> {
    match input::media_for(wire, block) {
        Err(error) => Err(error),
        Ok(Some(media)) => media_block(block, *media.attachment, media.bytes@),
        Ok(None) => match block {
            ContentBlock::ProviderContent { protocol, value } => if protocol
                != ProtocolFamily::AnthropicMessages {
                Err(
                    error::unsupported_view(
                        "native content cannot be replayed on a different protocol"@,
                    ),
                )
            } else {
                Ok(value@)
            },
            ContentBlock::Text { text, .. } => Ok(
                json::obj2("type"@, JsonView::Str("text"@), "text"@, JsonView::Str(text@)),
            ),
            ContentBlock::Thinking { text, signature } => thinking_block(
                text@,
                signature.deep_view(),
                unsigned,
            ),
            ContentBlock::RedactedThinking { data } => Ok(
                json::obj2(
                    "type"@,
                    JsonView::Str("redacted_thinking"@),
                    "data"@,
                    JsonView::Str(data@),
                ),
            ),
            ContentBlock::ToolUse { id, name, input, .. } => Ok(
                json::obj4(
                    "type"@,
                    JsonView::Str("tool_use"@),
                    "id"@,
                    JsonView::Str(id@),
                    "name"@,
                    JsonView::Str(name@),
                    "input"@,
                    input@,
                ),
            ),
            ContentBlock::ToolResult { tool_use_id, content, is_error, blocks } => Ok(
                result_block(tool_use_id@, content@, is_error, blocks.deep_view()),
            ),
            ContentBlock::Image { source } => image_block(source, context),
            ContentBlock::Document { source, title } => document_block(
                source,
                title.deep_view(),
                context,
            ),
            ContentBlock::Video { source } => video_block(source, context),
        },
    }
}

fn encode_block(block: &ContentBlock, unsigned: bool, context: &CodecContext, wire: EncodeRequest) -> (result:
    Result<Json, LlmError>)
    ensures
        views::res(result) == block_json(*block, unsigned, *context, wire),
{
    let media = wire.inline_media(block)?;
    if let Some(media) = media {
        return inline(block, media.attachment, media.bytes);
    }
    match block {
        ContentBlock::ProviderContent { protocol, value } => {
            if *protocol != ProtocolFamily::AnthropicMessages {
                return Err(
                    error::unsupported("native content cannot be replayed on a different protocol"),
                );
            }
            Ok(value.dup())
        },
        ContentBlock::Text { text, .. } => Ok(
            json::object2("type", json::string("text"), "text", json::string(text)),
        ),
        ContentBlock::Thinking { text, signature } => encode_thinking(text, signature, unsigned),
        ContentBlock::RedactedThinking { data } => Ok(
            json::object2("type", json::string("redacted_thinking"), "data", json::string(data)),
        ),
        ContentBlock::ToolUse { id, name, input, .. } => Ok(
            json::object4(
                "type",
                json::string("tool_use"),
                "id",
                json::string(id),
                "name",
                json::string(name),
                "input",
                input.dup(),
            ),
        ),
        ContentBlock::ToolResult { tool_use_id, content, is_error, blocks } => Ok(
            encode_result(tool_use_id, content, *is_error, blocks),
        ),
        ContentBlock::Image { source } => encode_image(source, context),
        ContentBlock::Document { source, title } => encode_document(source, title, context),
        ContentBlock::Video { source } => encode_video(source, context),
    }
}

/// The blocks from the `i`th on, after those before.
pub open spec fn blocks_json(
    blocks: Seq<ContentBlock>,
    i: int,
    before: Seq<JsonView>,
    unsigned: bool,
    context: CodecContext,
    wire: EncodeRequest,
) -> Result<Seq<JsonView>, LlmErrorView>
    decreases blocks.len() - i,
{
    if i < 0 || i >= blocks.len() {
        Ok(before)
    } else {
        match block_json(blocks[i], unsigned, context, wire) {
            Err(error) => Err(error),
            Ok(block) => blocks_json(blocks, i + 1, before.push(block), unsigned, context, wire),
        }
    }
}

fn encode_blocks(
    blocks: &Vec<&ContentBlock>,
    unsigned: bool,
    context: &CodecContext,
    wire: EncodeRequest,
) -> (result: Result<Vec<Json>, LlmError>)
    ensures
        views::res(result) == blocks_json(
            views::plain(blocks@),
            0,
            Seq::empty(),
            unsigned,
            *context,
            wire,
        ),
{
    let mut out: Vec<Json> = Vec::new();
    let mut i: usize = 0;
    while i < blocks.len()
        invariant
            i <= blocks.len(),
            blocks_json(views::plain(blocks@), 0, Seq::empty(), unsigned, *context, wire)
                == blocks_json(
                views::plain(blocks@),
                i as int,
                out.deep_view(),
                unsigned,
                *context,
                wire,
            ),
        decreases blocks.len() - i,
    {
        let block = encode_block(blocks[i], unsigned, context, wire)?;
        out.push(block);
        i = i + 1;
    }
    Ok(out)
}

/// A message. This wire has no system role among the messages: a system block
/// that got here is the caller's mistake.
pub open spec fn message_json(
    blocks: Seq<ContentBlock>,
    role: MessageRole,
    unsigned: bool,
    context: CodecContext,
    wire: EncodeRequest,
) -> Result<JsonView, LlmErrorView> {
    if role == MessageRole::System {
        Err(
            error::invalid_view("the system prompt belongs in `system`, not in `messages`"@),
        )
    } else {
        match blocks_json(blocks, 0, Seq::empty(), unsigned, context, wire) {
            Err(error) => Err(error),
            Ok(blocks) => Ok(
                json::obj2(
                    "role"@,
                    JsonView::Str(
                        if role == MessageRole::Assistant {
                            "assistant"@
                        } else {
                            "user"@
                        },
                    ),
                    "content"@,
                    JsonView::Array(blocks),
                ),
            ),
        }
    }
}

fn encode_message(
    blocks: &Vec<&ContentBlock>,
    role: MessageRole,
    unsigned: bool,
    context: &CodecContext,
    wire: EncodeRequest,
) -> (result: Result<Json, LlmError>)
    ensures
        views::res(result) == message_json(
            views::plain(blocks@),
            role,
            unsigned,
            *context,
            wire,
        ),
{
    if role == MessageRole::System {
        return Err(
            error::invalid("the system prompt belongs in `system`, not in `messages`"),
        );
    }
    let blocks = encode_blocks(blocks, unsigned, context, wire)?;
    let name = if role == MessageRole::Assistant {
        "assistant"
    } else {
        "user"
    };
    Ok(json::object2("role", json::string(name), "content", Json::Array(blocks)))
}

/// The messages from the `m`th on, after those before.
pub open spec fn messages_json(
    before: Seq<JsonView>,
    m: int,
    unsigned: bool,
    context: CodecContext,
    wire: EncodeRequest,
) -> Result<Seq<JsonView>, LlmErrorView>
    decreases wire.request.messages@.len() - m,
{
    if m < 0 || m >= wire.request.messages@.len() {
        Ok(before)
    } else {
        match message_json(
            input::message_blocks(wire, m),
            wire.request.messages@[m].role,
            unsigned,
            context,
            wire,
        ) {
            Err(error) => Err(error),
            Ok(message) => messages_json(before.push(message), m + 1, unsigned, context, wire),
        }
    }
}

fn encode_messages(unsigned: bool, context: &CodecContext, wire: EncodeRequest) -> (result: Result<
    Vec<Json>,
    LlmError,
>)
    ensures
        views::res(result) == messages_json(Seq::empty(), 0, unsigned, *context, wire),
{
    let mut out: Vec<Json> = Vec::new();
    let mut m: usize = 0;
    while m < wire.request.messages.len()
        invariant
            m <= wire.request.messages@.len(),
            messages_json(Seq::empty(), 0, unsigned, *context, wire) == messages_json(
                out.deep_view(),
                m as int,
                unsigned,
                *context,
                wire,
            ),
        decreases wire.request.messages.len() - m,
    {
        let role = wire.request.messages[m].role;
        let blocks = wire.message(m);
        let message = encode_message(&blocks, role, unsigned, context, wire)?;
        out.push(message);
        m = m + 1;
    }
    Ok(out)
}

/// A part of the system prompt, which says whether it is cacheable.
pub open spec fn system_json(block: SystemBlock) -> JsonView {
    if block.cacheable {
        json::obj3(
            "type"@,
            JsonView::Str("text"@),
            "text"@,
            JsonView::Str(block.text@),
            "cache_control"@,
            json::obj1("type"@, JsonView::Str("ephemeral"@)),
        )
    } else {
        json::obj2("type"@, JsonView::Str("text"@), "text"@, JsonView::Str(block.text@))
    }
}

/// The system prompt: a list beside the messages.
pub open spec fn systems_json(system: Seq<SystemBlock>) -> JsonView {
    JsonView::Array(Seq::new(system.len(), |i: int| system_json(system[i])))
}

fn encode_system(system: &Vec<SystemBlock>) -> (json: Json)
    ensures
        json@ == systems_json(system@),
{
    let mut items: Vec<Json> = Vec::new();
    let mut i: usize = 0;
    while i < system.len()
        invariant
            i <= system.len(),
            items@.len() == i,
            forall|k: int| 0 <= k < i ==> (#[trigger] items@[k])@ == system_json(system@[k]),
        decreases system.len() - i,
    {
        let text = json::string(&system[i].text);
        let block = if system[i].cacheable {
            json::object3(
                "type",
                json::string("text"),
                "text",
                text,
                "cache_control",
                json::object1("type", json::string("ephemeral")),
            )
        } else {
            json::object2("type", json::string("text"), "text", text)
        };
        items.push(block);
        i = i + 1;
    }
    let json = Json::Array(items);
    assert(json@->Array_0 =~= systems_json(system@)->Array_0);
    json
}

/// A tool as this wire declares it.
pub open spec fn tool_json(tool: ToolSpec) -> JsonView {
    json::obj3(
        "name"@,
        JsonView::Str(tool.name@),
        "description"@,
        JsonView::Str(tool.description@),
        "input_schema"@,
        tool.input_schema@,
    )
}

pub open spec fn tools_json(tools: Seq<ToolSpec>) -> JsonView {
    JsonView::Array(Seq::new(tools.len(), |i: int| tool_json(tools[i])))
}

fn encode_tools(tools: &Vec<ToolSpec>) -> (json: Json)
    ensures
        json@ == tools_json(tools@),
{
    let mut items: Vec<Json> = Vec::new();
    let mut i: usize = 0;
    while i < tools.len()
        invariant
            i <= tools.len(),
            items@.len() == i,
            forall|k: int| 0 <= k < i ==> (#[trigger] items@[k])@ == tool_json(tools@[k]),
        decreases tools.len() - i,
    {
        items.push(
            json::object3(
                "name",
                json::string(&tools[i].name),
                "description",
                json::string(&tools[i].description),
                "input_schema",
                tools[i].input_schema.dup(),
            ),
        );
        i = i + 1;
    }
    let json = Json::Array(items);
    assert(json@->Array_0 =~= tools_json(tools@)->Array_0);
    json
}

/// The caller's tool selection.
pub open spec fn choice_json(choice: ToolChoice) -> JsonView {
    match choice {
        ToolChoice::Auto => json::obj1("type"@, JsonView::Str("auto"@)),
        ToolChoice::Any => json::obj1("type"@, JsonView::Str("any"@)),
        ToolChoice::Forbidden => json::obj1("type"@, JsonView::Str("none"@)),
        ToolChoice::Tool { name } => json::obj2(
            "type"@,
            JsonView::Str("tool"@),
            "name"@,
            JsonView::Str(name@),
        ),
    }
}

fn encode_tool_choice(choice: &ToolChoice) -> (json: Json)
    ensures
        json@ == choice_json(*choice),
{
    match choice {
        ToolChoice::Auto => json::object1("type", json::string("auto")),
        ToolChoice::Any => json::object1("type", json::string("any")),
        ToolChoice::Forbidden => json::object1("type", json::string("none")),
        ToolChoice::Tool { name } => json::object2(
            "type",
            json::string("tool"),
            "name",
            json::string(name),
        ),
    }
}

/// The limit of a request.
pub open spec fn limit_of(req: CompletionRequest) -> u64 {
    match req.max_tokens {
        Some(max) => max as u64,
        None => DEFAULT_MAX_TOKENS,
    }
}

/// The body that the request itself makes.
pub open spec fn body_of(req: CompletionRequest, messages: Seq<JsonView>, context: CodecContext) -> Entries {
    let limited = json::put(
        json::put(Seq::empty(), "model"@, JsonView::Str(context.request_model@)),
        "max_tokens"@,
        json::uint_view(limit_of(req)),
    );
    let instructed = if req.system@.len() == 0 {
        limited
    } else {
        json::put(limited, "system"@, systems_json(req.system@))
    };
    let spoken = json::put(instructed, "messages"@, JsonView::Array(messages));
    let warm = match req.temperature {
        Some(t) => json::put(spoken, "temperature"@, JsonView::Number(t@)),
        None => spoken,
    };
    let stopped = if req.stop_sequences@.len() == 0 {
        warm
    } else {
        json::put(warm, "stop_sequences"@, json::text_array(req.stop_sequences.deep_view()))
    };
    let streamed = if context.stream {
        json::put(stopped, "stream"@, JsonView::Bool(true))
    } else {
        stopped
    };
    if req.tools@.len() == 0 {
        streamed
    } else {
        json::put(
            json::put(streamed, "tools"@, tools_json(req.tools@)),
            "tool_choice"@,
            choice_json(req.tool_choice),
        )
    }
}

fn build_body(req: &CompletionRequest, messages: Vec<Json>, context: &CodecContext) -> (body: Vec<
    (String, Json),
>)
    ensures
        body.deep_view() == body_of(*req, messages.deep_view(), *context),
{
    let limit = match req.max_tokens {
        Some(max) => max as u64,
        None => DEFAULT_MAX_TOKENS,
    };
    let mut body = json::fields();
    json::set(&mut body, "model", json::string(&context.request_model));
    json::set(&mut body, "max_tokens", json::uint(limit));
    if req.system.len() > 0 {
        json::set(&mut body, "system", encode_system(&req.system));
    }
    json::set(&mut body, "messages", Json::Array(messages));
    if let Some(t) = &req.temperature {
        json::set(&mut body, "temperature", Json::Number(t.dup()));
    }
    if req.stop_sequences.len() > 0 {
        json::set(&mut body, "stop_sequences", json::strings(&req.stop_sequences));
    }
    if context.stream {
        json::set(&mut body, "stream", Json::Bool(true));
    }
    if req.tools.len() > 0 {
        json::set(&mut body, "tools", encode_tools(&req.tools));
        json::set(&mut body, "tool_choice", encode_tool_choice(&req.tool_choice));
    }
    body
}

/// The version of the API that a profile speaks.
pub open spec fn api_version(profile: ProviderProfile, default: Seq<char>) -> Seq<char> {
    match json::str_at(profile.extra@, "api_version"@) {
        Some(version) => version,
        None => default,
    }
}

pub fn version_of<'a>(profile: &'a ProviderProfile, default: &'a str) -> (version: &'a str)
    ensures
        version@ == api_version(*profile, default@),
{
    match profile.extra.str_at("api_version") {
        Some(version) => version,
        None => default,
    }
}

/// The betas that a profile lists.
pub open spec fn listed(profile: ProviderProfile) -> Seq<Seq<char>> {
    match json::array_of(json::at(profile.extra@, "betas"@)) {
        Some(items) => file_search_decode::texts_of(items, 0, Seq::empty()),
        None => Seq::empty(),
    }
}

fn listed_betas(profile: &ProviderProfile) -> (betas: Vec<String>)
    ensures
        betas.deep_view() == listed(*profile),
{
    let mut out: Vec<String> = Vec::new();
    assert(out.deep_view() =~= Seq::<Seq<char>>::empty());
    if let Some(betas) = profile.extra.get("betas") {
        if let Some(items) = betas.as_array() {
            file_search_decode::push_texts(items, &mut out);
        }
    }
    out
}

/// The headers of every request. The betas accumulate in one of them: a request
/// that needs two keeps both.
pub open spec fn base_headers(profile: ProviderProfile) -> extras::HeaderViews {
    let headers = seq![
        ("content-type"@, "application/json"@),
        (
            "anthropic-version"@,
            api_version(profile, extras::DEFAULT_ANTHROPIC_API_VERSION@),
        ),
    ];
    if listed(profile).len() == 0 {
        headers
    } else {
        headers.push(("anthropic-beta"@, text::joined(listed(profile), ","@)))
    }
}

fn begin_headers(profile: &ProviderProfile) -> (headers: Vec<(String, String)>)
    ensures
        headers.deep_view() == base_headers(*profile),
{
    let mut headers: Vec<(String, String)> = Vec::new();
    headers.push(("content-type".to_owned(), "application/json".to_owned()));
    headers.push(
        (
            "anthropic-version".to_owned(),
            version_of(profile, extras::DEFAULT_ANTHROPIC_API_VERSION).to_owned(),
        ),
    );
    let betas = listed_betas(profile);
    assert(betas.deep_view().len() == betas.len());
    if betas.len() > 0 {
        headers.push(("anthropic-beta".to_owned(), text::join(&betas, ",")));
    }
    assert(headers.deep_view() =~= base_headers(*profile));
    headers
}

/// The request of the Messages wire.
pub open spec fn encoded(wire: EncodeRequest, context: CodecContext) -> Result<
    WireRequestView,
    LlmErrorView,
> {
    let req = *wire.request;
    let profile = context.profile;
    let continuation = codecs::continuation_error(req, ProtocolFamily::AnthropicMessages);
    if continuation is Some {
        Err(continuation->0)
    } else if req.file_search is Some {
        Err(
            error::unsupported_view(
                "hosted file search is supported only on Qwen Responses profiles"@,
            ),
        )
    } else {
        match messages_json(
            Seq::empty(),
            0,
            profile::flag_of(profile, "supports_unsigned_thinking"@),
            context,
            wire,
        ) {
            Err(error) => Err(error),
            Ok(messages) => match web_search::with_search(
                req,
                profile,
                body_of(req, messages, context),
            ) {
                Err(error) => Err(error),
                Ok(body) => match inference::applied(req, context, body, base_headers(profile)) {
                    Err(error) => Err(error),
                    Ok((body, headers)) => Ok(
                        WireRequestView {
                            url: text::without_trailing(profile.base_url@, '/')
                                + "/v1/messages"@,
                            headers: extras::with_extra_headers(profile, headers).0,
                            body: JsonView::Object(extras::with_extra_body(profile, body).0),
                        },
                    ),
                },
            },
        }
    }
}

pub fn request(wire: EncodeRequest, context: &CodecContext) -> (result: Result<
    WireRequest,
    LlmError,
>)
    ensures
        views::res(result) == encoded(wire, *context),
{
    let req = wire.request;
    let profile = &context.profile;
    codecs::reject_responses_continuation(req, ProtocolFamily::AnthropicMessages)?;
    if req.file_search.is_some() {
        return Err(
            error::unsupported("hosted file search is supported only on Qwen Responses profiles"),
        );
    }
    let messages = encode_messages(
        profile::flag(profile, "supports_unsigned_thinking"),
        context,
        wire,
    )?;
    let body = web_search::apply(req, profile, build_body(req, messages, context))?;
    let draft = inference::apply(
        req,
        context,
        Draft { body, headers: begin_headers(profile) },
    )?;
    let mut body = draft.body;
    let mut headers = draft.headers;
    extras::merge_body(profile, &mut body);
    extras::merge_headers(profile, &mut headers);
    Ok(
        WireRequest {
            url: text::cat2(&text::trim_end_char(&profile.base_url, '/'), "/v1/messages"),
            headers,
            body: Json::Object(body),
        },
    )
}

/// Unsigned thinking is never sent to an endpoint that does not take it: such a
/// request is refused, wherever the block stands.
pub proof fn unsigned_thinking_is_refused(
    wire: EncodeRequest,
    context: CodecContext,
    m: int,
    b: int,
)
    requires
        0 <= m < wire.request.messages@.len(),
        0 <= b < input::message_blocks(wire, m).len(),
        input::message_blocks(wire, m)[b] is Thinking,
        input::message_blocks(wire, m)[b]->Thinking_signature is None,
        !profile::flag_of(context.profile, "supports_unsigned_thinking"@),
    ensures
        encoded(wire, context) is Err,
{
    lemma_message_refused(Seq::empty(), 0, context, wire, m, b);
}

proof fn lemma_block_refused(
    blocks: Seq<ContentBlock>,
    i: int,
    before: Seq<JsonView>,
    context: CodecContext,
    wire: EncodeRequest,
    b: int,
)
    requires
        0 <= i <= b < blocks.len(),
        blocks[b] is Thinking,
        blocks[b]->Thinking_signature is None,
    ensures
        blocks_json(blocks, i, before, false, context, wire) is Err,
    decreases b - i,
{
    if i < b {
        match block_json(blocks[i], false, context, wire) {
            Ok(block) => {
                lemma_block_refused(blocks, i + 1, before.push(block), context, wire, b);
            },
            Err(_) => {},
        }
    }
}

proof fn lemma_message_refused(
    before: Seq<JsonView>,
    from: int,
    context: CodecContext,
    wire: EncodeRequest,
    m: int,
    b: int,
)
    requires
        0 <= from <= m < wire.request.messages@.len(),
        0 <= b < input::message_blocks(wire, m).len(),
        input::message_blocks(wire, m)[b] is Thinking,
        input::message_blocks(wire, m)[b]->Thinking_signature is None,
    ensures
        messages_json(before, from, false, context, wire) is Err,
    decreases m - from,
{
    let blocks = input::message_blocks(wire, from);
    if from == m {
        lemma_block_refused(blocks, 0, Seq::empty(), context, wire, b);
    } else {
        match message_json(blocks, wire.request.messages@[from].role, false, context, wire) {
            Ok(message) => {
                lemma_message_refused(before.push(message), from + 1, context, wire, m, b);
            },
            Err(_) => {},
        }
    }
}

} // verus!
