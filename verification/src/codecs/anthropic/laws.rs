//! What the Messages wire keeps of a conversation: what is sent says what the request
//! says, and what is read back is what was sent.

use crate::codecs::anthropic::{decode, encode, stream};
use crate::codecs::input;
use crate::codecs::laws;
use crate::codecs::web_search_decode;
use crate::codecs::{CodecContext, EncodeRequest};
use crate::encoding;
use crate::json::{self, JsonView};
use crate::protocol::profile;
use crate::protocol::{
    AttachmentRef, CompletionRequest, ContentBlock, ContentBlockView, DocumentSource, ImageSource,
    MessageRole, ProviderProfile, SystemBlock, ToolChoice, ToolSpec, VideoSource,
};
use crate::transport::HttpResponse;
use vstd::prelude::*;

verus! {

broadcast use {crate::views::group_views, crate::json::group_json};

/// The `source` of a block has these texts.
pub open spec fn sourced(sent: JsonView, kind: Seq<char>, key: Seq<char>, value: Seq<char>) -> bool {
    &&& json::str_in(json::member2(sent, "source"@, "type"@)) == Some(kind)
    &&& json::str_in(json::member2(sent, "source"@, key)) == Some(value)
}

/// The bytes of an attachment stand in the block, in base64.
pub open spec fn attached(wire: EncodeRequest, attachment: AttachmentRef, sent: JsonView) -> bool {
    &&& sourced(sent, "base64"@, "media_type"@, attachment.media_type@)
    &&& wire.media matches Some(media) && exists|i: int|
        0 <= i < media@.len() && profile::same_attachment(
            *(#[trigger] media@[i]).attachment,
            attachment,
        ) && media@[i].bytes@.len() == attachment.size_bytes && sourced(
            sent,
            "base64"@,
            "data"@,
            encoding::base64_encoded(media@[i].bytes@),
        )
}

pub open spec fn shows_image(wire: EncodeRequest, source: ImageSource, sent: JsonView) -> bool {
    &&& json::str_at(sent, "type"@) == Some("image"@)
    &&& match source {
        ImageSource::Base64 { media_type, data } => sourced(
            sent,
            "base64"@,
            "media_type"@,
            media_type@,
        ) && sourced(sent, "base64"@, "data"@, data@),
        ImageSource::Url { url } => sourced(sent, "url"@, "url"@, url@),
        ImageSource::ProviderFile { file } => sourced(sent, "file"@, "file_id"@, file.file_id@),
        ImageSource::Attachment { attachment } => attached(wire, attachment, sent),
    }
}

pub open spec fn shows_document(
    wire: EncodeRequest,
    source: DocumentSource,
    title: Option<Seq<char>>,
    sent: JsonView,
) -> bool {
    &&& json::str_at(sent, "type"@) == Some("document"@)
    &&& json::str_at(sent, "title"@) == title
    &&& match source {
        DocumentSource::Base64 { media_type, data } => sourced(
            sent,
            "base64"@,
            "media_type"@,
            media_type@,
        ) && sourced(sent, "base64"@, "data"@, data@),
        DocumentSource::Text { media_type, data } => sourced(
            sent,
            "text"@,
            "media_type"@,
            media_type@,
        ) && sourced(sent, "text"@, "data"@, data@),
        DocumentSource::Url { url } => sourced(sent, "url"@, "url"@, url@),
        DocumentSource::ProviderFile { file } => sourced(sent, "file"@, "file_id"@, file.file_id@),
        DocumentSource::Attachment { attachment } => attached(wire, attachment, sent),
    }
}

/// What is read off a block on the wire is what the block of the conversation says.
pub open spec fn carries(wire: EncodeRequest, block: ContentBlock, sent: JsonView) -> bool {
    match block {
        ContentBlock::Text { text, .. } => {
            &&& json::str_at(sent, "type"@) == Some("text"@)
            &&& json::str_at(sent, "text"@) == Some(text@)
        },
        ContentBlock::Thinking { text, signature } => {
            &&& json::str_at(sent, "type"@) == Some("thinking"@)
            &&& json::str_at(sent, "thinking"@) == Some(text@)
            &&& json::str_at(sent, "signature"@) == signature.deep_view()
        },
        ContentBlock::RedactedThinking { data } => {
            &&& json::str_at(sent, "type"@) == Some("redacted_thinking"@)
            &&& json::str_at(sent, "data"@) == Some(data@)
        },
        ContentBlock::ToolUse { id, name, input, .. } => {
            &&& json::str_at(sent, "type"@) == Some("tool_use"@)
            &&& json::str_at(sent, "id"@) == Some(id@)
            &&& json::str_at(sent, "name"@) == Some(name@)
            &&& json::member(sent, "input"@) == Some(input@)
        },
        ContentBlock::ToolResult { tool_use_id, content, is_error, blocks } => {
            &&& json::str_at(sent, "type"@) == Some("tool_result"@)
            &&& json::str_at(sent, "tool_use_id"@) == Some(tool_use_id@)
            &&& is_error <==> json::member(sent, "is_error"@) == Some(JsonView::Bool(true))
            &&& !is_error <==> json::member(sent, "is_error"@) is None
            &&& json::member(sent, "content"@) == Some(
                match blocks.deep_view() {
                    Some(blocks) => JsonView::Array(blocks),
                    None => JsonView::Str(content@),
                },
            )
        },
        ContentBlock::Image { source } => shows_image(wire, source, sent),
        ContentBlock::Document { source, title } => shows_document(
            wire,
            source,
            title.deep_view(),
            sent,
        ),
        ContentBlock::Video { source } => {
            &&& json::str_at(sent, "type"@) == Some("video"@)
            &&& source matches VideoSource::ProviderFile { file } && sourced(
                sent,
                "url"@,
                "url"@,
                "mm_file://"@ + file.file_id@,
            )
        },
        ContentBlock::ProviderContent { value, .. } => sent == value@,
    }
}

/// A prepared attachment is one of those that the request brings.
proof fn lemma_prepared<'a>(
    media: Seq<input::PreparedMedia<'a>>,
    attachment: AttachmentRef,
    i: int,
)
    requires
        0 <= i,
    ensures
        input::prepared(media, attachment, i) matches Some(found) ==> exists|k: int|
            i <= k < media.len() && #[trigger] media[k] == found && profile::same_attachment(
                *media[k].attachment,
                attachment,
            ),
    decreases media.len() - i,
{
    if i < media.len() && !profile::same_attachment(*media[i].attachment, attachment) {
        lemma_prepared(media, attachment, i + 1);
    }
}

/// The media of a block of the conversation stand in what is sent for it.
#[verifier::spinoff_prover]
#[verifier::rlimit(40)]
proof fn lemma_media(
    block: ContentBlock,
    unsigned: bool,
    context: CodecContext,
    wire: EncodeRequest,
)
    requires
        input::attachment_of(block) is Some,
    ensures
        encode::block_json(block, unsigned, context, wire) matches Ok(sent) ==> carries(
            wire,
            block,
            sent,
        ),
{
    broadcast use json::entry_after_put;

    lemma_names();
    let attachment = input::attachment_of(block)->0;
    if let Ok(sent) = encode::block_json(block, unsigned, context, wire) {
        lemma_prepared(input::media_of(wire), attachment, 0);
        let media = input::prepared(input::media_of(wire), attachment, 0)->0;
        let list = wire.media->0;
        let k = choose|k: int|
            0 <= k < list@.len() && #[trigger] list@[k] == media && profile::same_attachment(
                *list@[k].attachment,
                attachment,
            );
        assert(list@[k] == media);
        assert(sourced(sent, "base64"@, "data"@, encoding::base64_encoded(media.bytes@)));
        assert(sourced(sent, "base64"@, "media_type"@, attachment.media_type@));
        assert(attached(wire, attachment, sent));
    }
}

#[verifier::spinoff_prover]
#[verifier::rlimit(40)]
proof fn lemma_block(
    block: ContentBlock,
    unsigned: bool,
    context: CodecContext,
    wire: EncodeRequest,
)
    ensures
        encode::block_json(block, unsigned, context, wire) matches Ok(sent) ==> carries(
            wire,
            block,
            sent,
        ),
{
    broadcast use json::entry_after_put;

    if input::attachment_of(block) is Some {
        lemma_media(block, unsigned, context, wire);
    } else {
        lemma_names();
        match block {
            ContentBlock::Image { source } => {},
            ContentBlock::Document { source, title } => {},
            ContentBlock::Video { source } => {},
            ContentBlock::ToolResult { tool_use_id, content, is_error, blocks } => {},
            _ => {},
        }
    }
}

proof fn lemma_blocks(
    blocks: Seq<ContentBlock>,
    i: int,
    before: Seq<JsonView>,
    unsigned: bool,
    context: CodecContext,
    wire: EncodeRequest,
)
    requires
        before.len() == i <= blocks.len(),
        forall|b: int| 0 <= b < i ==> carries(wire, blocks[b], #[trigger] before[b]),
    ensures
        encode::blocks_json(blocks, i, before, unsigned, context, wire) matches Ok(sent)
            ==> sent.len() == blocks.len() && forall|b: int|
            0 <= b < blocks.len() ==> carries(wire, blocks[b], #[trigger] sent[b]),
    decreases blocks.len() - i,
{
    if i < blocks.len() {
        lemma_block(blocks[i], unsigned, context, wire);
        if let Ok(block) = encode::block_json(blocks[i], unsigned, context, wire) {
            lemma_blocks(blocks, i + 1, before.push(block), unsigned, context, wire);
        }
    }
}

/// A message on the wire has the speaker and the blocks of the message that it was made
/// of, one for one and in order.
pub open spec fn says(wire: EncodeRequest, m: int, sent: JsonView) -> bool {
    let blocks = input::message_blocks(wire, m);
    let content = json::items_in(json::member(sent, "content"@));
    &&& wire.request.messages@[m].role == MessageRole::Assistant <==> json::str_at(sent, "role"@)
        == Some("assistant"@)
    &&& wire.request.messages@[m].role != MessageRole::Assistant <==> json::str_at(sent, "role"@)
        == Some("user"@)
    &&& content.len() == blocks.len()
    &&& forall|b: int| 0 <= b < blocks.len() ==> carries(wire, blocks[b], #[trigger] content[b])
}

proof fn lemma_message(wire: EncodeRequest, m: int, unsigned: bool, context: CodecContext)
    ensures
        encode::message_json(
            input::message_blocks(wire, m),
            wire.request.messages@[m].role,
            unsigned,
            context,
            wire,
        ) matches Ok(sent) ==> says(wire, m, sent),
{
    broadcast use json::entry_after_put;

    lemma_names();
    lemma_blocks(input::message_blocks(wire, m), 0, Seq::empty(), unsigned, context, wire);
}

proof fn lemma_messages(
    before: Seq<JsonView>,
    m: int,
    unsigned: bool,
    context: CodecContext,
    wire: EncodeRequest,
)
    requires
        before.len() == m <= wire.request.messages@.len(),
        forall|k: int| 0 <= k < m ==> says(wire, k, #[trigger] before[k]),
    ensures
        encode::messages_json(before, m, unsigned, context, wire) matches Ok(sent) ==> sent.len()
            == wire.request.messages@.len() && forall|k: int|
            0 <= k < sent.len() ==> says(wire, k, #[trigger] sent[k]),
    decreases wire.request.messages@.len() - m,
{
    if m < wire.request.messages@.len() {
        lemma_message(wire, m, unsigned, context);
        if let Ok(sent) = encode::message_json(
            input::message_blocks(wire, m),
            wire.request.messages@[m].role,
            unsigned,
            context,
            wire,
        ) {
            lemma_messages(before.push(sent), m + 1, unsigned, context, wire);
        }
    }
}

/// The body that is sent holds the conversation: as many messages, in order, each with
/// its speaker and its blocks, and in each block what the block says. In particular a
/// tool result is marked as an error if and only if it is one.
pub proof fn a_request_carries_the_conversation(wire: EncodeRequest, context: CodecContext)
    ensures
        encode::encoded(wire, context) matches Ok(sent) ==> {
            let messages = json::items_in(json::member(sent.body, "messages"@));
            &&& messages.len() == wire.request.messages@.len()
            &&& forall|m: int| 0 <= m < messages.len() ==> says(wire, m, #[trigger] messages[m])
        },
{
    broadcast use json::entry_after_put;

    if let Ok(sent) = encode::encoded(wire, context) {
        lemma_names();
        let unsigned = profile::flag_of(context.profile, "supports_unsigned_thinking"@);
        lemma_messages(Seq::empty(), 0, unsigned, context, wire);
        let messages = encode::messages_json(Seq::empty(), 0, unsigned, context, wire)->Ok_0;
        let body = encode::body_of(*wire.request, messages, context);
        assert(json::entry(body, "messages"@) == Some(JsonView::Array(messages)));
        laws::lemma_body_keeps(
            *wire.request,
            context,
            body,
            encode::base_headers(context.profile),
            "messages"@,
        );
    }
}

/// A block of the system prompt on the wire.
pub open spec fn instructs(block: SystemBlock, sent: JsonView) -> bool {
    &&& json::str_at(sent, "type"@) == Some("text"@)
    &&& json::str_at(sent, "text"@) == Some(block.text@)
    &&& block.cacheable <==> json::str_in(json::member2(sent, "cache_control"@, "type"@)) == Some(
        "ephemeral"@,
    )
    &&& !block.cacheable <==> json::member(sent, "cache_control"@) is None
}

/// A tool on the wire.
pub open spec fn offers(tool: ToolSpec, sent: JsonView) -> bool {
    &&& json::str_at(sent, "name"@) == Some(tool.name@)
    &&& json::str_at(sent, "description"@) == Some(tool.description@)
    &&& json::member(sent, "input_schema"@) == Some(tool.input_schema@)
}

/// A tool choice on the wire.
pub open spec fn chooses(choice: ToolChoice, sent: JsonView) -> bool {
    &&& choice is Auto <==> json::str_at(sent, "type"@) == Some("auto"@)
    &&& choice is Any <==> json::str_at(sent, "type"@) == Some("any"@)
    &&& choice is Forbidden <==> json::str_at(sent, "type"@) == Some("none"@)
    &&& choice is Tool <==> json::str_at(sent, "type"@) == Some("tool"@)
    &&& choice matches ToolChoice::Tool { name } ==> json::str_at(sent, "name"@) == Some(name@)
}

#[verifier::spinoff_prover]
proof fn lemma_parts(req: CompletionRequest)
    ensures
        forall|i: int|
            0 <= i < req.system@.len() ==> instructs(
                req.system@[i],
                #[trigger] json::items_in(Some(encode::systems_json(req.system@)))[i],
            ),
        forall|i: int|
            0 <= i < req.tools@.len() ==> offers(
                req.tools@[i],
                #[trigger] json::items_in(Some(encode::tools_json(req.tools@)))[i],
            ),
        chooses(req.tool_choice, encode::choice_json(req.tool_choice)),
{
    broadcast use json::entry_after_put;

    lemma_names();
}

/// The settings of a request are sent as they are: the limit, the system prompt block by
/// block, the temperature, the stop sequences, whether to stream, and, where no hosted
/// search adds to them, the tools one by one and the choice among them.
#[verifier::spinoff_prover]
#[verifier::rlimit(60)]
pub proof fn a_request_carries_its_settings(wire: EncodeRequest, context: CodecContext)
    ensures
        encode::encoded(wire, context) matches Ok(sent) ==> {
            let req = *wire.request;
            let system = json::items_in(json::member(sent.body, "system"@));
            let tools = json::items_in(json::member(sent.body, "tools"@));
            let stops = json::items_in(json::member(sent.body, "stop_sequences"@));
            &&& req.max_tokens matches Some(max) ==> json::u64_at(sent.body, "max_tokens"@) == Some(
                max as u64,
            )
            &&& req.max_tokens is None ==> json::u64_at(sent.body, "max_tokens"@) == Some(4096u64)
            &&& req.system@.len() > 0 ==> system.len() == req.system@.len() && forall|i: int|
                0 <= i < system.len() ==> instructs(req.system@[i], #[trigger] system[i])
            &&& req.temperature matches Some(t) ==> json::member(sent.body, "temperature"@) == Some(
                JsonView::Number(t@),
            )
            &&& req.stop_sequences@.len() > 0 ==> stops.len() == req.stop_sequences@.len()
                && forall|i: int|
                0 <= i < stops.len() ==> #[trigger] stops[i] == JsonView::Str(
                    req.stop_sequences@[i]@,
                )
            &&& context.stream ==> json::member(sent.body, "stream"@) == Some(JsonView::Bool(true))
            &&& req.tools@.len() > 0 && req.web_search is None ==> {
                &&& tools.len() == req.tools@.len()
                &&& forall|i: int| 0 <= i < tools.len() ==> offers(req.tools@[i], #[trigger] tools[i])
                &&& json::member(sent.body, "tool_choice"@) matches Some(choice) && chooses(
                    req.tool_choice,
                    choice,
                )
            }
        },
{
    broadcast use json::entry_after_put;

    if let Ok(sent) = encode::encoded(wire, context) {
        lemma_names();
        let req = *wire.request;
        let headers = encode::base_headers(context.profile);
        let unsigned = profile::flag_of(context.profile, "supports_unsigned_thinking"@);
        let messages = encode::messages_json(Seq::empty(), 0, unsigned, context, wire)->Ok_0;
        let body = encode::body_of(req, messages, context);
        lemma_parts(req);
        laws::lemma_body_keeps(req, context, body, headers, "max_tokens"@);
        if req.system@.len() > 0 {
            laws::lemma_body_keeps(req, context, body, headers, "system"@);
        }
        if req.temperature is Some {
            laws::lemma_body_keeps(req, context, body, headers, "temperature"@);
        }
        if req.stop_sequences@.len() > 0 {
            laws::lemma_body_keeps(req, context, body, headers, "stop_sequences"@);
        }
        if context.stream {
            laws::lemma_body_keeps(req, context, body, headers, "stream"@);
        }
        if req.tools@.len() > 0 && req.web_search is None {
            laws::lemma_body_keeps(req, context, body, headers, "tools"@);
            laws::lemma_body_keeps(req, context, body, headers, "tool_choice"@);
        }
    }
}

/// A block that a reply may hold, and that a later request sends back.
pub open spec fn replayed(block: ContentBlock) -> bool {
    match block {
        ContentBlock::Text { thought_signature, .. } => thought_signature is None,
        ContentBlock::Thinking { .. } => true,
        ContentBlock::RedactedThinking { .. } => true,
        ContentBlock::ToolUse { provider_id, thought_signature, .. } => provider_id is None
            && thought_signature is None,
        _ => false,
    }
}

/// A value on the wire that cites no source of a search.
pub open spec fn uncited(sent: JsonView) -> bool {
    json::member(sent, "citations"@) is None
}

/// A value of a reply says a block.
pub open spec fn heard(wire: EncodeRequest, block: ContentBlock, value: JsonView) -> bool {
    replayed(block) && uncited(value) && carries(wire, block, value)
}

#[verifier::spinoff_prover]
proof fn lemma_read(wire: EncodeRequest, block: ContentBlock, sent: JsonView)
    requires
        heard(wire, block, sent),
    ensures
        decode::block_of(sent) == Some(block.deep_view()),
{
    lemma_names();
    assert(!web_search_decode::cites_search(sent));
}

proof fn lemma_reads(
    wire: EncodeRequest,
    blocks: Seq<ContentBlock>,
    values: Seq<JsonView>,
    i: int,
    before: Seq<ContentBlockView>,
)
    requires
        blocks.len() == values.len(),
        before.len() == i <= values.len(),
        forall|k: int|
            0 <= k < values.len() ==> heard(wire, blocks[k], #[trigger] values[k]),
        forall|k: int| 0 <= k < i ==> #[trigger] before[k] == blocks[k].deep_view(),
    ensures
        decode::blocks_of(values, i, before).len() == blocks.len(),
        forall|k: int|
            0 <= k < blocks.len() ==> #[trigger] decode::blocks_of(values, i, before)[k]
                == blocks[k].deep_view(),
    decreases values.len() - i,
{
    if i < values.len() {
        lemma_read(wire, blocks[i], values[i]);
        lemma_reads(wire, blocks, values, i + 1, before.push(blocks[i].deep_view()));
    }
}

/// A reply is decoded to what it says: where the values of its `content` say these
/// blocks, these blocks are the content, one for one and in order.
pub proof fn a_reply_is_read_as_it_was_said(
    wire: EncodeRequest,
    blocks: Seq<ContentBlock>,
    response: HttpResponse,
    profile: ProviderProfile,
)
    requires
        200 <= response.status < 300,
        json::member(json::bytes_value(response.body@), "content"@) matches Some(
            JsonView::Array(values),
        ) && values.len() == blocks.len() && forall|k: int|
            0 <= k < values.len() ==> heard(wire, blocks[k], #[trigger] values[k]),
    ensures
        decode::decoded(response, profile) matches Ok(reply) && {
            &&& reply.content.len() == blocks.len()
            &&& forall|k: int|
                0 <= k < blocks.len() ==> #[trigger] reply.content[k] == blocks[k].deep_view()
        },
{
    let values = json::items_in(
        json::member(json::bytes_value(response.body@), "content"@),
    );
    lemma_reads(wire, blocks, values, 0, Seq::empty());
}

/// What a reply says of itself: which model it is from, why it stopped, and what it
/// counts.
#[verifier::spinoff_prover]
pub proof fn a_reply_tells_its_model_stop_and_usage(response: HttpResponse, profile: ProviderProfile)
    ensures
        decode::decoded(response, profile) matches Ok(reply) ==> {
            let body = json::bytes_value(response.body@);
            let stop = json::str_at(body, "stop_reason"@);
            &&& json::str_at(body, "model"@) matches Some(model) ==> reply.model == model
            &&& reply.stop_reason is ToolUse <==> stop == Some("tool_use"@)
            &&& reply.stop_reason is MaxTokens <==> stop == Some("max_tokens"@)
            &&& reply.stop_reason is StopSequence <==> stop == Some("stop_sequence"@)
            &&& reply.stop_reason is Refusal <==> stop == Some("refusal"@)
            &&& reply.stop_reason is EndTurn <==> stop is None || stop == Some("end_turn"@)
            &&& reply.usage.reported is Some <==> json::member(body, "usage"@) is Some
            &&& json::member(body, "usage"@) matches Some(usage) ==> {
                let counted = reply.usage.reported->0;
                &&& counted.input_tokens == json::count_in(json::member(usage, "input_tokens"@))
                &&& counted.output_tokens == json::count_in(json::member(usage, "output_tokens"@))
                &&& counted.cache_read_tokens == json::count_in(
                    json::member(usage, "cache_read_input_tokens"@),
                )
                &&& counted.cache_write_tokens == json::count_in(
                    json::member(usage, "cache_creation_input_tokens"@),
                )
            }
        },
{
    lemma_names();
}

/// A reply that is refused is an error that tells the cause: what the kind of the error
/// names, or, without one that is known, what the status stands for.
#[verifier::spinoff_prover]
pub proof fn a_refusal_tells_its_cause(response: HttpResponse, profile: ProviderProfile)
    requires
        !(200 <= response.status < 300),
    ensures
        decode::decoded(response, profile) matches Err(error) && {
            let body = json::bytes_value(response.body@);
            let kind = json::str_in(json::member2(body, "error"@, "type"@));
            &&& kind == Some("authentication_error"@) ==> error is Authentication
            &&& kind == Some("permission_error"@) ==> error is PermissionDenied
            &&& kind == Some("not_found_error"@) ==> error is ModelUnavailable
            &&& kind == Some("rate_limit_error"@) ==> error is RateLimited
            &&& kind == Some("overloaded_error"@) ==> error is Overloaded
            &&& kind == Some("api_error"@) ==> error is ProviderInternal
            &&& kind == Some("request_too_large"@) ==> error is RequestTooLarge
                || error is ContextOverflow
            &&& kind == Some("invalid_request_error"@) ==> error is InvalidRequest
                || error is ContextOverflow
            &&& kind is None && response.status == 401 ==> error is Authentication
            &&& kind is None && response.status == 403 ==> error is PermissionDenied
            &&& kind is None && response.status == 404 ==> error is ModelUnavailable
            &&& kind is None && response.status == 429 ==> error is RateLimited
            &&& kind is None && response.status == 400 ==> error is InvalidRequest
            &&& kind is None && response.status == 529 ==> error is Overloaded
            &&& kind is None && response.status == 500 ==> error is ProviderInternal
        },
{
    lemma_names();
}

/// A stream that reports an error is that error, told by its kind.
#[verifier::spinoff_prover]
pub proof fn a_reported_error_is_told(state: stream::AnthropicStreamView, root: JsonView)
    requires
        json::str_at(root, "type"@) == Some("error"@),
    ensures
        stream::with_root((state, Seq::empty()), root).1 matches Err(error) && {
            let kind = json::str_in(json::member2(root, "error"@, "type"@));
            &&& kind == Some("overloaded_error"@) ==> error is Overloaded
            &&& kind == Some("rate_limit_error"@) ==> error is RateLimited
            &&& kind == Some("authentication_error"@) ==> error is Authentication
            &&& kind == Some("api_error"@) ==> error is ProviderInternal
        },
{
    lemma_names();
}

/// What a reply of the Messages wire counts beside its tokens is what is reported: what
/// was written to the cache for an hour, what was thought, and what its tools were used.
pub proof fn a_reply_counts_its_tools(usage: JsonView)
    ensures
        ({
            let found = decode::usage_of(usage);
            let tools = json::at(usage, "server_tool_use"@);
            &&& json::u64_at(json::at(usage, "cache_creation"@), "ephemeral_1h_input_tokens"@) matches Some(
                n,
            ) ==> found.cache_write_1h_tokens == n
            &&& json::u64_at(json::at(usage, "output_tokens_details"@), "thinking_tokens"@) matches Some(
                n,
            ) ==> found.reasoning_tokens == n
            &&& json::u64_at(tools, "web_search_requests"@) matches Some(n) ==> (
            found.server_tool_usage matches Some(used) && used.web_search_requests == Some(n))
            &&& json::u64_at(tools, "file_search_requests"@) matches Some(n) ==> (
            found.server_tool_usage matches Some(used) && used.file_search_requests == Some(n))
            &&& json::member(usage, "server_tool_use"@) is None ==> found.server_tool_usage is None
        }),
{
}

/// The names on the wire, told apart.
#[verifier::spinoff_prover]
proof fn lemma_names()
    ensures
        ","@.len() == 1,
        "id"@.len() == 2,
        "any"@.len() == 3,
        "url"@.len() == 3,
        "any"@[0] == 'a',
        "url"@[0] == 'u',
        "auto"@.len() == 4,
        "data"@.len() == 4,
        "file"@.len() == 4,
        "name"@.len() == 4,
        "none"@.len() == 4,
        "role"@.len() == 4,
        "text"@.len() == 4,
        "tool"@.len() == 4,
        "type"@.len() == 4,
        "user"@.len() == 4,
        "auto"@[2] == 't',
        "data"@[2] == 't',
        "file"@[2] == 'l',
        "name"@[2] == 'm',
        "none"@[2] == 'n',
        "role"@[2] == 'l',
        "text"@[2] == 'x',
        "tool"@[2] == 'o',
        "type"@[2] == 'p',
        "user"@[2] == 'e',
        "auto"@[0] == 'a',
        "data"@[0] == 'd',
        "file"@[0] == 'f',
        "name"@[0] == 'n',
        "none"@[0] == 'n',
        "role"@[0] == 'r',
        "text"@[0] == 't',
        "tool"@[0] == 't',
        "type"@[0] == 't',
        "user"@[0] == 'u',
        "betas"@.len() == 5,
        "error"@.len() == 5,
        "image"@.len() == 5,
        "input"@.len() == 5,
        "model"@.len() == 5,
        "speed"@.len() == 5,
        "title"@.len() == 5,
        "tools"@.len() == 5,
        "usage"@.len() == 5,
        "video"@.len() == 5,
        "betas"@[0] == 'b',
        "error"@[0] == 'e',
        "image"@[0] == 'i',
        "input"@[0] == 'i',
        "model"@[0] == 'm',
        "speed"@[0] == 's',
        "title"@[0] == 't',
        "tools"@[0] == 't',
        "usage"@[0] == 'u',
        "video"@[0] == 'v',
        "betas"@[1] == 'e',
        "error"@[1] == 'r',
        "image"@[1] == 'm',
        "input"@[1] == 'n',
        "model"@[1] == 'o',
        "speed"@[1] == 'p',
        "title"@[1] == 'i',
        "tools"@[1] == 'o',
        "usage"@[1] == 's',
        "video"@[1] == 'i',
        "base64"@.len() == 6,
        "image/"@.len() == 6,
        "source"@.len() == 6,
        "stream"@.len() == 6,
        "system"@.len() == 6,
        "base64"@[1] == 'a',
        "image/"@[1] == 'm',
        "source"@[1] == 'o',
        "stream"@[1] == 't',
        "system"@[1] == 'y',
        "content"@.len() == 7,
        "file_id"@.len() == 7,
        "include"@.len() == 7,
        "minimax"@.len() == 7,
        "refusal"@.len() == 7,
        "content"@[0] == 'c',
        "file_id"@[0] == 'f',
        "include"@[0] == 'i',
        "minimax"@[0] == 'm',
        "refusal"@[0] == 'r',
        "document"@.len() == 8,
        "end_turn"@.len() == 8,
        "is_error"@.len() == 8,
        "messages"@.len() == 8,
        "thinking"@.len() == 8,
        "tool_use"@.len() == 8,
        "document"@[2] == 'c',
        "end_turn"@[2] == 'd',
        "is_error"@[2] == '_',
        "messages"@[2] == 's',
        "thinking"@[2] == 'i',
        "tool_use"@[2] == 'o',
        "api_error"@.len() == 9,
        "assistant"@.len() == 9,
        "citations"@.len() == 9,
        "ephemeral"@.len() == 9,
        "reasoning"@.len() == 9,
        "signature"@.len() == 9,
        "api_error"@[2] == 'i',
        "assistant"@[2] == 's',
        "citations"@[2] == 't',
        "ephemeral"@[2] == 'h',
        "reasoning"@[2] == 'a',
        "signature"@[2] == 'g',
        "max_tokens"@.len() == 10,
        "media_type"@.len() == 10,
        "minimax-m3"@.len() == 10,
        "mm_file://"@.len() == 10,
        "max_tokens"@[1] == 'a',
        "media_type"@[1] == 'e',
        "minimax-m3"@[1] == 'i',
        "mm_file://"@[1] == 'm',
        "api_version"@.len() == 11,
        "description"@.len() == 11,
        "serviceTier"@.len() == 11,
        "stop_reason"@.len() == 11,
        "temperature"@.len() == 11,
        "tool_choice"@.len() == 11,
        "tool_result"@.len() == 11,
        "tool_use_id"@.len() == 11,
        "api_version"@[7] == 's',
        "description"@[7] == 't',
        "serviceTier"@[7] == 'T',
        "stop_reason"@[7] == 'a',
        "temperature"@[7] == 't',
        "tool_choice"@[7] == 'o',
        "tool_result"@[7] == 's',
        "tool_use_id"@[7] == 'e',
        "api_version"@[0] == 'a',
        "description"@[0] == 'd',
        "serviceTier"@[0] == 's',
        "stop_reason"@[0] == 's',
        "temperature"@[0] == 't',
        "tool_choice"@[0] == 't',
        "tool_result"@[0] == 't',
        "tool_use_id"@[0] == 't',
        "/v1/messages"@.len() == 12,
        "content-type"@.len() == 12,
        "input_schema"@.len() == 12,
        "input_tokens"@.len() == 12,
        "message_stop"@.len() == 12,
        "service_tier"@.len() == 12,
        "/v1/messages"@[0] == '/',
        "content-type"@[0] == 'c',
        "input_schema"@[0] == 'i',
        "input_tokens"@[0] == 'i',
        "message_stop"@[0] == 'm',
        "service_tier"@[0] == 's',
        "/v1/messages"@[6] == 's',
        "content-type"@[6] == 't',
        "input_schema"@[6] == 's',
        "input_tokens"@[6] == 't',
        "message_stop"@[6] == 'e',
        "service_tier"@[6] == 'e',
        "cache_control"@.len() == 13,
        "message_delta"@.len() == 13,
        "message_start"@.len() == 13,
        "output_config"@.len() == 13,
        "output_tokens"@.len() == 13,
        "stop_sequence"@.len() == 13,
        "cache_control"@[10] == 'r',
        "message_delta"@[10] == 'l',
        "message_start"@[10] == 'a',
        "output_config"@[10] == 'f',
        "output_tokens"@[10] == 'e',
        "stop_sequence"@[10] == 'n',
        "anthropic-beta"@.len() == 14,
        "cache_creation"@.len() == 14,
        "stop_sequences"@.len() == 14,
        "anthropic-beta"@[0] == 'a',
        "cache_creation"@[0] == 'c',
        "stop_sequences"@[0] == 's',
        "enable_thinking"@.len() == 15,
        "not_found_error"@.len() == 15,
        "server_tool_use"@.len() == 15,
        "thinking_budget"@.len() == 15,
        "thinking_tokens"@.len() == 15,
        "enable_thinking"@[9] == 'i',
        "not_found_error"@[9] == '_',
        "server_tool_use"@[9] == 'o',
        "thinking_budget"@[9] == 'b',
        "thinking_tokens"@[9] == 't',
        "application/json"@.len() == 16,
        "generationConfig"@.len() == 16,
        "overloaded_error"@.len() == 16,
        "permission_error"@.len() == 16,
        "rate_limit_error"@.len() == 16,
        "reasoning_effort"@.len() == 16,
        "application/json"@[2] == 'p',
        "generationConfig"@[2] == 'n',
        "overloaded_error"@[2] == 'e',
        "permission_error"@[2] == 'r',
        "rate_limit_error"@[2] == 't',
        "reasoning_effort"@[2] == 'a',
        "anthropic-version"@.len() == 17,
        "redacted_thinking"@.len() == 17,
        "request_too_large"@.len() == 17,
        "anthropic-version"@[2] == 't',
        "redacted_thinking"@[2] == 'd',
        "request_too_large"@[2] == 'q',
        "content_block_stop"@.len() == 18,
        "web_search_options"@.len() == 18,
        "content_block_stop"@[0] == 'c',
        "web_search_options"@[0] == 'w',
        "content_block_delta"@.len() == 19,
        "content_block_start"@.len() == 19,
        "video_understanding"@.len() == 19,
        "web_search_requests"@.len() == 19,
        "content_block_delta"@[14] == 'd',
        "content_block_start"@[14] == 's',
        "video_understanding"@[14] == 'n',
        "web_search_requests"@[14] == 'u',
        "authentication_error"@.len() == 20,
        "file_search_requests"@.len() == 20,
        "authentication_error"@[0] == 'a',
        "file_search_requests"@[0] == 'f',
        "invalid_request_error"@.len() == 21,
        "output_tokens_details"@.len() == 21,
        "invalid_request_error"@[0] == 'i',
        "output_tokens_details"@[0] == 'o',
        "web_search_tool_result"@.len() == 22,
        "cache_read_input_tokens"@.len() == 23,
        "ephemeral_1h_input_tokens"@.len() == 25,
        "supports_unsigned_thinking"@.len() == 26,
        "cache_creation_input_tokens"@.len() == 27,
{
    reveal_strlit(",");
    reveal_strlit("/v1/messages");
    reveal_strlit("anthropic-beta");
    reveal_strlit("anthropic-version");
    reveal_strlit("any");
    reveal_strlit("api_error");
    reveal_strlit("api_version");
    reveal_strlit("application/json");
    reveal_strlit("assistant");
    reveal_strlit("authentication_error");
    reveal_strlit("auto");
    reveal_strlit("base64");
    reveal_strlit("betas");
    reveal_strlit("cache_control");
    reveal_strlit("cache_creation");
    reveal_strlit("cache_creation_input_tokens");
    reveal_strlit("cache_read_input_tokens");
    reveal_strlit("citations");
    reveal_strlit("content");
    reveal_strlit("content-type");
    reveal_strlit("content_block_delta");
    reveal_strlit("content_block_start");
    reveal_strlit("content_block_stop");
    reveal_strlit("data");
    reveal_strlit("description");
    reveal_strlit("document");
    reveal_strlit("enable_thinking");
    reveal_strlit("end_turn");
    reveal_strlit("ephemeral");
    reveal_strlit("ephemeral_1h_input_tokens");
    reveal_strlit("error");
    reveal_strlit("file");
    reveal_strlit("file_id");
    reveal_strlit("file_search_requests");
    reveal_strlit("generationConfig");
    reveal_strlit("id");
    reveal_strlit("image");
    reveal_strlit("image/");
    reveal_strlit("include");
    reveal_strlit("input");
    reveal_strlit("input_schema");
    reveal_strlit("input_tokens");
    reveal_strlit("invalid_request_error");
    reveal_strlit("is_error");
    reveal_strlit("max_tokens");
    reveal_strlit("media_type");
    reveal_strlit("message_delta");
    reveal_strlit("message_start");
    reveal_strlit("message_stop");
    reveal_strlit("messages");
    reveal_strlit("minimax");
    reveal_strlit("minimax-m3");
    reveal_strlit("mm_file://");
    reveal_strlit("model");
    reveal_strlit("name");
    reveal_strlit("none");
    reveal_strlit("not_found_error");
    reveal_strlit("output_config");
    reveal_strlit("output_tokens");
    reveal_strlit("output_tokens_details");
    reveal_strlit("overloaded_error");
    reveal_strlit("permission_error");
    reveal_strlit("rate_limit_error");
    reveal_strlit("reasoning");
    reveal_strlit("reasoning_effort");
    reveal_strlit("redacted_thinking");
    reveal_strlit("refusal");
    reveal_strlit("request_too_large");
    reveal_strlit("role");
    reveal_strlit("server_tool_use");
    reveal_strlit("serviceTier");
    reveal_strlit("service_tier");
    reveal_strlit("signature");
    reveal_strlit("source");
    reveal_strlit("speed");
    reveal_strlit("stop_reason");
    reveal_strlit("stop_sequence");
    reveal_strlit("stop_sequences");
    reveal_strlit("stream");
    reveal_strlit("supports_unsigned_thinking");
    reveal_strlit("system");
    reveal_strlit("temperature");
    reveal_strlit("text");
    reveal_strlit("thinking");
    reveal_strlit("thinking_budget");
    reveal_strlit("thinking_tokens");
    reveal_strlit("title");
    reveal_strlit("tool");
    reveal_strlit("tool_choice");
    reveal_strlit("tool_result");
    reveal_strlit("tool_use");
    reveal_strlit("tool_use_id");
    reveal_strlit("tools");
    reveal_strlit("type");
    reveal_strlit("url");
    reveal_strlit("usage");
    reveal_strlit("user");
    reveal_strlit("video");
    reveal_strlit("video_understanding");
    reveal_strlit("web_search_options");
    reveal_strlit("web_search_requests");
    reveal_strlit("web_search_tool_result");
}

} // verus!
