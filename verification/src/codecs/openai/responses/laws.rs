//! What the Responses wire keeps of a conversation: what is sent says what the request
//! says, and what is read back is what was sent.

use crate::codecs::extras;
use crate::codecs::inference;
use crate::codecs::input;
use crate::codecs::laws;
use crate::codecs::openai::chat;
use crate::codecs::openai::responses::encode::InputDraftView;
use crate::codecs::openai::responses::{decode, encode};
use crate::codecs::request_controls;
use crate::codecs::web_search;
use crate::codecs::{CodecContext, EncodeRequest};
use crate::encoding;
use crate::json::{self, Entries, JsonView};
use crate::protocol::profile;
use crate::protocol::{
    AttachmentRef, ContentBlock, ContentBlockView, DocumentSource, ImageSource, MessageRole,
    ProviderProfile, ToolChoice, ToolSpec,
};
use crate::text;
use crate::transport::HttpResponse;
use vstd::prelude::*;

verus! {

broadcast use {crate::views::group_views, crate::json::group_json};

/// A piece of what is sent: a part of a message, with the speaker, or an item that is no
/// message.
pub struct Piece {
    pub role: Option<Seq<char>>,
    pub value: JsonView,
}

/// The pieces of an item.
pub open spec fn pieces_of(item: JsonView) -> Seq<Piece> {
    if json::str_at(item, "type"@) == Some("message"@) {
        let parts = json::items_in(json::member(item, "content"@));
        Seq::new(
            parts.len(),
            |i: int| Piece { role: json::str_at(item, "role"@), value: parts[i] },
        )
    } else {
        seq![Piece { role: None, value: item }]
    }
}

/// The pieces of the items, in order.
pub open spec fn pieces(items: Seq<JsonView>) -> Seq<Piece>
    decreases items.len(),
{
    if items.len() == 0 {
        Seq::empty()
    } else {
        pieces(items.drop_last()) + pieces_of(items.last())
    }
}

/// An attachment stands in a part as a data URI of its bytes.
pub open spec fn attached(wire: EncodeRequest, attachment: AttachmentRef, uri: Option<Seq<char>>) -> bool {
    wire.media matches Some(media) && exists|i: int|
        0 <= i < media@.len() && profile::same_attachment(
            *(#[trigger] media@[i]).attachment,
            attachment,
        ) && uri == Some(
            "data:"@ + attachment.media_type@ + ";base64,"@ + encoding::base64_encoded(
                media@[i].bytes@,
            ),
        )
}

/// The speaker of a part.
pub open spec fn speaks(role: MessageRole, said: Option<Seq<char>>) -> bool {
    &&& role == MessageRole::User <==> said == Some("user"@)
    &&& role == MessageRole::Assistant <==> said == Some("assistant"@)
    &&& role == MessageRole::System <==> said == Some("system"@)
}

/// What is read off a piece on the wire is what the block of the conversation says.
pub open spec fn carries(wire: EncodeRequest, role: MessageRole, block: ContentBlock, sent: Piece) -> bool {
    let value = sent.value;
    let kind = json::str_at(value, "type"@);
    match block {
        ContentBlock::Text { text, .. } => {
            &&& speaks(role, sent.role)
            &&& role == MessageRole::Assistant <==> kind == Some("output_text"@)
            &&& role != MessageRole::Assistant <==> kind == Some("input_text"@)
            &&& json::str_at(value, "text"@) == Some(text@)
        },
        ContentBlock::Image { source } => {
            &&& speaks(role, sent.role)
            &&& kind == Some("input_image"@)
            &&& match source {
                ImageSource::Url { url } => json::str_at(value, "image_url"@) == Some(url@),
                ImageSource::Base64 { media_type, data } => json::str_at(value, "image_url"@)
                    == Some("data:"@ + media_type@ + ";base64,"@ + data@),
                ImageSource::ProviderFile { file } => json::str_at(value, "file_id"@) == Some(
                    file.file_id@,
                ),
                ImageSource::Attachment { attachment } => attached(
                    wire,
                    attachment,
                    json::str_at(value, "image_url"@),
                ),
            }
        },
        ContentBlock::Document { source, title } => {
            &&& speaks(role, sent.role)
            &&& kind == Some("input_file"@)
            &&& title.deep_view() is Some && !(source is Url) && !(source is ProviderFile)
                ==> json::str_at(value, "filename"@) == title.deep_view()
            &&& match source {
                DocumentSource::Url { url } => json::str_at(value, "file_url"@) == Some(url@),
                DocumentSource::Base64 { media_type, data } => json::str_at(value, "file_data"@)
                    == Some("data:"@ + media_type@ + ";base64,"@ + data@),
                DocumentSource::Text { media_type, data } => json::str_at(value, "file_data"@)
                    == Some(
                    "data:"@ + media_type@ + ";base64,"@ + encoding::base64_encoded(
                        vstd::utf8::encode_utf8(data@),
                    ),
                ),
                DocumentSource::ProviderFile { file } => json::str_at(value, "file_id"@) == Some(
                    file.file_id@,
                ),
                DocumentSource::Attachment { attachment } => attached(
                    wire,
                    attachment,
                    json::str_at(value, "file_data"@),
                ),
            }
        },
        ContentBlock::ToolUse { id, name, input, .. } => {
            &&& sent.role is None
            &&& kind == Some("function_call"@)
            &&& json::str_at(value, "call_id"@) == Some(id@)
            &&& json::str_at(value, "name"@) == Some(name@)
            &&& json::str_at(value, "arguments"@) == Some(json::text_of(input@))
        },
        ContentBlock::ToolResult { tool_use_id, content, blocks, .. } => {
            &&& sent.role is None
            &&& kind == Some("function_call_output"@)
            &&& json::str_at(value, "call_id"@) == Some(tool_use_id@)
            &&& json::member(value, "output"@) == Some(
                match blocks.deep_view() {
                    Some(blocks) => JsonView::Array(blocks),
                    None => JsonView::Str(content@),
                },
            )
        },
        ContentBlock::ProviderContent { value: native, .. } => sent.role is None && value
            == native@,
        ContentBlock::Thinking { .. } => false,
        ContentBlock::RedactedThinking { .. } => false,
        ContentBlock::Video { .. } => false,
    }
}

/// A block that this wire can say: it has no place for another wire's thinking.
pub open spec fn sayable(block: ContentBlock) -> bool {
    !(block is Thinking) && !(block is RedactedThinking)
}

/// The blocks among the first `n` that this wire can say, each with its speaker.
pub open spec fn kept(blocks: Seq<ContentBlock>, role: MessageRole, n: int) -> Seq<
    (MessageRole, ContentBlock),
>
    decreases n,
{
    if n <= 0 {
        Seq::empty()
    } else if sayable(blocks[n - 1]) {
        kept(blocks, role, n - 1).push((role, blocks[n - 1]))
    } else {
        kept(blocks, role, n - 1)
    }
}

/// The blocks of the conversation that this wire can say, up to the `m`th message.
pub open spec fn kept_upto(wire: EncodeRequest, m: int) -> Seq<(MessageRole, ContentBlock)>
    decreases m,
{
    if m <= 0 {
        Seq::empty()
    } else {
        let blocks = input::message_blocks(wire, m - 1);
        kept_upto(wire, m - 1) + kept(
            blocks,
            wire.request.messages@[m - 1].role,
            blocks.len() as int,
        )
    }
}

pub open spec fn all_carried(
    wire: EncodeRequest,
    blocks: Seq<(MessageRole, ContentBlock)>,
    sent: Seq<Piece>,
) -> bool {
    blocks.len() == sent.len() && forall|i: int|
        0 <= i < sent.len() ==> carries(wire, blocks[i].0, blocks[i].1, #[trigger] sent[i])
}

/// Content in the provider's own form that is an item, and no message.
pub open spec fn no_message(block: ContentBlock) -> bool {
    block matches ContentBlock::ProviderContent { value, .. } ==> json::str_at(value@, "type"@)
        != Some("message"@)
}

/// What a draft says: its items, and the parts of the message that is under way.
spec fn drafted(draft: InputDraftView, role: MessageRole) -> Seq<Piece> {
    pieces(draft.items) + Seq::new(
        draft.parts.len(),
        |i: int| Piece { role: Some(chat::encode::role_name(role)), value: draft.parts[i] },
    )
}

proof fn lemma_pieces_push(items: Seq<JsonView>, item: JsonView)
    ensures
        pieces(items.push(item)) == pieces(items) + pieces_of(item),
{
    assert(items.push(item).drop_last() =~= items);
}

#[verifier::spinoff_prover]
proof fn lemma_flushed(draft: InputDraftView, role: MessageRole)
    ensures
        drafted(encode::flushed(draft, role), role) == drafted(draft, role),
        encode::flushed(draft, role).parts.len() == 0,
        pieces(encode::flushed(draft, role).items) == drafted(draft, role),
{
    broadcast use json::entry_after_put;

    lemma_names();
    let flat = encode::flushed(draft, role);
    if draft.parts.len() > 0 {
        lemma_pieces_push(draft.items, flat.items.last());
        assert(flat.items =~= draft.items.push(flat.items.last()));
    }
    assert(drafted(flat, role) =~= drafted(draft, role));
    assert(pieces(flat.items) =~= drafted(flat, role));
}

proof fn lemma_prepared<'a>(
    media: Seq<input::PreparedMedia<'a>>,
    attachment: AttachmentRef,
    i: int,
)
    requires
        0 <= i,
    ensures
        input::prepared(media, attachment, i) matches Some(found) ==> exists|k: int|
            i <= k < media.len() && #[trigger] media[k] == found && profile::same_attachment(
                *media[k].attachment,
                attachment,
            ),
    decreases media.len() - i,
{
    if i < media.len() && !profile::same_attachment(*media[i].attachment, attachment) {
        lemma_prepared(media, attachment, i + 1);
    }
}

#[verifier::spinoff_prover]
#[verifier::rlimit(80)]
proof fn lemma_block(
    draft: InputDraftView,
    block: ContentBlock,
    role: MessageRole,
    context: CodecContext,
    wire: EncodeRequest,
)
    requires
        no_message(block),
    ensures
        encode::with_block(draft, block, role, context, wire) matches Ok(next) ==> {
            let before = drafted(draft, role);
            let after = drafted(next, role);
            &&& sayable(block) ==> after.len() == before.len() + 1 && after =~= before.push(
                after.last(),
            ) && carries(wire, role, block, after.last())
            &&& !sayable(block) ==> after == before
        },
{
    broadcast use json::entry_after_put;

    lemma_names();
    if let Ok(next) = encode::with_block(draft, block, role, context, wire) {
        let before = drafted(draft, role);
        let after = drafted(next, role);
        if let Some(attachment) = input::attachment_of(block) {
            lemma_prepared(input::media_of(wire), attachment, 0);
            let media = input::prepared(input::media_of(wire), attachment, 0)->0;
            let list = wire.media->0;
            let k = choose|k: int|
                0 <= k < list@.len() && #[trigger] list@[k] == media && profile::same_attachment(
                    *list@[k].attachment,
                    attachment,
                );
            assert(list@[k] == media);
            let uri = crate::codecs::wire::data_uri(
                attachment.media_type@,
                encoding::base64_encoded(media.bytes@),
            );
            assert(attached(wire, attachment, Some(uri)));
        }
        if block is Text || block is Image || block is Document {
            assert(next.items == draft.items);
            assert(next.parts =~= draft.parts.push(next.parts.last()));
            assert(after =~= before.push(after.last()));
            assert(after.last().value == next.parts.last());
        } else if sayable(block) {
            let flat = encode::flushed(draft, role);
            lemma_flushed(draft, role);
            let item = next.items.last();
            assert(next.items =~= flat.items.push(item));
            lemma_pieces_push(flat.items, item);
            assert(json::str_at(item, "type"@) != Some("message"@));
            assert(pieces_of(item) =~= seq![Piece { role: None, value: item }]);
            assert(after =~= before.push(Piece { role: None, value: item }));
        }
    }
}

proof fn lemma_blocks(
    draft: InputDraftView,
    blocks: Seq<ContentBlock>,
    i: int,
    role: MessageRole,
    context: CodecContext,
    wire: EncodeRequest,
    earlier: Seq<(MessageRole, ContentBlock)>,
)
    requires
        0 <= i <= blocks.len(),
        forall|k: int| 0 <= k < blocks.len() ==> no_message(#[trigger] blocks[k]),
        all_carried(wire, earlier + kept(blocks, role, i), drafted(draft, role)),
    ensures
        encode::with_blocks(draft, blocks, i, role, context, wire) matches Ok(next) ==> {
            &&& next.parts.len() == 0
            &&& all_carried(
                wire,
                earlier + kept(blocks, role, blocks.len() as int),
                pieces(next.items),
            )
        },
    decreases blocks.len() - i,
{
    if i < blocks.len() {
        assert(no_message(blocks[i]));
        lemma_block(draft, blocks[i], role, context, wire);
        if let Ok(next) = encode::with_block(draft, blocks[i], role, context, wire) {
            let so_far = earlier + kept(blocks, role, i);
            if sayable(blocks[i]) {
                assert(earlier + kept(blocks, role, i + 1) =~= so_far.push((role, blocks[i])));
            }
            lemma_blocks(next, blocks, i + 1, role, context, wire, earlier);
        }
    } else {
        lemma_flushed(draft, role);
    }
}

proof fn lemma_messages(draft: InputDraftView, m: int, context: CodecContext, wire: EncodeRequest)
    requires
        0 <= m <= wire.request.messages@.len(),
        draft.parts.len() == 0,
        all_carried(wire, kept_upto(wire, m), pieces(draft.items)),
        forall|k: int, b: int|
            0 <= k < wire.request.messages@.len() && 0 <= b < input::message_blocks(wire, k).len()
                ==> no_message(#[trigger] input::message_blocks(wire, k)[b]),
    ensures
        encode::with_messages(draft, m, context, wire) matches Ok(next) ==> all_carried(
            wire,
            kept_upto(wire, wire.request.messages@.len() as int),
            pieces(next.items),
        ),
    decreases wire.request.messages@.len() - m,
{
    if m < wire.request.messages@.len() {
        let blocks = input::message_blocks(wire, m);
        let role = wire.request.messages@[m].role;
        assert(kept_upto(wire, m) + kept(blocks, role, 0) =~= kept_upto(wire, m));
        assert(drafted(draft, role) =~= pieces(draft.items));
        lemma_blocks(draft, blocks, 0, role, context, wire, kept_upto(wire, m));
        if let Ok(next) = encode::with_blocks(draft, blocks, 0, role, context, wire) {
            lemma_messages(next, m + 1, context, wire);
        }
    }
}

/// The input that is sent holds the conversation: every block that this wire can say, one
/// for one and in order, in a message of its speaker or as an item of its own, and in
/// each what the block says.
pub proof fn a_request_carries_the_conversation(wire: EncodeRequest, context: CodecContext)
    requires
        forall|k: int, b: int|
            0 <= k < wire.request.messages@.len() && 0 <= b < input::message_blocks(wire, k).len()
                ==> no_message(#[trigger] input::message_blocks(wire, k)[b]),
    ensures
        encode::encoded(wire, context) matches Ok(sent) ==> all_carried(
            wire,
            kept_upto(wire, wire.request.messages@.len() as int),
            pieces(json::items_in(json::member(sent.body, "input"@))),
        ),
{
    broadcast use json::entry_after_put;

    if let Ok(sent) = encode::encoded(wire, context) {
        lemma_messages(encode::no_items(), 0, context, wire);
    }
}

/// A text of an item of the output.
pub open spec fn is_output_text(part: JsonView) -> bool {
    json::str_at(part, "type"@) == Some("output_text"@) && json::str_at(part, "text"@) is Some
}

/// The answer that the first `n` parts of a message say, part by part.
pub open spec fn texts_of(parts: Seq<JsonView>, n: int) -> Seq<ContentBlockView>
    decreases n,
{
    if n <= 0 {
        Seq::empty()
    } else if is_output_text(parts[n - 1]) {
        texts_of(parts, n - 1).push(
            ContentBlockView::Text {
                text: json::str_at(parts[n - 1], "text"@)->0,
                thought_signature: None,
            },
        )
    } else {
        texts_of(parts, n - 1)
    }
}

proof fn lemma_output_texts(parts: Seq<JsonView>, i: int, front: Seq<ContentBlockView>)
    requires
        0 <= i <= parts.len(),
    ensures
        decode::output_texts(parts, i, front + texts_of(parts, i)) == front + texts_of(
            parts,
            parts.len() as int,
        ),
    decreases parts.len() - i,
{
    if i < parts.len() {
        lemma_output_texts(parts, i + 1, front);
        if is_output_text(parts[i]) {
            let block = ContentBlockView::Text {
                text: json::str_at(parts[i], "text"@)->0,
                thought_signature: None,
            };
            assert((front + texts_of(parts, i)).push(block) =~= front + texts_of(parts, i).push(
                block,
            ));
        }
    }
}

/// A block that was read is the call that an item makes: with its id, its name, and the
/// JSON value that its arguments are the text of.
pub open spec fn reads_call(item: JsonView, block: ContentBlockView) -> bool {
    block matches ContentBlockView::ToolUse { id, name, input, .. } && {
        &&& json::str_at(item, "call_id"@) matches Some(said) ==> id == said
        &&& json::str_at(item, "name"@) matches Some(said) ==> name == said
        &&& json::str_at(item, "arguments"@) matches Some(said) ==> (json::parsed(
            vstd::utf8::encode_utf8(said),
        ) matches Ok(value) ==> input == value)
    }
}

/// What an item of the output adds to the content.
#[verifier::spinoff_prover]
pub proof fn an_item_is_read_as_it_was_said(before: Seq<ContentBlockView>, item: JsonView)
    ensures
        ({
            let after = decode::with_item(before, item);
            let kind = json::str_at(item, "type"@);
            let parts = json::items_in(json::member(item, "content"@));
            &&& kind == Some("message"@) ==> after == before + texts_of(parts, parts.len() as int)
            &&& kind == Some("function_call"@) ==> after.len() == before.len() + 1 && after
                =~= before.push(after.last()) && reads_call(item, after.last())
            &&& kind == Some("reasoning"@) ==> {
                &&& after.len() > before.len()
                &&& forall|k: int| 0 <= k < before.len() ==> #[trigger] after[k] == before[k]
                &&& after[before.len() as int] matches ContentBlockView::ProviderContent { value, .. }
                &&& value == item
            }
        }),
{
    lemma_names();
    let parts = json::items_in(json::member(item, "content"@));
    assert(before + texts_of(parts, 0) =~= before);
    lemma_output_texts(parts, 0, before);
    if json::str_at(item, "type"@) == Some("reasoning"@) {
        let native = before.push(
            ContentBlockView::ProviderContent {
                protocol: crate::protocol::ProtocolFamily::OpenAiResponses,
                value: item,
            },
        );
        let summary = json::items_in(json::member(item, "summary"@));
        lemma_summary(summary, 0, native);
    }
}

proof fn lemma_summary(parts: Seq<JsonView>, i: int, before: Seq<ContentBlockView>)
    ensures
        decode::summary_texts(parts, i, before).len() >= before.len(),
        forall|k: int|
            0 <= k < before.len() ==> #[trigger] decode::summary_texts(parts, i, before)[k]
                == before[k],
    decreases parts.len() - i,
{
    if 0 <= i < parts.len() {
        match json::str_at(parts[i], "text"@) {
            Some(text) => {
                let next = before.push(ContentBlockView::Thinking { text, signature: None });
                lemma_summary(parts, i + 1, next);
                assert forall|k: int| 0 <= k < before.len() implies #[trigger] decode::summary_texts(
                    parts,
                    i,
                    before,
                )[k] == before[k] by {
                    assert(next[k] == before[k]);
                }
            },
            None => {
                lemma_summary(parts, i + 1, before);
            },
        }
    }
}

/// The content after the first `n` items of the output.
pub open spec fn content_upto(items: Seq<JsonView>, n: int) -> Seq<ContentBlockView>
    decreases n,
{
    if n <= 0 {
        Seq::empty()
    } else {
        decode::with_item(content_upto(items, n - 1), items[n - 1])
    }
}

proof fn lemma_output(items: Seq<JsonView>, i: int, called: bool, refused: bool)
    requires
        0 <= i <= items.len(),
    ensures
        ({
            let (content, calls, _) = decode::output_of(
                items,
                i,
                content_upto(items, i),
                called,
                refused,
            );
            &&& content == content_upto(items, items.len() as int)
            &&& calls <==> called || exists|k: int|
                i <= k < items.len() && json::str_at(#[trigger] items[k], "type"@) == Some(
                    "function_call"@,
                )
        }),
    decreases items.len() - i,
{
    if i < items.len() {
        lemma_output(
            items,
            i + 1,
            called || json::is_kind(items[i], "function_call"@),
            refused || decode::refuses(items[i]),
        );
    }
}

/// A reply is the content of its items, one after the other and in order, and it tells
/// the id to go on from, the model, why it stopped, and what it counts. It stopped for a
/// tool if and only if it is complete and one of its items is a call.
#[verifier::spinoff_prover]
#[verifier::rlimit(40)]
pub proof fn a_reply_is_read_as_it_was_said(response: HttpResponse, profile: ProviderProfile)
    ensures
        decode::decoded(response, profile) matches Ok(reply) ==> {
            let body = json::bytes_value(response.body@);
            let items = json::items_in(json::member(body, "output"@));
            let short = json::str_at(body, "status"@) == Some("incomplete"@);
            let reason = json::str_in(json::member2(body, "incomplete_details"@, "reason"@));
            &&& reply.content == content_upto(items, items.len() as int)
            &&& reply.response_id == json::str_at(body, "id"@)
            &&& json::str_at(body, "model"@) matches Some(model) ==> reply.model == model
            &&& reply.stop_reason is ToolUse <==> !short && exists|k: int|
                0 <= k < items.len() && json::str_at(#[trigger] items[k], "type"@) == Some(
                    "function_call"@,
                )
            &&& reply.stop_reason is MaxTokens <==> short && reason == Some("max_output_tokens"@)
            &&& short && reason == Some("content_filter"@) ==> reply.stop_reason is Refusal
            &&& reply.usage.reported is Some <==> json::member(body, "usage"@) is Some
            &&& json::member(body, "usage"@) matches Some(usage) ==> {
                let counted = reply.usage.reported->0;
                let prompt = json::count_in(json::member(usage, "input_tokens"@));
                let read = json::count_in(
                    json::member2(usage, "input_tokens_details"@, "cached_tokens"@),
                );
                let write = json::count_in(
                    json::member2(usage, "input_tokens_details"@, "cache_write_tokens"@),
                );
                &&& counted.cache_read_tokens == read
                &&& counted.cache_write_tokens == write
                &&& counted.output_tokens == json::count_in(json::member(usage, "output_tokens"@))
                &&& counted.reasoning_tokens == json::count_in(
                    json::member2(usage, "output_tokens_details"@, "reasoning_tokens"@),
                )
                &&& read + write <= prompt ==> counted.input_tokens == prompt - read - write
            }
        },
{
    lemma_names();
    let items = json::items_in(
        json::member(json::bytes_value(response.body@), "output"@),
    );
    lemma_output(items, 0, false, false);
}

/// Sending a call and reading it back gives the same id, name and input, where the input
/// is the value that its own text stands for.
pub proof fn a_call_is_read_back(wire: EncodeRequest, role: MessageRole, block: ContentBlock, sent: Piece)
    requires
        carries(wire, role, block, sent),
        block matches ContentBlock::ToolUse { input, .. } && json::parsed(
            vstd::utf8::encode_utf8(json::text_of(input@)),
        ) == Ok::<JsonView, Seq<char>>(input@),
    ensures
        decode::call_block(sent.value) matches ContentBlockView::ToolUse { id, name, input, .. } && {
            &&& id == block->ToolUse_id@
            &&& name == block->ToolUse_name@
            &&& input == block->ToolUse_input@
        },
{
}

/// A key that neither the searches nor the controls of a Responses request write.
spec fn plain_key(key: Seq<char>) -> bool {
    &&& laws::uncontrolled(key)
    &&& key != "web_search_options"@
    &&& key != "include"@
    &&& key != "tools"@
    &&& key != "tool_choice"@
    &&& key != "top_p"@
    &&& key != "metadata"@
    &&& key != "context_hint"@
    &&& key != "text"@
    &&& key != "response_format"@
    &&& key != "input"@
}

/// A member of the body before the controls is still there when the request is finished.
#[verifier::spinoff_prover]
#[verifier::rlimit(60)]
proof fn lemma_finished(wire: EncodeRequest, context: CodecContext, body: Entries, key: Seq<char>)
    requires
        encode::tooled_body(*wire.request, context) == Ok::<Entries, crate::protocol::LlmErrorView>(
            body,
        ),
        json::entry(body, key) is Some,
        plain_key(key),
        json::entry(wire.request.controls.responses.deep_view(), key) is None,
    ensures
        encode::encoded(wire, context) matches Ok(sent) ==> json::member(sent.body, key)
            == json::entry(body, key),
{
    broadcast use json::entry_after_put;

    let req = *wire.request;
    let profile = context.profile;
    let headers = chat::encode::json_headers();
    if let Ok(sent) = encode::encoded(wire, context) {
        let controlled = inference::applied(req, context, body, headers)->Ok_0.0;
        laws::lemma_applied_keeps(req, context, body, headers, key);
        let typed = request_controls::with_controls(req, profile.protocol, controlled)->Ok_0;
        let more = req.controls.responses.deep_view();
        let sampled = request_controls::with_top_p(req, profile.protocol, controlled)->Ok_0;
        let hinted = request_controls::with_hint(
            req,
            profile.protocol,
            request_controls::with_metadata(req, profile.protocol, sampled),
        )->Ok_0;
        json::put_all_keeps_other_keys(hinted, more, 0, key);
        assert(json::entry(typed, key) == json::entry(body, key));
        extras::configuration_never_overrides_the_body(profile, typed, key);
    }
}

/// A tool on the wire.
pub open spec fn offers(tool: ToolSpec, sent: JsonView) -> bool {
    &&& json::str_at(sent, "type"@) == Some("function"@)
    &&& json::str_at(sent, "name"@) == Some(tool.name@)
    &&& json::str_at(sent, "description"@) == Some(tool.description@)
    &&& json::member(sent, "parameters"@) == Some(tool.input_schema@)
}

/// A tool choice on the wire.
pub open spec fn chooses(choice: ToolChoice, sent: JsonView) -> bool {
    &&& choice is Auto <==> sent == JsonView::Str("auto"@)
    &&& choice is Any <==> sent == JsonView::Str("required"@)
    &&& choice is Forbidden <==> sent == JsonView::Str("none"@)
    &&& choice matches ToolChoice::Tool { name } ==> json::str_at(sent, "type"@) == Some(
        "function"@,
    ) && json::str_at(sent, "name"@) == Some(name@)
}

proof fn lemma_missing(entries: Entries, more: Entries, i: int, key: Seq<char>)
    requires
        json::entry(entries, key) is Some,
    ensures
        json::entry(request_controls::put_missing(entries, more, i), key) == json::entry(
            entries,
            key,
        ),
    decreases more.len() - i,
{
    if 0 <= i < more.len() {
        json::put_then_entry(entries, more[i].0, more[i].1, key);
        lemma_missing(entries, more, i + 1, key);
        if json::entry(entries, more[i].0) is None {
            lemma_missing(json::put(entries, more[i].0, more[i].1), more, i + 1, key);
        }
    }
}

/// A function tool is offered by its name, with its description and its parameters; the
/// choice among the tools is the one that was made.
#[verifier::spinoff_prover]
#[verifier::rlimit(40)]
pub proof fn a_tool_is_offered_as_it_is(tool: ToolSpec, choice: ToolChoice)
    ensures
        tool.tool_type is None ==> offers(tool, encode::tool_json(tool)),
        chooses(choice, encode::choice_json(choice)),
{
    broadcast use json::entry_after_put;

    lemma_names();
    if tool.tool_type is None {
        let plain = json::put(
            json::put(
                json::put(
                    json::put(
                        json::put(Seq::empty(), "type"@, JsonView::Str("function"@)),
                        "name"@,
                        JsonView::Str(tool.name@),
                    ),
                    "description"@,
                    JsonView::Str(tool.description@),
                ),
                "parameters"@,
                tool.input_schema@,
            ),
            "strict"@,
            json::bool_or_null(tool.strict),
        );
        let deferred = match tool.defer_loading {
            Some(defer) => json::put(plain, "defer_loading"@, JsonView::Bool(defer)),
            None => plain,
        };
        if let Some(extra) = json::entries_of(tool.extra@) {
            lemma_missing(deferred, extra, 0, "type"@);
            lemma_missing(deferred, extra, 0, "name"@);
            lemma_missing(deferred, extra, 0, "description"@);
            lemma_missing(deferred, extra, 0, "parameters"@);
        }
    }
}

/// The settings of a request are sent as they are, unless its own Responses fields say
/// otherwise: the system prompt, its blocks with an empty line between them, the response
/// to go on from, the limit, the temperature and the wish to stream.
#[verifier::spinoff_prover]
#[verifier::rlimit(60)]
pub proof fn a_request_carries_its_settings(wire: EncodeRequest, context: CodecContext)
    ensures
        encode::encoded(wire, context) matches Ok(sent) ==> {
            let req = *wire.request;
            let own = req.controls.responses.deep_view();
            let system = req.system@;
            &&& system.len() > 0 && json::entry(own, "instructions"@) is None ==> json::str_at(
                sent.body,
                "instructions"@,
            ) == Some(text::joined(Seq::new(system.len(), |i: int| system[i].text@), "\n\n"@))
            &&& json::entry(own, "previous_response_id"@) is None ==> (
            req.previous_response_id matches Some(id) ==> json::str_at(
                sent.body,
                "previous_response_id"@,
            ) == Some(id@))
            &&& json::entry(own, "max_output_tokens"@) is None ==> (req.max_tokens matches Some(max)
                ==> json::u64_at(sent.body, "max_output_tokens"@) == Some(max as u64))
            &&& json::entry(own, "temperature"@) is None ==> (req.temperature matches Some(t)
                ==> json::member(sent.body, "temperature"@) == Some(JsonView::Number(t@)))
            &&& context.stream && json::entry(own, "stream"@) is None ==> json::member(
                sent.body,
                "stream"@,
            ) == Some(JsonView::Bool(true))
        },
{
    broadcast use json::entry_after_put;

    if let Ok(sent) = encode::encoded(wire, context) {
        lemma_names();
        let req = *wire.request;
        let own = req.controls.responses.deep_view();
        let profile = context.profile;
        let body = encode::tooled_body(req, context)->Ok_0;
        let first = encode::first_body(req, context.request_model@);
        let searched = web_search::with_search(req, profile, first)->Ok_0;
        assert(json::entry(searched, "instructions"@) == json::entry(first, "instructions"@));
        assert(json::entry(searched, "previous_response_id"@) == json::entry(
            first,
            "previous_response_id"@,
        ));
        if req.system@.len() > 0 && json::entry(own, "instructions"@) is None {
            lemma_finished(wire, context, body, "instructions"@);
        }
        if req.previous_response_id is Some && json::entry(own, "previous_response_id"@) is None {
            lemma_finished(wire, context, body, "previous_response_id"@);
        }
        if req.max_tokens is Some && json::entry(own, "max_output_tokens"@) is None {
            lemma_finished(wire, context, body, "max_output_tokens"@);
        }
        if req.temperature is Some && json::entry(own, "temperature"@) is None {
            lemma_finished(wire, context, body, "temperature"@);
        }
        if context.stream && json::entry(own, "stream"@) is None {
            lemma_finished(wire, context, body, "stream"@);
        }
    }
}

/// The names on the wire, told apart.
#[verifier::spinoff_prover]
proof fn lemma_names()
    ensures
        "."@.len() == 1,
        "id"@.len() == 2,
        "{}"@.len() == 2,
        "id"@[0] == 'i',
        "{}"@[0] == '{',
        "auto"@.len() == 4,
        "name"@.len() == 4,
        "none"@.len() == 4,
        "qwen"@.len() == 4,
        "role"@.len() == 4,
        "text"@.len() == 4,
        "type"@.len() == 4,
        "user"@.len() == 4,
        "auto"@[1] == 'u',
        "name"@[1] == 'a',
        "none"@[1] == 'o',
        "qwen"@[1] == 'w',
        "role"@[1] == 'o',
        "text"@[1] == 'e',
        "type"@[1] == 'y',
        "user"@[1] == 's',
        "auto"@[0] == 'a',
        "name"@[0] == 'n',
        "none"@[0] == 'n',
        "qwen"@[0] == 'q',
        "role"@[0] == 'r',
        "text"@[0] == 't',
        "type"@[0] == 't',
        "user"@[0] == 'u',
        "count"@.len() == 5,
        "data:"@.len() == 5,
        "input"@.len() == 5,
        "model"@.len() == 5,
        "speed"@.len() == 5,
        "tools"@.len() == 5,
        "top_p"@.len() == 5,
        "usage"@.len() == 5,
        "count"@[0] == 'c',
        "data:"@[0] == 'd',
        "input"@[0] == 'i',
        "model"@[0] == 'm',
        "speed"@[0] == 's',
        "tools"@[0] == 't',
        "top_p"@[0] == 't',
        "usage"@[0] == 'u',
        "count"@[2] == 'u',
        "data:"@[2] == 't',
        "input"@[2] == 'p',
        "model"@[2] == 'd',
        "speed"@[2] == 'e',
        "tools"@[2] == 'o',
        "top_p"@[2] == 'p',
        "usage"@[2] == 'a',
        "failed"@.len() == 6,
        "output"@.len() == 6,
        "reason"@.len() == 6,
        "status"@.len() == 6,
        "stream"@.len() == 6,
        "strict"@.len() == 6,
        "system"@.len() == 6,
        "failed"@[3] == 'l',
        "output"@[3] == 'p',
        "reason"@[3] == 's',
        "status"@[3] == 't',
        "stream"@[3] == 'e',
        "strict"@[3] == 'i',
        "system"@[3] == 't',
        "failed"@[1] == 'a',
        "output"@[1] == 'u',
        "reason"@[1] == 'e',
        "status"@[1] == 't',
        "stream"@[1] == 't',
        "strict"@[1] == 't',
        "system"@[1] == 'y',
        "call_id"@.len() == 7,
        "content"@.len() == 7,
        "file_id"@.len() == 7,
        "include"@.len() == 7,
        "message"@.len() == 7,
        "refusal"@.len() == 7,
        "summary"@.len() == 7,
        "x_tools"@.len() == 7,
        "call_id"@[0] == 'c',
        "content"@[0] == 'c',
        "file_id"@[0] == 'f',
        "include"@[0] == 'i',
        "message"@[0] == 'm',
        "refusal"@[0] == 'r',
        "summary"@[0] == 's',
        "x_tools"@[0] == 'x',
        "call_id"@[1] == 'a',
        "content"@[1] == 'o',
        "file_id"@[1] == 'i',
        "include"@[1] == 'n',
        "message"@[1] == 'e',
        "refusal"@[1] == 'e',
        "summary"@[1] == 'u',
        "x_tools"@[1] == '_',
        ";base64,"@.len() == 8,
        "document"@.len() == 8,
        "file_url"@.len() == 8,
        "filename"@.len() == 8,
        "function"@.len() == 8,
        "https://"@.len() == 8,
        "metadata"@.len() == 8,
        "required"@.len() == 8,
        "thinking"@.len() == 8,
        ";base64,"@[4] == 'e',
        "document"@[4] == 'm',
        "file_url"@[4] == '_',
        "filename"@[4] == 'n',
        "function"@[4] == 't',
        "https://"@[4] == 's',
        "metadata"@[4] == 'd',
        "required"@[4] == 'i',
        "thinking"@[4] == 'k',
        "arguments"@.len() == 9,
        "assistant"@.len() == 9,
        "file_data"@.len() == 9,
        "image_url"@.len() == 9,
        "reasoning"@.len() == 9,
        "arguments"@[1] == 'r',
        "assistant"@[1] == 's',
        "file_data"@[1] == 'i',
        "image_url"@[1] == 'm',
        "reasoning"@[1] == 'e',
        "/responses"@.len() == 10,
        "incomplete"@.len() == 10,
        "input_file"@.len() == 10,
        "input_text"@.len() == 10,
        "parameters"@.len() == 10,
        "web_search"@.len() == 10,
        "/responses"@[8] == 'e',
        "incomplete"@[8] == 't',
        "input_file"@[8] == 'l',
        "input_text"@[8] == 'x',
        "parameters"@[8] == 'r',
        "web_search"@[8] == 'c',
        "description"@.len() == 11,
        "file_search"@.len() == 11,
        "input_image"@.len() == 11,
        "output_text"@.len() == 11,
        "qwen3.8-max"@.len() == 11,
        "serviceTier"@.len() == 11,
        "temperature"@.len() == 11,
        "tool_choice"@.len() == 11,
        "description"@[2] == 's',
        "file_search"@[2] == 'l',
        "input_image"@[2] == 'p',
        "output_text"@[2] == 't',
        "qwen3.8-max"@[2] == 'e',
        "serviceTier"@[2] == 'r',
        "temperature"@[2] == 'm',
        "tool_choice"@[2] == 'o',
        "context_hint"@.len() == 12,
        "input_tokens"@.len() == 12,
        "instructions"@.len() == 12,
        "service_tier"@.len() == 12,
        "context_hint"@[2] == 'n',
        "input_tokens"@[2] == 'p',
        "instructions"@[2] == 's',
        "service_tier"@[2] == 'r',
        "cached_tokens"@.len() == 13,
        "defer_loading"@.len() == 13,
        "function_call"@.len() == 13,
        "output_config"@.len() == 13,
        "output_tokens"@.len() == 13,
        "qwen3.8-flash"@.len() == 13,
        "cached_tokens"@[0] == 'c',
        "defer_loading"@[0] == 'd',
        "function_call"@[0] == 'f',
        "output_config"@[0] == 'o',
        "output_tokens"@[0] == 'o',
        "qwen3.8-flash"@[0] == 'q',
        "cached_tokens"@[7] == 't',
        "defer_loading"@[7] == 'o',
        "function_call"@[7] == 'n',
        "output_config"@[7] == 'c',
        "output_tokens"@[7] == 't',
        "qwen3.8-flash"@[7] == '-',
        "content_filter"@.len() == 14,
        "enable_thinking"@.len() == 15,
        "response_format"@.len() == 15,
        "thinking_budget"@.len() == 15,
        "enable_thinking"@[0] == 'e',
        "response_format"@[0] == 'r',
        "thinking_budget"@[0] == 't',
        "generationConfig"@.len() == 16,
        "reasoning_effort"@.len() == 16,
        "reasoning_tokens"@.len() == 16,
        "vector_store_ids"@.len() == 16,
        "generationConfig"@[10] == 'C',
        "reasoning_effort"@[10] == 'e',
        "reasoning_tokens"@[10] == 't',
        "vector_store_ids"@[10] == 'r',
        "max_output_tokens"@.len() == 17,
        "cache_write_tokens"@.len() == 18,
        "incomplete_details"@.len() == 18,
        "web_search_options"@.len() == 18,
        "cache_write_tokens"@[0] == 'c',
        "incomplete_details"@[0] == 'i',
        "web_search_options"@[0] == 'w',
        "function_call_output"@.len() == 20,
        "input_tokens_details"@.len() == 20,
        "previous_response_id"@.len() == 20,
        "function_call_output"@[0] == 'f',
        "input_tokens_details"@[0] == 'i',
        "previous_response_id"@[0] == 'p',
        "output_tokens_details"@.len() == 21,
        "dashscope.aliyuncs.com"@.len() == 22,
        "dashscope-us.aliyuncs.com"@.len() == 25,
        "dashscope-intl.aliyuncs.com"@.len() == 27,
        "us-east-1.maas.aliyuncs.com"@.len() == 27,
        "dashscope-intl.aliyuncs.com"@[0] == 'd',
        "us-east-1.maas.aliyuncs.com"@[0] == 'u',
        "cn-beijing.maas.aliyuncs.com"@.len() == 28,
        "/compatible-mode/v1/responses"@.len() == 29,
        "cn-hongkong.maas.aliyuncs.com"@.len() == 29,
        "supports_previous_response_id"@.len() == 29,
        "/compatible-mode/v1/responses"@[0] == '/',
        "cn-hongkong.maas.aliyuncs.com"@[0] == 'c',
        "supports_previous_response_id"@[0] == 's',
        "ap-southeast-1.maas.aliyuncs.com"@.len() == 32,
        "cn-hongkong.dashscope.aliyuncs.com"@.len() == 34,
{
    reveal_strlit(".");
    reveal_strlit("/compatible-mode/v1/responses");
    reveal_strlit("/responses");
    reveal_strlit(";base64,");
    reveal_strlit("ap-southeast-1.maas.aliyuncs.com");
    reveal_strlit("arguments");
    reveal_strlit("assistant");
    reveal_strlit("auto");
    reveal_strlit("cache_write_tokens");
    reveal_strlit("cached_tokens");
    reveal_strlit("call_id");
    reveal_strlit("cn-beijing.maas.aliyuncs.com");
    reveal_strlit("cn-hongkong.dashscope.aliyuncs.com");
    reveal_strlit("cn-hongkong.maas.aliyuncs.com");
    reveal_strlit("content");
    reveal_strlit("content_filter");
    reveal_strlit("context_hint");
    reveal_strlit("count");
    reveal_strlit("dashscope-intl.aliyuncs.com");
    reveal_strlit("dashscope-us.aliyuncs.com");
    reveal_strlit("dashscope.aliyuncs.com");
    reveal_strlit("data:");
    reveal_strlit("defer_loading");
    reveal_strlit("description");
    reveal_strlit("document");
    reveal_strlit("enable_thinking");
    reveal_strlit("failed");
    reveal_strlit("file_data");
    reveal_strlit("file_id");
    reveal_strlit("file_search");
    reveal_strlit("file_url");
    reveal_strlit("filename");
    reveal_strlit("function");
    reveal_strlit("function_call");
    reveal_strlit("function_call_output");
    reveal_strlit("generationConfig");
    reveal_strlit("https://");
    reveal_strlit("id");
    reveal_strlit("image_url");
    reveal_strlit("include");
    reveal_strlit("incomplete");
    reveal_strlit("incomplete_details");
    reveal_strlit("input");
    reveal_strlit("input_file");
    reveal_strlit("input_image");
    reveal_strlit("input_text");
    reveal_strlit("input_tokens");
    reveal_strlit("input_tokens_details");
    reveal_strlit("instructions");
    reveal_strlit("max_output_tokens");
    reveal_strlit("message");
    reveal_strlit("metadata");
    reveal_strlit("model");
    reveal_strlit("name");
    reveal_strlit("none");
    reveal_strlit("output");
    reveal_strlit("output_config");
    reveal_strlit("output_text");
    reveal_strlit("output_tokens");
    reveal_strlit("output_tokens_details");
    reveal_strlit("parameters");
    reveal_strlit("previous_response_id");
    reveal_strlit("qwen");
    reveal_strlit("qwen3.8-flash");
    reveal_strlit("qwen3.8-max");
    reveal_strlit("reason");
    reveal_strlit("reasoning");
    reveal_strlit("reasoning_effort");
    reveal_strlit("reasoning_tokens");
    reveal_strlit("refusal");
    reveal_strlit("required");
    reveal_strlit("response_format");
    reveal_strlit("role");
    reveal_strlit("serviceTier");
    reveal_strlit("service_tier");
    reveal_strlit("speed");
    reveal_strlit("status");
    reveal_strlit("stream");
    reveal_strlit("strict");
    reveal_strlit("summary");
    reveal_strlit("supports_previous_response_id");
    reveal_strlit("system");
    reveal_strlit("temperature");
    reveal_strlit("text");
    reveal_strlit("thinking");
    reveal_strlit("thinking_budget");
    reveal_strlit("tool_choice");
    reveal_strlit("tools");
    reveal_strlit("top_p");
    reveal_strlit("type");
    reveal_strlit("us-east-1.maas.aliyuncs.com");
    reveal_strlit("usage");
    reveal_strlit("user");
    reveal_strlit("vector_store_ids");
    reveal_strlit("web_search");
    reveal_strlit("web_search_options");
    reveal_strlit("x_tools");
    reveal_strlit("{}");
}

} // verus!
