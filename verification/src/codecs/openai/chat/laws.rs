//! What the Chat wire keeps of a conversation: what is sent says what the request says,
//! and what is read back is what was sent.

use crate::codecs::input;
use crate::codecs::laws;
use crate::codecs::openai::chat::encode::ChatDraftView;
use crate::codecs::openai::chat::reasoning::ReasoningView;
use crate::codecs::openai::chat::{decode, encode, reasoning};
use crate::codecs::wire;
use crate::codecs::{CodecContext, EncodeRequest};
use crate::encoding;
use crate::json::{self, Entries, JsonView};
use crate::protocol::profile;
use crate::protocol::{
    AttachmentRef, CompletionRequest, ContentBlock, ContentBlockView, DocumentSource, ImageSource,
    MessageRole, ProtocolFamily, ProviderProfile, ToolChoice, ToolSpec,
};
use crate::text;
use crate::transport::HttpResponse;
use vstd::prelude::*;

verus! {

broadcast use {crate::views::group_views, crate::json::group_json};

/// A call on the wire is the call of the conversation: its id, the name of the
/// function, and the arguments as text.
pub open spec fn calls(block: ContentBlock, sent: JsonView) -> bool {
    block matches ContentBlock::ToolUse { id, name, input, .. } && {
        &&& json::str_at(sent, "id"@) == Some(id@)
        &&& json::str_at(sent, "type"@) == Some("function"@)
        &&& json::str_in(json::member2(sent, "function"@, "name"@)) == Some(name@)
        &&& json::str_in(json::member2(sent, "function"@, "arguments"@)) == Some(
            json::text_of(input@),
        )
    }
}

/// A message on the wire that answers a call.
pub open spec fn answers(block: ContentBlock, sent: JsonView) -> bool {
    block matches ContentBlock::ToolResult { tool_use_id, content, .. } && {
        &&& json::str_at(sent, "role"@) == Some("tool"@)
        &&& json::str_at(sent, "tool_call_id"@) == Some(tool_use_id@)
        &&& json::str_at(sent, "content"@) == Some(content@)
    }
}

/// The calls among the first `n` blocks.
pub open spec fn uses(blocks: Seq<ContentBlock>, n: int) -> Seq<ContentBlock>
    decreases n,
{
    if n <= 0 {
        Seq::empty()
    } else if blocks[n - 1] is ToolUse {
        uses(blocks, n - 1).push(blocks[n - 1])
    } else {
        uses(blocks, n - 1)
    }
}

/// The results among the first `n` blocks.
pub open spec fn results(blocks: Seq<ContentBlock>, n: int) -> Seq<ContentBlock>
    decreases n,
{
    if n <= 0 {
        Seq::empty()
    } else if blocks[n - 1] is ToolResult {
        results(blocks, n - 1).push(blocks[n - 1])
    } else {
        results(blocks, n - 1)
    }
}

/// The calls that the messages make, in order.
pub open spec fn calls_in(messages: Seq<JsonView>) -> Seq<JsonView>
    decreases messages.len(),
{
    if messages.len() == 0 {
        Seq::empty()
    } else {
        calls_in(messages.drop_last()) + json::items_in(
            json::member(messages.last(), "tool_calls"@),
        )
    }
}

/// The messages that answer a call, in order.
pub open spec fn answers_in(messages: Seq<JsonView>) -> Seq<JsonView>
    decreases messages.len(),
{
    if messages.len() == 0 {
        Seq::empty()
    } else if json::str_at(messages.last(), "role"@) == Some("tool"@) {
        answers_in(messages.drop_last()).push(messages.last())
    } else {
        answers_in(messages.drop_last())
    }
}

/// The calls on the wire are these, one for one and in order.
pub open spec fn all_called(blocks: Seq<ContentBlock>, sent: Seq<JsonView>) -> bool {
    blocks.len() == sent.len() && forall|i: int|
        0 <= i < sent.len() ==> calls(blocks[i], #[trigger] sent[i])
}

/// The answers on the wire are these, one for one and in order.
pub open spec fn all_answered(blocks: Seq<ContentBlock>, sent: Seq<JsonView>) -> bool {
    blocks.len() == sent.len() && forall|i: int|
        0 <= i < sent.len() ==> answers(blocks[i], #[trigger] sent[i])
}

proof fn lemma_push(messages: Seq<JsonView>, message: JsonView)
    ensures
        calls_in(messages.push(message)) == calls_in(messages) + json::items_in(
            json::member(message, "tool_calls"@),
        ),
        answers_in(messages.push(message)) == if json::str_at(message, "role"@) == Some("tool"@) {
            answers_in(messages).push(message)
        } else {
            answers_in(messages)
        },
{
    assert(messages.push(message).drop_last() =~= messages);
}

proof fn lemma_add(a: Seq<JsonView>, b: Seq<JsonView>)
    ensures
        calls_in(a + b) == calls_in(a) + calls_in(b),
        answers_in(a + b) == answers_in(a) + answers_in(b),
    decreases b.len(),
{
    if b.len() == 0 {
        assert(a + b =~= a);
        assert(calls_in(a) + calls_in(b) =~= calls_in(a));
        assert(answers_in(a) + answers_in(b) =~= answers_in(a));
    } else {
        let rest = b.drop_last();
        let more = json::items_in(json::member(b.last(), "tool_calls"@));
        lemma_add(a, rest);
        assert((a + b).drop_last() =~= a + rest);
        assert((calls_in(a) + calls_in(rest)) + more =~= calls_in(a) + (calls_in(rest) + more));
        assert((answers_in(a) + answers_in(rest)).push(b.last()) =~= answers_in(a) + answers_in(
            rest,
        ).push(b.last()));
    }
}

/// The reasoning of a provider's own form, which names no other member of a message.
spec fn plain_native(native: Option<Entries>) -> bool {
    native matches Some(native) ==> {
        &&& json::entry(native, "role"@) is None
        &&& json::entry(native, "content"@) is None
        &&& json::entry(native, "tool_calls"@) is None
        &&& json::entry(native, "tool_call_id"@) is None
    }
}

proof fn lemma_native(blocks: Seq<ContentBlock>, i: int, found: Option<Entries>, role: MessageRole)
    requires
        plain_native(found),
    ensures
        encode::native_of(blocks, i, found, role) matches Ok(native) ==> plain_native(native),
    decreases blocks.len() - i,
{
    broadcast use json::entry_after_put;

    lemma_names();
    if 0 <= i < blocks.len() {
        match blocks[i] {
            ContentBlock::ProviderContent { protocol, value } => {
                if let Ok(native) = reasoning::replayed(protocol, value@) {
                    let fields = reasoning::fields_of(value@)->Ok_0;
                    assert(native == reasoning::members(fields));
                    lemma_native(blocks, i + 1, Some(native), role);
                }
            },
            _ => {
                lemma_native(blocks, i + 1, found, role);
            },
        }
    }
}

#[verifier::spinoff_prover]
proof fn lemma_pending(draft: ChatDraftView, role: Seq<char>)
    requires
        plain_native(draft.native),
    ensures
        ({
            let sent = JsonView::Object(encode::pending_message(draft, role));
            let spoken = if draft.calls.len() == 0 {
                role
            } else {
                "assistant"@
            };
            &&& json::str_at(sent, "role"@) == Some(spoken)
            &&& json::items_in(json::member(sent, "tool_calls"@)) == draft.calls
            &&& json::member(sent, "tool_calls"@) is Some <==> draft.calls.len() > 0
            &&& json::member(sent, "content"@) == Some(
                if spoken == "assistant"@ && draft.parts.len() == 0 {
                    JsonView::Null
                } else {
                    encode::content_of(draft.parts)
                },
            )
        }),
{
    broadcast use json::entry_after_put;

    lemma_names();
    let none = Seq::<(Seq<char>, JsonView)>::empty();
    let spoken = if draft.calls.len() == 0 {
        role
    } else {
        "assistant"@
    };
    let plain = json::put(
        json::put(none, "role"@, JsonView::Str(spoken)),
        "content"@,
        if spoken == "assistant"@ && draft.parts.len() == 0 {
            JsonView::Null
        } else {
            encode::content_of(draft.parts)
        },
    );
    if let Some(native) = draft.native {
        json::put_all_keeps_other_keys(plain, native, 0, "role"@);
        json::put_all_keeps_other_keys(plain, native, 0, "content"@);
        json::put_all_keeps_other_keys(plain, native, 0, "tool_calls"@);
    }
    assert(draft.calls.len() == 0 ==> draft.calls =~= Seq::<JsonView>::empty());
}

/// What a draft says so far of the calls and the results.
spec fn kept(draft: ChatDraftView, blocks: Seq<ContentBlock>, n: int) -> bool {
    &&& plain_native(draft.native)
    &&& all_called(uses(blocks, n), calls_in(draft.out) + draft.calls)
    &&& all_answered(results(blocks, n), answers_in(draft.out))
}

spec fn unflushed(a: ChatDraftView, b: ChatDraftView) -> bool {
    &&& calls_in(a.out) + a.calls == calls_in(b.out) + b.calls
    &&& answers_in(a.out) == answers_in(b.out)
    &&& b.calls.len() == 0
    &&& plain_native(b.native)
}

proof fn lemma_flushed(draft: ChatDraftView, role: Seq<char>)
    requires
        plain_native(draft.native),
        role != "tool"@,
    ensures
        unflushed(draft, encode::flushed(draft, role)),
{
    lemma_names();
    let done = encode::flushed(draft, role);
    if done != draft {
        let sent = JsonView::Object(encode::pending_message(draft, role));
        lemma_pending(draft, role);
        lemma_push(draft.out, sent);
    }
    assert(calls_in(draft.out) + draft.calls =~= calls_in(done.out) + done.calls);
}

#[verifier::spinoff_prover]
proof fn lemma_kept_block(
    draft: ChatDraftView,
    blocks: Seq<ContentBlock>,
    i: int,
    role: MessageRole,
    quirks: encode::Quirks,
    context: CodecContext,
    wire: EncodeRequest,
)
    requires
        0 <= i < blocks.len(),
        kept(draft, blocks, i),
    ensures
        encode::with_block(draft, blocks[i], role, quirks, context, wire) matches Ok(next) ==> kept(
            next,
            blocks,
            i + 1,
        ),
{
    broadcast use json::entry_after_put;

    lemma_names();
    if let Ok(next) = encode::with_block(draft, blocks[i], role, quirks, context, wire) {
        match blocks[i] {
            ContentBlock::ToolUse { id, name, input, .. } => {
                let call = encode::call_json(id@, name@, input@);
                assert(calls(blocks[i], call));
                assert(calls_in(next.out) + next.calls =~= (calls_in(draft.out) + draft.calls).push(
                    call,
                ));
            },
            ContentBlock::ToolResult { tool_use_id, content, .. } => {
                let done = encode::flushed(draft, encode::role_name(role));
                lemma_flushed(draft, encode::role_name(role));
                let answer = encode::result_json(tool_use_id@, content@);
                assert(answers(blocks[i], answer));
                lemma_push(done.out, answer);
                assert(json::member(answer, "tool_calls"@) is None);
                assert(calls_in(next.out) + next.calls =~= calls_in(done.out) + done.calls);
            },
            _ => {},
        }
    }
}

proof fn lemma_kept_blocks(
    draft: ChatDraftView,
    blocks: Seq<ContentBlock>,
    i: int,
    role: MessageRole,
    quirks: encode::Quirks,
    context: CodecContext,
    wire: EncodeRequest,
)
    requires
        0 <= i <= blocks.len(),
        kept(draft, blocks, i),
    ensures
        encode::with_blocks(draft, blocks, i, role, quirks, context, wire) matches Ok(next) ==> kept(
            next,
            blocks,
            blocks.len() as int,
        ),
    decreases blocks.len() - i,
{
    if i < blocks.len() {
        lemma_kept_block(draft, blocks, i, role, quirks, context, wire);
        if let Ok(next) = encode::with_block(draft, blocks[i], role, quirks, context, wire) {
            lemma_kept_blocks(next, blocks, i + 1, role, quirks, context, wire);
        }
    }
}

proof fn lemma_kept_message(
    blocks: Seq<ContentBlock>,
    role: MessageRole,
    quirks: encode::Quirks,
    context: CodecContext,
    wire: EncodeRequest,
)
    ensures
        encode::message_json(blocks, role, quirks, context, wire) matches Ok(sent) ==> {
            &&& all_called(uses(blocks, blocks.len() as int), calls_in(sent))
            &&& all_answered(results(blocks, blocks.len() as int), answers_in(sent))
        },
{
    if let Ok(sent) = encode::message_json(blocks, role, quirks, context, wire) {
        lemma_names();
        lemma_native(blocks, 0, None, role);
        let native = encode::native_of(blocks, 0, None, role)->Ok_0;
        let draft = ChatDraftView {
            out: Seq::empty(),
            parts: Seq::empty(),
            reasoning: Seq::empty(),
            calls: Seq::empty(),
            native,
        };
        assert(calls_in(draft.out) + draft.calls =~= Seq::<JsonView>::empty());
        lemma_kept_blocks(draft, blocks, 0, role, quirks, context, wire);
        let done = encode::with_blocks(draft, blocks, 0, role, quirks, context, wire)->Ok_0;
        lemma_flushed(done, encode::role_name(role));
        let out = encode::flushed(done, encode::role_name(role)).out;
        assert(calls_in(out) + Seq::<JsonView>::empty() =~= calls_in(out));
        assert(encode::flushed(done, encode::role_name(role)).calls =~= Seq::<JsonView>::empty());
    }
}

/// The calls of the conversation, up to the `m`th message.
pub open spec fn uses_upto(wire: EncodeRequest, m: int) -> Seq<ContentBlock>
    decreases m,
{
    if m <= 0 {
        Seq::empty()
    } else {
        let blocks = input::message_blocks(wire, m - 1);
        uses_upto(wire, m - 1) + uses(blocks, blocks.len() as int)
    }
}

/// The results of the conversation, up to the `m`th message.
pub open spec fn results_upto(wire: EncodeRequest, m: int) -> Seq<ContentBlock>
    decreases m,
{
    if m <= 0 {
        Seq::empty()
    } else {
        let blocks = input::message_blocks(wire, m - 1);
        results_upto(wire, m - 1) + results(blocks, blocks.len() as int)
    }
}

proof fn lemma_all_added(
    a: Seq<ContentBlock>,
    x: Seq<JsonView>,
    b: Seq<ContentBlock>,
    y: Seq<JsonView>,
)
    ensures
        all_called(a, x) && all_called(b, y) ==> all_called(a + b, x + y),
        all_answered(a, x) && all_answered(b, y) ==> all_answered(a + b, x + y),
{
    if all_called(a, x) && all_called(b, y) {
        assert forall|i: int| 0 <= i < (x + y).len() implies calls(
            (a + b)[i],
            #[trigger] (x + y)[i],
        ) by {
            if i < x.len() {
                assert(calls(a[i], x[i]));
            } else {
                assert(calls(b[i - x.len()], y[i - x.len()]));
            }
        }
    }
    if all_answered(a, x) && all_answered(b, y) {
        assert forall|i: int| 0 <= i < (x + y).len() implies answers(
            (a + b)[i],
            #[trigger] (x + y)[i],
        ) by {
            if i < x.len() {
                assert(answers(a[i], x[i]));
            } else {
                assert(answers(b[i - x.len()], y[i - x.len()]));
            }
        }
    }
}

proof fn lemma_kept_messages(
    before: Seq<JsonView>,
    m: int,
    quirks: encode::Quirks,
    context: CodecContext,
    wire: EncodeRequest,
)
    requires
        0 <= m <= wire.request.messages@.len(),
        all_called(uses_upto(wire, m), calls_in(before)),
        all_answered(results_upto(wire, m), answers_in(before)),
    ensures
        encode::with_messages(before, m, quirks, context, wire) matches Ok(sent) ==> {
            let n = wire.request.messages@.len() as int;
            &&& all_called(uses_upto(wire, n), calls_in(sent))
            &&& all_answered(results_upto(wire, n), answers_in(sent))
        },
    decreases wire.request.messages@.len() - m,
{
    if m < wire.request.messages@.len() {
        let blocks = input::message_blocks(wire, m);
        let role = wire.request.messages@[m].role;
        lemma_kept_message(blocks, role, quirks, context, wire);
        if let Ok(more) = encode::message_json(blocks, role, quirks, context, wire) {
            lemma_add(before, more);
            lemma_all_added(
                uses_upto(wire, m),
                calls_in(before),
                uses(blocks, blocks.len() as int),
                calls_in(more),
            );
            lemma_all_added(
                results_upto(wire, m),
                answers_in(before),
                results(blocks, blocks.len() as int),
                answers_in(more),
            );
            lemma_kept_messages(before + more, m + 1, quirks, context, wire);
        }
    }
}

/// The messages of a body.
pub open spec fn messages_in(body: JsonView) -> Seq<JsonView> {
    json::items_in(json::member(body, "messages"@))
}

/// The messages reach the body that is sent.
#[verifier::spinoff_prover]
#[verifier::rlimit(40)]
proof fn lemma_sent(wire: EncodeRequest, context: CodecContext)
    ensures
        encode::encoded(wire, context) matches Ok(sent) ==> encode::messages_of(wire, context)
            matches Ok(messages) && messages_in(sent.body) == messages,
{
    broadcast use json::entry_after_put;

    if let Ok(sent) = encode::encoded(wire, context) {
        lemma_names();
        let req = *wire.request;
        let messages = encode::messages_of(wire, context)->Ok_0;
        let limit = encode::limit_field(context.profile)->Ok_0;
        let body = encode::body_of(messages, limit, req, context);
        assert(json::entry(body, "messages"@) == Some(JsonView::Array(messages)));
        lemma_finished(req, context, body, limit, "messages"@);
    }
}

/// A member of a body is still there when the request is finished.
#[verifier::spinoff_prover]
proof fn lemma_finished(
    req: CompletionRequest,
    context: CodecContext,
    body: Entries,
    limit: Seq<char>,
    key: Seq<char>,
)
    requires
        json::entry(body, key) matches Some(value) && (value is Object ==> laws::uncontrolled(key)),
        req.web_search is None || (key != "web_search_options"@ && key != "include"@ && key
            != "tools"@ && key != "tool_choice"@),
        limit == "max_tokens"@ || limit == "max_completion_tokens"@,
        key == limit || (key != "max_tokens"@ && key != "max_completion_tokens"@),
    ensures
        crate::codecs::web_search::with_search(req, context.profile, body) matches Ok(searched) ==> (
        crate::codecs::inference::applied(req, context, searched, encode::json_headers()) matches Ok(
            (controlled, headers),
        ) ==> json::member(
            encode::finished(controlled, headers, limit, req, context.profile).body,
            key,
        ) == json::entry(body, key)),
{
    lemma_names();
    laws::lemma_body_keeps(req, context, body, encode::json_headers(), key);
    if let Ok(searched) = crate::codecs::web_search::with_search(req, context.profile, body) {
        if let Ok((controlled, headers)) = crate::codecs::inference::applied(
            req,
            context,
            searched,
            encode::json_headers(),
        ) {
            let merged = crate::codecs::extras::with_extra_body(context.profile, controlled).0;
            let alternate = if limit == "max_tokens"@ {
                "max_completion_tokens"@
            } else {
                "max_tokens"@
            };
            json::without_keeps_other_keys(merged, alternate, key);
        }
    }
}

/// Every call and every result of the conversation is in the messages that are sent,
/// one for one and in order, and nothing else is a call or a result there: a call with
/// its id, the name of the function and its arguments, a result with the id of the call
/// that it answers and its content.
pub proof fn a_request_carries_the_calls_and_their_results(wire: EncodeRequest, context: CodecContext)
    requires
        !encode::is_qwen_long(context),
    ensures
        encode::encoded(wire, context) matches Ok(sent) ==> {
            let n = wire.request.messages@.len() as int;
            &&& all_called(uses_upto(wire, n), calls_in(messages_in(sent.body)))
            &&& all_answered(results_upto(wire, n), answers_in(messages_in(sent.body)))
        },
{
    broadcast use json::entry_after_put;

    if let Ok(sent) = encode::encoded(wire, context) {
        lemma_names();
        lemma_sent(wire, context);
        let quirks = encode::quirks_of(context);
        let (front, taken) = encode::front_of(wire, quirks, context)->Ok_0;
        let none = Seq::<JsonView>::empty();
        if front.len() == 1 {
            lemma_push(none, front[0]);
            assert(none.push(front[0]) =~= front);
        } else {
            assert(front =~= none);
        }
        assert(calls_in(front) =~= none);
        assert(answers_in(front) =~= none);
        lemma_kept_messages(front, 0, quirks, context, wire);
    }
}

/// A block that stands in the content of a message.
pub open spec fn shown(block: ContentBlock) -> bool {
    block is Text || block is Image || block is Document
}

/// The blocks among the first `n` that stand in the content of a message.
pub open spec fn contents(blocks: Seq<ContentBlock>, n: int) -> Seq<ContentBlock>
    decreases n,
{
    if n <= 0 {
        Seq::empty()
    } else if shown(blocks[n - 1]) {
        contents(blocks, n - 1).push(blocks[n - 1])
    } else {
        contents(blocks, n - 1)
    }
}

/// An attachment stands in a part as a data URI of its bytes.
pub open spec fn attached(wire: EncodeRequest, attachment: AttachmentRef, uri: Option<Seq<char>>) -> bool {
    wire.media matches Some(media) && exists|i: int|
        0 <= i < media@.len() && profile::same_attachment(
            *(#[trigger] media@[i]).attachment,
            attachment,
        ) && uri == Some(
            "data:"@ + attachment.media_type@ + ";base64,"@ + encoding::base64_encoded(
                media@[i].bytes@,
            ),
        )
}

/// What is read off a part on the wire is what the block of the conversation says.
pub open spec fn carries(wire: EncodeRequest, block: ContentBlock, sent: JsonView) -> bool {
    let link = json::str_in(json::member2(sent, "image_url"@, "url"@));
    let data = json::str_in(json::member2(sent, "file"@, "file_data"@));
    match block {
        ContentBlock::Text { text, .. } => {
            &&& json::str_at(sent, "type"@) == Some("text"@)
            &&& json::str_at(sent, "text"@) == Some(text@)
        },
        ContentBlock::Image { source } => {
            &&& json::str_at(sent, "type"@) == Some("image_url"@)
            &&& match source {
                ImageSource::Url { url } => link == Some(url@),
                ImageSource::Base64 { media_type, data } => link == Some(
                    "data:"@ + media_type@ + ";base64,"@ + data@,
                ),
                ImageSource::Attachment { attachment } => attached(wire, attachment, link),
                ImageSource::ProviderFile { .. } => false,
            }
        },
        ContentBlock::Document { source, .. } => {
            &&& json::str_at(sent, "type"@) == Some("file"@)
            &&& match source {
                DocumentSource::Base64 { media_type, data: held } => data == Some(
                    "data:"@ + media_type@ + ";base64,"@ + held@,
                ),
                DocumentSource::Text { media_type, data: held } => data == Some(
                    "data:"@ + media_type@ + ";base64,"@ + encoding::base64_encoded(
                        vstd::utf8::encode_utf8(held@),
                    ),
                ),
                DocumentSource::Attachment { attachment } => attached(wire, attachment, data),
                DocumentSource::ProviderFile { file } => json::str_in(
                    json::member2(sent, "file"@, "file_id"@),
                ) == Some(file.file_id@),
                DocumentSource::Url { .. } => false,
            }
        },
        _ => false,
    }
}

/// The parts on the wire are these blocks, one for one and in order.
pub open spec fn all_carried(wire: EncodeRequest, blocks: Seq<ContentBlock>, sent: Seq<JsonView>) -> bool {
    blocks.len() == sent.len() && forall|i: int|
        0 <= i < sent.len() ==> carries(wire, blocks[i], #[trigger] sent[i])
}

proof fn lemma_prepared<'a>(
    media: Seq<input::PreparedMedia<'a>>,
    attachment: AttachmentRef,
    i: int,
)
    requires
        0 <= i,
    ensures
        input::prepared(media, attachment, i) matches Some(found) ==> exists|k: int|
            i <= k < media.len() && #[trigger] media[k] == found && profile::same_attachment(
                *media[k].attachment,
                attachment,
            ),
    decreases media.len() - i,
{
    if i < media.len() && !profile::same_attachment(*media[i].attachment, attachment) {
        lemma_prepared(media, attachment, i + 1);
    }
}

/// What a draft says so far, before any result.
spec fn drafted(draft: ChatDraftView, wire: EncodeRequest, blocks: Seq<ContentBlock>, n: int) -> bool {
    &&& draft.out.len() == 0
    &&& draft.native is None
    &&& all_carried(wire, contents(blocks, n), draft.parts)
    &&& all_called(uses(blocks, n), draft.calls)
}

#[verifier::spinoff_prover]
#[verifier::rlimit(60)]
proof fn lemma_drafted_block(
    draft: ChatDraftView,
    blocks: Seq<ContentBlock>,
    i: int,
    role: MessageRole,
    quirks: encode::Quirks,
    context: CodecContext,
    wire: EncodeRequest,
)
    requires
        0 <= i < blocks.len(),
        !quirks.qwen_long,
        drafted(draft, wire, blocks, i),
        !(blocks[i] is ToolResult),
    ensures
        encode::with_block(draft, blocks[i], role, quirks, context, wire) matches Ok(next) ==> drafted(
            next,
            wire,
            blocks,
            i + 1,
        ),
{
    broadcast use json::entry_after_put;

    lemma_names();
    let block = blocks[i];
    if let Ok(next) = encode::with_block(draft, block, role, quirks, context, wire) {
        if let Some(attachment) = input::attachment_of(block) {
            lemma_prepared(input::media_of(wire), attachment, 0);
            let media = input::prepared(input::media_of(wire), attachment, 0)->0;
            let list = wire.media->0;
            let k = choose|k: int|
                0 <= k < list@.len() && #[trigger] list@[k] == media && profile::same_attachment(
                    *list@[k].attachment,
                    attachment,
                );
            assert(list@[k] == media);
            let uri = wire::data_uri(
                attachment.media_type@,
                encoding::base64_encoded(media.bytes@),
            );
            assert(attached(wire, attachment, Some(uri)));
        }
        if shown(block) {
            assert(next.parts.len() == draft.parts.len() + 1);
            assert(carries(wire, block, next.parts.last()));
            assert(all_carried(wire, contents(blocks, i + 1), next.parts));
        } else if block is ToolUse {
            assert(calls(block, next.calls.last()));
        }
    }
}

proof fn lemma_drafted_blocks(
    draft: ChatDraftView,
    blocks: Seq<ContentBlock>,
    i: int,
    role: MessageRole,
    quirks: encode::Quirks,
    context: CodecContext,
    wire: EncodeRequest,
)
    requires
        0 <= i <= blocks.len(),
        !quirks.qwen_long,
        drafted(draft, wire, blocks, i),
        forall|k: int| 0 <= k < blocks.len() ==> !(#[trigger] blocks[k] is ToolResult),
    ensures
        encode::with_blocks(draft, blocks, i, role, quirks, context, wire) matches Ok(next)
            ==> drafted(next, wire, blocks, blocks.len() as int),
    decreases blocks.len() - i,
{
    if i < blocks.len() {
        lemma_drafted_block(draft, blocks, i, role, quirks, context, wire);
        if let Ok(next) = encode::with_block(draft, blocks[i], role, quirks, context, wire) {
            lemma_drafted_blocks(next, blocks, i + 1, role, quirks, context, wire);
        }
    }
}

proof fn lemma_texts(
    wire: EncodeRequest,
    blocks: Seq<ContentBlock>,
    parts: Seq<JsonView>,
    i: int,
    before: Seq<Seq<char>>,
)
    requires
        all_carried(wire, blocks, parts),
        forall|k: int| 0 <= k < blocks.len() ==> #[trigger] blocks[k] is Text,
        before.len() == i <= parts.len(),
        forall|k: int| 0 <= k < i ==> #[trigger] before[k] == blocks[k]->Text_text@,
    ensures
        encode::part_texts(parts, i, before) =~= Seq::new(
            blocks.len(),
            |k: int| blocks[k]->Text_text@,
        ),
    decreases parts.len() - i,
{
    if i < parts.len() {
        assert(carries(wire, blocks[i], parts[i]));
        lemma_texts(wire, blocks, parts, i + 1, before.push(blocks[i]->Text_text@));
    }
}

/// A block of a message that is one message on the wire: no result, which is a message
/// of its own, and nothing in a provider's own form.
pub open spec fn simple(block: ContentBlock) -> bool {
    !(block is ToolResult) && !(block is ProviderContent)
}

proof fn lemma_no_native(blocks: Seq<ContentBlock>, i: int, role: MessageRole)
    requires
        forall|k: int| 0 <= k < blocks.len() ==> simple(#[trigger] blocks[k]),
    ensures
        encode::native_of(blocks, i, None, role) == Ok::<
            Option<Entries>,
            crate::protocol::LlmErrorView,
        >(None),
    decreases blocks.len() - i,
{
    if 0 <= i < blocks.len() {
        assert(simple(blocks[i]));
        lemma_no_native(blocks, i + 1, role);
    }
}

/// A message of the conversation on the wire: its speaker, its text or its parts, and
/// its calls. Text alone is one string, its blocks on lines of their own; with an image
/// or a document it is a list of parts, in order.
pub open spec fn says(wire: EncodeRequest, blocks: Seq<ContentBlock>, role: MessageRole, sent: JsonView) -> bool {
    let n = blocks.len() as int;
    let shown = contents(blocks, n);
    let content = json::member(sent, "content"@);
    let called = uses(blocks, n).len() > 0;
    let texts = Seq::new(shown.len(), |k: int| shown[k]->Text_text@);
    let plain = forall|k: int| 0 <= k < shown.len() ==> #[trigger] shown[k] is Text;
    &&& json::str_at(sent, "role"@) == Some("assistant"@) <==> role == MessageRole::Assistant
        || called
    &&& json::str_at(sent, "role"@) == Some("user"@) <==> role == MessageRole::User && !called
    &&& json::str_at(sent, "role"@) == Some("system"@) <==> role == MessageRole::System && !called
    &&& all_called(uses(blocks, n), json::items_in(json::member(sent, "tool_calls"@)))
    &&& shown.len() > 0 && plain ==> content == Some(JsonView::Str(text::joined(texts, "\n"@)))
    &&& shown.len() > 0 && !plain ==> (content matches Some(JsonView::Array(parts)) && all_carried(
        wire,
        shown,
        parts,
    ))
}

/// A message without results is one message on the wire, which says what it says.
#[verifier::spinoff_prover]
#[verifier::rlimit(60)]
pub proof fn a_message_is_one_message(
    blocks: Seq<ContentBlock>,
    role: MessageRole,
    quirks: encode::Quirks,
    context: CodecContext,
    wire: EncodeRequest,
)
    requires
        !quirks.qwen_long,
        forall|k: int| 0 <= k < blocks.len() ==> simple(#[trigger] blocks[k]),
        contents(blocks, blocks.len() as int).len() + uses(blocks, blocks.len() as int).len() > 0,
    ensures
        encode::message_json(blocks, role, quirks, context, wire) matches Ok(sent) ==> {
            &&& sent.len() == 1
            &&& says(wire, blocks, role, sent[0])
        },
{
    if let Ok(sent) = encode::message_json(blocks, role, quirks, context, wire) {
        lemma_names();
        lemma_no_native(blocks, 0, role);
        let draft = ChatDraftView {
            out: Seq::empty(),
            parts: Seq::empty(),
            reasoning: Seq::empty(),
            calls: Seq::empty(),
            native: None,
        };
        assert forall|k: int| 0 <= k < blocks.len() implies !(#[trigger] blocks[k] is ToolResult) by {
            assert(simple(blocks[k]));
        }
        lemma_drafted_blocks(draft, blocks, 0, role, quirks, context, wire);
        let done = encode::with_blocks(draft, blocks, 0, role, quirks, context, wire)->Ok_0;
        lemma_pending(done, encode::role_name(role));
        let shown = contents(blocks, blocks.len() as int);
        if forall|k: int| 0 <= k < shown.len() ==> #[trigger] shown[k] is Text {
            lemma_texts(wire, shown, done.parts, 0, Seq::empty());
            assert forall|k: int| 0 <= k < done.parts.len() implies json::str_at(
                #[trigger] done.parts[k],
                "type"@,
            ) == Some("text"@) by {
                assert(carries(wire, shown[k], done.parts[k]));
            }
            assert(encode::all_text(done.parts));
        } else {
            let k = choose|k: int| 0 <= k < shown.len() && !(#[trigger] shown[k] is Text);
            lemma_contents_shown(blocks, blocks.len() as int, k);
            assert(carries(wire, shown[k], done.parts[k]));
            assert(json::str_at(done.parts[k], "type"@) != Some("text"@));
            assert(!encode::all_text(done.parts));
        }
    }
}

proof fn lemma_contents_shown(blocks: Seq<ContentBlock>, n: int, k: int)
    requires
        0 <= k < contents(blocks, n).len(),
    ensures
        shown(contents(blocks, n)[k]),
    decreases n,
{
    if n > 0 {
        if k < contents(blocks, n - 1).len() {
            lemma_contents_shown(blocks, n - 1, k);
        }
    }
}

/// A request of which every message is one message on the wire.
pub open spec fn dialogue(wire: EncodeRequest) -> bool {
    forall|m: int|
        0 <= m < wire.request.messages@.len() ==> spoken(#[trigger] input::message_blocks(wire, m))
}

pub open spec fn spoken(blocks: Seq<ContentBlock>) -> bool {
    &&& forall|k: int| 0 <= k < blocks.len() ==> simple(#[trigger] blocks[k])
    &&& contents(blocks, blocks.len() as int).len() + uses(blocks, blocks.len() as int).len() > 0
}

proof fn lemma_dialogue(
    before: Seq<JsonView>,
    front: int,
    m: int,
    quirks: encode::Quirks,
    context: CodecContext,
    wire: EncodeRequest,
)
    requires
        !quirks.qwen_long,
        dialogue(wire),
        0 <= m <= wire.request.messages@.len(),
        0 <= front,
        before.len() == front + m,
        forall|k: int|
            0 <= k < m ==> says(
                wire,
                input::message_blocks(wire, k),
                wire.request.messages@[k].role,
                #[trigger] before[front + k],
            ),
    ensures
        encode::with_messages(before, m, quirks, context, wire) matches Ok(sent) ==> {
            &&& sent.len() == front + wire.request.messages@.len()
            &&& forall|k: int| 0 <= k < front ==> #[trigger] sent[k] == before[k]
            &&& forall|k: int|
                0 <= k < wire.request.messages@.len() ==> says(
                    wire,
                    input::message_blocks(wire, k),
                    wire.request.messages@[k].role,
                    #[trigger] sent[front + k],
                )
        },
    decreases wire.request.messages@.len() - m,
{
    if m < wire.request.messages@.len() {
        let blocks = input::message_blocks(wire, m);
        let role = wire.request.messages@[m].role;
        assert(spoken(blocks));
        a_message_is_one_message(blocks, role, quirks, context, wire);
        if let Ok(more) = encode::message_json(blocks, role, quirks, context, wire) {
            let next = before + more;
            assert forall|k: int| 0 <= k < m + 1 implies says(
                wire,
                input::message_blocks(wire, k),
                wire.request.messages@[k].role,
                #[trigger] next[front + k],
            ) by {
                if k < m {
                    assert(next[front + k] == before[front + k]);
                } else {
                    assert(next[front + k] == more[0]);
                }
            }
            lemma_dialogue(next, front, m + 1, quirks, context, wire);
        }
    }
}

/// A conversation is sent message by message, in order, after the system prompt, whose
/// blocks are put together with an empty line between them.
pub proof fn a_request_carries_the_conversation(wire: EncodeRequest, context: CodecContext)
    requires
        !encode::is_qwen_long(context),
        dialogue(wire),
    ensures
        encode::encoded(wire, context) matches Ok(sent) ==> {
            let messages = messages_in(sent.body);
            let system = wire.request.system@;
            let front = if system.len() > 0 {
                1int
            } else {
                0int
            };
            &&& messages.len() == front + wire.request.messages@.len()
            &&& front == 1 ==> json::str_at(messages[0], "role"@) == Some("system"@)
                && json::str_at(messages[0], "content"@) == Some(
                text::joined(Seq::new(system.len(), |i: int| system[i].text@), "\n\n"@),
            )
            &&& forall|m: int|
                0 <= m < wire.request.messages@.len() ==> says(
                    wire,
                    input::message_blocks(wire, m),
                    wire.request.messages@[m].role,
                    #[trigger] messages[front + m],
                )
        },
{
    broadcast use json::entry_after_put;

    if let Ok(sent) = encode::encoded(wire, context) {
        lemma_names();
        lemma_sent(wire, context);
        let quirks = encode::quirks_of(context);
        let (front, taken) = encode::front_of(wire, quirks, context)->Ok_0;
        lemma_dialogue(front, front.len() as int, 0, quirks, context, wire);
    }
}

/// A tool on the wire.
pub open spec fn offers(tool: ToolSpec, sent: JsonView) -> bool {
    &&& json::str_at(sent, "type"@) == Some("function"@)
    &&& json::str_in(json::member2(sent, "function"@, "name"@)) == Some(tool.name@)
    &&& json::str_in(json::member2(sent, "function"@, "description"@)) == Some(tool.description@)
    &&& json::member2(sent, "function"@, "parameters"@) == Some(tool.input_schema@)
    &&& json::member2(sent, "function"@, "strict"@) == Some(
        match tool.strict {
            Some(strict) => JsonView::Bool(strict),
            None => JsonView::Null,
        },
    )
}

/// A tool choice on the wire.
pub open spec fn chooses(choice: ToolChoice, sent: JsonView) -> bool {
    &&& choice is Auto <==> sent == JsonView::Str("auto"@)
    &&& choice is Any <==> sent == JsonView::Str("required"@)
    &&& choice is Forbidden <==> sent == JsonView::Str("none"@)
    &&& choice matches ToolChoice::Tool { name } ==> json::str_at(sent, "type"@) == Some(
        "function"@,
    ) && json::str_in(json::member2(sent, "function"@, "name"@)) == Some(name@)
}

#[verifier::spinoff_prover]
proof fn lemma_parts(req: CompletionRequest)
    ensures
        forall|i: int|
            0 <= i < req.tools@.len() ==> offers(
                req.tools@[i],
                #[trigger] json::items_in(Some(encode::tools_json(req.tools@)))[i],
            ),
        chooses(req.tool_choice, encode::choice_json(req.tool_choice)),
{
    broadcast use json::entry_after_put;

    lemma_names();
}

/// The settings of a request are sent as they are: the limit under the name that the
/// profile asks for and under no other, the temperature, the stop sequences, whether to
/// stream, and, where no hosted search adds to them, the tools one by one and the choice
/// among them.
#[verifier::spinoff_prover]
#[verifier::rlimit(60)]
pub proof fn a_request_carries_its_settings(wire: EncodeRequest, context: CodecContext)
    ensures
        encode::encoded(wire, context) matches Ok(sent) ==> {
            let req = *wire.request;
            let tools = json::items_in(json::member(sent.body, "tools"@));
            let stops = json::items_in(json::member(sent.body, "stop"@));
            let late = json::str_at(context.profile.extra@, "max_tokens_field"@) == Some(
                "max_completion_tokens"@,
            );
            &&& req.max_tokens matches Some(max) ==> {
                &&& late ==> json::u64_at(sent.body, "max_completion_tokens"@) == Some(max as u64)
                &&& !late ==> json::u64_at(sent.body, "max_tokens"@) == Some(max as u64)
            }
            &&& req.temperature matches Some(t) ==> json::member(sent.body, "temperature"@) == Some(
                JsonView::Number(t@),
            )
            &&& req.stop_sequences@.len() > 0 ==> stops.len() == req.stop_sequences@.len()
                && forall|i: int|
                0 <= i < stops.len() ==> #[trigger] stops[i] == JsonView::Str(
                    req.stop_sequences@[i]@,
                )
            &&& context.stream ==> json::member(sent.body, "stream"@) == Some(JsonView::Bool(true))
            &&& req.tools@.len() > 0 && req.web_search is None ==> {
                &&& tools.len() == req.tools@.len()
                &&& forall|i: int| 0 <= i < tools.len() ==> offers(req.tools@[i], #[trigger] tools[i])
                &&& json::member(sent.body, "tool_choice"@) matches Some(choice) && chooses(
                    req.tool_choice,
                    choice,
                )
            }
        },
{
    broadcast use json::entry_after_put;

    if let Ok(sent) = encode::encoded(wire, context) {
        lemma_names();
        let req = *wire.request;
        let messages = encode::messages_of(wire, context)->Ok_0;
        let limit = encode::limit_field(context.profile)->Ok_0;
        let body = encode::body_of(messages, limit, req, context);
        lemma_parts(req);
        if req.max_tokens is Some {
            lemma_finished(req, context, body, limit, limit);
        }
        if req.temperature is Some {
            lemma_finished(req, context, body, limit, "temperature"@);
        }
        if req.stop_sequences@.len() > 0 {
            lemma_finished(req, context, body, limit, "stop"@);
        }
        if context.stream {
            lemma_finished(req, context, body, limit, "stream"@);
        }
        if req.tools@.len() > 0 && req.web_search is None {
            lemma_finished(req, context, body, limit, "tools"@);
            lemma_finished(req, context, body, limit, "tool_choice"@);
        }
    }
}

/// The message of the first choice of a reply.
pub open spec fn message_in(response: HttpResponse) -> Option<JsonView> {
    let choices = json::items_in(
        json::member(json::bytes_value(response.body@), "choices"@),
    );
    if choices.len() > 0 {
        json::member(choices[0], "message"@)
    } else {
        None
    }
}

proof fn lemma_call_blocks(calls: Seq<JsonView>, i: int, before: Seq<ContentBlockView>)
    requires
        0 <= i <= calls.len(),
    ensures
        ({
            let all = decode::call_blocks(calls, i, before);
            &&& all.len() == before.len() + calls.len() - i
            &&& forall|k: int| 0 <= k < before.len() ==> #[trigger] all[k] == before[k]
            &&& forall|k: int|
                before.len() <= k < all.len() ==> #[trigger] all[k] == decode::call_block(
                    calls[k - before.len() + i],
                )
        }),
    decreases calls.len() - i,
{
    if i < calls.len() {
        let next = before.push(decode::call_block(calls[i]));
        lemma_call_blocks(calls, i + 1, next);
        let all = decode::call_blocks(calls, i + 1, next);
        assert forall|k: int| 0 <= k < before.len() implies #[trigger] all[k] == before[k] by {
            assert(all[k] == next[k]);
        }
        assert forall|k: int| before.len() <= k < all.len() implies #[trigger] all[k]
            == decode::call_block(calls[k - before.len() + i]) by {
            if k < next.len() {
                assert(all[k] == next[k]);
            }
        }
    }
}

/// A block that was read is the call that a value on the wire makes: with its id, its
/// name, and the JSON value that its arguments are the text of.
pub open spec fn reads_call(call: JsonView, block: ContentBlockView) -> bool {
    block matches ContentBlockView::ToolUse { id, name, input, .. } && {
        &&& json::str_at(call, "id"@) matches Some(said) ==> id == said
        &&& json::str_in(json::member2(call, "function"@, "name"@)) matches Some(said) ==> name
            == said
        &&& json::str_in(json::member2(call, "function"@, "arguments"@)) matches Some(said) ==> (
        json::parsed(vstd::utf8::encode_utf8(said)) matches Ok(value) ==> input == value)
    }
}

/// A reply is decoded to what its first choice says: its text, if there is any, and its
/// calls after it, one for one and in order.
pub proof fn a_reply_is_read_as_it_was_said(response: HttpResponse, profile: ProviderProfile)
    ensures
        decode::decoded(response, profile) matches Ok(reply) ==> (message_in(response) matches Some(
            message,
        ) ==> {
            let calls = json::items_in(json::member(message, "tool_calls"@));
            let said = json::str_at(message, "content"@);
            let front = if said is Some && said->0.len() > 0 {
                1int
            } else {
                0int
            };
            &&& reply.content.len() == front + calls.len()
            &&& front == 1 ==> reply.content[0] == (ContentBlockView::Text {
                text: said->0,
                thought_signature: None,
            })
            &&& forall|i: int|
                0 <= i < calls.len() ==> reads_call(calls[i], #[trigger] reply.content[front + i])
        }),
{
    if let Ok(reply) = decode::decoded(response, profile) {
        if let Some(message) = message_in(response) {
            lemma_names();
            let calls = json::items_in(json::member(message, "tool_calls"@));
            let front = decode::text_blocks(message);
            lemma_call_blocks(calls, 0, front);
            assert forall|i: int| 0 <= i < calls.len() implies reads_call(
                calls[i],
                #[trigger] reply.content[front.len() + i],
            ) by {
                assert(reply.content[front.len() + i] == decode::call_block(calls[i]));
            }
        }
    }
}

/// Sending a call and reading it back gives the same id, name and input, where the input
/// is the value that its own text stands for.
pub proof fn a_call_is_read_back(block: ContentBlock, sent: JsonView)
    requires
        calls(block, sent),
        block matches ContentBlock::ToolUse { input, .. } && json::parsed(
            vstd::utf8::encode_utf8(json::text_of(input@)),
        ) == Ok::<JsonView, Seq<char>>(input@),
    ensures
        decode::call_block(sent) matches ContentBlockView::ToolUse { id, name, input, .. } && {
            &&& id == block->ToolUse_id@
            &&& name == block->ToolUse_name@
            &&& input == block->ToolUse_input@
        },
{
}

/// What a reply says of itself: which model it is from, why it stopped, and what it
/// counts. The prompt is counted without what came from a cache or went into one.
#[verifier::spinoff_prover]
pub proof fn a_reply_tells_its_model_stop_and_usage(response: HttpResponse, profile: ProviderProfile)
    ensures
        decode::decoded(response, profile) matches Ok(reply) ==> {
            let body = json::bytes_value(response.body@);
            let choices = json::items_in(json::member(body, "choices"@));
            let stop = json::str_at(choices[0], "finish_reason"@);
            &&& json::str_at(body, "model"@) matches Some(model) ==> reply.model == model
            &&& reply.stop_reason is ToolUse <==> stop == Some("tool_calls"@) || stop == Some(
                "function_call"@,
            )
            &&& reply.stop_reason is MaxTokens <==> stop == Some("length"@)
            &&& reply.stop_reason is Refusal <==> stop == Some("content_filter"@)
            &&& reply.stop_reason is EndTurn <==> stop is None || stop == Some("stop"@)
            &&& reply.usage.reported is Some <==> json::member(body, "usage"@) is Some
            &&& json::member(body, "usage"@) matches Some(usage) ==> {
                let counted = reply.usage.reported->0;
                let prompt = json::count_in(json::member(usage, "prompt_tokens"@));
                let completion = json::count_in(json::member(usage, "completion_tokens"@));
                let read = json::count_in(
                    json::member2(usage, "prompt_tokens_details"@, "cached_tokens"@),
                );
                let write = json::count_in(
                    json::member2(usage, "prompt_tokens_details"@, "cache_write_tokens"@),
                );
                let thought = json::count_in(
                    json::member2(usage, "completion_tokens_details"@, "reasoning_tokens"@),
                );
                &&& counted.cache_read_tokens == read
                &&& counted.cache_write_tokens == write
                &&& counted.reasoning_tokens == thought
                &&& read + write <= prompt ==> counted.input_tokens == prompt - read - write
                &&& !decode::separate_reasoning_of(profile) ==> counted.output_tokens == completion
                &&& decode::separate_reasoning_of(profile) && completion + thought <= u64::MAX
                    ==> counted.output_tokens == completion + thought
            }
        },
{
    lemma_names();
}

/// A reply that is refused is an error that tells the cause: what the error code names,
/// or, without one that is known, what the status stands for.
#[verifier::spinoff_prover]
pub proof fn a_refusal_tells_its_cause(response: HttpResponse, profile: ProviderProfile)
    requires
        !(200 <= response.status < 300),
    ensures
        decode::decoded(response, profile) matches Err(error) && {
            let body = json::bytes_value(response.body@);
            let code = json::str_in(json::member2(body, "error"@, "code"@));
            let kind = json::str_in(json::member2(body, "error"@, "type"@));
            let unnamed = code is None && kind is None;
            &&& code == Some("insufficient_quota"@) ==> error is QuotaExceeded
            &&& code == Some("context_length_exceeded"@) ==> error is ContextOverflow
            &&& code == Some("invalid_api_key"@) ==> error is Authentication
            &&& code == Some("model_not_found"@) ==> error is ModelUnavailable
            &&& unnamed && response.status == 401 ==> error is Authentication
            &&& unnamed && response.status == 403 ==> error is PermissionDenied
            &&& unnamed && response.status == 404 ==> error is ModelUnavailable
            &&& unnamed && response.status == 429 ==> error is RateLimited
            &&& unnamed && response.status == 400 ==> error is InvalidRequest
            &&& unnamed && response.status == 422 ==> error is InvalidRequest
            &&& unnamed && response.status == 529 ==> error is Overloaded
            &&& unnamed && response.status == 500 ==> error is ProviderInternal
        },
{
    lemma_names();
    assert(Seq::<char>::empty().len() == 0);
}

proof fn lemma_known(entries: Entries, key: Seq<char>, value: JsonView)
    requires
        reasoning::only_known(entries),
        key == "type"@ || key == "reasoning"@ || key == "reasoning_details"@,
    ensures
        reasoning::only_known(json::put(entries, key, value)),
    decreases entries.len(),
{
    if entries.len() > 0 {
        let rest = entries.skip(1);
        assert forall|i: int| 0 <= i < rest.len() implies (#[trigger] rest[i]).0 == "type"@
            || rest[i].0 == "reasoning"@ || rest[i].0 == "reasoning_details"@ by {
            assert(rest[i] == entries[i + 1]);
        }
        lemma_known(rest, key, value);
        let put = json::put(entries, key, value);
        let more = json::put(rest, key, value);
        assert forall|i: int| 0 <= i < put.len() implies (#[trigger] put[i]).0 == "type"@
            || put[i].0 == "reasoning"@ || put[i].0 == "reasoning_details"@ by {
            assert(entries[0].0 == "type"@ || entries[0].0 == "reasoning"@ || entries[0].0
                == "reasoning_details"@);
            if entries[0].0 == key {
                if i > 0 {
                    assert(put[i] == entries[i]);
                }
            } else if text::less(key, entries[0].0) {
                if i > 0 {
                    assert(put[i] == entries[i - 1]);
                }
            } else if i > 0 {
                assert(put[i] == more[i - 1]);
            }
        }
    }
}

/// What is kept of the reasoning of a reply is what the next request sends back: the
/// text and the details, as they came and under the names they came under.
#[verifier::spinoff_prover]
#[verifier::rlimit(40)]
pub proof fn a_reasoning_is_sent_back(message: JsonView)
    ensures
        reasoning::fields_of(message) matches Ok(fields) ==> {
            &&& fields.reasoning is Some ==> json::str_at(message, "reasoning"@) == fields.reasoning
            &&& fields.details is Some ==> json::member(message, "reasoning_details"@) == Some(
                JsonView::Array(fields.details->0),
            )
            &&& reasoning::envelope_of(fields) matches Some(kept) ==> {
                &&& json::str_at(kept, "type"@) == Some("chat_reasoning"@)
                &&& reasoning::replayed(ProtocolFamily::OpenAiChat, kept) matches Ok(sent)
                &&& json::str_at(message, "reasoning"@) is Some ==> json::entry(
                    sent,
                    "reasoning"@,
                ) == json::member(message, "reasoning"@)
                &&& json::at(message, "reasoning_details"@) is Array ==> json::entry(
                    sent,
                    "reasoning_details"@,
                ) == json::member(message, "reasoning_details"@)
                &&& json::entry(sent, "type"@) is None
            }
            &&& reasoning::envelope_of(fields) is None <==> json::at(message, "reasoning"@)
                == JsonView::Null && json::at(message, "reasoning_details"@) == JsonView::Null
        },
{
    broadcast use json::entry_after_put;

    lemma_names();
    if let Ok(fields) = reasoning::fields_of(message) {
        if let Some(kept) = reasoning::envelope_of(fields) {
            let entries = json::put(
                reasoning::members(fields),
                "type"@,
                JsonView::Str("chat_reasoning"@),
            );
            assert(kept == JsonView::Object(entries));
            let empty = Seq::<(Seq<char>, JsonView)>::empty();
            let first = json::put_some(
                empty,
                "reasoning"@,
                reasoning::some_text(fields.reasoning),
            );
            if let Some(value) = reasoning::some_text(fields.reasoning) {
                lemma_known(empty, "reasoning"@, value);
            }
            if let Some(value) = reasoning::some_array(fields.details) {
                lemma_known(first, "reasoning_details"@, value);
            }
            lemma_known(
                reasoning::members(fields),
                "type"@,
                JsonView::Str("chat_reasoning"@),
            );
            assert(reasoning::only_known(entries));
        }
    }
}

/// The pieces of a reasoning are held one behind the other.
pub proof fn a_reasoning_is_gathered(held: ReasoningView, piece: ReasoningView)
    ensures
        ({
            let all = reasoning::continued(held, piece);
            let text = |r: ReasoningView| if r.reasoning is Some { r.reasoning->0 } else { Seq::empty() };
            let items = |r: ReasoningView| if r.details is Some { r.details->0 } else { Seq::empty() };
            &&& text(all) == text(held) + text(piece)
            &&& items(all) == items(held) + items(piece)
            &&& all.reasoning is Some <==> held.reasoning is Some || piece.reasoning is Some
            &&& all.details is Some <==> held.details is Some || piece.details is Some
        }),
{
    assert(forall|s: Seq<char>| #[trigger] (s + Seq::<char>::empty()) =~= s);
    assert(forall|s: Seq<char>| #[trigger] (Seq::<char>::empty() + s) =~= s);
    assert(forall|s: Seq<JsonView>| #[trigger] (s + Seq::<JsonView>::empty()) =~= s);
    assert(forall|s: Seq<JsonView>| #[trigger] (Seq::<JsonView>::empty() + s) =~= s);
}

/// What is shown of a reasoning is its text where there is one, under either name, and
/// else what its details say, one behind the other.
pub proof fn a_reasoning_is_shown(message: JsonView, detail: JsonView)
    ensures
        json::str_at(message, "reasoning_content"@) matches Some(said) ==> (said.len()
            > 0 ==> reasoning::display_of(message) == said),
        json::str_at(message, "reasoning_content"@) is None ==> (json::str_at(
            message,
            "reasoning"@,
        ) matches Some(said) ==> (said.len() > 0 ==> reasoning::display_of(message) == said)),
        json::is_kind(detail, "reasoning.text"@) ==> (json::str_at(detail, "text"@) matches Some(
            said,
        ) ==> reasoning::detail_text(detail) == said),
        json::is_kind(detail, "reasoning.summary"@) ==> (json::str_at(
            detail,
            "summary"@,
        ) matches Some(said) ==> reasoning::detail_text(detail) == said),
        json::is_kind(detail, "reasoning.encrypted"@) ==> reasoning::detail_text(detail).len() == 0,
{
    lemma_names();
}

proof fn lemma_details_text(details: Seq<JsonView>, i: int, before: Seq<char>)
    requires
        0 <= i <= details.len(),
    ensures
        before.is_prefix_of(reasoning::details_text(details, i, before)),
        i < details.len() ==> (before + reasoning::detail_text(details[i])).is_prefix_of(
            reasoning::details_text(details, i, before),
        ),
    decreases details.len() - i,
{
    if i < details.len() {
        let next = before + reasoning::detail_text(details[i]);
        lemma_details_text(details, i + 1, next);
        let all = reasoning::details_text(details, i, before);
        assert(all.subrange(0, next.len() as int) == next);
        assert(before =~= all.subrange(0, before.len() as int)) by {
            assert(before =~= next.subrange(0, before.len() as int));
        }
    }
}

/// What the details of a reasoning say begins with what the first of them says.
pub proof fn the_details_are_shown_in_order(details: Seq<JsonView>)
    requires
        details.len() > 0,
    ensures
        reasoning::detail_text(details[0]).is_prefix_of(
            reasoning::details_text(details, 0, Seq::empty()),
        ),
{
    lemma_details_text(details, 0, Seq::empty());
    assert(Seq::<char>::empty() + reasoning::detail_text(details[0]) =~= reasoning::detail_text(
        details[0],
    ));
}

/// The names on the wire, told apart.
#[verifier::spinoff_prover]
proof fn lemma_names()
    ensures
        ","@.len() == 1,
        "id"@.len() == 2,
        "{}"@.len() == 2,
        "id"@[0] == 'i',
        "{}"@[0] == '{',
        "url"@.len() == 3,
        "auto"@.len() == 4,
        "code"@.len() == 4,
        "cost"@.len() == 4,
        "file"@.len() == 4,
        "name"@.len() == 4,
        "none"@.len() == 4,
        "qwen"@.len() == 4,
        "role"@.len() == 4,
        "stop"@.len() == 4,
        "text"@.len() == 4,
        "tool"@.len() == 4,
        "type"@.len() == 4,
        "user"@.len() == 4,
        "auto"@[2] == 't',
        "code"@[2] == 'd',
        "cost"@[2] == 's',
        "file"@[2] == 'l',
        "name"@[2] == 'm',
        "none"@[2] == 'n',
        "qwen"@[2] == 'e',
        "role"@[2] == 'l',
        "stop"@[2] == 'o',
        "text"@[2] == 'x',
        "tool"@[2] == 'o',
        "type"@[2] == 'p',
        "user"@[2] == 'e',
        "auto"@[0] == 'a',
        "code"@[0] == 'c',
        "cost"@[0] == 'c',
        "file"@[0] == 'f',
        "name"@[0] == 'n',
        "none"@[0] == 'n',
        "qwen"@[0] == 'q',
        "role"@[0] == 'r',
        "stop"@[0] == 's',
        "text"@[0] == 't',
        "tool"@[0] == 't',
        "type"@[0] == 't',
        "user"@[0] == 'u',
        "data:"@.len() == 5,
        "error"@.len() == 5,
        "model"@.len() == 5,
        "speed"@.len() == 5,
        "tools"@.len() == 5,
        "usage"@.len() == 5,
        "data:"@[0] == 'd',
        "error"@[0] == 'e',
        "model"@[0] == 'm',
        "speed"@[0] == 's',
        "tools"@[0] == 't',
        "usage"@[0] == 'u',
        "length"@.len() == 6,
        "stream"@.len() == 6,
        "strict"@.len() == 6,
        "system"@.len() == 6,
        "length"@[3] == 'g',
        "stream"@[3] == 'e',
        "strict"@[3] == 'i',
        "system"@[3] == 't',
        "choices"@.len() == 7,
        "content"@.len() == 7,
        "file_id"@.len() == 7,
        "include"@.len() == 7,
        "message"@.len() == 7,
        "summary"@.len() == 7,
        "choices"@[1] == 'h',
        "content"@[1] == 'o',
        "file_id"@[1] == 'i',
        "include"@[1] == 'n',
        "message"@[1] == 'e',
        "summary"@[1] == 'u',
        ";base64,"@.len() == 8,
        "function"@.len() == 8,
        "messages"@.len() == 8,
        "required"@.len() == 8,
        "thinking"@.len() == 8,
        ";base64,"@[0] == ';',
        "function"@[0] == 'f',
        "messages"@[0] == 'm',
        "required"@[0] == 'r',
        "thinking"@[0] == 't',
        "arguments"@.len() == 9,
        "assistant"@.len() == 9,
        "file_data"@.len() == 9,
        "fileid://"@.len() == 9,
        "image_url"@.len() == 9,
        "reasoning"@.len() == 9,
        "arguments"@[4] == 'm',
        "assistant"@[4] == 's',
        "file_data"@[4] == '_',
        "fileid://"@[4] == 'i',
        "image_url"@[4] == 'e',
        "reasoning"@[4] == 'o',
        "max_tokens"@.len() == 10,
        "parameters"@.len() == 10,
        "tool_calls"@.len() == 10,
        "max_tokens"@[0] == 'm',
        "parameters"@[0] == 'p',
        "tool_calls"@[0] == 't',
        "description"@.len() == 11,
        "retry-after"@.len() == 11,
        "serviceTier"@.len() == 11,
        "temperature"@.len() == 11,
        "tool_choice"@.len() == 11,
        "description"@[2] == 's',
        "retry-after"@[2] == 't',
        "serviceTier"@[2] == 'r',
        "temperature"@[2] == 'm',
        "tool_choice"@[2] == 'o',
        "content-type"@.len() == 12,
        "file-extract"@.len() == 12,
        "service_tier"@.len() == 12,
        "tool_call_id"@.len() == 12,
        "content-type"@[0] == 'c',
        "file-extract"@[0] == 'f',
        "service_tier"@[0] == 's',
        "tool_call_id"@[0] == 't',
        "cached_tokens"@.len() == 13,
        "chat_pdf_only"@.len() == 13,
        "finish_reason"@.len() == 13,
        "function_call"@.len() == 13,
        "include_usage"@.len() == 13,
        "output_config"@.len() == 13,
        "prompt_tokens"@.len() == 13,
        "cached_tokens"@[3] == 'h',
        "chat_pdf_only"@[3] == 't',
        "finish_reason"@[3] == 'i',
        "function_call"@[3] == 'c',
        "include_usage"@[3] == 'l',
        "output_config"@[3] == 'p',
        "prompt_tokens"@[3] == 'm',
        "api.openai.com"@.len() == 14,
        "chat_reasoning"@.len() == 14,
        "content_filter"@.len() == 14,
        "reasoning.text"@.len() == 14,
        "stream_options"@.len() == 14,
        "api.openai.com"@[1] == 'p',
        "chat_reasoning"@[1] == 'h',
        "content_filter"@[1] == 'o',
        "reasoning.text"@[1] == 'e',
        "stream_options"@[1] == 't',
        "application/pdf"@.len() == 15,
        "enable_thinking"@.len() == 15,
        "invalid_api_key"@.len() == 15,
        "model_not_found"@.len() == 15,
        "thinking_budget"@.len() == 15,
        "application/pdf"@[0] == 'a',
        "enable_thinking"@[0] == 'e',
        "invalid_api_key"@[0] == 'i',
        "model_not_found"@[0] == 'm',
        "thinking_budget"@[0] == 't',
        "application/json"@.len() == 16,
        "generationConfig"@.len() == 16,
        "max_tokens_field"@.len() == 16,
        "reasoning_effort"@.len() == 16,
        "reasoning_tokens"@.len() == 16,
        "application/json"@[10] == 'n',
        "generationConfig"@[10] == 'C',
        "max_tokens_field"@[10] == '_',
        "reasoning_effort"@[10] == 'e',
        "reasoning_tokens"@[10] == 't',
        "/chat/completions"@.len() == 17,
        "completion_tokens"@.len() == 17,
        "reasoning.summary"@.len() == 17,
        "reasoning_content"@.len() == 17,
        "reasoning_details"@.len() == 17,
        "/chat/completions"@[10] == 'l',
        "completion_tokens"@[10] == '_',
        "reasoning.summary"@[10] == 's',
        "reasoning_content"@[10] == 'c',
        "reasoning_details"@[10] == 'd',
        "cache_write_tokens"@.len() == 18,
        "insufficient_quota"@.len() == 18,
        "web_search_options"@.len() == 18,
        "cache_write_tokens"@[0] == 'c',
        "insufficient_quota"@[0] == 'i',
        "web_search_options"@[0] == 'w',
        "reasoning.encrypted"@.len() == 19,
        "stream_usage_opt_in"@.len() == 19,
        "reasoning.encrypted"@[0] == 'r',
        "stream_usage_opt_in"@[0] == 's',
        "max_completion_tokens"@.len() == 21,
        "prompt_tokens_details"@.len() == 21,
        "max_completion_tokens"@[0] == 'm',
        "prompt_tokens_details"@[0] == 'p',
        "invalid_authentication"@.len() == 22,
        "context_length_exceeded"@.len() == 23,
        "completion_tokens_details"@.len() == 25,
        "reasoning_tokens_separate"@.len() == 25,
        "completion_tokens_details"@[0] == 'c',
        "reasoning_tokens_separate"@[0] == 'r',
        "preserve_reasoning_content"@.len() == 26,
{
    reveal_strlit(",");
    reveal_strlit("/chat/completions");
    reveal_strlit(";base64,");
    reveal_strlit("api.openai.com");
    reveal_strlit("application/json");
    reveal_strlit("application/pdf");
    reveal_strlit("arguments");
    reveal_strlit("assistant");
    reveal_strlit("auto");
    reveal_strlit("cache_write_tokens");
    reveal_strlit("cached_tokens");
    reveal_strlit("chat_pdf_only");
    reveal_strlit("chat_reasoning");
    reveal_strlit("choices");
    reveal_strlit("code");
    reveal_strlit("completion_tokens");
    reveal_strlit("completion_tokens_details");
    reveal_strlit("content");
    reveal_strlit("content-type");
    reveal_strlit("content_filter");
    reveal_strlit("context_length_exceeded");
    reveal_strlit("cost");
    reveal_strlit("data:");
    reveal_strlit("description");
    reveal_strlit("enable_thinking");
    reveal_strlit("error");
    reveal_strlit("file");
    reveal_strlit("file-extract");
    reveal_strlit("file_data");
    reveal_strlit("file_id");
    reveal_strlit("fileid://");
    reveal_strlit("finish_reason");
    reveal_strlit("function");
    reveal_strlit("function_call");
    reveal_strlit("generationConfig");
    reveal_strlit("id");
    reveal_strlit("image_url");
    reveal_strlit("include");
    reveal_strlit("include_usage");
    reveal_strlit("insufficient_quota");
    reveal_strlit("invalid_api_key");
    reveal_strlit("invalid_authentication");
    reveal_strlit("length");
    reveal_strlit("max_completion_tokens");
    reveal_strlit("max_tokens");
    reveal_strlit("max_tokens_field");
    reveal_strlit("message");
    reveal_strlit("messages");
    reveal_strlit("model");
    reveal_strlit("model_not_found");
    reveal_strlit("name");
    reveal_strlit("none");
    reveal_strlit("output_config");
    reveal_strlit("parameters");
    reveal_strlit("preserve_reasoning_content");
    reveal_strlit("prompt_tokens");
    reveal_strlit("prompt_tokens_details");
    reveal_strlit("qwen");
    reveal_strlit("reasoning");
    reveal_strlit("reasoning.encrypted");
    reveal_strlit("reasoning.summary");
    reveal_strlit("reasoning.text");
    reveal_strlit("reasoning_content");
    reveal_strlit("reasoning_details");
    reveal_strlit("reasoning_effort");
    reveal_strlit("reasoning_tokens");
    reveal_strlit("reasoning_tokens_separate");
    reveal_strlit("required");
    reveal_strlit("retry-after");
    reveal_strlit("role");
    reveal_strlit("serviceTier");
    reveal_strlit("service_tier");
    reveal_strlit("speed");
    reveal_strlit("stop");
    reveal_strlit("stream");
    reveal_strlit("stream_options");
    reveal_strlit("stream_usage_opt_in");
    reveal_strlit("strict");
    reveal_strlit("summary");
    reveal_strlit("system");
    reveal_strlit("temperature");
    reveal_strlit("text");
    reveal_strlit("thinking");
    reveal_strlit("thinking_budget");
    reveal_strlit("tool");
    reveal_strlit("tool_call_id");
    reveal_strlit("tool_calls");
    reveal_strlit("tool_choice");
    reveal_strlit("tools");
    reveal_strlit("type");
    reveal_strlit("url");
    reveal_strlit("usage");
    reveal_strlit("user");
    reveal_strlit("web_search_options");
    reveal_strlit("{}");
}

} // verus!
