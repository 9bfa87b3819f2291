//! What the Gemini wire keeps of a conversation: what is sent says what the request
//! says, and what is read back is what was sent.

use crate::codecs::gemini::{decode, encode};
use crate::codecs::input;
use crate::codecs::laws;
use crate::codecs::openai::chat;
use crate::codecs::{CodecContext, EncodeRequest};
use crate::encoding;
use crate::json::{self, JsonView};
use crate::protocol::profile;
use crate::protocol::{
    AttachmentRef, CompletionRequest, ContentBlock, ContentBlockView, ConversationMessage,
    DocumentSource, ImageSource, MessageRole, ProviderFileSource, ProviderProfile, ToolChoice,
    ToolSpec, VideoSource,
};
use crate::transport::HttpResponse;
use vstd::prelude::*;

verus! {

broadcast use {crate::views::group_views, crate::json::group_json};

/// A part with inline data.
pub open spec fn inlined(sent: JsonView, media_type: Seq<char>, data: Seq<char>) -> bool {
    &&& json::str_in(json::member2(sent, "inlineData"@, "mimeType"@)) == Some(media_type)
    &&& json::str_in(json::member2(sent, "inlineData"@, "data"@)) == Some(data)
}

/// A part that points at a file.
pub open spec fn pointed(sent: JsonView, uri: Seq<char>) -> bool {
    json::str_in(json::member2(sent, "fileData"@, "fileUri"@)) == Some(uri)
}

/// A part that points at a file of the provider.
pub open spec fn filed(sent: JsonView, file: ProviderFileSource) -> bool {
    &&& file.uri.deep_view() matches Some(uri) && pointed(sent, uri)
    &&& json::str_in(json::member2(sent, "fileData"@, "mimeType"@)) == file.media_type.deep_view()
}

/// The bytes of an attachment stand in the part, in base64.
pub open spec fn attached(wire: EncodeRequest, attachment: AttachmentRef, sent: JsonView) -> bool {
    wire.media matches Some(media) && exists|i: int|
        0 <= i < media@.len() && profile::same_attachment(
            *(#[trigger] media@[i]).attachment,
            attachment,
        ) && inlined(
            sent,
            attachment.media_type@,
            encoding::base64_encoded(media@[i].bytes@),
        )
}

/// A call of the conversation that has this id and this name.
pub open spec fn called(messages: Seq<ConversationMessage>, id: Seq<char>, name: Seq<char>) -> bool {
    exists|m: int, b: int|
        #![trigger messages[m].content@[b]]
        0 <= m < messages.len() && 0 <= b < messages[m].content@.len() && is_call(
            messages[m].content@[b],
            id,
            name,
        )
}

pub open spec fn is_call(block: ContentBlock, id: Seq<char>, name: Seq<char>) -> bool {
    block is ToolUse && block->ToolUse_id@ == id && block->ToolUse_name@ == name
}

/// What is read off a part on the wire is what the block of the conversation says.
pub open spec fn carries(wire: EncodeRequest, block: ContentBlock, sent: JsonView) -> bool {
    let signature = json::str_at(sent, "thoughtSignature"@);
    match block {
        ContentBlock::Text { text, thought_signature } => {
            &&& json::str_at(sent, "text"@) == Some(text@)
            &&& json::member(sent, "thought"@) is None
            &&& json::member(sent, "functionCall"@) is None
            &&& signature == thought_signature.deep_view()
        },
        ContentBlock::Thinking { text, signature: given } => {
            &&& json::str_at(sent, "text"@) == Some(text@)
            &&& json::member(sent, "thought"@) == Some(JsonView::Bool(true))
            &&& json::member(sent, "functionCall"@) is None
            &&& signature == given.deep_view()
        },
        ContentBlock::ToolUse { name, input, provider_id, thought_signature, .. } => {
            &&& json::str_in(json::member2(sent, "functionCall"@, "name"@)) == Some(name@)
            &&& json::member2(sent, "functionCall"@, "args"@) == Some(input@)
            &&& json::str_in(json::member2(sent, "functionCall"@, "id"@)) == provider_id.deep_view()
            &&& signature == thought_signature.deep_view()
        },
        ContentBlock::ToolResult { tool_use_id, content, .. } => {
            &&& json::str_in(
                json::member2(json::at(sent, "functionResponse"@), "response"@, "result"@),
            ) == Some(content@)
            &&& json::str_in(json::member2(sent, "functionResponse"@, "name"@)) matches Some(name)
                && called(wire.request.messages@, tool_use_id@, name)
        },
        ContentBlock::Image { source } => match source {
            ImageSource::Base64 { media_type, data } => inlined(sent, media_type@, data@),
            ImageSource::Url { url } => pointed(sent, url@),
            ImageSource::ProviderFile { file } => filed(sent, file),
            ImageSource::Attachment { attachment } => attached(wire, attachment, sent),
        },
        ContentBlock::Document { source, .. } => match source {
            DocumentSource::Base64 { media_type, data } => inlined(sent, media_type@, data@),
            DocumentSource::Text { media_type, data } => inlined(
                sent,
                media_type@,
                encoding::base64_encoded(vstd::utf8::encode_utf8(data@)),
            ),
            DocumentSource::Url { url } => pointed(sent, url@),
            DocumentSource::ProviderFile { file } => filed(sent, file),
            DocumentSource::Attachment { attachment } => attached(wire, attachment, sent),
        },
        ContentBlock::Video { source } => match source {
            VideoSource::Base64 { media_type, data } => inlined(sent, media_type@, data@),
            VideoSource::Url { url } => pointed(sent, url@),
            VideoSource::ProviderFile { file } => filed(sent, file),
            VideoSource::Attachment { attachment } => attached(wire, attachment, sent),
        },
        ContentBlock::RedactedThinking { .. } => false,
        ContentBlock::ProviderContent { .. } => false,
    }
}

/// The blocks among the first `n` that this wire can say: all but redacted thinking.
pub open spec fn sayable(blocks: Seq<ContentBlock>, n: int) -> Seq<ContentBlock>
    decreases n,
{
    if n <= 0 {
        Seq::empty()
    } else if blocks[n - 1] is RedactedThinking {
        sayable(blocks, n - 1)
    } else {
        sayable(blocks, n - 1).push(blocks[n - 1])
    }
}

pub open spec fn all_carried(wire: EncodeRequest, blocks: Seq<ContentBlock>, sent: Seq<JsonView>) -> bool {
    blocks.len() == sent.len() && forall|i: int|
        0 <= i < sent.len() ==> carries(wire, blocks[i], #[trigger] sent[i])
}

proof fn lemma_prepared<'a>(
    media: Seq<input::PreparedMedia<'a>>,
    attachment: AttachmentRef,
    i: int,
)
    requires
        0 <= i,
    ensures
        input::prepared(media, attachment, i) matches Some(found) ==> exists|k: int|
            i <= k < media.len() && #[trigger] media[k] == found && profile::same_attachment(
                *media[k].attachment,
                attachment,
            ),
    decreases media.len() - i,
{
    if i < media.len() && !profile::same_attachment(*media[i].attachment, attachment) {
        lemma_prepared(media, attachment, i + 1);
    }
}

proof fn lemma_call_among(blocks: Seq<ContentBlock>, id: Seq<char>, i: int)
    requires
        0 <= i,
    ensures
        encode::call_among(blocks, id, i) matches Some((name, _)) ==> exists|b: int|
            0 <= b < blocks.len() && is_call(#[trigger] blocks[b], id, name),
    decreases blocks.len() - i,
{
    if i < blocks.len() {
        lemma_call_among(blocks, id, i + 1);
        match blocks[i] {
            ContentBlock::ToolUse { id: of, name, .. } => {
                if of@ == id {
                    assert(is_call(blocks[i], id, name@));
                }
            },
            _ => {},
        }
    }
}

proof fn lemma_call_in(messages: Seq<ConversationMessage>, id: Seq<char>, m: int)
    requires
        0 <= m,
    ensures
        encode::call_in(messages, id, m) matches Some((name, _)) ==> called(messages, id, name),
    decreases messages.len() - m,
{
    if m < messages.len() {
        let blocks = messages[m].content@;
        lemma_call_among(blocks, id, 0);
        lemma_call_in(messages, id, m + 1);
        if let Some((name, _)) = encode::call_among(blocks, id, 0) {
            let b = choose|b: int| 0 <= b < blocks.len() && is_call(#[trigger] blocks[b], id, name);
            assert(is_call(messages[m].content@[b], id, name));
        }
    }
}

#[verifier::spinoff_prover]
#[verifier::rlimit(60)]
proof fn lemma_part(block: ContentBlock, context: CodecContext, wire: EncodeRequest)
    ensures
        match encode::part_of(block, context, wire) {
            Ok(Some(part)) => !(block is RedactedThinking) && carries(wire, block, part),
            Ok(None) => block is RedactedThinking,
            Err(_) => true,
        },
{
    broadcast use json::entry_after_put;

    lemma_names();
    if let Ok(Some(part)) = encode::part_of(block, context, wire) {
        if let Some(attachment) = input::attachment_of(block) {
            lemma_prepared(input::media_of(wire), attachment, 0);
            let media = input::prepared(input::media_of(wire), attachment, 0)->0;
            let list = wire.media->0;
            let k = choose|k: int|
                0 <= k < list@.len() && #[trigger] list@[k] == media && profile::same_attachment(
                    *list@[k].attachment,
                    attachment,
                );
            assert(list@[k] == media);
            assert(inlined(
                part,
                attachment.media_type@,
                encoding::base64_encoded(media.bytes@),
            ));
            assert(attached(wire, attachment, part));
        }
        if let ContentBlock::ToolResult { tool_use_id, .. } = block {
            lemma_call_in(wire.request.messages@, tool_use_id@, 0);
        }
    }
}

proof fn lemma_parts(
    blocks: Seq<ContentBlock>,
    i: int,
    before: Seq<JsonView>,
    context: CodecContext,
    wire: EncodeRequest,
)
    requires
        0 <= i <= blocks.len(),
        all_carried(wire, sayable(blocks, i), before),
    ensures
        encode::parts_of(blocks, i, before, context, wire) matches Ok(parts) ==> all_carried(
            wire,
            sayable(blocks, blocks.len() as int),
            parts,
        ),
    decreases blocks.len() - i,
{
    if i < blocks.len() {
        lemma_part(blocks[i], context, wire);
        match encode::part_of(blocks[i], context, wire) {
            Ok(Some(part)) => {
                lemma_parts(blocks, i + 1, before.push(part), context, wire);
            },
            Ok(None) => {
                lemma_parts(blocks, i + 1, before, context, wire);
            },
            Err(_) => {},
        }
    }
}

/// The messages among the first `n` that say something on this wire, by their places.
pub open spec fn voiced(wire: EncodeRequest, n: int) -> Seq<int>
    decreases n,
{
    if n <= 0 {
        Seq::empty()
    } else {
        let blocks = input::message_blocks(wire, n - 1);
        if sayable(blocks, blocks.len() as int).len() == 0 {
            voiced(wire, n - 1)
        } else {
            voiced(wire, n - 1).push(n - 1)
        }
    }
}

/// A message on the wire has the speaker and the blocks of the message that it was made
/// of, one for one and in order.
pub open spec fn says(wire: EncodeRequest, m: int, sent: JsonView) -> bool {
    let blocks = input::message_blocks(wire, m);
    &&& wire.request.messages@[m].role == MessageRole::Assistant <==> json::str_at(sent, "role"@)
        == Some("model"@)
    &&& wire.request.messages@[m].role != MessageRole::Assistant <==> json::str_at(sent, "role"@)
        == Some("user"@)
    &&& all_carried(
        wire,
        sayable(blocks, blocks.len() as int),
        json::items_in(json::member(sent, "parts"@)),
    )
}

proof fn lemma_contents(before: Seq<JsonView>, m: int, context: CodecContext, wire: EncodeRequest)
    requires
        0 <= m <= wire.request.messages@.len(),
        before.len() == voiced(wire, m).len(),
        forall|k: int| 0 <= k < before.len() ==> says(wire, voiced(wire, m)[k], #[trigger] before[k]),
    ensures
        encode::contents_of(before, m, context, wire) matches Ok(sent) ==> {
            let places = voiced(wire, wire.request.messages@.len() as int);
            &&& sent.len() == places.len()
            &&& forall|k: int| 0 <= k < sent.len() ==> says(wire, places[k], #[trigger] sent[k])
        },
    decreases wire.request.messages@.len() - m,
{
    broadcast use json::entry_after_put;

    lemma_names();
    if m < wire.request.messages@.len() {
        let blocks = input::message_blocks(wire, m);
        let role = wire.request.messages@[m].role;
        lemma_parts(blocks, 0, Seq::empty(), context, wire);
        if role != MessageRole::System {
            if let Ok(parts) = encode::parts_of(blocks, 0, Seq::empty(), context, wire) {
                let next = if parts.len() == 0 {
                    before
                } else {
                    before.push(
                        json::obj2(
                            "role"@,
                            JsonView::Str(
                                if role == MessageRole::Assistant {
                                    "model"@
                                } else {
                                    "user"@
                                },
                            ),
                            "parts"@,
                            JsonView::Array(parts),
                        ),
                    )
                };
                if parts.len() > 0 {
                    assert(says(wire, m, next.last()));
                }
                assert forall|k: int| 0 <= k < next.len() implies says(
                    wire,
                    voiced(wire, m + 1)[k],
                    #[trigger] next[k],
                ) by {
                    if k < before.len() {
                        assert(next[k] == before[k]);
                    }
                }
                lemma_contents(next, m + 1, context, wire);
            }
        }
    }
}

/// The body that is sent holds the conversation: every message that says something on
/// this wire, in order, with its speaker and its blocks, and in each part what the block
/// says. A result is under the name of the call that it answers.
pub proof fn a_request_carries_the_conversation(
    wire: EncodeRequest,
    url: Seq<char>,
    context: CodecContext,
)
    ensures
        encode::encoded_to(wire, url, context) matches Ok(sent) ==> {
            let contents = json::items_in(json::member(sent.body, "contents"@));
            let places = voiced(wire, wire.request.messages@.len() as int);
            &&& sent.url == url
            &&& contents.len() == places.len()
            &&& forall|k: int|
                0 <= k < contents.len() ==> says(wire, places[k], #[trigger] contents[k])
        },
{
    broadcast use json::entry_after_put;

    if let Ok(sent) = encode::encoded_to(wire, url, context) {
        lemma_contents(Seq::empty(), 0, context, wire);
    }
}

/// A tool on the wire.
pub open spec fn offers(tool: ToolSpec, sent: JsonView) -> bool {
    &&& json::str_at(sent, "name"@) == Some(tool.name@)
    &&& json::str_at(sent, "description"@) == Some(tool.description@)
    &&& json::member(sent, "parameters"@) == Some(tool.input_schema@)
}

/// A tool choice on the wire.
pub open spec fn chooses(choice: ToolChoice, sent: JsonView) -> bool {
    let mode = json::str_in(json::member2(sent, "functionCallingConfig"@, "mode"@));
    let names = json::member2(sent, "functionCallingConfig"@, "allowedFunctionNames"@);
    &&& choice is Auto <==> mode == Some("AUTO"@)
    &&& choice is Forbidden <==> mode == Some("NONE"@)
    &&& choice is Any || choice is Tool <==> mode == Some("ANY"@)
    &&& choice is Tool <==> names is Some
    &&& choice matches ToolChoice::Tool { name } ==> names == Some(
        JsonView::Array(seq![JsonView::Str(name@)]),
    )
}

#[verifier::spinoff_prover]
proof fn lemma_settings(req: CompletionRequest)
    ensures
        forall|i: int|
            0 <= i < req.tools@.len() ==> offers(
                req.tools@[i],
                #[trigger] json::items_in(
                    json::member(
                        json::items_in(Some(encode::tools_json(req.tools@)))[0],
                        "functionDeclarations"@,
                    ),
                )[i],
            ),
        chooses(req.tool_choice, encode::choice_json(req.tool_choice)),
        ({
            let parts = json::items_in(
                json::member(encode::system_json(req.system@), "parts"@),
            );
            &&& parts.len() == req.system@.len()
            &&& forall|i: int|
                0 <= i < req.system@.len() ==> json::str_at(#[trigger] parts[i], "text"@) == Some(
                    req.system@[i].text@,
                )
        }),
{
    broadcast use json::entry_after_put;

    lemma_names();
}

/// What a body holds when it is finished.
#[verifier::spinoff_prover]
proof fn lemma_finished(
    wire: EncodeRequest,
    url: Seq<char>,
    context: CodecContext,
    key: Seq<char>,
)
    requires
        json::entry(encode::body_of(*wire.request), key) matches Some(value) && (value is Object
            ==> laws::uncontrolled(key)),
        wire.request.web_search is None || (key != "web_search_options"@ && key != "include"@ && key
            != "tools"@ && key != "tool_choice"@),
        key != "contents"@ && key != "service_tier"@,
    ensures
        encode::encoded_to(wire, url, context) matches Ok(sent) ==> json::member(sent.body, key)
            == json::entry(encode::body_of(*wire.request), key),
{
    broadcast use json::entry_after_put;

    let req = *wire.request;
    let body = encode::body_of(req);
    let headers = chat::encode::json_headers();
    laws::lemma_body_keeps(req, context, body, headers, key);
    if let Ok(sent) = encode::encoded_to(wire, url, context) {
        let searched = crate::codecs::web_search::with_search(req, context.profile, body)->Ok_0;
        let controlled = crate::codecs::inference::applied(
            req,
            context,
            searched,
            headers,
        )->Ok_0.0;
        let merged = crate::codecs::extras::with_extra_body(context.profile, controlled).0;
        json::without_keeps_other_keys(merged, "service_tier"@, key);
    }
}

/// A member of the generation settings when the body is finished.
#[verifier::spinoff_prover]
proof fn lemma_generation(
    wire: EncodeRequest,
    url: Seq<char>,
    context: CodecContext,
    key: Seq<char>,
)
    requires
        json::entry(encode::generation_of(*wire.request), key) matches Some(value) && !(
        value is Object),
    ensures
        encode::encoded_to(wire, url, context) matches Ok(sent) ==> json::member2(
            sent.body,
            "generationConfig"@,
            key,
        ) == json::entry(encode::generation_of(*wire.request), key),
{
    broadcast use json::entry_after_put;

    lemma_names();
    let req = *wire.request;
    let body = encode::body_of(req);
    let headers = chat::encode::json_headers();
    assert(encode::generation_of(req).len() > 0) by {
        if encode::generation_of(req).len() == 0 {
            assert(json::entry(encode::generation_of(req), key) is None);
        }
    }
    laws::lemma_body_keeps_within(req, context, body, headers, "generationConfig"@, key);
    if let Ok(sent) = encode::encoded_to(wire, url, context) {
        let searched = crate::codecs::web_search::with_search(req, context.profile, body)->Ok_0;
        let controlled = crate::codecs::inference::applied(
            req,
            context,
            searched,
            headers,
        )->Ok_0.0;
        let merged = crate::codecs::extras::with_extra_body(context.profile, controlled).0;
        json::without_keeps_other_keys(merged, "service_tier"@, "generationConfig"@);
    }
}

/// The settings of a request are sent as they are: the system prompt block by block, the
/// limit, the temperature and the stop sequences among the generation settings, and,
/// where no hosted search adds to them, the tools one by one, and the choice among them.
#[verifier::spinoff_prover]
#[verifier::rlimit(60)]
pub proof fn a_request_carries_its_settings(wire: EncodeRequest, url: Seq<char>, context: CodecContext)
    ensures
        encode::encoded_to(wire, url, context) matches Ok(sent) ==> {
            let req = *wire.request;
            let system = json::items_in(json::member2(sent.body, "systemInstruction"@, "parts"@));
            let tools = json::items_in(json::member(sent.body, "tools"@));
            let offered = json::items_in(json::member(tools[0], "functionDeclarations"@));
            let stops = json::items_in(
                json::member2(sent.body, "generationConfig"@, "stopSequences"@),
            );
            &&& req.system@.len() > 0 ==> system.len() == req.system@.len() && forall|i: int|
                0 <= i < system.len() ==> json::str_at(#[trigger] system[i], "text"@) == Some(
                    req.system@[i].text@,
                )
            &&& req.max_tokens matches Some(max) ==> json::member2(
                sent.body,
                "generationConfig"@,
                "maxOutputTokens"@,
            ) == Some(json::uint_view(max as u64))
            &&& req.temperature matches Some(t) ==> json::member2(
                sent.body,
                "generationConfig"@,
                "temperature"@,
            ) == Some(JsonView::Number(t@))
            &&& req.stop_sequences@.len() > 0 ==> stops.len() == req.stop_sequences@.len()
                && forall|i: int|
                0 <= i < stops.len() ==> #[trigger] stops[i] == JsonView::Str(
                    req.stop_sequences@[i]@,
                )
            &&& req.tools@.len() > 0 ==> (json::member(sent.body, "toolConfig"@) matches Some(choice)
                && chooses(req.tool_choice, choice))
            &&& req.tools@.len() > 0 && req.web_search is None ==> {
                &&& tools.len() == 1
                &&& offered.len() == req.tools@.len()
                &&& forall|i: int|
                    0 <= i < offered.len() ==> offers(req.tools@[i], #[trigger] offered[i])
            }
        },
{
    broadcast use json::entry_after_put;

    lemma_names();
    let req = *wire.request;
    lemma_settings(req);
    let body = encode::body_of(req);
    if req.system@.len() > 0 {
        assert(json::entry(body, "systemInstruction"@) == Some(encode::system_json(req.system@)));
        lemma_finished(wire, url, context, "systemInstruction"@);
    }
    if req.tools@.len() > 0 {
        lemma_finished(wire, url, context, "toolConfig"@);
        if req.web_search is None {
            lemma_finished(wire, url, context, "tools"@);
        }
    }
    if req.max_tokens is Some {
        lemma_generation(wire, url, context, "maxOutputTokens"@);
    }
    if req.temperature is Some {
        lemma_generation(wire, url, context, "temperature"@);
    }
    if req.stop_sequences@.len() > 0 {
        lemma_generation(wire, url, context, "stopSequences"@);
    }
}

/// A block that a reply may hold, and that a later request sends back. A call is known
/// by the id that the provider gave it, or else by its name.
pub open spec fn replayed(block: ContentBlock) -> bool {
    match block {
        ContentBlock::Text { .. } => true,
        ContentBlock::Thinking { .. } => true,
        ContentBlock::ToolUse { id, name, provider_id, .. } => match provider_id.deep_view() {
            Some(given) => id@ == given,
            None => id@ == name@,
        },
        _ => false,
    }
}

/// A part of a reply says a block.
pub open spec fn heard(wire: EncodeRequest, block: ContentBlock, part: JsonView) -> bool {
    replayed(block) && carries(wire, block, part)
}

#[verifier::spinoff_prover]
proof fn lemma_read(wire: EncodeRequest, block: ContentBlock, part: JsonView)
    requires
        heard(wire, block, part),
    ensures
        decode::block_of(part) == Some(block.deep_view()),
        block is ToolUse <==> json::member(part, "functionCall"@) is Some,
{
    lemma_names();
}

proof fn lemma_reads(
    wire: EncodeRequest,
    blocks: Seq<ContentBlock>,
    parts: Seq<JsonView>,
    i: int,
    before: Seq<ContentBlockView>,
    called: bool,
)
    requires
        blocks.len() == parts.len(),
        before.len() == i <= parts.len(),
        forall|k: int| 0 <= k < parts.len() ==> heard(wire, blocks[k], #[trigger] parts[k]),
        forall|k: int| 0 <= k < i ==> #[trigger] before[k] == blocks[k].deep_view(),
    ensures
        ({
            let (content, calls) = decode::blocks_of(parts, i, before, called);
            &&& content.len() == blocks.len()
            &&& forall|k: int|
                0 <= k < blocks.len() ==> #[trigger] content[k] == blocks[k].deep_view()
            &&& calls <==> called || exists|k: int|
                i <= k < blocks.len() && #[trigger] blocks[k] is ToolUse
        }),
    decreases parts.len() - i,
{
    if i < parts.len() {
        lemma_read(wire, blocks[i], parts[i]);
        lemma_reads(
            wire,
            blocks,
            parts,
            i + 1,
            before.push(blocks[i].deep_view()),
            called || json::member(parts[i], "functionCall"@) is Some,
        );
    }
}

/// A reply is decoded to what it says: where the parts of its first candidate say these
/// blocks, these blocks are the content, one for one and in order. It stopped for a tool
/// if and only if one of them is a call, or else for the reason that it gives.
#[verifier::spinoff_prover]
pub proof fn a_reply_is_read_as_it_was_said(
    wire: EncodeRequest,
    blocks: Seq<ContentBlock>,
    response: HttpResponse,
    profile: ProviderProfile,
)
    requires
        200 <= response.status < 300,
        ({
            let candidates = json::items_in(
                json::member(json::bytes_value(response.body@), "candidates"@),
            );
            let parts = json::items_in(json::member2(candidates[0], "content"@, "parts"@));
            &&& candidates.len() > 0
            &&& parts.len() == blocks.len()
            &&& forall|k: int| 0 <= k < parts.len() ==> heard(wire, blocks[k], #[trigger] parts[k])
        }),
    ensures
        decode::decoded(response, profile) matches Ok(reply) && {
            let body = json::bytes_value(response.body@);
            let finish = json::str_at(
                json::items_in(json::member(body, "candidates"@))[0],
                "finishReason"@,
            );
            let calls = exists|k: int| 0 <= k < blocks.len() && #[trigger] blocks[k] is ToolUse;
            &&& reply.content.len() == blocks.len()
            &&& forall|k: int|
                0 <= k < blocks.len() ==> #[trigger] reply.content[k] == blocks[k].deep_view()
            &&& reply.stop_reason is ToolUse <==> calls
            &&& !calls ==> (reply.stop_reason is MaxTokens <==> finish == Some("MAX_TOKENS"@))
            &&& !calls ==> (reply.stop_reason is EndTurn <==> finish is None || finish == Some(
                "STOP"@,
            ))
            &&& !calls ==> (reply.stop_reason is Refusal <==> finish == Some("SAFETY"@) || finish
                == Some("RECITATION"@) || finish == Some("PROHIBITED_CONTENT"@))
        },
{
    lemma_names();
    let candidates = json::items_in(
        json::member(json::bytes_value(response.body@), "candidates"@),
    );
    let parts = json::items_in(json::member2(candidates[0], "content"@, "parts"@));
    lemma_reads(wire, blocks, parts, 0, Seq::empty(), false);
}

/// What a reply says of itself: which model it is from, and what it counts. The prompt is
/// counted without what came from a cache, and the answer with its thoughts.
#[verifier::spinoff_prover]
pub proof fn a_reply_tells_its_model_and_usage(response: HttpResponse, profile: ProviderProfile)
    ensures
        decode::decoded(response, profile) matches Ok(reply) ==> {
            let body = json::bytes_value(response.body@);
            &&& json::str_at(body, "modelVersion"@) matches Some(model) ==> reply.model == model
            &&& reply.usage.reported is Some <==> json::member(body, "usageMetadata"@) is Some
            &&& json::member(body, "usageMetadata"@) matches Some(usage) ==> {
                let counted = reply.usage.reported->0;
                let prompt = json::count_in(json::member(usage, "promptTokenCount"@));
                let cached = json::count_in(json::member(usage, "cachedContentTokenCount"@));
                let answer = json::count_in(json::member(usage, "candidatesTokenCount"@));
                let thoughts = json::count_in(json::member(usage, "thoughtsTokenCount"@));
                &&& counted.cache_read_tokens == cached
                &&& counted.reasoning_tokens == thoughts
                &&& cached <= prompt ==> counted.input_tokens == prompt - cached
                &&& answer + thoughts <= u64::MAX ==> counted.output_tokens == answer + thoughts
            }
        },
{
    lemma_names();
}

/// A reply that is refused is an error that tells the cause: what the provider's own
/// status names, or, without one, what the status stands for.
#[verifier::spinoff_prover]
pub proof fn a_refusal_tells_its_cause(response: HttpResponse, profile: ProviderProfile)
    requires
        !(200 <= response.status < 300),
    ensures
        decode::decoded(response, profile) matches Err(error) && {
            let body = json::bytes_value(response.body@);
            let named = json::str_in(json::member2(body, "error"@, "status"@));
            &&& named == Some("UNAUTHENTICATED"@) ==> error is Authentication
            &&& named == Some("PERMISSION_DENIED"@) ==> error is PermissionDenied
            &&& named == Some("NOT_FOUND"@) ==> error is ModelUnavailable
            &&& named == Some("RESOURCE_EXHAUSTED"@) ==> error is RateLimited
            &&& named == Some("UNAVAILABLE"@) ==> error is Overloaded
            &&& named == Some("INTERNAL"@) ==> error is ProviderInternal
            &&& named is None && response.status == 401 ==> error is Authentication
            &&& named is None && response.status == 403 ==> error is PermissionDenied
            &&& named is None && response.status == 404 ==> error is ModelUnavailable
            &&& named is None && response.status == 429 ==> error is RateLimited
            &&& named is None && response.status == 400 ==> error is InvalidRequest
            &&& named is None && response.status == 503 ==> error is Overloaded
            &&& named is None && response.status == 500 ==> error is ProviderInternal
        },
{
    lemma_names();
}

/// The names on the wire, told apart.
#[verifier::spinoff_prover]
proof fn lemma_names()
    ensures
        ":"@.len() == 1,
        "id"@.len() == 2,
        "ANY"@.len() == 3,
        "AUTO"@.len() == 4,
        "NONE"@.len() == 4,
        "STOP"@.len() == 4,
        "args"@.len() == 4,
        "data"@.len() == 4,
        "mode"@.len() == 4,
        "name"@.len() == 4,
        "role"@.len() == 4,
        "text"@.len() == 4,
        "user"@.len() == 4,
        "AUTO"@[0] == 'A',
        "NONE"@[0] == 'N',
        "STOP"@[0] == 'S',
        "args"@[0] == 'a',
        "data"@[0] == 'd',
        "mode"@[0] == 'm',
        "name"@[0] == 'n',
        "role"@[0] == 'r',
        "text"@[0] == 't',
        "user"@[0] == 'u',
        "error"@.len() == 5,
        "model"@.len() == 5,
        "parts"@.len() == 5,
        "speed"@.len() == 5,
        "token"@.len() == 5,
        "tools"@.len() == 5,
        "error"@[0] == 'e',
        "model"@[0] == 'm',
        "parts"@[0] == 'p',
        "speed"@[0] == 's',
        "token"@[0] == 't',
        "tools"@[0] == 't',
        "error"@[2] == 'r',
        "model"@[2] == 'd',
        "parts"@[2] == 'r',
        "speed"@[2] == 'e',
        "token"@[2] == 'k',
        "tools"@[2] == 'o',
        "SAFETY"@.len() == 6,
        "exceed"@.len() == 6,
        "result"@.len() == 6,
        "status"@.len() == 6,
        "video/"@.len() == 6,
        "SAFETY"@[0] == 'S',
        "exceed"@[0] == 'e',
        "result"@[0] == 'r',
        "status"@[0] == 's',
        "video/"@[0] == 'v',
        "content"@.len() == 7,
        "fileUri"@.len() == 7,
        "include"@.len() == 7,
        "thought"@.len() == 7,
        "content"@[0] == 'c',
        "fileUri"@[0] == 'f',
        "include"@[0] == 'i',
        "thought"@[0] == 't',
        "/models/"@.len() == 8,
        "INTERNAL"@.len() == 8,
        "contents"@.len() == 8,
        "fileData"@.len() == 8,
        "mimeType"@.len() == 8,
        "response"@.len() == 8,
        "thinking"@.len() == 8,
        "/models/"@[0] == '/',
        "INTERNAL"@[0] == 'I',
        "contents"@[0] == 'c',
        "fileData"@[0] == 'f',
        "mimeType"@[0] == 'm',
        "response"@[0] == 'r',
        "thinking"@[0] == 't',
        "NOT_FOUND"@.len() == 9,
        "reasoning"@.len() == 9,
        "NOT_FOUND"@[0] == 'N',
        "reasoning"@[0] == 'r',
        "MAX_TOKENS"@.len() == 10,
        "RECITATION"@.len() == 10,
        "candidates"@.len() == 10,
        "inlineData"@.len() == 10,
        "parameters"@.len() == 10,
        "toolConfig"@.len() == 10,
        "MAX_TOKENS"@[0] == 'M',
        "RECITATION"@[0] == 'R',
        "candidates"@[0] == 'c',
        "inlineData"@[0] == 'i',
        "parameters"@[0] == 'p',
        "toolConfig"@[0] == 't',
        "UNAVAILABLE"@.len() == 11,
        "blockReason"@.len() == 11,
        "description"@.len() == 11,
        "serviceTier"@.len() == 11,
        "temperature"@.len() == 11,
        "tool_choice"@.len() == 11,
        "UNAVAILABLE"@[4] == 'A',
        "blockReason"@[4] == 'k',
        "description"@[4] == 'r',
        "serviceTier"@[4] == 'i',
        "temperature"@[4] == 'e',
        "tool_choice"@[4] == '_',
        "finishReason"@.len() == 12,
        "functionCall"@.len() == 12,
        "modelVersion"@.len() == 12,
        "service_tier"@.len() == 12,
        "finishReason"@[1] == 'i',
        "functionCall"@[1] == 'u',
        "modelVersion"@[1] == 'o',
        "service_tier"@[1] == 'e',
        "output_config"@.len() == 13,
        "stopSequences"@.len() == 13,
        "usageMetadata"@.len() == 13,
        "output_config"@[0] == 'o',
        "stopSequences"@[0] == 's',
        "usageMetadata"@[0] == 'u',
        "promptFeedback"@.len() == 14,
        "UNAUTHENTICATED"@.len() == 15,
        "enable_thinking"@.len() == 15,
        "maxOutputTokens"@.len() == 15,
        "thinking_budget"@.len() == 15,
        "UNAUTHENTICATED"@[0] == 'U',
        "enable_thinking"@[0] == 'e',
        "maxOutputTokens"@[0] == 'm',
        "thinking_budget"@[0] == 't',
        ":generateContent"@.len() == 16,
        "INVALID_ARGUMENT"@.len() == 16,
        "functionResponse"@.len() == 16,
        "generationConfig"@.len() == 16,
        "promptTokenCount"@.len() == 16,
        "reasoning_effort"@.len() == 16,
        "thoughtSignature"@.len() == 16,
        ":generateContent"@[0] == ':',
        "INVALID_ARGUMENT"@[0] == 'I',
        "functionResponse"@[0] == 'f',
        "generationConfig"@[0] == 'g',
        "promptTokenCount"@[0] == 'p',
        "reasoning_effort"@[0] == 'r',
        "thoughtSignature"@[0] == 't',
        "PERMISSION_DENIED"@.len() == 17,
        "systemInstruction"@.len() == 17,
        "PERMISSION_DENIED"@[0] == 'P',
        "systemInstruction"@[0] == 's',
        "PROHIBITED_CONTENT"@.len() == 18,
        "RESOURCE_EXHAUSTED"@.len() == 18,
        "thoughtsTokenCount"@.len() == 18,
        "web_search_options"@.len() == 18,
        "PROHIBITED_CONTENT"@[0] == 'P',
        "RESOURCE_EXHAUSTED"@[0] == 'R',
        "thoughtsTokenCount"@[0] == 't',
        "web_search_options"@[0] == 'w',
        "FAILED_PRECONDITION"@.len() == 19,
        "allowedFunctionNames"@.len() == 20,
        "candidatesTokenCount"@.len() == 20,
        "functionDeclarations"@.len() == 20,
        "allowedFunctionNames"@[0] == 'a',
        "candidatesTokenCount"@[0] == 'c',
        "functionDeclarations"@[0] == 'f',
        "functionCallingConfig"@.len() == 21,
        "cachedContentTokenCount"@.len() == 23,
        ":streamGenerateContent?alt=sse"@.len() == 30,
{
    reveal_strlit("/models/");
    reveal_strlit(":");
    reveal_strlit(":generateContent");
    reveal_strlit(":streamGenerateContent?alt=sse");
    reveal_strlit("ANY");
    reveal_strlit("AUTO");
    reveal_strlit("FAILED_PRECONDITION");
    reveal_strlit("INTERNAL");
    reveal_strlit("INVALID_ARGUMENT");
    reveal_strlit("MAX_TOKENS");
    reveal_strlit("NONE");
    reveal_strlit("NOT_FOUND");
    reveal_strlit("PERMISSION_DENIED");
    reveal_strlit("PROHIBITED_CONTENT");
    reveal_strlit("RECITATION");
    reveal_strlit("RESOURCE_EXHAUSTED");
    reveal_strlit("SAFETY");
    reveal_strlit("STOP");
    reveal_strlit("UNAUTHENTICATED");
    reveal_strlit("UNAVAILABLE");
    reveal_strlit("allowedFunctionNames");
    reveal_strlit("args");
    reveal_strlit("blockReason");
    reveal_strlit("cachedContentTokenCount");
    reveal_strlit("candidates");
    reveal_strlit("candidatesTokenCount");
    reveal_strlit("content");
    reveal_strlit("contents");
    reveal_strlit("data");
    reveal_strlit("description");
    reveal_strlit("enable_thinking");
    reveal_strlit("error");
    reveal_strlit("exceed");
    reveal_strlit("fileData");
    reveal_strlit("fileUri");
    reveal_strlit("finishReason");
    reveal_strlit("functionCall");
    reveal_strlit("functionCallingConfig");
    reveal_strlit("functionDeclarations");
    reveal_strlit("functionResponse");
    reveal_strlit("generationConfig");
    reveal_strlit("id");
    reveal_strlit("include");
    reveal_strlit("inlineData");
    reveal_strlit("maxOutputTokens");
    reveal_strlit("mimeType");
    reveal_strlit("mode");
    reveal_strlit("model");
    reveal_strlit("modelVersion");
    reveal_strlit("name");
    reveal_strlit("output_config");
    reveal_strlit("parameters");
    reveal_strlit("parts");
    reveal_strlit("promptFeedback");
    reveal_strlit("promptTokenCount");
    reveal_strlit("reasoning");
    reveal_strlit("reasoning_effort");
    reveal_strlit("response");
    reveal_strlit("result");
    reveal_strlit("role");
    reveal_strlit("serviceTier");
    reveal_strlit("service_tier");
    reveal_strlit("speed");
    reveal_strlit("status");
    reveal_strlit("stopSequences");
    reveal_strlit("systemInstruction");
    reveal_strlit("temperature");
    reveal_strlit("text");
    reveal_strlit("thinking");
    reveal_strlit("thinking_budget");
    reveal_strlit("thought");
    reveal_strlit("thoughtSignature");
    reveal_strlit("thoughtsTokenCount");
    reveal_strlit("token");
    reveal_strlit("toolConfig");
    reveal_strlit("tool_choice");
    reveal_strlit("tools");
    reveal_strlit("usageMetadata");
    reveal_strlit("user");
    reveal_strlit("video/");
    reveal_strlit("web_search_options");
}

} // verus!
