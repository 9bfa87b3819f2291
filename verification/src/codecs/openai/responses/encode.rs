//! Request encoding for the Responses API. The conversation is a flat list of
//! items: a message is one item, and a call is a sibling rather than a field.

use crate::codecs::extras;
use crate::codecs::inference::{self, Draft};
use crate::codecs::input;
use crate::codecs::openai::chat;
use crate::codecs::request_controls;
use crate::codecs::web_search;
use crate::codecs::wire::{self, WireRequest, WireRequestView};
use crate::codecs::{self, CodecContext, EncodeRequest};
use crate::encoding;
use crate::files::policy;
use crate::json::{self, Entries, Json, JsonView};
use crate::protocol::error;
use crate::protocol::profile;
use crate::protocol::{
    AttachmentRef, CompletionRequest, ContentBlock, DocumentSource, FileSearchOptions,
    ImageSource, LlmError, LlmErrorView, MessageRole, ProtocolFamily, ProviderFileSource,
    ProviderProfile, ToolChoice, ToolSpec,
};
use crate::text;
use crate::views;
use vstd::prelude::*;

verus! {

broadcast use {crate::views::group_views, crate::json::group_json};

/// A text, as output of the assistant or as input of anyone else.
pub open spec fn text_part(role: MessageRole, text: Seq<char>) -> JsonView {
    json::obj2(
        "type"@,
        JsonView::Str(
            if role == MessageRole::Assistant {
                "output_text"@
            } else {
                "input_text"@
            },
        ),
        "text"@,
        JsonView::Str(text),
    )
}

pub open spec fn image_part(key: Seq<char>, value: Seq<char>) -> JsonView {
    json::obj2("type"@, JsonView::Str("input_image"@), key, JsonView::Str(value))
}

fn image_json(key: &str, value: &str) -> (json: Json)
    ensures
        json@ == image_part(key@, value@),
{
    json::object2("type", json::string("input_image"), key, json::string(value))
}

pub open spec fn file_part(key: Seq<char>, value: Seq<char>) -> JsonView {
    json::obj2("type"@, JsonView::Str("input_file"@), key, JsonView::Str(value))
}

fn file_json(key: &str, value: &str) -> (json: Json)
    ensures
        json@ == file_part(key@, value@),
{
    json::object2("type", json::string("input_file"), key, json::string(value))
}

/// A file whose data stands in the request, which needs a name.
pub open spec fn named_file_part(data: Seq<char>, name: Seq<char>) -> JsonView {
    json::obj3(
        "type"@,
        JsonView::Str("input_file"@),
        "file_data"@,
        JsonView::Str(data),
        "filename"@,
        JsonView::Str(name),
    )
}

fn named_file_json(data: &str, name: &str) -> (json: Json)
    ensures
        json@ == named_file_part(data@, name@),
{
    json::object3(
        "type",
        json::string("input_file"),
        "file_data",
        json::string(data),
        "filename",
        json::string(name),
    )
}

/// The title, or the name that stands in for it.
pub open spec fn title_or(title: Option<Seq<char>>, name: Seq<char>) -> Seq<char> {
    match title {
        Some(title) => title,
        None => name,
    }
}

fn name_for<'a>(title: &'a Option<String>, name: &'a str) -> (result: &'a str)
    ensures
        result@ == title_or(title.deep_view(), name@),
{
    match title {
        Some(title) => title.as_str(),
        None => name,
    }
}

/// The part of an attachment whose bytes are at hand.
pub open spec fn media_part(block: ContentBlock, attachment: AttachmentRef, bytes: Seq<u8>) -> Result<
    JsonView,
    LlmErrorView,
> {
    let uri = wire::data_uri(attachment.media_type@, encoding::base64_encoded(bytes));
    match block {
        ContentBlock::Image { .. } => Ok(image_part("image_url"@, uri)),
        ContentBlock::Document { title, .. } => Ok(
            named_file_part(uri, title_or(title.deep_view(), attachment.filename@)),
        ),
        _ => Err(
            error::unsupported_view("Responses does not support video content blocks"@),
        ),
    }
}

fn inline(block: &ContentBlock, attachment: &AttachmentRef, bytes: &[u8]) -> (result: Result<
    Json,
    LlmError,
>)
    ensures
        views::res(result) == media_part(*block, *attachment, bytes@),
{
    match block {
        ContentBlock::Image { .. } => Ok(
            image_json("image_url", &wire::bytes_url(&attachment.media_type, bytes)),
        ),
        ContentBlock::Document { title, .. } => Ok(
            named_file_json(
                &wire::bytes_url(&attachment.media_type, bytes),
                name_for(title, &attachment.filename),
            ),
        ),
        _ => Err(error::unsupported("Responses does not support video content blocks")),
    }
}

/// Why a provider file cannot be named on this wire.
pub open spec fn file_refusal(file: ProviderFileSource, context: CodecContext) -> Option<
    LlmErrorView,
> {
    match policy::file_error(
        file@,
        context.profile,
        context.file_account_scope.deep_view(),
    ) {
        Some(error) => Some(error),
        None => if file.protocol != ProtocolFamily::OpenAiResponses {
            Some(codecs::wrong_protocol())
        } else {
            None
        },
    }
}

fn check_file(file: &ProviderFileSource, context: &CodecContext) -> (result: Result<(), LlmError>)
    ensures
        views::res(result) == codecs::checked(file_refusal(*file, *context)),
{
    policy::validate_provider_file(file, &context.profile, &context.file_account_scope)?;
    if file.protocol != ProtocolFamily::OpenAiResponses {
        return Err(codecs::provider_file_protocol_error());
    }
    Ok(())
}

/// The part of an image.
pub open spec fn image_content(source: ImageSource, context: CodecContext) -> Result<
    JsonView,
    LlmErrorView,
> {
    match source {
        ImageSource::Base64 { media_type, data } => Ok(
            image_part("image_url"@, wire::data_uri(media_type@, data@)),
        ),
        ImageSource::Url { url } => Ok(image_part("image_url"@, url@)),
        ImageSource::Attachment { .. } => Err(codecs::unresolved_attachment()),
        ImageSource::ProviderFile { file } => match file_refusal(file, context) {
            Some(error) => Err(error),
            None => Ok(image_part("file_id"@, file.file_id@)),
        },
    }
}

fn encode_image(source: &ImageSource, context: &CodecContext) -> (result: Result<Json, LlmError>)
    ensures
        views::res(result) == image_content(*source, *context),
{
    match source {
        ImageSource::Base64 { media_type, data } => Ok(
            image_json("image_url", &wire::data_url(media_type, data)),
        ),
        ImageSource::Url { url } => Ok(image_json("image_url", url)),
        ImageSource::Attachment { .. } => Err(codecs::unresolved_attachment_error()),
        ImageSource::ProviderFile { file } => {
            check_file(file, context)?;
            Ok(image_json("file_id", &file.file_id))
        },
    }
}

/// The part of a document.
pub open spec fn document_content(
    source: DocumentSource,
    title: Option<Seq<char>>,
    context: CodecContext,
) -> Result<JsonView, LlmErrorView> {
    match source {
        DocumentSource::Url { url } => Ok(file_part("file_url"@, url@)),
        DocumentSource::Base64 { media_type, data } => Ok(
            named_file_part(wire::data_uri(media_type@, data@), title_or(title, "document"@)),
        ),
        DocumentSource::Text { media_type, data } => Ok(
            named_file_part(
                wire::data_uri(
                    media_type@,
                    encoding::base64_encoded(vstd::utf8::encode_utf8(data@)),
                ),
                title_or(title, "document"@),
            ),
        ),
        DocumentSource::Attachment { .. } => Err(codecs::unresolved_attachment()),
        DocumentSource::ProviderFile { file } => match file_refusal(file, context) {
            Some(error) => Err(error),
            None => Ok(file_part("file_id"@, file.file_id@)),
        },
    }
}

fn encode_document(source: &DocumentSource, title: &Option<String>, context: &CodecContext) -> (result:
    Result<Json, LlmError>)
    ensures
        views::res(result) == document_content(*source, title.deep_view(), *context),
{
    match source {
        DocumentSource::Url { url } => Ok(file_json("file_url", url)),
        DocumentSource::Base64 { media_type, data } => Ok(
            named_file_json(&wire::data_url(media_type, data), name_for(title, "document")),
        ),
        DocumentSource::Text { media_type, data } => Ok(
            named_file_json(
                &wire::bytes_url(media_type, data.as_str().as_bytes()),
                name_for(title, "document"),
            ),
        ),
        DocumentSource::Attachment { .. } => Err(codecs::unresolved_attachment_error()),
        DocumentSource::ProviderFile { file } => {
            check_file(file, context)?;
            Ok(file_json("file_id", &file.file_id))
        },
    }
}

/// The items that are done, and the parts of the message that is not.
pub struct InputDraft {
    pub items: Vec<Json>,
    pub parts: Vec<Json>,
}

pub struct InputDraftView {
    pub items: Seq<JsonView>,
    pub parts: Seq<JsonView>,
}

impl DeepView for InputDraft {
    type V = InputDraftView;

    open spec fn deep_view(&self) -> InputDraftView {
        InputDraftView { items: self.items.deep_view(), parts: self.parts.deep_view() }
    }
}

/// The draft once the parts have become a message.
pub open spec fn flushed(draft: InputDraftView, role: MessageRole) -> InputDraftView {
    if draft.parts.len() == 0 {
        draft
    } else {
        InputDraftView {
            items: draft.items.push(
                json::obj3(
                    "type"@,
                    JsonView::Str("message"@),
                    "role"@,
                    JsonView::Str(chat::encode::role_name(role)),
                    "content"@,
                    JsonView::Array(draft.parts),
                ),
            ),
            parts: Seq::empty(),
        }
    }
}

fn flush(draft: InputDraft, role: MessageRole) -> (result: InputDraft)
    ensures
        result.deep_view() == flushed(draft.deep_view(), role),
{
    if draft.parts.len() == 0 {
        return draft;
    }
    let mut items = draft.items;
    items.push(
        json::object3(
            "type",
            json::string("message"),
            "role",
            json::string(chat::encode::name_of(role)),
            "content",
            Json::Array(draft.parts),
        ),
    );
    InputDraft { items, parts: Vec::new() }
}

/// The draft with one more part, or the part's error.
pub open spec fn with_part(draft: InputDraftView, part: Result<JsonView, LlmErrorView>) -> Result<
    InputDraftView,
    LlmErrorView,
> {
    match part {
        Ok(part) => Ok(InputDraftView { parts: draft.parts.push(part), ..draft }),
        Err(error) => Err(error),
    }
}

/// The draft with an item of its own, after the text collected so far.
pub open spec fn with_item(draft: InputDraftView, role: MessageRole, item: JsonView) -> InputDraftView {
    let flat = flushed(draft, role);
    InputDraftView { items: flat.items.push(item), ..flat }
}

fn push_part(draft: InputDraft, part: Json) -> (result: InputDraft)
    ensures
        result.deep_view() == (InputDraftView {
            parts: draft.deep_view().parts.push(part@),
            ..draft.deep_view()
        }),
{
    let mut draft = draft;
    draft.parts.push(part);
    draft
}

fn push_item(draft: InputDraft, role: MessageRole, item: Json) -> (result: InputDraft)
    ensures
        result.deep_view() == with_item(draft.deep_view(), role, item@),
{
    let mut draft = flush(draft, role);
    draft.items.push(item);
    draft
}

/// A call as an item. Its arguments go out as a JSON string.
pub open spec fn call_item(id: Seq<char>, name: Seq<char>, arguments: JsonView) -> JsonView {
    json::obj4(
        "type"@,
        JsonView::Str("function_call"@),
        "call_id"@,
        JsonView::Str(id),
        "name"@,
        JsonView::Str(name),
        "arguments"@,
        JsonView::Str(json::text_of(arguments)),
    )
}

/// A call's result as an item.
pub open spec fn output_item(id: Seq<char>, output: JsonView) -> JsonView {
    json::obj3(
        "type"@,
        JsonView::Str("function_call_output"@),
        "call_id"@,
        JsonView::Str(id),
        "output"@,
        output,
    )
}

/// What a tool returned: its native blocks, or else its text.
pub open spec fn output_of(content: Seq<char>, blocks: Option<Seq<JsonView>>) -> JsonView {
    match blocks {
        Some(blocks) => JsonView::Array(blocks),
        None => JsonView::Str(content),
    }
}

/// The draft once a block is in it.
pub open spec fn with_block(
    draft: InputDraftView,
    block: ContentBlock,
    role: MessageRole,
    context: CodecContext,
    wire: EncodeRequest,
) -> Result<InputDraftView, LlmErrorView> {
    match input::media_for(wire, block) {
        Err(error) => Err(error),
        Ok(Some(media)) => with_part(draft, media_part(block, *media.attachment, media.bytes@)),
        Ok(None) => match block {
            ContentBlock::ProviderContent { protocol, value } => if protocol
                != ProtocolFamily::OpenAiResponses {
                Err(
                    error::unsupported_view(
                        "native content cannot be replayed on a different protocol"@,
                    ),
                )
            } else {
                Ok(with_item(draft, role, value@))
            },
            ContentBlock::Text { text, .. } => with_part(draft, Ok(text_part(role, text@))),
            ContentBlock::Thinking { .. } => Ok(draft),
            ContentBlock::RedactedThinking { .. } => Ok(draft),
            ContentBlock::Image { source } => with_part(draft, image_content(source, context)),
            ContentBlock::Document { source, title } => with_part(
                draft,
                document_content(source, title.deep_view(), context),
            ),
            ContentBlock::Video { .. } => Err(
                error::unsupported_view("Responses input does not support video content blocks"@),
            ),
            ContentBlock::ToolUse { id, name, input, .. } => Ok(
                with_item(draft, role, call_item(id@, name@, input@)),
            ),
            ContentBlock::ToolResult { tool_use_id, content, blocks, .. } => Ok(
                with_item(
                    draft,
                    role,
                    output_item(tool_use_id@, output_of(content@, blocks.deep_view())),
                ),
            ),
        },
    }
}

fn encode_block(
    draft: InputDraft,
    block: &ContentBlock,
    role: MessageRole,
    context: &CodecContext,
    wire: EncodeRequest,
) -> (result: Result<InputDraft, LlmError>)
    ensures
        views::res(result) == with_block(draft.deep_view(), *block, role, *context, wire),
{
    let media = wire.inline_media(block)?;
    if let Some(media) = media {
        let part = inline(block, media.attachment, media.bytes)?;
        return Ok(push_part(draft, part));
    }
    match block {
        ContentBlock::ProviderContent { protocol, value } => {
            if *protocol != ProtocolFamily::OpenAiResponses {
                return Err(
                    error::unsupported("native content cannot be replayed on a different protocol"),
                );
            }
            Ok(push_item(draft, role, value.dup()))
        },
        ContentBlock::Text { text, .. } => {
            let kind = if role == MessageRole::Assistant {
                "output_text"
            } else {
                "input_text"
            };
            let part = json::object2("type", json::string(kind), "text", json::string(text));
            Ok(push_part(draft, part))
        },
        ContentBlock::Thinking { .. } => Ok(draft),
        ContentBlock::RedactedThinking { .. } => Ok(draft),
        ContentBlock::Image { source } => {
            let part = encode_image(source, context)?;
            Ok(push_part(draft, part))
        },
        ContentBlock::Document { source, title } => {
            let part = encode_document(source, title, context)?;
            Ok(push_part(draft, part))
        },
        ContentBlock::Video { .. } => Err(
            error::unsupported("Responses input does not support video content blocks"),
        ),
        ContentBlock::ToolUse { id, name, input, .. } => {
            let item = json::object4(
                "type",
                json::string("function_call"),
                "call_id",
                json::string(id),
                "name",
                json::string(name),
                "arguments",
                Json::Str(json::to_text(input)),
            );
            Ok(push_item(draft, role, item))
        },
        ContentBlock::ToolResult { tool_use_id, content, blocks, .. } => {
            let output = match blocks {
                Some(blocks) => Json::Array(json::dup_items(blocks)),
                None => json::string(content),
            };
            let item = json::object3(
                "type",
                json::string("function_call_output"),
                "call_id",
                json::string(tool_use_id),
                "output",
                output,
            );
            Ok(push_item(draft, role, item))
        },
    }
}

/// The draft once the blocks from the `i`th on are in it, flushed.
pub open spec fn with_blocks(
    draft: InputDraftView,
    blocks: Seq<ContentBlock>,
    i: int,
    role: MessageRole,
    context: CodecContext,
    wire: EncodeRequest,
) -> Result<InputDraftView, LlmErrorView>
    decreases blocks.len() - i,
{
    if i < 0 || i >= blocks.len() {
        Ok(flushed(draft, role))
    } else {
        match with_block(draft, blocks[i], role, context, wire) {
            Err(error) => Err(error),
            Ok(draft) => with_blocks(draft, blocks, i + 1, role, context, wire),
        }
    }
}

fn encode_message(
    draft: InputDraft,
    blocks: &Vec<&ContentBlock>,
    role: MessageRole,
    context: &CodecContext,
    wire: EncodeRequest,
) -> (result: Result<InputDraft, LlmError>)
    ensures
        views::res(result) == with_blocks(
            draft.deep_view(),
            views::plain(blocks@),
            0,
            role,
            *context,
            wire,
        ),
{
    let ghost first = draft.deep_view();
    let mut done = draft;
    let mut i: usize = 0;
    while i < blocks.len()
        invariant
            i <= blocks.len(),
            first == draft.deep_view(),
            with_blocks(first, views::plain(blocks@), 0, role, *context, wire) == with_blocks(
                done.deep_view(),
                views::plain(blocks@),
                i as int,
                role,
                *context,
                wire,
            ),
        decreases blocks.len() - i,
    {
        done = encode_block(done, blocks[i], role, context, wire)?;
        i = i + 1;
    }
    Ok(flush(done, role))
}

/// The items once the messages from the `m`th on follow.
pub open spec fn with_messages(draft: InputDraftView, m: int, context: CodecContext, wire: EncodeRequest) -> Result<
    InputDraftView,
    LlmErrorView,
>
    decreases wire.request.messages@.len() - m,
{
    if m < 0 || m >= wire.request.messages@.len() {
        Ok(draft)
    } else {
        match with_blocks(
            draft,
            input::message_blocks(wire, m),
            0,
            wire.request.messages@[m].role,
            context,
            wire,
        ) {
            Err(error) => Err(error),
            Ok(draft) => with_messages(draft, m + 1, context, wire),
        }
    }
}

pub open spec fn no_items() -> InputDraftView {
    InputDraftView { items: Seq::empty(), parts: Seq::empty() }
}

fn encode_messages(context: &CodecContext, wire: EncodeRequest) -> (result: Result<
    InputDraft,
    LlmError,
>)
    ensures
        views::res(result) == with_messages(no_items(), 0, *context, wire),
{
    let mut draft = InputDraft { items: Vec::new(), parts: Vec::new() };
    assert(draft.deep_view() == no_items());
    let mut m: usize = 0;
    while m < wire.request.messages.len()
        invariant
            m <= wire.request.messages@.len(),
            with_messages(no_items(), 0, *context, wire) == with_messages(
                draft.deep_view(),
                m as int,
                *context,
                wire,
            ),
        decreases wire.request.messages.len() - m,
    {
        let role = wire.request.messages[m].role;
        let blocks = wire.message(m);
        draft = encode_message(draft, &blocks, role, context, wire)?;
        m = m + 1;
    }
    Ok(draft)
}

/// A tool as this wire declares it.
pub open spec fn tool_json(tool: ToolSpec) -> JsonView {
    JsonView::Object(
        request_controls::extended(
            tool,
            json::put(
                json::put(
                    json::put(
                        json::put(
                            json::put(Seq::empty(), "type"@, JsonView::Str("function"@)),
                            "name"@,
                            JsonView::Str(tool.name@),
                        ),
                        "description"@,
                        JsonView::Str(tool.description@),
                    ),
                    "parameters"@,
                    tool.input_schema@,
                ),
                "strict"@,
                json::bool_or_null(tool.strict),
            ),
        ),
    )
}

fn encode_tool(tool: &ToolSpec) -> (json: Json)
    ensures
        json@ == tool_json(*tool),
{
    let mut value = json::fields();
    json::set(&mut value, "type", json::string("function"));
    json::set(&mut value, "name", json::string(&tool.name));
    json::set(&mut value, "description", json::string(&tool.description));
    json::set(&mut value, "parameters", tool.input_schema.dup());
    json::set(&mut value, "strict", json::optional_bool(tool.strict));
    Json::Object(request_controls::tool_extensions(tool, value))
}

/// The tools as this wire declares them.
pub open spec fn tools_json(tools: Seq<ToolSpec>) -> JsonView {
    JsonView::Array(Seq::new(tools.len(), |i: int| tool_json(tools[i])))
}

fn encode_tools(tools: &Vec<ToolSpec>) -> (json: Json)
    ensures
        json@ == tools_json(tools@),
{
    let mut items: Vec<Json> = Vec::new();
    let mut i: usize = 0;
    while i < tools.len()
        invariant
            i <= tools.len(),
            items@.len() == i,
            forall|k: int| 0 <= k < i ==> (#[trigger] items@[k])@ == tool_json(tools@[k]),
        decreases tools.len() - i,
    {
        items.push(encode_tool(&tools[i]));
        i = i + 1;
    }
    let json = Json::Array(items);
    assert(json@->Array_0 =~= tools_json(tools@)->Array_0);
    json
}

/// The caller's tool selection.
pub open spec fn choice_json(choice: ToolChoice) -> JsonView {
    match choice {
        ToolChoice::Auto => JsonView::Str("auto"@),
        ToolChoice::Any => JsonView::Str("required"@),
        ToolChoice::Forbidden => JsonView::Str("none"@),
        ToolChoice::Tool { name } => json::obj2(
            "type"@,
            JsonView::Str("function"@),
            "name"@,
            JsonView::Str(name@),
        ),
    }
}

fn encode_tool_choice(choice: &ToolChoice) -> (json: Json)
    ensures
        json@ == choice_json(*choice),
{
    match choice {
        ToolChoice::Auto => json::string("auto"),
        ToolChoice::Any => json::string("required"),
        ToolChoice::Forbidden => json::string("none"),
        ToolChoice::Tool { name } => json::object2(
            "type",
            json::string("function"),
            "name",
            json::string(name),
        ),
    }
}

/// What keeps a request from being encoded, before its messages are looked at.
/// There is no stop parameter on this wire: dropping the sequences would run the
/// model without a limit that the caller asked for.
pub open spec fn refusal(wire: EncodeRequest, context: CodecContext) -> Option<LlmErrorView> {
    let profile = context.profile;
    let req = *wire.request;
    let files = policy::direct_files_error(
        input::all_blocks(wire),
        0,
        profile,
        context.request_model@,
        context.file_account_scope.deep_view(),
    );
    if files is Some {
        files
    } else if req.previous_response_id is Some && !profile::flag_of(
        profile,
        "supports_previous_response_id"@,
    ) {
        Some(
            error::unsupported_view(
                "profile "@ + text::debug_text(profile.profile_name@)
                    + " does not declare previous_response_id support"@,
            ),
        )
    } else if req.file_search is Some && json::str_at(profile.extra@, "file_search"@) != Some(
        "qwen"@,
    ) {
        Some(
            error::unsupported_view(
                "profile "@ + text::debug_text(profile.profile_name@)
                    + " does not declare Qwen file search"@,
            ),
        )
    } else if req.stop_sequences@.len() > 0 {
        Some(error::invalid_view("the Responses API has no stop-sequence parameter"@))
    } else {
        None
    }
}

fn check_request(wire: EncodeRequest, context: &CodecContext) -> (result: Result<(), LlmError>)
    ensures
        views::res(result) == codecs::checked(refusal(wire, *context)),
{
    let req = wire.request;
    let profile = &context.profile;
    let blocks = wire.blocks();
    policy::validate_direct_provider_file_inputs(
        &blocks,
        profile,
        &context.request_model,
        &context.file_account_scope,
    )?;
    if req.previous_response_id.is_some() && !profile::flag(
        profile,
        "supports_previous_response_id",
    ) {
        return Err(
            error::unsupported(
                &text::cat3(
                    "profile ",
                    &text::debug(&profile.profile_name),
                    " does not declare previous_response_id support",
                ),
            ),
        );
    }
    let declared = match profile.extra.str_at("file_search") {
        Some(kind) => text::same(kind, "qwen"),
        None => false,
    };
    if req.file_search.is_some() && !declared {
        return Err(
            error::unsupported(
                &text::cat3(
                    "profile ",
                    &text::debug(&profile.profile_name),
                    " does not declare Qwen file search",
                ),
            ),
        );
    }
    if req.stop_sequences.len() > 0 {
        return Err(error::invalid("the Responses API has no stop-sequence parameter"));
    }
    Ok(())
}

/// The body up to the caller's own tools. The items take their place at the end.
pub open spec fn first_body(req: CompletionRequest, model: Seq<char>) -> Entries {
    let named = json::put(Seq::empty(), "model"@, JsonView::Str(model));
    let instructed = if req.system@.len() == 0 {
        named
    } else {
        json::put(
            named,
            "instructions"@,
            JsonView::Str(chat::encode::system_text(req.system@)),
        )
    };
    let with_input = json::put(instructed, "input"@, JsonView::Null);
    let continued = match req.previous_response_id {
        Some(id) => json::put(with_input, "previous_response_id"@, JsonView::Str(id@)),
        None => with_input,
    };
    if req.tools@.len() == 0 {
        continued
    } else {
        json::put(
            json::put(continued, "tools"@, tools_json(req.tools@)),
            "tool_choice"@,
            choice_json(req.tool_choice),
        )
    }
}

fn begin_body(req: &CompletionRequest, model: &str) -> (body: Vec<(String, Json)>)
    ensures
        body.deep_view() == first_body(*req, model@),
{
    let mut body = json::fields();
    json::set(&mut body, "model", json::string(model));
    if req.system.len() > 0 {
        json::set(&mut body, "instructions", Json::Str(chat::encode::join_system(&req.system)));
    }
    json::set(&mut body, "input", Json::Null);
    if let Some(id) = &req.previous_response_id {
        json::set(&mut body, "previous_response_id", json::string(id));
    }
    if req.tools.len() > 0 {
        json::set(&mut body, "tools", encode_tools(&req.tools));
        json::set(&mut body, "tool_choice", encode_tool_choice(&req.tool_choice));
    }
    body
}

/// Whether a workspace id is made of letters, digits and hyphens.
pub open spec fn workspace_id(id: Seq<char>) -> bool {
    id.len() > 0 && forall|i: int|
        0 <= i < id.len() ==> text::alphanumeric(#[trigger] id[i]) || id[i] == '-'
}

fn is_workspace_id(id: &str) -> (result: bool)
    ensures
        result == workspace_id(id@),
{
    let cs = text::chars(id);
    let mut i: usize = 0;
    while i < cs.len()
        invariant
            i <= cs.len(),
            cs@ == id@,
            forall|k: int| 0 <= k < i ==> text::alphanumeric(#[trigger] id@[k]) || id@[k] == '-',
        decreases cs.len() - i,
    {
        if !(text::is_alphanumeric(cs[i]) || cs[i] == '-') {
            assert(!(text::alphanumeric(id@[i as int]) || id@[i as int] == '-'));
            return false;
        }
        i = i + 1;
    }
    cs.len() > 0
}

/// Whether the model searches knowledge bases.
pub open spec fn searching_model(model: Seq<char>) -> bool {
    model == "qwen3.8-max"@ || model == "qwen3.8-flash"@
}

/// The body with the knowledge-base tool.
pub open spec fn with_file_search(
    search: Option<FileSearchOptions>,
    profile: ProviderProfile,
    model: Seq<char>,
    body: Entries,
) -> Result<Entries, LlmErrorView> {
    match search {
        None => Ok(body),
        Some(search) => if text::trimmed(search.knowledge_base_id@).len() == 0 {
            Err(
                error::invalid_view("Qwen file search requires a nonempty knowledge_base_id"@),
            )
        } else if !workspace_id(search.workspace_id@) {
            Err(
                error::invalid_view(
                    "Qwen file search workspace_id must contain only letters, digits, or hyphens"@,
                ),
            )
        } else if profile.provider_id@ != "qwen"@ || !searching_model(model) {
            Err(
                error::unsupported_view(
                    "Qwen file search is available only for the supported Max and Flash Responses models"@,
                ),
            )
        } else {
            match json::entry(body, "tools"@) {
                Some(tools) => if tools is Array {
                    Ok(json::pushed(body, "tools"@, search_tool(search)))
                } else {
                    Err(
                        error::invalid_view("Qwen file search requires tools to be an array"@),
                    )
                },
                None => Ok(json::pushed(body, "tools"@, search_tool(search))),
            }
        },
    }
}

pub open spec fn search_tool(search: FileSearchOptions) -> JsonView {
    json::obj2(
        "type"@,
        JsonView::Str("file_search"@),
        "vector_store_ids"@,
        JsonView::Array(seq![JsonView::Str(search.knowledge_base_id@)]),
    )
}

fn add_file_search(
    search: &Option<FileSearchOptions>,
    profile: &ProviderProfile,
    model: &str,
    body: Vec<(String, Json)>,
) -> (result: Result<Vec<(String, Json)>, LlmError>)
    ensures
        views::res(result) == with_file_search(*search, *profile, model@, body.deep_view()),
{
    let mut body = body;
    let search = match search {
        Some(search) => search,
        None => return Ok(body),
    };
    if text::is_empty(&text::trim(&search.knowledge_base_id)) {
        return Err(error::invalid("Qwen file search requires a nonempty knowledge_base_id"));
    }
    if !is_workspace_id(&search.workspace_id) {
        return Err(
            error::invalid(
                "Qwen file search workspace_id must contain only letters, digits, or hyphens",
            ),
        );
    }
    if !text::same(&profile.provider_id, "qwen") || !(text::same(model, "qwen3.8-max")
        || text::same(model, "qwen3.8-flash")) {
        return Err(
            error::unsupported(
                "Qwen file search is available only for the supported Max and Flash Responses models",
            ),
        );
    }
    let usable = match json::find(&body, "tools") {
        Some(Json::Array(_)) => true,
        Some(_) => false,
        None => true,
    };
    if !usable {
        return Err(error::invalid("Qwen file search requires tools to be an array"));
    }
    let tool = json::object2(
        "type",
        json::string("file_search"),
        "vector_store_ids",
        json::array1(json::string(&search.knowledge_base_id)),
    );
    json::push_at(&mut body, "tools", tool);
    Ok(body)
}

/// Whether a tool of the name is advertised.
pub open spec fn advertised(tools: Seq<ToolSpec>, name: Seq<char>) -> bool {
    exists|i: int| 0 <= i < tools.len() && (#[trigger] tools[i]).name@ == name
}

fn is_advertised(tools: &Vec<ToolSpec>, name: &str) -> (result: bool)
    ensures
        result == advertised(tools@, name@),
{
    let mut i: usize = 0;
    while i < tools.len()
        invariant
            i <= tools.len(),
            forall|k: int| 0 <= k < i ==> (#[trigger] tools@[k]).name@ != name@,
        decreases tools.len() - i,
    {
        if text::same(&tools[i].name, name) {
            return true;
        }
        i = i + 1;
    }
    false
}

/// The body with the caller's choice on the final tool set, a sole hosted tool
/// included: an omitted choice would silently enable automatic search.
pub open spec fn with_choice(req: CompletionRequest, body: Entries) -> Result<Entries, LlmErrorView> {
    if json::items_in(json::entry(body, "tools"@)).len() == 0 {
        Ok(body)
    } else if req.tool_choice is Tool && !advertised(req.tools@, req.tool_choice->name@) {
        Err(
            error::invalid_view(
                "named client tool "@ + text::debug_text(req.tool_choice->name@)
                    + " is not advertised"@,
            ),
        )
    } else if json::entry(body, "tool_choice"@) is Some {
        Ok(body)
    } else {
        Ok(json::put(body, "tool_choice"@, choice_json(req.tool_choice)))
    }
}

fn add_choice(req: &CompletionRequest, body: Vec<(String, Json)>) -> (result: Result<
    Vec<(String, Json)>,
    LlmError,
>)
    ensures
        views::res(result) == with_choice(*req, body.deep_view()),
{
    let mut body = body;
    let any = match json::find(&body, "tools") {
        Some(Json::Array(tools)) => tools.len() > 0,
        _ => false,
    };
    if !any {
        return Ok(body);
    }
    if let ToolChoice::Tool { name } = &req.tool_choice {
        if !is_advertised(&req.tools, name) {
            return Err(
                error::invalid(
                    &text::cat3("named client tool ", &text::debug(name), " is not advertised"),
                ),
            );
        }
    }
    if json::find(&body, "tool_choice").is_none() {
        json::set(&mut body, "tool_choice", encode_tool_choice(&req.tool_choice));
    }
    Ok(body)
}

/// The body with the limits of the request.
pub open spec fn with_limits(req: CompletionRequest, stream: bool, body: Entries) -> Entries {
    let limited = match req.max_tokens {
        Some(max) => json::put(body, "max_output_tokens"@, json::uint_view(max as u64)),
        None => body,
    };
    let warm = match req.temperature {
        Some(t) => json::put(limited, "temperature"@, JsonView::Number(t@)),
        None => limited,
    };
    if stream {
        json::put(warm, "stream"@, JsonView::Bool(true))
    } else {
        warm
    }
}

fn add_limits(req: &CompletionRequest, stream: bool, body: Vec<(String, Json)>) -> (result: Vec<
    (String, Json),
>)
    ensures
        result.deep_view() == with_limits(*req, stream, body.deep_view()),
{
    let mut body = body;
    if let Some(max) = req.max_tokens {
        json::set(&mut body, "max_output_tokens", json::uint(max as u64));
    }
    if let Some(t) = &req.temperature {
        json::set(&mut body, "temperature", Json::Number(t.dup()));
    }
    if stream {
        json::set(&mut body, "stream", Json::Bool(true));
    }
    body
}

/// The region of a connection's host.
pub open spec fn region_domain(host: Option<Seq<char>>) -> Option<Seq<char>> {
    if host == Some("dashscope.aliyuncs.com"@) {
        Some("cn-beijing.maas.aliyuncs.com"@)
    } else if host == Some("dashscope-intl.aliyuncs.com"@) {
        Some("ap-southeast-1.maas.aliyuncs.com"@)
    } else if host == Some("dashscope-us.aliyuncs.com"@) {
        Some("us-east-1.maas.aliyuncs.com"@)
    } else if host == Some("cn-hongkong.dashscope.aliyuncs.com"@) {
        Some("cn-hongkong.maas.aliyuncs.com"@)
    } else {
        None
    }
}

/// The endpoint of a workspace's knowledge bases.
pub open spec fn file_search_url(profile: ProviderProfile, workspace: Seq<char>) -> Result<
    Seq<char>,
    LlmErrorView,
> {
    match region_domain(encoding::url_host(profile.base_url@)) {
        Some(domain) => if profile.provider_id@ == "qwen"@ {
            Ok("https://"@ + workspace + "."@ + domain + "/compatible-mode/v1/responses"@)
        } else {
            Err(region_error())
        },
        None => Err(region_error()),
    }
}

pub open spec fn region_error() -> LlmErrorView {
    error::unsupported_view(
        "Qwen file search requires a supported regional Model Studio profile"@,
    )
}

fn region_of(host: &str) -> (result: Option<&'static str>)
    ensures
        result.deep_view() == region_domain(Some(host@)),
{
    if text::same(host, "dashscope.aliyuncs.com") {
        Some("cn-beijing.maas.aliyuncs.com")
    } else if text::same(host, "dashscope-intl.aliyuncs.com") {
        Some("ap-southeast-1.maas.aliyuncs.com")
    } else if text::same(host, "dashscope-us.aliyuncs.com") {
        Some("us-east-1.maas.aliyuncs.com")
    } else if text::same(host, "cn-hongkong.dashscope.aliyuncs.com") {
        Some("cn-hongkong.maas.aliyuncs.com")
    } else {
        None
    }
}

fn qwen_file_search_url(profile: &ProviderProfile, workspace_id: &str) -> (result: Result<
    String,
    LlmError,
>)
    ensures
        views::res(result) == file_search_url(*profile, workspace_id@),
{
    let domain = match encoding::host_of(&profile.base_url) {
        Some(host) => region_of(&host),
        None => None,
    };
    match domain {
        Some(domain) => if text::same(&profile.provider_id, "qwen") {
            return Ok(
                text::cat5(
                    "https://",
                    workspace_id,
                    ".",
                    domain,
                    "/compatible-mode/v1/responses",
                ),
            );
        },
        None => {},
    }
    Err(
        error::unsupported("Qwen file search requires a supported regional Model Studio profile"),
    )
}

/// Where the request goes.
pub open spec fn endpoint(req: CompletionRequest, profile: ProviderProfile) -> Result<
    Seq<char>,
    LlmErrorView,
> {
    match req.file_search {
        Some(search) => file_search_url(profile, search.workspace_id@),
        None => Ok(text::without_trailing(profile.base_url@, '/') + "/responses"@),
    }
}

fn endpoint_of(req: &CompletionRequest, profile: &ProviderProfile) -> (result: Result<
    String,
    LlmError,
>)
    ensures
        views::res(result) == endpoint(*req, *profile),
{
    match &req.file_search {
        Some(search) => qwen_file_search_url(profile, &search.workspace_id),
        None => Ok(text::cat2(&text::trim_end_char(&profile.base_url, '/'), "/responses")),
    }
}

/// The body with its tools, the choice among them and the limits.
pub open spec fn tooled_body(req: CompletionRequest, context: CodecContext) -> Result<
    Entries,
    LlmErrorView,
> {
    let profile = context.profile;
    match web_search::with_search(req, profile, first_body(req, context.request_model@)) {
        Err(error) => Err(error),
        Ok(body) => match with_file_search(
            req.file_search,
            profile,
            context.request_model@,
            body,
        ) {
            Err(error) => Err(error),
            Ok(body) => match with_choice(req, body) {
                Err(error) => Err(error),
                Ok(body) => Ok(with_limits(req, context.stream, body)),
            },
        },
    }
}

fn build_body(req: &CompletionRequest, context: &CodecContext) -> (result: Result<
    Vec<(String, Json)>,
    LlmError,
>)
    ensures
        views::res(result) == tooled_body(*req, *context),
{
    let profile = &context.profile;
    let body = web_search::apply(req, profile, begin_body(req, &context.request_model))?;
    let body = add_file_search(&req.file_search, profile, &context.request_model, body)?;
    let body = add_choice(req, body)?;
    Ok(add_limits(req, context.stream, body))
}

/// The request of the Responses wire.
pub open spec fn encoded(wire: EncodeRequest, context: CodecContext) -> Result<
    WireRequestView,
    LlmErrorView,
> {
    let req = *wire.request;
    let profile = context.profile;
    match refusal(wire, context) {
        Some(error) => Err(error),
        None => match with_messages(no_items(), 0, context, wire) {
            Err(error) => Err(error),
            Ok(draft) => match tooled_body(req, context) {
                Err(error) => Err(error),
                Ok(body) => match inference::applied(
                    req,
                    context,
                    body,
                    chat::encode::json_headers(),
                ) {
                    Err(error) => Err(error),
                    Ok((body, headers)) => match request_controls::with_controls(
                        req,
                        profile.protocol,
                        body,
                    ) {
                        Err(error) => Err(error),
                        Ok(body) => match endpoint(req, profile) {
                            Err(error) => Err(error),
                            Ok(url) => Ok(
                                WireRequestView {
                                    url,
                                    headers: extras::with_extra_headers(profile, headers).0,
                                    body: JsonView::Object(
                                        json::put(
                                            extras::with_extra_body(profile, body).0,
                                            "input"@,
                                            JsonView::Array(draft.items),
                                        ),
                                    ),
                                },
                            ),
                        },
                    },
                },
            },
        },
    }
}

pub fn request(wire: EncodeRequest, context: &CodecContext) -> (result: Result<
    WireRequest,
    LlmError,
>)
    ensures
        views::res(result) == encoded(wire, *context),
{
    let req = wire.request;
    let profile = &context.profile;
    check_request(wire, context)?;
    let input = encode_messages(context, wire)?;
    let body = build_body(req, context)?;
    let draft = inference::apply(
        req,
        context,
        Draft { body, headers: chat::encode::content_type_header() },
    )?;
    let mut headers = draft.headers;
    let mut body = request_controls::apply(req, profile.protocol, draft.body)?;
    extras::merge_body(profile, &mut body);
    extras::merge_headers(profile, &mut headers);
    let url = endpoint_of(req, profile)?;
    json::set(&mut body, "input", Json::Array(input.items));
    Ok(WireRequest { url, headers, body: Json::Object(body) })
}

} // verus!
