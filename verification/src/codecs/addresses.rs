//! Where a request goes and what stands above its body.

use crate::codecs::anthropic;
use crate::codecs::extras::{self, HeaderViews};
use crate::codecs::gemini;
use crate::codecs::inference;
use crate::codecs::input;
use crate::codecs::input::{CodecContext, EncodeRequest};
use crate::codecs::openai::{chat, responses};
use crate::encoding;
use crate::files::policy;
use crate::json::{self, Entries, JsonView};
use crate::protocol::profile;
use crate::protocol::{
    CompletionRequest, ContentBlock, DocumentSource, FileSearchOptions, ImageSource,
    ProviderProfile,
};
use crate::text;
use vstd::prelude::*;

verus! {

broadcast use {crate::views::group_views, crate::json::group_json};

/// Where a request goes: to the route's address, under the path of its wire, and on a
/// Gemini wire under the name of the model, for a whole answer or for a stream.
pub proof fn a_request_goes_to_the_path_of_its_wire(wire: EncodeRequest, context: CodecContext)
    ensures
        ({
            let base = text::without_trailing(context.profile.base_url@, '/');
            &&& anthropic::encode::encoded(wire, context) matches Ok(sent) ==> sent.url == base
                + "/v1/messages"@
            &&& chat::encode::encoded(wire, context) matches Ok(sent) ==> sent.url == base
                + "/chat/completions"@
            &&& responses::encode::encoded(wire, context) matches Ok(sent) ==> (
            wire.request.file_search is None ==> sent.url == base + "/responses"@)
            &&& gemini::encode::encoded(wire, context) matches Ok(sent) ==> {
                &&& context.stream ==> sent.url == base + "/models/"@ + context.request_model@
                    + ":streamGenerateContent?alt=sse"@
                &&& !context.stream ==> sent.url == base + "/models/"@ + context.request_model@
                    + ":generateContent"@
            }
        }),
{
}

/// A header that is not the one that lists betas.
pub open spec fn no_beta(header: (Seq<char>, Seq<char>)) -> bool {
    text::lower(header.0) != text::lower("anthropic-beta"@)
}

proof fn lemma_with_beta(headers: HeaderViews, beta: Seq<char>, i: int)
    requires
        0 <= i,
    ensures
        ({
            let after = inference::with_beta(headers, beta, i);
            &&& after.len() >= headers.len()
            &&& forall|k: int|
                0 <= k < headers.len() && no_beta(#[trigger] headers[k]) ==> after[k] == headers[k]
        }),
    decreases headers.len() - i,
{
    if i < headers.len() && no_beta(headers[i]) {
        lemma_with_beta(headers, beta, i + 1);
    }
}

proof fn lemma_with_betas(headers: HeaderViews, betas: Seq<Seq<char>>, i: int)
    requires
        0 <= i,
    ensures
        ({
            let after = inference::with_betas(headers, betas, i);
            &&& after.len() >= headers.len()
            &&& forall|k: int|
                0 <= k < headers.len() && no_beta(#[trigger] headers[k]) ==> after[k] == headers[k]
        }),
    decreases betas.len() - i,
{
    if i < betas.len() {
        let next = inference::with_beta(headers, betas[i], 0);
        lemma_with_beta(headers, betas[i], 0);
        lemma_with_betas(next, betas, i + 1);
        let after = inference::with_betas(headers, betas, i);
        assert forall|k: int| 0 <= k < headers.len() && no_beta(#[trigger] headers[k]) implies after[k]
            == headers[k] by {
            assert(next[k] == headers[k]);
        }
    }
}

proof fn lemma_kept(
    req: CompletionRequest,
    context: CodecContext,
    body: Entries,
    headers: HeaderViews,
    k: int,
)
    requires
        0 <= k < headers.len(),
        no_beta(headers[k]),
    ensures
        inference::applied(req, context, body, headers) matches Ok((_, after)) ==> extras::with_extra_headers(
            context.profile,
            after,
        ).0.contains(headers[k]),
{
    if let Ok((_, after)) = inference::applied(req, context, body, headers) {
        let profile = context.profile;
        let betas = inference::betas_of(profile);
        lemma_with_betas(headers, betas, 0);
        let listed = inference::with_betas(headers, betas, 0);
        lemma_with_beta(headers, "fast-mode-2026-02-01"@, 0);
        lemma_with_beta(listed, "fast-mode-2026-02-01"@, 0);
        if let Some(beta) = profile.inference.fast_beta {
            lemma_with_beta(headers, beta@, 0);
            lemma_with_beta(listed, beta@, 0);
        }
        assert(listed[k] == headers[k]);
        assert(after[k] == headers[k]);
        extras::configuration_never_authorizes(profile, after);
        let all = extras::with_extra_headers(profile, after).0;
        assert(all[k] == after[k]);
    }
}

proof fn lemma_lengths()
    ensures
        no_beta(("content-type"@, "application/json"@)),
        text::lower("anthropic-version"@) != text::lower("anthropic-beta"@),
{
    reveal_strlit("content-type");
    reveal_strlit("anthropic-version");
    reveal_strlit("anthropic-beta");
    assert(text::lower("content-type"@).len() == 12);
    assert(text::lower("anthropic-beta"@).len() == 14);
    assert(text::lower("anthropic-version"@).len() == 17);
}

/// A request says that its body is JSON, on every wire, and on the Messages wire which
/// version of it is spoken: the one that the profile names, or the library's own.
pub proof fn a_request_says_what_it_holds(wire: EncodeRequest, context: CodecContext)
    ensures
        anthropic::encode::encoded(wire, context) matches Ok(sent) ==> {
            &&& sent.headers.contains(("content-type"@, "application/json"@))
            &&& json::str_at(context.profile.extra@, "api_version"@) matches Some(version)
                ==> sent.headers.contains(("anthropic-version"@, version))
            &&& json::str_at(context.profile.extra@, "api_version"@) is None
                ==> sent.headers.contains(
                ("anthropic-version"@, extras::DEFAULT_ANTHROPIC_API_VERSION@),
            )
        },
        chat::encode::encoded(wire, context) matches Ok(sent) ==> sent.headers.contains(
            ("content-type"@, "application/json"@),
        ),
        responses::encode::encoded(wire, context) matches Ok(sent) ==> sent.headers.contains(
            ("content-type"@, "application/json"@),
        ),
        gemini::encode::encoded(wire, context) matches Ok(sent) ==> sent.headers.contains(
            ("content-type"@, "application/json"@),
        ),
{
    lemma_lengths();
    lemma_messages_headers(wire, context);
    lemma_chat_headers(wire, context);
    lemma_responses_headers(wire, context);
    lemma_gemini_headers(wire, context);
}

proof fn lemma_messages_headers(wire: EncodeRequest, context: CodecContext)
    requires
        no_beta(("content-type"@, "application/json"@)),
        text::lower("anthropic-version"@) != text::lower("anthropic-beta"@),
    ensures
        anthropic::encode::encoded(wire, context) matches Ok(sent) ==> sent.headers.contains(
            ("content-type"@, "application/json"@),
        ) && sent.headers.contains(
            (
                "anthropic-version"@,
                anthropic::encode::api_version(
                    context.profile,
                    extras::DEFAULT_ANTHROPIC_API_VERSION@,
                ),
            ),
        ),
{
    let req = *wire.request;
    let profile = context.profile;
    let headers = anthropic::encode::base_headers(profile);
    assert(headers[0] == ("content-type"@, "application/json"@));
    assert(headers[1].0 == "anthropic-version"@);
    assert forall|body: Entries| #[trigger]
        inference::applied(req, context, body, headers) is Ok implies extras::with_extra_headers(
        profile,
        inference::applied(req, context, body, headers)->Ok_0.1,
    ).0.contains(headers[0]) && extras::with_extra_headers(
        profile,
        inference::applied(req, context, body, headers)->Ok_0.1,
    ).0.contains(headers[1]) by {
        lemma_kept(req, context, body, headers, 0);
        lemma_kept(req, context, body, headers, 1);
    }
}

proof fn lemma_json_headers(req: CompletionRequest, context: CodecContext)
    requires
        no_beta(("content-type"@, "application/json"@)),
    ensures
        forall|body: Entries| #[trigger]
            inference::applied(req, context, body, chat::encode::json_headers()) is Ok
                ==> extras::with_extra_headers(
                context.profile,
                inference::applied(req, context, body, chat::encode::json_headers())->Ok_0.1,
            ).0.contains(("content-type"@, "application/json"@)),
{
    let headers = chat::encode::json_headers();
    assert(headers[0] == ("content-type"@, "application/json"@));
    assert forall|body: Entries| #[trigger]
        inference::applied(req, context, body, headers) is Ok implies extras::with_extra_headers(
        context.profile,
        inference::applied(req, context, body, headers)->Ok_0.1,
    ).0.contains(headers[0]) by {
        lemma_kept(req, context, body, headers, 0);
    }
}

proof fn lemma_chat_headers(wire: EncodeRequest, context: CodecContext)
    requires
        no_beta(("content-type"@, "application/json"@)),
    ensures
        chat::encode::encoded(wire, context) matches Ok(sent) ==> sent.headers.contains(
            ("content-type"@, "application/json"@),
        ),
{
    lemma_json_headers(*wire.request, context);
}

proof fn lemma_responses_headers(wire: EncodeRequest, context: CodecContext)
    requires
        no_beta(("content-type"@, "application/json"@)),
    ensures
        responses::encode::encoded(wire, context) matches Ok(sent) ==> sent.headers.contains(
            ("content-type"@, "application/json"@),
        ),
{
    lemma_json_headers(*wire.request, context);
}

proof fn lemma_gemini_headers(wire: EncodeRequest, context: CodecContext)
    requires
        no_beta(("content-type"@, "application/json"@)),
    ensures
        gemini::encode::encoded(wire, context) matches Ok(sent) ==> sent.headers.contains(
            ("content-type"@, "application/json"@),
        ),
{
    lemma_json_headers(*wire.request, context);
}

proof fn lemma_beta_at(headers: HeaderViews, beta: Seq<char>, i: int, k: int)
    requires
        0 <= i <= k < headers.len(),
        !no_beta(headers[k]),
        forall|j: int| i <= j < k ==> no_beta(#[trigger] headers[j]),
    ensures
        inference::with_beta(headers, beta, i) == headers.update(
            k,
            (headers[k].0, inference::joined_beta(headers[k].1, beta)),
        ),
    decreases k - i,
{
    if i < k {
        lemma_beta_at(headers, beta, i + 1, k);
    }
}

proof fn lemma_beta_new(headers: HeaderViews, beta: Seq<char>, i: int)
    requires
        0 <= i <= headers.len(),
        forall|j: int| i <= j < headers.len() ==> no_beta(#[trigger] headers[j]),
    ensures
        inference::with_beta(headers, beta, i) == headers.push(("anthropic-beta"@, beta)),
    decreases headers.len() - i,
{
    if i < headers.len() {
        lemma_beta_new(headers, beta, i + 1);
    }
}

/// A beta is asked for in the header of betas: in the first there is, behind what it
/// already asks for and only once, and in a new one where there is none.
pub proof fn a_beta_is_asked_for(headers: HeaderViews, beta: Seq<char>, k: int)
    ensures
        (forall|j: int| 0 <= j < headers.len() ==> no_beta(#[trigger] headers[j]))
            ==> inference::with_beta(headers, beta, 0) == headers.push(("anthropic-beta"@, beta)),
        0 <= k < headers.len() && !no_beta(headers[k]) && (forall|j: int|
            0 <= j < k ==> no_beta(#[trigger] headers[j])) ==> {
            let after = inference::with_beta(headers, beta, 0);
            let there = inference::has_part_from(text::parts(headers[k].1, ','), beta, 0);
            &&& after.len() == headers.len()
            &&& after[k].0 == headers[k].0
            &&& there ==> after[k].1 == headers[k].1
            &&& !there && headers[k].1.len() > 0 ==> after[k].1 == headers[k].1 + ","@ + beta
            &&& !there && headers[k].1.len() == 0 ==> after[k].1 == beta
        },
{
    if forall|j: int| 0 <= j < headers.len() ==> no_beta(#[trigger] headers[j]) {
        lemma_beta_new(headers, beta, 0);
    }
    if 0 <= k < headers.len() && !no_beta(headers[k]) && (forall|j: int|
        0 <= j < k ==> no_beta(#[trigger] headers[j])) {
        lemma_beta_at(headers, beta, 0, k);
    }
}

/// No credential comes from what a profile adds: a header that it adds is none that
/// authorizes, in whatever case its name is written, and neither the model nor the
/// conversation that a body goes on from is its to set.
pub proof fn a_profile_adds_no_credential(
    profile: ProviderProfile,
    headers: HeaderViews,
    body: Entries,
    k: int,
)
    ensures
        headers.len() <= k < extras::with_extra_headers(profile, headers).0.len() ==> {
            let name = text::lower(extras::with_extra_headers(profile, headers).0[k].0);
            &&& name != "authorization"@
            &&& name != "proxy-authorization"@
            &&& name != "x-api-key"@
            &&& name != "api-key"@
            &&& name != "cookie"@
        },
        json::entry(extras::with_extra_body(profile, body).0, "model"@) == json::entry(
            body,
            "model"@,
        ),
        json::entry(extras::with_extra_body(profile, body).0, "previous_response_id"@)
            == json::entry(body, "previous_response_id"@),
{
    extras::configuration_never_authorizes(profile, headers);
    lemma_reserved(extras::extra_entries(profile, "body"@), 0, body, Seq::empty(), "model"@);
    lemma_reserved(
        extras::extra_entries(profile, "body"@),
        0,
        body,
        Seq::empty(),
        "previous_response_id"@,
    );
}

proof fn lemma_reserved(
    extra: Entries,
    i: int,
    body: Entries,
    refused: Seq<Seq<char>>,
    key: Seq<char>,
)
    requires
        0 <= i,
        key == "model"@ || key == "previous_response_id"@,
    ensures
        json::entry(extras::merged_body(extra, i, body, refused).0, key) == json::entry(body, key),
    decreases extra.len() - i,
{
    broadcast use json::entry_after_put;

    if i < extra.len() {
        if extras::reserved_body_key(extra[i].0) || json::entry(body, extra[i].0) is Some {
            lemma_reserved(extra, i + 1, body, refused.push(extra[i].0), key);
        } else {
            lemma_reserved(extra, i + 1, json::put(body, extra[i].0, extra[i].1), refused, key);
        }
    }
}

/// A search of files is one more tool, behind those there are, with the id of the
/// knowledge base, and it is sent to the workspace's own address in the region of the
/// connection.
#[verifier::spinoff_prover]
pub proof fn a_file_search_reaches_its_knowledge_base(
    search: FileSearchOptions,
    profile: ProviderProfile,
    model: Seq<char>,
    body: Entries,
)
    ensures
        responses::encode::with_file_search(Some(search), profile, model, body) matches Ok(after)
            ==> {
            &&& profile.provider_id@ == "qwen"@
            &&& model == "qwen3.8-max"@ || model == "qwen3.8-flash"@
            &&& json::entry(after, "tools"@) matches Some(JsonView::Array(tools))
            &&& tools.len() > 0
            &&& tools.drop_last() == json::items_at(body, "tools"@)
            &&& json::str_at(tools.last(), "type"@) == Some("file_search"@)
            &&& json::member(tools.last(), "vector_store_ids"@) == Some(
                JsonView::Array(seq![JsonView::Str(search.knowledge_base_id@)]),
            )
        },
        responses::encode::file_search_url(profile, search.workspace_id@) matches Ok(url) ==> {
            let host = encoding::url_host(profile.base_url@);
            let at = |domain: Seq<char>|
                "https://"@ + search.workspace_id@ + "."@ + domain
                    + "/compatible-mode/v1/responses"@;
            &&& host == Some("dashscope.aliyuncs.com"@) ==> url == at(
                "cn-beijing.maas.aliyuncs.com"@,
            )
            &&& host == Some("dashscope-intl.aliyuncs.com"@) ==> url == at(
                "ap-southeast-1.maas.aliyuncs.com"@,
            )
            &&& host == Some("dashscope-us.aliyuncs.com"@) ==> url == at(
                "us-east-1.maas.aliyuncs.com"@,
            )
            &&& host == Some("cn-hongkong.dashscope.aliyuncs.com"@) ==> url == at(
                "cn-hongkong.maas.aliyuncs.com"@,
            )
        },
{
    broadcast use json::entry_after_put;

    lemma_names();
    if let Ok(after) = responses::encode::with_file_search(Some(search), profile, model, body) {
        let tools = json::items_at(body, "tools"@).push(responses::encode::search_tool(search));
        assert(json::entry(after, "tools"@) == Some(JsonView::Array(tools)));
        assert(tools.drop_last() =~= json::items_at(body, "tools"@));
    }
}

/// Where a stream of the Chat wire is asked for, so is its usage, where the endpoint
/// leaves it out otherwise.
#[verifier::spinoff_prover]
pub proof fn a_stream_is_asked_to_count(
    messages: Seq<JsonView>,
    limit: Seq<char>,
    req: CompletionRequest,
    context: CodecContext,
)
    requires
        limit == "max_tokens"@ || limit == "max_completion_tokens"@,
    ensures
        ({
            let body = chat::encode::body_of(messages, limit, req, context);
            let asked = context.stream && profile::flag_of(context.profile, "stream_usage_opt_in"@);
            &&& context.stream <==> json::entry(body, "stream"@) == Some(JsonView::Bool(true))
            &&& asked ==> json::entry(body, "stream_options"@) == Some(
                JsonView::Object(seq![("include_usage"@, JsonView::Bool(true))]),
            )
            &&& !asked ==> json::entry(body, "stream_options"@) is None
        }),
{
    broadcast use json::entry_after_put;

    lemma_names();
}

/// The files of a list of blocks that are given by their id, in order.
pub open spec fn files_of(blocks: Seq<ContentBlock>, n: int) -> Seq<Seq<char>>
    decreases n,
{
    if n <= 0 {
        Seq::empty()
    } else {
        match blocks[n - 1] {
            ContentBlock::Document { source: DocumentSource::ProviderFile { file }, .. } => files_of(
                blocks,
                n - 1,
            ).push("fileid://"@ + file.file_id@),
            ContentBlock::Image { source: ImageSource::ProviderFile { file } } => files_of(
                blocks,
                n - 1,
            ).push("fileid://"@ + file.file_id@),
            _ => files_of(blocks, n - 1),
        }
    }
}

proof fn lemma_refs(blocks: Seq<ContentBlock>, i: int, before: Seq<Seq<char>>, context: CodecContext)
    requires
        0 <= i <= blocks.len(),
        before == files_of(blocks, i),
    ensures
        chat::encode::qwen_refs(blocks, i, before, context) matches Ok(refs) ==> refs == files_of(
            blocks,
            blocks.len() as int,
        ),
    decreases blocks.len() - i,
{
    if i < blocks.len() {
        match chat::encode::qwen_file(blocks[i]) {
            None => {
                lemma_refs(blocks, i + 1, before, context);
            },
            Some(file) => {
                if policy::file_error(
                    file@,
                    context.profile,
                    context.file_account_scope.deep_view(),
                ) is None && chat::encode::extracted(file@) && policy::qwen_file_id(file.file_id@) {
                    lemma_refs(blocks, i + 1, before.push("fileid://"@ + file.file_id@), context);
                }
            },
        }
    }
}

/// A long document model is told every file of the conversation, in order, in one message
/// of the system.
pub proof fn a_document_model_is_told_its_files(wire: EncodeRequest, context: CodecContext)
    ensures
        chat::encode::is_qwen_long(context) ==> (chat::encode::front_of(
            wire,
            chat::encode::quirks_of(context),
            context,
        ) matches Ok((front, _)) ==> {
            let blocks = input::all_blocks(wire);
            let files = files_of(blocks, blocks.len() as int);
            files.len() > 0 ==> {
                &&& front.len() > 0
                &&& json::str_at(front.last(), "role"@) == Some("system"@)
                &&& json::str_at(front.last(), "content"@) == Some(text::joined(files, ","@))
            }
        }),
{
    broadcast use json::entry_after_put;

    lemma_names();
    let blocks = input::all_blocks(wire);
    lemma_refs(blocks, 0, Seq::empty(), context);
    let files = files_of(blocks, blocks.len() as int);
    let listed = chat::encode::role_message("system"@, text::joined(files, ","@));
    assert(json::str_at(listed, "role"@) == Some("system"@));
    assert(json::str_at(listed, "content"@) == Some(text::joined(files, ","@)));
    let quirks = chat::encode::quirks_of(context);
    if let Ok((front, _)) = chat::encode::front_of(wire, quirks, context) {
        if quirks.qwen_long && files.len() > 0 {
            assert(front.len() > 0 && front[front.len() - 1] == listed);
        }
    }
}

/// The names on the wire, told apart.
#[verifier::spinoff_prover]
proof fn lemma_names()
    ensures
        ","@.len() == 1,
        "."@.len() == 1,
        ","@[0] == ',',
        "."@[0] == '.',
        "body"@.len() == 4,
        "qwen"@.len() == 4,
        "role"@.len() == 4,
        "stop"@.len() == 4,
        "type"@.len() == 4,
        "body"@[0] == 'b',
        "qwen"@[0] == 'q',
        "role"@[0] == 'r',
        "stop"@[0] == 's',
        "type"@[0] == 't',
        "model"@.len() == 5,
        "tools"@.len() == 5,
        "model"@[0] == 'm',
        "tools"@[0] == 't',
        "cookie"@.len() == 6,
        "stream"@.len() == 6,
        "system"@.len() == 6,
        "cookie"@[1] == 'o',
        "stream"@[1] == 't',
        "system"@[1] == 'y',
        "api-key"@.len() == 7,
        "content"@.len() == 7,
        "api-key"@[0] == 'a',
        "content"@[0] == 'c',
        "/models/"@.len() == 8,
        "https://"@.len() == 8,
        "messages"@.len() == 8,
        "/models/"@[0] == '/',
        "https://"@[0] == 'h',
        "messages"@[0] == 'm',
        "fileid://"@.len() == 9,
        "x-api-key"@.len() == 9,
        "fileid://"@[0] == 'f',
        "x-api-key"@[0] == 'x',
        "/responses"@.len() == 10,
        "max_tokens"@.len() == 10,
        "/responses"@[0] == '/',
        "max_tokens"@[0] == 'm',
        "api_version"@.len() == 11,
        "file_search"@.len() == 11,
        "qwen3.8-max"@.len() == 11,
        "temperature"@.len() == 11,
        "tool_choice"@.len() == 11,
        "api_version"@[1] == 'p',
        "file_search"@[1] == 'i',
        "qwen3.8-max"@[1] == 'w',
        "temperature"@[1] == 'e',
        "tool_choice"@[1] == 'o',
        "/v1/messages"@.len() == 12,
        "content-type"@.len() == 12,
        "/v1/messages"@[0] == '/',
        "content-type"@[0] == 'c',
        "authorization"@.len() == 13,
        "include_usage"@.len() == 13,
        "qwen3.8-flash"@.len() == 13,
        "authorization"@[0] == 'a',
        "include_usage"@[0] == 'i',
        "qwen3.8-flash"@[0] == 'q',
        "anthropic-beta"@.len() == 14,
        "stream_options"@.len() == 14,
        "anthropic-beta"@[0] == 'a',
        "stream_options"@[0] == 's',
        ":generateContent"@.len() == 16,
        "application/json"@.len() == 16,
        "vector_store_ids"@.len() == 16,
        ":generateContent"@[0] == ':',
        "application/json"@[0] == 'a',
        "vector_store_ids"@[0] == 'v',
        "/chat/completions"@.len() == 17,
        "anthropic-version"@.len() == 17,
        "/chat/completions"@[0] == '/',
        "anthropic-version"@[0] == 'a',
        "proxy-authorization"@.len() == 19,
        "stream_usage_opt_in"@.len() == 19,
        "proxy-authorization"@[0] == 'p',
        "stream_usage_opt_in"@[0] == 's',
        "fast-mode-2026-02-01"@.len() == 20,
        "previous_response_id"@.len() == 20,
        "fast-mode-2026-02-01"@[0] == 'f',
        "previous_response_id"@[0] == 'p',
        "max_completion_tokens"@.len() == 21,
        "dashscope.aliyuncs.com"@.len() == 22,
        "dashscope-us.aliyuncs.com"@.len() == 25,
        "dashscope-intl.aliyuncs.com"@.len() == 27,
        "us-east-1.maas.aliyuncs.com"@.len() == 27,
        "dashscope-intl.aliyuncs.com"@[0] == 'd',
        "us-east-1.maas.aliyuncs.com"@[0] == 'u',
        "cn-beijing.maas.aliyuncs.com"@.len() == 28,
        "/compatible-mode/v1/responses"@.len() == 29,
        "cn-hongkong.maas.aliyuncs.com"@.len() == 29,
        "/compatible-mode/v1/responses"@[0] == '/',
        "cn-hongkong.maas.aliyuncs.com"@[0] == 'c',
        ":streamGenerateContent?alt=sse"@.len() == 30,
        "ap-southeast-1.maas.aliyuncs.com"@.len() == 32,
        "cn-hongkong.dashscope.aliyuncs.com"@.len() == 34,
{
    reveal_strlit(",");
    reveal_strlit(".");
    reveal_strlit("/chat/completions");
    reveal_strlit("/compatible-mode/v1/responses");
    reveal_strlit("/models/");
    reveal_strlit("/responses");
    reveal_strlit("/v1/messages");
    reveal_strlit(":generateContent");
    reveal_strlit(":streamGenerateContent?alt=sse");
    reveal_strlit("anthropic-beta");
    reveal_strlit("anthropic-version");
    reveal_strlit("ap-southeast-1.maas.aliyuncs.com");
    reveal_strlit("api-key");
    reveal_strlit("api_version");
    reveal_strlit("application/json");
    reveal_strlit("authorization");
    reveal_strlit("body");
    reveal_strlit("cn-beijing.maas.aliyuncs.com");
    reveal_strlit("cn-hongkong.dashscope.aliyuncs.com");
    reveal_strlit("cn-hongkong.maas.aliyuncs.com");
    reveal_strlit("content");
    reveal_strlit("content-type");
    reveal_strlit("cookie");
    reveal_strlit("dashscope-intl.aliyuncs.com");
    reveal_strlit("dashscope-us.aliyuncs.com");
    reveal_strlit("dashscope.aliyuncs.com");
    reveal_strlit("fast-mode-2026-02-01");
    reveal_strlit("file_search");
    reveal_strlit("fileid://");
    reveal_strlit("https://");
    reveal_strlit("include_usage");
    reveal_strlit("max_completion_tokens");
    reveal_strlit("max_tokens");
    reveal_strlit("messages");
    reveal_strlit("model");
    reveal_strlit("previous_response_id");
    reveal_strlit("proxy-authorization");
    reveal_strlit("qwen");
    reveal_strlit("qwen3.8-flash");
    reveal_strlit("qwen3.8-max");
    reveal_strlit("role");
    reveal_strlit("stop");
    reveal_strlit("stream");
    reveal_strlit("stream_options");
    reveal_strlit("stream_usage_opt_in");
    reveal_strlit("system");
    reveal_strlit("temperature");
    reveal_strlit("tool_choice");
    reveal_strlit("tools");
    reveal_strlit("type");
    reveal_strlit("us-east-1.maas.aliyuncs.com");
    reveal_strlit("vector_store_ids");
    reveal_strlit("x-api-key");
}

} // verus!
