//! Response and error decoding for the Responses API.

use crate::codecs::file_search_decode;
use crate::codecs::inference;
use crate::codecs::openai::chat;
use crate::codecs::web_search_decode;
use crate::json::{self, Json, JsonView};
use crate::protocol::error;
use crate::protocol::{
    CompletionResponse, CompletionResponseView, ContentBlock, ContentBlockView, LlmError,
    LlmErrorView, ProtocolFamily, ProviderProfile, ServerToolUsage, StopReason, StopReasonView,
    Usage, UsageReport, UsageReportView, UsageView,
};
use crate::text;
use crate::transport::{self, HttpResponse};
use crate::views;
use vstd::prelude::*;

verus! {

broadcast use {crate::views::group_views, crate::json::group_json};

/// The error envelope is the Chat wire's, so the classification is shared, with
/// its split of a refused size. `retry_after` is in seconds.
pub fn classify_error(status: u16, body: &Json, retry_after: Option<u64>) -> (error: LlmError)
    ensures
        error@ == chat::decode::classified(status, body@, retry_after),
{
    chat::decode::classify_error(status, body, retry_after)
}

/// The model texts among the parts from the `i`th on. A refusal is no answer.
pub open spec fn output_texts(parts: Seq<JsonView>, i: int, before: Seq<ContentBlockView>) -> Seq<
    ContentBlockView,
>
    decreases parts.len() - i,
{
    if i < 0 || i >= parts.len() {
        before
    } else {
        output_texts(
            parts,
            i + 1,
            match json::str_at(parts[i], "text"@) {
                Some(text) => if json::is_kind(parts[i], "output_text"@) {
                    before.push(ContentBlockView::Text { text, thought_signature: None })
                } else {
                    before
                },
                None => before,
            },
        )
    }
}

/// The summary texts from the `i`th on.
pub open spec fn summary_texts(parts: Seq<JsonView>, i: int, before: Seq<ContentBlockView>) -> Seq<
    ContentBlockView,
>
    decreases parts.len() - i,
{
    if i < 0 || i >= parts.len() {
        before
    } else {
        summary_texts(
            parts,
            i + 1,
            match json::str_at(parts[i], "text"@) {
                Some(text) => before.push(ContentBlockView::Thinking { text, signature: None }),
                None => before,
            },
        )
    }
}

/// A call as a block.
pub open spec fn call_block(item: JsonView) -> ContentBlockView {
    ContentBlockView::ToolUse {
        id: json::text_or_empty(item, "call_id"@),
        name: json::text_or_empty(item, "name"@),
        input: json::text_value(
            match json::str_at(item, "arguments"@) {
                Some(arguments) => arguments,
                None => "{}"@,
            },
        ),
        provider_id: None,
        thought_signature: None,
    }
}

/// The blocks once an item is among them: a message's texts, a call, reasoning
/// kept for replay and summarised, or nothing.
pub open spec fn with_item(before: Seq<ContentBlockView>, item: JsonView) -> Seq<ContentBlockView> {
    if json::is_kind(item, "message"@) {
        output_texts(json::items_in(json::member(item, "content"@)), 0, before)
    } else if json::is_kind(item, "function_call"@) {
        before.push(call_block(item))
    } else if json::is_kind(item, "reasoning"@) {
        summary_texts(
            json::items_in(json::member(item, "summary"@)),
            0,
            before.push(
                ContentBlockView::ProviderContent {
                    protocol: ProtocolFamily::OpenAiResponses,
                    value: item,
                },
            ),
        )
    } else {
        before
    }
}

fn push_texts(parts: &Vec<Json>, out: &mut Vec<ContentBlock>)
    ensures
        final(out).deep_view() == output_texts(parts.deep_view(), 0, old(out).deep_view()),
{
    let mut i: usize = 0;
    while i < parts.len()
        invariant
            i <= parts.len(),
            output_texts(parts.deep_view(), 0, old(out).deep_view()) == output_texts(
                parts.deep_view(),
                i as int,
                out.deep_view(),
            ),
        decreases parts.len() - i,
    {
        assert(parts.deep_view()[i as int] == parts@[i as int]@);
        if json::kind_is(&parts[i], "output_text") {
            if let Some(text) = parts[i].str_at("text") {
                out.push(ContentBlock::Text { text: text.to_owned(), thought_signature: None });
            }
        }
        i = i + 1;
    }
}

fn push_summaries(parts: &Vec<Json>, out: &mut Vec<ContentBlock>)
    ensures
        final(out).deep_view() == summary_texts(parts.deep_view(), 0, old(out).deep_view()),
{
    let mut i: usize = 0;
    while i < parts.len()
        invariant
            i <= parts.len(),
            summary_texts(parts.deep_view(), 0, old(out).deep_view()) == summary_texts(
                parts.deep_view(),
                i as int,
                out.deep_view(),
            ),
        decreases parts.len() - i,
    {
        assert(parts.deep_view()[i as int] == parts@[i as int]@);
        if let Some(text) = parts[i].str_at("text") {
            out.push(ContentBlock::Thinking { text: text.to_owned(), signature: None });
        }
        i = i + 1;
    }
}

/// Appends the blocks of an output item, and notes a call.
pub fn decode_item(item: &Json, out: &mut Vec<ContentBlock>, saw_tool_call: &mut bool)
    ensures
        final(out).deep_view() == with_item(old(out).deep_view(), item@),
        *final(saw_tool_call) == (*old(saw_tool_call) || json::is_kind(item@, "function_call"@)),
{
    proof {
        reveal_strlit("message");
        reveal_strlit("function_call");
        reveal_strlit("reasoning");
        assert("message"@.len() == 7 && "function_call"@.len() == 13 && "reasoning"@.len() == 9);
    }
    if json::kind_is(item, "message") {
        if let Some(parts) = web_search_decode::items_of(item.get("content")) {
            push_texts(parts, out);
        }
    } else if json::kind_is(item, "function_call") {
        *saw_tool_call = true;
        let arguments = match item.str_at("arguments") {
            Some(arguments) => arguments,
            None => "{}",
        };
        out.push(
            ContentBlock::ToolUse {
                id: json::text_at(item, "call_id"),
                name: json::text_at(item, "name"),
                input: json::value_of_text(arguments),
                provider_id: None,
                thought_signature: None,
            },
        );
    } else if json::kind_is(item, "reasoning") {
        out.push(
            ContentBlock::ProviderContent {
                protocol: ProtocolFamily::OpenAiResponses,
                value: item.dup(),
            },
        );
        if let Some(parts) = web_search_decode::items_of(item.get("summary")) {
            push_summaries(parts, out);
        }
    }
}

/// Whether an item or a part refuses. Refusal text is no answer, but it still
/// decides how a completed response ended.
pub open spec fn refuses(item: JsonView) -> bool {
    json::is_kind(item, "refusal"@) || (json::is_kind(item, "message"@)
        && web_search_decode::of_kind(
        json::items_in(json::member(item, "content"@)),
        "refusal"@,
        0,
        Seq::empty(),
    ).len() > 0)
}

pub fn has_refusal(item: &Json) -> (result: bool)
    ensures
        result == refuses(item@),
{
    if json::kind_is(item, "refusal") {
        true
    } else if json::kind_is(item, "message") {
        match web_search_decode::items_of(item.get("content")) {
            Some(parts) => web_search_decode::filter_kind(parts, "refusal").len() > 0,
            None => false,
        }
    } else {
        false
    }
}

/// Why a response ended, as far as it says itself.
pub open spec fn stop_of(response: JsonView) -> StopReasonView {
    if json::str_at(response, "status"@) != Some("incomplete"@) {
        StopReasonView::EndTurn
    } else {
        match json::str_in(json::member2(response, "incomplete_details"@, "reason"@)) {
            Some(reason) => if reason == "max_output_tokens"@ {
                StopReasonView::MaxTokens
            } else if reason == "content_filter"@ {
                StopReasonView::Refusal
            } else {
                StopReasonView::Other(reason)
            },
            None => StopReasonView::Other("incomplete"@),
        }
    }
}

fn is_status(response: &Json, status: &str) -> (result: bool)
    ensures
        result == (json::str_at(response@, "status"@) == Some(status@)),
{
    match response.str_at("status") {
        Some(found) => text::same(found, status),
        None => false,
    }
}

pub fn stop_reason(response: &Json) -> (reason: StopReason)
    ensures
        reason@ == stop_of(response@),
{
    if !is_status(response, "incomplete") {
        return StopReason::EndTurn;
    }
    match json::text_in(response.get2("incomplete_details", "reason")) {
        Some(reason) => if text::same(reason, "max_output_tokens") {
            StopReason::MaxTokens
        } else if text::same(reason, "content_filter") {
            StopReason::Refusal
        } else {
            StopReason::Other(reason.to_owned())
        },
        None => StopReason::Other("incomplete".to_owned()),
    }
}

/// How often a hosted tool ran.
pub open spec fn tool_count(usage: JsonView, tool: Seq<char>) -> Option<u64> {
    match json::member2(usage, "x_tools"@, tool) {
        Some(counts) => json::u64_at(counts, "count"@),
        None => None,
    }
}

fn count_tool(raw: &Json, tool: &str) -> (result: Option<u64>)
    ensures
        result == tool_count(raw@, tool@),
{
    match raw.get2("x_tools", tool) {
        Some(counts) => counts.u64_at("count"),
        None => None,
    }
}

pub open spec fn server_tools_of(usage: JsonView) -> Option<ServerToolUsage> {
    let web = tool_count(usage, "web_search"@);
    let file = tool_count(usage, "file_search"@);
    if web is None && file is None {
        None
    } else {
        Some(ServerToolUsage { web_search_requests: web, file_search_requests: file })
    }
}

fn server_tool_usage(raw: &Json) -> (result: Option<ServerToolUsage>)
    ensures
        result == server_tools_of(raw@),
{
    let web = count_tool(raw, "web_search");
    let file = count_tool(raw, "file_search");
    if web.is_none() && file.is_none() {
        None
    } else {
        Some(ServerToolUsage { web_search_requests: web, file_search_requests: file })
    }
}

/// The buckets of a usage object: `input_tokens` holds the cached tokens, which
/// are taken out again, and reasoning tokens are a part of the output.
pub open spec fn usage_of(usage: JsonView) -> UsageView {
    let read = chat::decode::detail_of(usage, "input_tokens_details"@, "cached_tokens"@);
    let write = chat::decode::detail_of(usage, "input_tokens_details"@, "cache_write_tokens"@);
    UsageView {
        input_tokens: chat::decode::less(
            chat::decode::less(json::count_in(json::member(usage, "input_tokens"@)), read),
            write,
        ),
        output_tokens: json::count_in(json::member(usage, "output_tokens"@)),
        cache_read_tokens: read,
        cache_write_tokens: write,
        cache_write_1h_tokens: 0,
        reasoning_tokens: chat::decode::detail_of(
            usage,
            "output_tokens_details"@,
            "reasoning_tokens"@,
        ),
        cost: None,
        server_tool_usage: server_tools_of(usage),
    }
}

pub fn usage(raw: &Json) -> (result: Usage)
    ensures
        result@ == usage_of(raw@),
{
    let read = chat::decode::detail(raw, "input_tokens_details", "cached_tokens");
    let write = chat::decode::detail(raw, "input_tokens_details", "cache_write_tokens");
    Usage {
        input_tokens: json::count(raw.get("input_tokens")).saturating_sub(read).saturating_sub(
            write,
        ),
        output_tokens: json::count(raw.get("output_tokens")),
        cache_read_tokens: read,
        cache_write_tokens: write,
        cache_write_1h_tokens: 0,
        reasoning_tokens: chat::decode::detail(raw, "output_tokens_details", "reasoning_tokens"),
        cost: None,
        server_tool_usage: server_tool_usage(raw),
    }
}

/// Whether the counts agree with each other.
pub open spec fn consistent(usage: JsonView) -> bool {
    usage is Object && chat::decode::detail_of(usage, "input_tokens_details"@, "cached_tokens"@)
        + chat::decode::detail_of(usage, "input_tokens_details"@, "cache_write_tokens"@)
        <= json::count_in(json::member(usage, "input_tokens"@))
}

fn is_consistent(raw: &Json) -> (result: bool)
    ensures
        result == consistent(raw@),
{
    let read = chat::decode::detail(raw, "input_tokens_details", "cached_tokens");
    let write = chat::decode::detail(raw, "input_tokens_details", "cache_write_tokens");
    let all = json::count(raw.get("input_tokens"));
    matches!(raw, Json::Object(_)) && read <= all && write <= all - read
}

/// The report that a usage object makes, once the turn is over or before.
pub open spec fn report_of(usage: Option<JsonView>, over: bool) -> UsageReportView {
    match usage {
        Some(raw) => UsageReportView {
            reported: Some(usage_of(raw)),
            complete: over && consistent(raw),
        },
        None => UsageReportView { reported: None, complete: false },
    }
}

pub fn report(raw: Option<&Json>, over: bool) -> (result: UsageReport)
    ensures
        result@ == report_of(raw.deep_view(), over),
{
    match raw {
        Some(raw) => UsageReport {
            reported: Some(usage(raw)),
            complete: over && is_consistent(raw),
        },
        None => UsageReport { reported: None, complete: false },
    }
}

/// What the items from the `i`th on hold: the blocks, whether one is a call and
/// whether one refuses.
pub open spec fn output_of(
    items: Seq<JsonView>,
    i: int,
    content: Seq<ContentBlockView>,
    called: bool,
    refused: bool,
) -> (Seq<ContentBlockView>, bool, bool)
    decreases items.len() - i,
{
    if i < 0 || i >= items.len() {
        (content, called, refused)
    } else {
        output_of(
            items,
            i + 1,
            with_item(content, items[i]),
            called || json::is_kind(items[i], "function_call"@),
            refused || refuses(items[i]),
        )
    }
}

fn decode_output(items: &Vec<Json>) -> (result: (Vec<ContentBlock>, bool, bool))
    ensures
        (result.0.deep_view(), result.1, result.2) == output_of(
            items.deep_view(),
            0,
            Seq::empty(),
            false,
            false,
        ),
{
    let mut content: Vec<ContentBlock> = Vec::new();
    let mut called = false;
    let mut refused = false;
    let mut i: usize = 0;
    while i < items.len()
        invariant
            i <= items.len(),
            output_of(items.deep_view(), 0, Seq::empty(), false, false) == output_of(
                items.deep_view(),
                i as int,
                content.deep_view(),
                called,
                refused,
            ),
        decreases items.len() - i,
    {
        assert(items.deep_view()[i as int] == items@[i as int]@);
        if has_refusal(&items[i]) {
            refused = true;
        }
        decode_item(&items[i], &mut content, &mut called);
        i = i + 1;
    }
    (content, called, refused)
}

/// Why a finished response ended: an incomplete one says so itself, else a call
/// asks for a tool, else a refusal ends the turn.
pub open spec fn ending(body: JsonView, called: bool, refused: bool) -> StopReasonView {
    if json::str_at(body, "status"@) == Some("incomplete"@) {
        stop_of(body)
    } else if called {
        StopReasonView::ToolUse
    } else if refused {
        StopReasonView::Refusal
    } else {
        stop_of(body)
    }
}

/// The turn of a response.
pub open spec fn decoded(response: HttpResponse, profile: ProviderProfile) -> Result<
    CompletionResponseView,
    LlmErrorView,
> {
    let body = json::bytes_value(response.body@);
    if !transport::is_success(response.status) {
        Err(
            chat::decode::classified(
                response.status,
                body,
                chat::decode::retry_after_of(response),
            ),
        )
    } else if json::str_at(body, "status"@) == Some("failed"@) {
        Err(chat::decode::classified(500, body, None))
    } else {
        match json::member(body, "output"@) {
            Some(JsonView::Array(items)) => {
                let (content, called, refused) = output_of(items, 0, Seq::empty(), false, false);
                Ok(
                    CompletionResponseView {
                        content,
                        stop_reason: ending(body, called, refused),
                        usage: report_of(chat::decode::usage_in(body), true),
                        model: json::text_or_empty(body, "model"@),
                        response_id: json::str_at(body, "id"@),
                        web_search: web_search_decode::result_of(
                            web_search_decode::with_counters(
                                web_search_decode::responses_metadata(body),
                                json::member(body, "usage"@),
                            ),
                        ),
                        file_search: file_search_decode::result_of_calls(
                            file_search_decode::search_calls(body),
                        ),
                        inference: inference::response_report(
                            response.headers.deep_view(),
                            Some(body),
                            profile,
                        ),
                    },
                )
            },
            _ => Err(
                error::internal_view("provider response has no valid output array"@),
            ),
        }
    }
}

pub fn response(resp: &HttpResponse, profile: &ProviderProfile) -> (result: Result<
    CompletionResponse,
    LlmError,
>)
    ensures
        views::res(result) == decoded(*resp, *profile),
{
    let body = json::value_of_bytes(resp.body.as_slice());
    if !(200 <= resp.status && resp.status < 300) {
        return Err(classify_error(resp.status, &body, chat::decode::retry_after(resp)));
    }
    if is_status(&body, "failed") {
        return Err(classify_error(500, &body, None));
    }
    let items = match body.get("output") {
        Some(Json::Array(items)) => items,
        _ => return Err(error::internal("provider response has no valid output array")),
    };
    let (content, called, refused) = decode_output(items);
    let stop_reason = if is_status(&body, "incomplete") {
        stop_reason(&body)
    } else if called {
        StopReason::ToolUse
    } else if refused {
        StopReason::Refusal
    } else {
        stop_reason(&body)
    };
    Ok(
        CompletionResponse {
            content,
            stop_reason,
            usage: report(chat::decode::find_usage(&body), true),
            model: json::text_at(&body, "model"),
            response_id: json::owned_text_in(body.get("id")),
            web_search: web_search_decode::responses_with_usage(&body),
            file_search: file_search_decode::responses(&body),
            inference: inference::response(&resp.headers, Some(&body), profile),
        },
    )
}

/// The buckets partition the input: where the counts agree, what was read from
/// the cache, what was written to it and the rest make up all of it.
pub proof fn the_buckets_partition_the_input(usage: JsonView)
    requires
        consistent(usage),
    ensures
        ({
            let u = usage_of(usage);
            u.input_tokens + u.cache_read_tokens + u.cache_write_tokens == json::count_in(
                json::member(usage, "input_tokens"@),
            )
        }),
{
}

} // verus!
