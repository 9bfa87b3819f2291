//! Response and error decoding for the Messages API.

use crate::codecs::inference;
use crate::codecs::openai::chat;
use crate::codecs::web_search_decode;
use crate::json::{self, Json, JsonView};
use crate::protocol::error;
use crate::protocol::{
    CompletionResponse, CompletionResponseView, ContentBlock, ContentBlockView, LlmError,
    LlmErrorView, ProtocolFamily, ProviderProfile, ServerToolUsage, StopReason, StopReasonView,
    Usage, UsageReport, UsageReportView, UsageView,
};
use crate::text;
use crate::transport::{self, HttpResponse};
use crate::views;
use vstd::prelude::*;

verus! {

broadcast use {crate::views::group_views, crate::json::group_json};

/// What a block becomes. An unknown type is dropped, not an error: the provider
/// adds block types over time.
pub open spec fn block_of(value: JsonView) -> Option<ContentBlockView> {
    if web_search_decode::searched(value) {
        Some(
            ContentBlockView::ProviderContent {
                protocol: ProtocolFamily::AnthropicMessages,
                value,
            },
        )
    } else if json::is_kind(value, "text"@) {
        match json::str_at(value, "text"@) {
            Some(text) => Some(ContentBlockView::Text { text, thought_signature: None }),
            None => None,
        }
    } else if json::is_kind(value, "thinking"@) {
        Some(
            ContentBlockView::Thinking {
                text: json::text_or_empty(value, "thinking"@),
                signature: json::str_at(value, "signature"@),
            },
        )
    } else if json::is_kind(value, "redacted_thinking"@) {
        match json::str_at(value, "data"@) {
            Some(data) => Some(ContentBlockView::RedactedThinking { data }),
            None => None,
        }
    } else if json::is_kind(value, "tool_use"@) {
        match (json::str_at(value, "id"@), json::str_at(value, "name"@)) {
            (Some(id), Some(name)) => Some(
                ContentBlockView::ToolUse {
                    id,
                    name,
                    input: json::at(value, "input"@),
                    provider_id: None,
                    thought_signature: None,
                },
            ),
            _ => None,
        }
    } else {
        None
    }
}

pub fn decode_block(value: &Json) -> (block: Option<ContentBlock>)
    ensures
        block.deep_view() == block_of(value@),
{
    if web_search_decode::is_searched(value) {
        Some(
            ContentBlock::ProviderContent {
                protocol: ProtocolFamily::AnthropicMessages,
                value: value.dup(),
            },
        )
    } else if json::kind_is(value, "text") {
        match json::owned_text_in(value.get("text")) {
            Some(text) => Some(ContentBlock::Text { text, thought_signature: None }),
            None => None,
        }
    } else if json::kind_is(value, "thinking") {
        Some(
            ContentBlock::Thinking {
                text: json::text_at(value, "thinking"),
                signature: json::owned_text_in(value.get("signature")),
            },
        )
    } else if json::kind_is(value, "redacted_thinking") {
        match json::owned_text_in(value.get("data")) {
            Some(data) => Some(ContentBlock::RedactedThinking { data }),
            None => None,
        }
    } else if json::kind_is(value, "tool_use") {
        let id = json::owned_text_in(value.get("id"));
        let name = json::owned_text_in(value.get("name"));
        match (id, name) {
            (Some(id), Some(name)) => Some(
                ContentBlock::ToolUse {
                    id,
                    name,
                    input: json::member_or_null(value, "input"),
                    provider_id: None,
                    thought_signature: None,
                },
            ),
            _ => None,
        }
    } else {
        None
    }
}

/// The blocks that the values from the `i`th on become.
pub open spec fn blocks_of(values: Seq<JsonView>, i: int, before: Seq<ContentBlockView>) -> Seq<
    ContentBlockView,
>
    decreases values.len() - i,
{
    if i < 0 || i >= values.len() {
        before
    } else {
        match block_of(values[i]) {
            Some(block) => blocks_of(values, i + 1, before.push(block)),
            None => blocks_of(values, i + 1, before),
        }
    }
}

fn decode_blocks(values: &Vec<Json>) -> (content: Vec<ContentBlock>)
    ensures
        content.deep_view() == blocks_of(values.deep_view(), 0, Seq::empty()),
{
    let mut content: Vec<ContentBlock> = Vec::new();
    let mut i: usize = 0;
    while i < values.len()
        invariant
            i <= values.len(),
            blocks_of(values.deep_view(), 0, Seq::empty()) == blocks_of(
                values.deep_view(),
                i as int,
                content.deep_view(),
            ),
        decreases values.len() - i,
    {
        assert(values.deep_view()[i as int] == values@[i as int]@);
        if let Some(block) = decode_block(&values[i]) {
            content.push(block);
        }
        i = i + 1;
    }
    content
}

/// Where the digits from the `i`th character on end.
pub open spec fn run_end(s: Seq<char>, i: int) -> int
    decreases s.len() - i,
{
    if i < 0 || i >= s.len() || text::digit_value(s[i]) is None {
        i
    } else {
        run_end(s, i + 1)
    }
}

proof fn lemma_run_end(s: Seq<char>, i: int)
    requires
        0 <= i <= s.len(),
    ensures
        i <= run_end(s, i) <= s.len(),
        i < s.len() && text::digit_value(s[i]) is Some ==> run_end(s, i) > i,
    decreases s.len() - i,
{
    if i < s.len() && text::digit_value(s[i]) is Some {
        lemma_run_end(s, i + 1);
    }
}

/// The first two numbers in a text, from the `i`th character on. A run of digits
/// that is no 64-bit number is passed over.
pub open spec fn numbers_in(s: Seq<char>, i: int, found: Seq<u64>) -> Seq<u64>
    decreases s.len() - i,
{
    if i < 0 || i >= s.len() || found.len() >= 2 {
        found
    } else if text::digit_value(s[i]) is Some {
        let end = run_end(s, i);
        if end <= i || end > s.len() {
            found
        } else {
            match text::u64_value(s.subrange(i, end)) {
                Some(n) => numbers_in(s, end, found.push(n as u64)),
                None => numbers_in(s, end, found),
            }
        }
    } else {
        numbers_in(s, i + 1, found)
    }
}

fn end_of_run(cs: &Vec<char>, from: usize) -> (end: usize)
    requires
        from <= cs.len(),
    ensures
        end == run_end(cs@, from as int),
        from <= end <= cs.len(),
{
    let mut i: usize = from;
    while i < cs.len() && '0' <= cs[i] && cs[i] <= '9'
        invariant
            from <= i <= cs.len(),
            run_end(cs@, from as int) == run_end(cs@, i as int),
        decreases cs.len() - i,
    {
        i = i + 1;
    }
    i
}

fn first_numbers(s: &str) -> (found: Vec<u64>)
    ensures
        found@ == numbers_in(s@, 0, Seq::empty()),
{
    let cs = text::chars(s);
    let mut found: Vec<u64> = Vec::new();
    let mut i: usize = 0;
    while i < cs.len() && found.len() < 2
        invariant
            i <= cs.len(),
            cs@ == s@,
            numbers_in(s@, 0, Seq::empty()) == numbers_in(s@, i as int, found@),
        decreases cs.len() - i,
    {
        if '0' <= cs[i] && cs[i] <= '9' {
            let end = end_of_run(&cs, i);
            proof {
                lemma_run_end(s@, i as int);
            }
            if let Some(n) = text::parse_u64(&text::range(&cs, i, end)) {
                found.push(n);
            }
            i = end;
        } else {
            i = i + 1;
        }
    }
    found
}

/// The actual and the allowed token counts of "prompt is too long: 260085 tokens >
/// 256000", read from the provider's own message: a displayed one starts with the
/// status.
pub open spec fn counts_of(message: Seq<char>) -> (Option<u64>, Option<u64>) {
    match text::place_of(text::lower(message), "prompt is too long"@, 0) {
        None => (None, None),
        Some(i) => {
            let found = numbers_in(
                message.skip(i + "prompt is too long"@.len()),
                0,
                Seq::empty(),
            );
            (
                if found.len() > 0 {
                    Some(found[0])
                } else {
                    None
                },
                if found.len() > 1 {
                    Some(found[1])
                } else {
                    None
                },
            )
        },
    }
}

fn prompt_too_long_counts(message: &str) -> (counts: (Option<u64>, Option<u64>))
    ensures
        counts == counts_of(message@),
{
    let cs = text::chars(message);
    let place = match text::find_part(&text::to_lower(message), "prompt is too long") {
        Some(place) => place,
        None => return (None, None),
    };
    proof {
        reveal_strlit("prompt is too long");
        assert("prompt is too long"@.len() == 18);
        assert(text::lower(message@).len() == cs.len());
    }
    let rest = text::range(&cs, place + 18, cs.len());
    assert(rest@ =~= message@.skip(place + 18));
    let found = first_numbers(&rest);
    let actual = if found.len() > 0 {
        Some(found[0])
    } else {
        None
    };
    let limit = if found.len() > 1 {
        Some(found[1])
    } else {
        None
    };
    (actual, limit)
}

/// Whether a refusal says that the prompt is too long.
pub open spec fn too_long(message: Seq<char>) -> bool {
    text::contains(text::lower(message), "prompt is too long"@)
}

/// The error that the provider's own type names. A refused size that speaks of
/// the context window, and a refused request whose prompt is too long, both mean
/// that the transcript no longer fits.
pub open spec fn error_of_kind(
    kind: Seq<char>,
    said: Seq<char>,
    message: Seq<char>,
    retry_after: Option<u64>,
) -> Option<LlmErrorView> {
    if kind == "authentication_error"@ {
        Some(LlmErrorView::Authentication { message })
    } else if kind == "permission_error"@ {
        Some(LlmErrorView::PermissionDenied { message })
    } else if kind == "not_found_error"@ {
        Some(LlmErrorView::ModelUnavailable { message })
    } else if kind == "rate_limit_error"@ {
        Some(LlmErrorView::RateLimited { message, retry_after })
    } else if kind == "request_too_large"@ {
        Some(
            if chat::decode::about_window(said) {
                chat::decode::overflow_view(message)
            } else {
                LlmErrorView::RequestTooLarge { message }
            },
        )
    } else if kind == "invalid_request_error"@ {
        Some(
            if too_long(said) {
                LlmErrorView::ContextOverflow {
                    message,
                    limit: counts_of(said).1,
                    actual: counts_of(said).0,
                }
            } else {
                LlmErrorView::InvalidRequest { message }
            },
        )
    } else if kind == "overloaded_error"@ {
        Some(LlmErrorView::Overloaded { message })
    } else if kind == "api_error"@ {
        Some(LlmErrorView::ProviderInternal { message })
    } else {
        None
    }
}

/// The type that an error body gives.
pub open spec fn error_kind(body: JsonView) -> Seq<char> {
    json::text_or_empty(json::at(body, "error"@), "type"@)
}

/// The error of a response: by its type, or else by the status.
pub open spec fn classified(status: u16, body: JsonView, retry_after: Option<u64>) -> LlmErrorView {
    let said = chat::decode::error_message(body);
    let message = chat::decode::displayed(status, body, said);
    match error_of_kind(error_kind(body), said, message, retry_after) {
        Some(error) => error,
        None => chat::decode::error_of_status(
            status,
            chat::decode::about_window(said),
            message,
            retry_after,
        ),
    }
}

fn by_kind(kind: &str, said: &str, message: String, retry_after: Option<u64>) -> (result: Result<
    LlmError,
    String,
>)
    ensures
        match error_of_kind(kind@, said@, message@, retry_after) {
            Some(error) => result matches Ok(found) && found@ == error,
            None => result matches Err(back) && back@ == message@,
        },
{
    if text::same(kind, "authentication_error") {
        Ok(LlmError::Authentication { message })
    } else if text::same(kind, "permission_error") {
        Ok(LlmError::PermissionDenied { message })
    } else if text::same(kind, "not_found_error") {
        Ok(LlmError::ModelUnavailable { message })
    } else if text::same(kind, "rate_limit_error") {
        Ok(LlmError::RateLimited { message, retry_after })
    } else if text::same(kind, "request_too_large") {
        if text::has_part(&text::to_lower(said), "context window") {
            Ok(LlmError::ContextOverflow { message, limit: None, actual: None })
        } else {
            Ok(LlmError::RequestTooLarge { message })
        }
    } else if text::same(kind, "invalid_request_error") {
        if text::has_part(&text::to_lower(said), "prompt is too long") {
            let (actual, limit) = prompt_too_long_counts(said);
            Ok(LlmError::ContextOverflow { message, limit, actual })
        } else {
            Ok(LlmError::InvalidRequest { message })
        }
    } else if text::same(kind, "overloaded_error") {
        Ok(LlmError::Overloaded { message })
    } else if text::same(kind, "api_error") {
        Ok(LlmError::ProviderInternal { message })
    } else {
        Err(message)
    }
}

/// Maps a response without success onto the error taxonomy. `retry_after` is in
/// seconds.
pub fn classify_error(status: u16, body: &Json, retry_after: Option<u64>) -> (error: LlmError)
    ensures
        error@ == classified(status, body@, retry_after),
{
    let none = Json::Null;
    let found = json::member_or(body, "error", &none);
    let said = json::text_at(found, "message");
    let kind = json::text_at(found, "type");
    let message = chat::decode::display(status, body, &said);
    match by_kind(&kind, &said, message, retry_after) {
        Ok(error) => error,
        Err(message) => chat::decode::by_status(
            status,
            text::has_part(&text::to_lower(&said), "context window"),
            message,
            retry_after,
        ),
    }
}

pub open spec fn stop_of(reason: Option<Seq<char>>) -> StopReasonView {
    match reason {
        None => StopReasonView::EndTurn,
        Some(reason) => if reason == "end_turn"@ {
            StopReasonView::EndTurn
        } else if reason == "tool_use"@ {
            StopReasonView::ToolUse
        } else if reason == "max_tokens"@ {
            StopReasonView::MaxTokens
        } else if reason == "stop_sequence"@ {
            StopReasonView::StopSequence
        } else if reason == "refusal"@ {
            StopReasonView::Refusal
        } else {
            StopReasonView::Other(reason)
        },
    }
}

pub fn stop_reason(reason: Option<&str>) -> (result: StopReason)
    ensures
        result@ == stop_of(reason.deep_view()),
{
    match reason {
        None => StopReason::EndTurn,
        Some(reason) => if text::same(reason, "end_turn") {
            StopReason::EndTurn
        } else if text::same(reason, "tool_use") {
            StopReason::ToolUse
        } else if text::same(reason, "max_tokens") {
            StopReason::MaxTokens
        } else if text::same(reason, "stop_sequence") {
            StopReason::StopSequence
        } else if text::same(reason, "refusal") {
            StopReason::Refusal
        } else {
            StopReason::Other(reason.to_owned())
        },
    }
}

/// A count of hosted tool use that may be there.
pub open spec fn tool_count(usage: JsonView, key: Seq<char>) -> Option<u64> {
    match json::member2(usage, "server_tool_use"@, key) {
        Some(value) => json::u64_of(value),
        None => None,
    }
}

fn count_tool(raw: &Json, key: &str) -> (result: Option<u64>)
    ensures
        result == tool_count(raw@, key@),
{
    match raw.get2("server_tool_use", key) {
        Some(value) => value.as_u64(),
        None => None,
    }
}

pub open spec fn server_tools_of(usage: JsonView) -> Option<ServerToolUsage> {
    let web = tool_count(usage, "web_search_requests"@);
    let file = tool_count(usage, "file_search_requests"@);
    if web is None && file is None {
        None
    } else {
        Some(ServerToolUsage { web_search_requests: web, file_search_requests: file })
    }
}

/// The buckets of a usage object. On this wire they are disjoint as they come:
/// `input_tokens` counts only what follows the last cache breakpoint.
pub open spec fn usage_of(usage: JsonView) -> UsageView {
    UsageView {
        input_tokens: json::count_in(json::member(usage, "input_tokens"@)),
        output_tokens: json::count_in(json::member(usage, "output_tokens"@)),
        cache_read_tokens: json::count_in(json::member(usage, "cache_read_input_tokens"@)),
        cache_write_tokens: json::count_in(json::member(usage, "cache_creation_input_tokens"@)),
        cache_write_1h_tokens: chat::decode::detail_of(
            usage,
            "cache_creation"@,
            "ephemeral_1h_input_tokens"@,
        ),
        reasoning_tokens: chat::decode::detail_of(
            usage,
            "output_tokens_details"@,
            "thinking_tokens"@,
        ),
        cost: None,
        server_tool_usage: server_tools_of(usage),
    }
}

pub fn usage(raw: &Json) -> (result: Usage)
    ensures
        result@ == usage_of(raw@),
{
    let web = count_tool(raw, "web_search_requests");
    let file = count_tool(raw, "file_search_requests");
    Usage {
        input_tokens: json::count(raw.get("input_tokens")),
        output_tokens: json::count(raw.get("output_tokens")),
        cache_read_tokens: json::count(raw.get("cache_read_input_tokens")),
        cache_write_tokens: json::count(raw.get("cache_creation_input_tokens")),
        cache_write_1h_tokens: chat::decode::detail(
            raw,
            "cache_creation",
            "ephemeral_1h_input_tokens",
        ),
        reasoning_tokens: chat::decode::detail(raw, "output_tokens_details", "thinking_tokens"),
        cost: None,
        server_tool_usage: if web.is_none() && file.is_none() {
            None
        } else {
            Some(ServerToolUsage { web_search_requests: web, file_search_requests: file })
        },
    }
}

/// The report that a usage object makes, once the counts are final or before.
pub open spec fn report_of(usage: Option<JsonView>, over: bool) -> UsageReportView {
    match usage {
        Some(raw) => UsageReportView {
            reported: Some(usage_of(raw)),
            complete: over && raw is Object,
        },
        None => UsageReportView { reported: None, complete: false },
    }
}

pub fn report(raw: Option<&Json>, over: bool) -> (result: UsageReport)
    ensures
        result@ == report_of(raw.deep_view(), over),
{
    match raw {
        Some(raw) => UsageReport {
            reported: Some(usage(raw)),
            complete: over && matches!(raw, Json::Object(_)),
        },
        None => UsageReport { reported: None, complete: false },
    }
}

/// The turn of a response.
pub open spec fn decoded(response: HttpResponse, profile: ProviderProfile) -> Result<
    CompletionResponseView,
    LlmErrorView,
> {
    let body = json::bytes_value(response.body@);
    if !transport::is_success(response.status) {
        Err(classified(response.status, body, chat::decode::retry_after_of(response)))
    } else {
        match json::member(body, "content"@) {
            Some(JsonView::Array(values)) => Ok(
                CompletionResponseView {
                    content: blocks_of(values, 0, Seq::empty()),
                    stop_reason: stop_of(json::str_at(body, "stop_reason"@)),
                    usage: report_of(chat::decode::usage_in(body), true),
                    model: json::text_or_empty(body, "model"@),
                    response_id: None,
                    web_search: web_search_decode::result_of(
                        web_search_decode::with_counters(
                            web_search_decode::anthropic_metadata(body),
                            json::member(body, "usage"@),
                        ),
                    ),
                    file_search: None,
                    inference: inference::response_report(
                        response.headers.deep_view(),
                        Some(body),
                        profile,
                    ),
                },
            ),
            _ => Err(
                error::internal_view("provider response has no valid content array"@),
            ),
        }
    }
}

pub fn response(resp: &HttpResponse, profile: &ProviderProfile) -> (result: Result<
    CompletionResponse,
    LlmError,
>)
    ensures
        views::res(result) == decoded(*resp, *profile),
{
    let body = json::value_of_bytes(resp.body.as_slice());
    if !(200 <= resp.status && resp.status < 300) {
        return Err(classify_error(resp.status, &body, chat::decode::retry_after(resp)));
    }
    let values = match body.get("content") {
        Some(Json::Array(values)) => values,
        _ => return Err(error::internal("provider response has no valid content array")),
    };
    Ok(
        CompletionResponse {
            content: decode_blocks(values),
            stop_reason: stop_reason(body.str_at("stop_reason")),
            usage: report(chat::decode::find_usage(&body), true),
            model: json::text_at(&body, "model"),
            response_id: None,
            web_search: web_search_decode::anthropic_with_usage(&body),
            file_search: None,
            inference: inference::response(&resp.headers, Some(&body), profile),
        },
    )
}

/// Both ways in which this provider says that the transcript no longer fits are a
/// `ContextOverflow`.
pub proof fn an_overflow_is_classified(status: u16, body: JsonView, retry_after: Option<u64>)
    requires
        ({
            let said = chat::decode::error_message(body);
            (error_kind(body) == "request_too_large"@ && chat::decode::about_window(said)) || (
            error_kind(body) == "invalid_request_error"@ && too_long(said)) || (status == 413
                && chat::decode::about_window(said) && error_of_kind(
                error_kind(body),
                said,
                said,
                retry_after,
            ) is None)
        }),
    ensures
        classified(status, body, retry_after) is ContextOverflow,
{
    reveal_strlit("authentication_error");
    reveal_strlit("permission_error");
    reveal_strlit("not_found_error");
    reveal_strlit("rate_limit_error");
    reveal_strlit("request_too_large");
    reveal_strlit("invalid_request_error");
    assert("authentication_error"@.len() == 20 && "permission_error"@.len() == 16);
    assert("not_found_error"@.len() == 15 && "rate_limit_error"@.len() == 16);
    assert("request_too_large"@.len() == 17 && "invalid_request_error"@.len() == 21);
}

} // verus!
