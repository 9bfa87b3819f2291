//! Response and error decoding.
//!
//! Every provider's "the transcript no longer fits" arrives as
//! `ContextOverflow`, because that and only that lets a turn be compacted.

use crate::codecs::file_search_decode;
use crate::codecs::inference;
use crate::codecs::web_search_decode;
use crate::json::{self, Json, JsonView};
use crate::protocol::error;
use crate::protocol::{
    CompletionResponse, CompletionResponseView, ContentBlock, ContentBlockView, LlmError,
    LlmErrorView, ProviderProfile, StopReason, StopReasonView, Usage, UsageReport,
    UsageReportView, UsageView,
};
use crate::text;
use crate::transport::{self, HttpResponse};
use crate::views;
use vstd::prelude::*;

verus! {

broadcast use {crate::views::group_views, crate::json::group_json};

/// The status is prefixed, and the whole body is kept where there is no message.
pub open spec fn displayed(status: u16, body: JsonView, message: Seq<char>) -> Seq<char> {
    text::decimal_text(status as nat) + " "@ + (if message.len() == 0 {
        json::text_of(body)
    } else {
        message
    })
}

pub fn display(status: u16, body: &Json, message: &str) -> (result: String)
    ensures
        result@ == displayed(status, body@, message@),
{
    let status = text::decimal(status as u64);
    if text::is_empty(message) {
        text::cat3(&status, " ", &json::to_text(body))
    } else {
        text::cat3(&status, " ", message)
    }
}

/// What an error body says.
pub open spec fn error_message(body: JsonView) -> Seq<char> {
    json::text_or_empty(json::at(body, "error"@), "message"@)
}

/// The code that an error body gives, or else its type.
pub open spec fn error_code(body: JsonView) -> Seq<char> {
    match json::str_at(json::at(body, "error"@), "code"@) {
        Some(code) => code,
        None => json::text_or_empty(json::at(body, "error"@), "type"@),
    }
}

/// How many tokens there may be, and how many there were, is not reported here.
pub open spec fn overflow_view(message: Seq<char>) -> LlmErrorView {
    LlmErrorView::ContextOverflow { message, limit: None, actual: None }
}

/// The error that the provider's own code names.
pub open spec fn error_of_code(code: Seq<char>, message: Seq<char>) -> Option<LlmErrorView> {
    if code == "insufficient_quota"@ {
        Some(LlmErrorView::QuotaExceeded { message })
    } else if code == "context_length_exceeded"@ {
        Some(overflow_view(message))
    } else if code == "invalid_api_key"@ || code == "invalid_authentication"@ {
        Some(LlmErrorView::Authentication { message })
    } else if code == "model_not_found"@ {
        Some(LlmErrorView::ModelUnavailable { message })
    } else {
        None
    }
}

/// Whether a refusal of the request's size is about tokens.
pub open spec fn about_window(message: Seq<char>) -> bool {
    text::contains(text::lower(message), "context window"@)
}

/// The error that the status names. A 413 about the context window is a token
/// overflow; any other is an oversized body, which compaction cannot shrink.
pub open spec fn error_of_status(
    status: u16,
    window: bool,
    message: Seq<char>,
    retry_after: Option<u64>,
) -> LlmErrorView {
    if status == 401 {
        LlmErrorView::Authentication { message }
    } else if status == 403 {
        LlmErrorView::PermissionDenied { message }
    } else if status == 404 {
        LlmErrorView::ModelUnavailable { message }
    } else if status == 413 && window {
        overflow_view(message)
    } else if status == 413 {
        LlmErrorView::RequestTooLarge { message }
    } else if status == 429 {
        LlmErrorView::RateLimited { message, retry_after }
    } else if status == 400 || status == 422 {
        LlmErrorView::InvalidRequest { message }
    } else if status == 529 {
        LlmErrorView::Overloaded { message }
    } else {
        LlmErrorView::ProviderInternal { message }
    }
}

/// The error of a response: the provider's code is more precise than the status,
/// so it wins.
pub open spec fn classified(status: u16, body: JsonView, retry_after: Option<u64>) -> LlmErrorView {
    let said = error_message(body);
    let message = displayed(status, body, said);
    match error_of_code(error_code(body), message) {
        Some(error) => error,
        None => error_of_status(status, about_window(said), message, retry_after),
    }
}

fn by_code(code: &str, message: String) -> (result: Result<LlmError, String>)
    ensures
        match error_of_code(code@, message@) {
            Some(error) => result matches Ok(found) && found@ == error,
            None => result matches Err(back) && back@ == message@,
        },
{
    if text::same(code, "insufficient_quota") {
        Ok(LlmError::QuotaExceeded { message })
    } else if text::same(code, "context_length_exceeded") {
        Ok(LlmError::ContextOverflow { message, limit: None, actual: None })
    } else if text::same(code, "invalid_api_key") || text::same(code, "invalid_authentication") {
        Ok(LlmError::Authentication { message })
    } else if text::same(code, "model_not_found") {
        Ok(LlmError::ModelUnavailable { message })
    } else {
        Err(message)
    }
}

pub fn by_status(status: u16, window: bool, message: String, retry_after: Option<u64>) -> (error:
    LlmError)
    ensures
        error@ == error_of_status(status, window, message@, retry_after),
{
    if status == 401 {
        LlmError::Authentication { message }
    } else if status == 403 {
        LlmError::PermissionDenied { message }
    } else if status == 404 {
        LlmError::ModelUnavailable { message }
    } else if status == 413 && window {
        LlmError::ContextOverflow { message, limit: None, actual: None }
    } else if status == 413 {
        LlmError::RequestTooLarge { message }
    } else if status == 429 {
        LlmError::RateLimited { message, retry_after }
    } else if status == 400 || status == 422 {
        LlmError::InvalidRequest { message }
    } else if status == 529 {
        LlmError::Overloaded { message }
    } else {
        LlmError::ProviderInternal { message }
    }
}

/// Maps a response without success onto the error taxonomy. `retry_after` is in
/// seconds.
pub fn classify_error(status: u16, body: &Json, retry_after: Option<u64>) -> (error: LlmError)
    ensures
        error@ == classified(status, body@, retry_after),
{
    let found = json::get_in(Some(body), "error");
    let said = match json::owned_text_in(json::get_in(found, "message")) {
        Some(said) => said,
        None => String::new(),
    };
    let code = match json::text_in(json::get_in(found, "code")) {
        Some(code) => code,
        None => match json::text_in(json::get_in(found, "type")) {
            Some(kind) => kind,
            None => "",
        },
    };
    proof {
        reveal_strlit("");
        assert(""@ =~= Seq::<char>::empty());
        assert(said@ =~= error_message(body@));
        assert(code@ =~= error_code(body@));
    }
    let message = display(status, body, &said);
    match by_code(code, message) {
        Ok(error) => error,
        Err(message) => by_status(
            status,
            text::has_part(&text::to_lower(&said), "context window"),
            message,
            retry_after,
        ),
    }
}

/// The seconds of a `Retry-After` header. A date is of no use to a backoff.
pub open spec fn retry_after_of(response: HttpResponse) -> Option<u64> {
    match transport::header_in(response.headers.deep_view(), "retry-after"@, 0) {
        Some(value) => match text::u64_value(text::trimmed(value)) {
            Some(seconds) => Some(seconds as u64),
            None => None,
        },
        None => None,
    }
}

pub fn retry_after(response: &HttpResponse) -> (result: Option<u64>)
    ensures
        result == retry_after_of(*response),
{
    match response.header("retry-after") {
        Some(value) => text::parse_u64(&text::trim(value)),
        None => None,
    }
}

pub open spec fn stop_of(finish: Option<Seq<char>>) -> StopReasonView {
    match finish {
        None => StopReasonView::EndTurn,
        Some(reason) => if reason == "stop"@ {
            StopReasonView::EndTurn
        } else if reason == "tool_calls"@ || reason == "function_call"@ {
            StopReasonView::ToolUse
        } else if reason == "length"@ {
            StopReasonView::MaxTokens
        } else if reason == "content_filter"@ {
            StopReasonView::Refusal
        } else {
            StopReasonView::Other(reason)
        },
    }
}

pub fn stop_reason(finish: Option<&str>) -> (reason: StopReason)
    ensures
        reason@ == stop_of(finish.deep_view()),
{
    match finish {
        None => StopReason::EndTurn,
        Some(reason) => if text::same(reason, "stop") {
            StopReason::EndTurn
        } else if text::same(reason, "tool_calls") || text::same(reason, "function_call") {
            StopReason::ToolUse
        } else if text::same(reason, "length") {
            StopReason::MaxTokens
        } else if text::same(reason, "content_filter") {
            StopReason::Refusal
        } else {
            StopReason::Other(reason.to_owned())
        },
    }
}

/// A difference that stops at zero.
pub open spec fn less(a: u64, b: u64) -> u64 {
    if b > a {
        0
    } else {
        (a - b) as u64
    }
}

/// A sum that stops at the largest value.
pub open spec fn plus(a: u64, b: u64) -> u64 {
    if a + b > u64::MAX {
        u64::MAX
    } else {
        (a + b) as u64
    }
}

/// A count in a group of a usage object.
pub open spec fn detail_of(usage: JsonView, group: Seq<char>, key: Seq<char>) -> u64 {
    json::count_in(json::member2(usage, group, key))
}

pub fn detail(usage: &Json, group: &str, key: &str) -> (n: u64)
    ensures
        n == detail_of(usage@, group@, key@),
{
    json::count(usage.get2(group, key))
}

/// The buckets of a usage object. This wire counts cached tokens into
/// `prompt_tokens`, so they are taken out again. Reasoning tokens are a part of
/// the output, unless the endpoint counts them apart, and are then added to it.
pub open spec fn usage_of(usage: JsonView, separate: bool) -> UsageView {
    let read = detail_of(usage, "prompt_tokens_details"@, "cached_tokens"@);
    let write = detail_of(usage, "prompt_tokens_details"@, "cache_write_tokens"@);
    let reasoning = detail_of(usage, "completion_tokens_details"@, "reasoning_tokens"@);
    let completion = json::count_in(json::member(usage, "completion_tokens"@));
    UsageView {
        input_tokens: less(less(json::count_in(json::member(usage, "prompt_tokens"@)), read), write),
        output_tokens: if separate {
            plus(completion, reasoning)
        } else {
            completion
        },
        cache_read_tokens: read,
        cache_write_tokens: write,
        cache_write_1h_tokens: 0,
        reasoning_tokens: reasoning,
        cost: file_search_decode::number_in(json::member(usage, "cost"@)),
        server_tool_usage: None,
    }
}

pub fn usage(raw: &Json, separate: bool) -> (result: Usage)
    ensures
        result@ == usage_of(raw@, separate),
{
    let read = detail(raw, "prompt_tokens_details", "cached_tokens");
    let write = detail(raw, "prompt_tokens_details", "cache_write_tokens");
    let reasoning = detail(raw, "completion_tokens_details", "reasoning_tokens");
    let completion = json::count(raw.get("completion_tokens"));
    Usage {
        input_tokens: json::count(raw.get("prompt_tokens")).saturating_sub(read).saturating_sub(
            write,
        ),
        output_tokens: if separate {
            completion.saturating_add(reasoning)
        } else {
            completion
        },
        cache_read_tokens: read,
        cache_write_tokens: write,
        cache_write_1h_tokens: 0,
        reasoning_tokens: reasoning,
        cost: file_search_decode::number(raw.get("cost")),
        server_tool_usage: None,
    }
}

/// Whether the counts agree with each other: a bucket that stopped at zero is no
/// measurement.
pub open spec fn consistent(usage: JsonView) -> bool {
    usage is Object && detail_of(usage, "prompt_tokens_details"@, "cached_tokens"@) + detail_of(
        usage,
        "prompt_tokens_details"@,
        "cache_write_tokens"@,
    ) <= json::count_in(json::member(usage, "prompt_tokens"@))
}

pub fn is_consistent(usage: &Json) -> (result: bool)
    ensures
        result == consistent(usage@),
{
    let read = detail(usage, "prompt_tokens_details", "cached_tokens");
    let write = detail(usage, "prompt_tokens_details", "cache_write_tokens");
    let prompt = json::count(usage.get("prompt_tokens"));
    matches!(usage, Json::Object(_)) && read <= prompt && write <= prompt - read
}

/// The report that a usage object makes.
pub open spec fn report_of(usage: Option<JsonView>, separate: bool) -> UsageReportView {
    match usage {
        Some(raw) => UsageReportView {
            reported: Some(usage_of(raw, separate)),
            complete: consistent(raw),
        },
        None => UsageReportView { reported: None, complete: false },
    }
}

pub fn report(raw: Option<&Json>, separate: bool) -> (result: UsageReport)
    ensures
        result@ == report_of(raw.deep_view(), separate),
{
    match raw {
        Some(raw) => UsageReport {
            reported: Some(usage(raw, separate)),
            complete: is_consistent(raw),
        },
        None => UsageReport { reported: None, complete: false },
    }
}

/// What a body says of its usage, if it says anything.
pub open spec fn usage_in(body: JsonView) -> Option<JsonView> {
    json::member(body, "usage"@)
}

pub fn find_usage<'a>(body: &'a Json) -> (result: Option<&'a Json>)
    ensures
        result.deep_view() == usage_in(body@),
{
    body.get("usage")
}

/// Where reasoning tokens are counted beside the output, not within it.
pub open spec fn separate_reasoning_of(profile: ProviderProfile) -> bool {
    json::bool_at(profile.extra@, "reasoning_tokens_separate"@) == Some(true)
}

pub fn separate_reasoning(profile: &ProviderProfile) -> (result: bool)
    ensures
        result == separate_reasoning_of(*profile),
{
    match profile.extra.bool_at("reasoning_tokens_separate") {
        Some(separate) => separate,
        None => false,
    }
}

/// A tool call. The arguments are JSON in a string; what cannot be parsed is
/// null, for the tool's own validation to find.
pub open spec fn call_block(call: JsonView) -> ContentBlockView {
    let function = json::at(call, "function"@);
    ContentBlockView::ToolUse {
        id: json::text_or_empty(call, "id"@),
        name: json::text_or_empty(function, "name"@),
        input: json::text_value(
            match json::str_at(function, "arguments"@) {
                Some(arguments) => arguments,
                None => "{}"@,
            },
        ),
        provider_id: None,
        thought_signature: None,
    }
}

fn decode_call(call: &Json) -> (block: ContentBlock)
    ensures
        block.deep_view() == call_block(call@),
{
    let none = Json::Null;
    let function = match call.get("function") {
        Some(function) => function,
        None => &none,
    };
    let arguments = match function.str_at("arguments") {
        Some(arguments) => arguments,
        None => "{}",
    };
    ContentBlock::ToolUse {
        id: json::text_at(call, "id"),
        name: json::text_at(function, "name"),
        input: json::value_of_text(arguments),
        provider_id: None,
        thought_signature: None,
    }
}

pub open spec fn call_blocks(
    calls: Seq<JsonView>,
    i: int,
    before: Seq<ContentBlockView>,
) -> Seq<ContentBlockView>
    decreases calls.len() - i,
{
    if i < 0 || i >= calls.len() {
        before
    } else {
        call_blocks(calls, i + 1, before.push(call_block(calls[i])))
    }
}

/// The text of a message, unless it is empty.
pub open spec fn text_blocks(message: JsonView) -> Seq<ContentBlockView> {
    match json::str_at(message, "content"@) {
        Some(text) => if text.len() == 0 {
            Seq::empty()
        } else {
            seq![ContentBlockView::Text { text, thought_signature: None }]
        },
        None => Seq::empty(),
    }
}

/// The blocks of a message: its text, then its calls.
pub open spec fn message_blocks(message: JsonView) -> Seq<ContentBlockView> {
    call_blocks(
        json::items_in(json::member(message, "tool_calls"@)),
        0,
        text_blocks(message),
    )
}

fn decode_message(message: &Json) -> (content: Vec<ContentBlock>)
    ensures
        content.deep_view() == message_blocks(message@),
{
    let mut content: Vec<ContentBlock> = Vec::new();
    if let Some(text) = message.str_at("content") {
        if !text::is_empty(text) {
            content.push(ContentBlock::Text { text: text.to_owned(), thought_signature: None });
        }
    }
    assert(content.deep_view() =~= text_blocks(message@));
    if let Some(calls) = web_search_decode::items_of(message.get("tool_calls")) {
        let mut i: usize = 0;
        while i < calls.len()
            invariant
                i <= calls.len(),
                call_blocks(calls.deep_view(), 0, text_blocks(message@)) == call_blocks(
                    calls.deep_view(),
                    i as int,
                    content.deep_view(),
                ),
            decreases calls.len() - i,
        {
            assert(calls.deep_view()[i as int] == calls@[i as int]@);
            content.push(decode_call(&calls[i]));
            i = i + 1;
        }
    }
    content
}

/// The first choice of a body.
pub open spec fn first_choice(body: JsonView) -> Option<JsonView> {
    let choices = json::items_in(json::member(body, "choices"@));
    if choices.len() == 0 {
        None
    } else {
        Some(choices[0])
    }
}

pub fn find_choice<'a>(body: &'a Json) -> (result: Option<&'a Json>)
    ensures
        result.deep_view() == first_choice(body@),
{
    match web_search_decode::items_of(body.get("choices")) {
        Some(choices) => if choices.len() == 0 {
            None
        } else {
            assert(choices.deep_view()[0] == choices@[0]@);
            Some(&choices[0])
        },
        None => None,
    }
}

/// The turn of a response.
pub open spec fn decoded(response: HttpResponse, profile: ProviderProfile) -> Result<
    CompletionResponseView,
    LlmErrorView,
> {
    let body = json::bytes_value(response.body@);
    if !transport::is_success(response.status) {
        Err(classified(response.status, body, retry_after_of(response)))
    } else {
        match first_choice(body) {
            None => Err(error::invalid_view("OpenAI response has no choices"@)),
            Some(choice) => Ok(
                CompletionResponseView {
                    content: message_blocks(json::at(choice, "message"@)),
                    stop_reason: stop_of(json::str_at(choice, "finish_reason"@)),
                    usage: report_of(usage_in(body), separate_reasoning_of(profile)),
                    model: json::text_or_empty(body, "model"@),
                    response_id: None,
                    web_search: None,
                    file_search: None,
                    inference: inference::response_report(
                        response.headers.deep_view(),
                        Some(body),
                        profile,
                    ),
                },
            ),
        }
    }
}

pub fn response(resp: &HttpResponse, profile: &ProviderProfile) -> (result: Result<
    CompletionResponse,
    LlmError,
>)
    ensures
        views::res(result) == decoded(*resp, *profile),
{
    let body = json::value_of_bytes(resp.body.as_slice());
    if !(200 <= resp.status && resp.status < 300) {
        return Err(classify_error(resp.status, &body, retry_after(resp)));
    }
    let choice = match find_choice(&body) {
        Some(choice) => choice,
        None => return Err(error::invalid("OpenAI response has no choices")),
    };
    let none = Json::Null;
    let message = match choice.get("message") {
        Some(message) => message,
        None => &none,
    };
    Ok(
        CompletionResponse {
            content: decode_message(message),
            stop_reason: stop_reason(choice.str_at("finish_reason")),
            usage: report(find_usage(&body), separate_reasoning(profile)),
            model: json::text_at(&body, "model"),
            response_id: None,
            web_search: None,
            file_search: None,
            inference: inference::response(&resp.headers, Some(&body), profile),
        },
    )
}

/// An overflow that the provider names, or a refused size that speaks of the
/// context window under no other known code, is a `ContextOverflow`.
pub proof fn an_overflow_is_classified(status: u16, body: JsonView, retry_after: Option<u64>)
    requires
        error_code(body) == "context_length_exceeded"@ || (status == 413 && about_window(
            error_message(body),
        ) && error_of_code(error_code(body), Seq::empty()) is None),
    ensures
        classified(status, body, retry_after) is ContextOverflow,
{
    reveal_strlit("insufficient_quota");
    reveal_strlit("context_length_exceeded");
    assert("insufficient_quota"@.len() != "context_length_exceeded"@.len());
}

/// The buckets partition the prompt: where the counts agree, what was read from
/// the cache, what was written to it and the rest make up all of it.
pub proof fn the_buckets_partition_the_prompt(usage: JsonView, separate: bool)
    requires
        consistent(usage),
    ensures
        ({
            let u = usage_of(usage, separate);
            u.input_tokens + u.cache_read_tokens + u.cache_write_tokens == json::count_in(
                json::member(usage, "prompt_tokens"@),
            )
        }),
{
}

} // verus!
