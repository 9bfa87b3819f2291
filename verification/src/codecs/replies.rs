//! What is counted of a reply, what is made of one that is refused, and what a tool is
//! told beside its schema.

use crate::codecs::openai::{chat, responses};
use crate::codecs::request_controls;
use crate::codecs::stream::{self, FrameView};
use crate::json::{self, Entries, JsonView};
use crate::protocol::{ContentBlockView, LlmErrorView, ProviderProfile, ToolSpec};
use crate::text;
use crate::transport::{self, HttpResponse};
use vstd::prelude::*;

verus! {

broadcast use {crate::views::group_views, crate::json::group_json};

/// The tokens of a Chat reply are counted once: what was read from the cache and written
/// to it is taken out of the input that it was counted in, and reasoning that is counted
/// apart is a part of the output. What it cost is what it says.
pub proof fn a_chat_reply_counts_every_token_once(usage: JsonView, separate: bool)
    ensures
        ({
            let found = chat::decode::usage_of(usage, separate);
            let all = json::u64_at(usage, "prompt_tokens"@);
            let said = json::u64_at(usage, "completion_tokens"@);
            let read = json::u64_at(json::at(usage, "prompt_tokens_details"@), "cached_tokens"@);
            let thought = json::u64_at(
                json::at(usage, "completion_tokens_details"@),
                "reasoning_tokens"@,
            );
            &&& read matches Some(n) ==> found.cache_read_tokens == n
            &&& thought matches Some(n) ==> found.reasoning_tokens == n
            &&& all matches Some(n) ==> (found.cache_read_tokens + found.cache_write_tokens <= n
                ==> found.input_tokens + found.cache_read_tokens + found.cache_write_tokens == n)
            &&& said matches Some(n) ==> (!separate ==> found.output_tokens == n) && (separate && n
                + found.reasoning_tokens <= u64::MAX ==> found.output_tokens == n
                + found.reasoning_tokens)
            &&& json::member(usage, "cost"@) matches Some(JsonView::Number(cost)) ==> found.cost
                == Some(cost)
        }),
{
}

/// Reasoning is counted apart where, and only where, the profile says so.
pub proof fn a_profile_says_how_reasoning_is_counted(profile: ProviderProfile)
    ensures
        chat::decode::separate_reasoning_of(profile) <==> json::bool_at(
            profile.extra@,
            "reasoning_tokens_separate"@,
        ) == Some(true),
{
}

/// The tokens of a Responses reply are counted once, and the uses of its tools are told.
pub proof fn a_responses_reply_counts_every_token_once(usage: JsonView)
    ensures
        ({
            let found = responses::decode::usage_of(usage);
            let all = json::u64_at(usage, "input_tokens"@);
            let read = json::u64_at(json::at(usage, "input_tokens_details"@), "cached_tokens"@);
            let thought = json::u64_at(
                json::at(usage, "output_tokens_details"@),
                "reasoning_tokens"@,
            );
            let web = json::u64_at(json::at(json::at(usage, "x_tools"@), "web_search"@), "count"@);
            let files = json::u64_at(
                json::at(json::at(usage, "x_tools"@), "file_search"@),
                "count"@,
            );
            &&& read matches Some(n) ==> found.cache_read_tokens == n
            &&& thought matches Some(n) ==> found.reasoning_tokens == n
            &&& all matches Some(n) ==> (found.cache_read_tokens + found.cache_write_tokens <= n
                ==> found.input_tokens + found.cache_read_tokens + found.cache_write_tokens == n)
            &&& json::u64_at(usage, "output_tokens"@) matches Some(n) ==> found.output_tokens == n
            &&& web matches Some(n) ==> (found.server_tool_usage matches Some(used)
                && used.web_search_requests == Some(n))
            &&& files matches Some(n) ==> (found.server_tool_usage matches Some(used)
                && used.file_search_requests == Some(n))
        }),
{
}

/// A provider that asks for a pause is given the one it asks for, in seconds.
pub proof fn a_pause_is_the_one_that_is_asked_for(response: HttpResponse)
    ensures
        ({
            let asked = transport::header_in(response.headers.deep_view(), "retry-after"@, 0);
            &&& asked is None ==> chat::decode::retry_after_of(response) is None
            &&& asked matches Some(value) ==> (text::u64_value(text::trimmed(value)) matches Some(
                seconds,
            ) ==> chat::decode::retry_after_of(response) == Some(seconds as u64))
            &&& response.status == 429 && chat::decode::error_of_code(
                chat::decode::error_code(json::bytes_value(response.body@)),
                Seq::empty(),
            ) is None ==> (chat::decode::classified(
                response.status,
                json::bytes_value(response.body@),
                chat::decode::retry_after_of(response),
            ) matches LlmErrorView::RateLimited { retry_after, .. } && retry_after
                == chat::decode::retry_after_of(response))
        }),
{
}

/// A call that names no arguments is a call with none.
pub proof fn a_call_without_arguments_has_none(call: JsonView, item: JsonView)
    ensures
        json::str_at(json::at(call, "function"@), "arguments"@) is None ==> (
        chat::decode::call_block(call) matches ContentBlockView::ToolUse { input, .. } && input
            == json::text_value("{}"@)),
        json::str_at(item, "arguments"@) is None ==> (responses::decode::call_block(
            item,
        ) matches ContentBlockView::ToolUse { input, .. } && input == json::text_value("{}"@)),
{
}

/// A Responses reply that failed is an error, whatever its status on the wire.
pub proof fn a_failed_response_is_an_error(response: HttpResponse, profile: ProviderProfile)
    ensures
        json::str_at(json::bytes_value(response.body@), "status"@) == Some("failed"@)
            ==> responses::decode::decoded(response, profile) is Err,
        !(200 <= response.status < 300) ==> responses::decode::decoded(response, profile) is Err,
{
}

/// A frame is the end of the stream where it says so, and else the JSON that it holds.
pub proof fn a_frame_is_what_it_holds(frame: Seq<u8>, no_utf8: Seq<char>, no_json: Seq<char>)
    ensures
        text::utf8_text(frame) matches Some(data) ==> {
            let said = text::trimmed(data);
            let read = stream::framed(frame, no_utf8, no_json);
            &&& said == "[DONE]"@ <==> read == Ok::<FrameView, LlmErrorView>(FrameView::Sentinel)
            &&& said != "[DONE]"@ && said.len() > 0 ==> (json::parsed(
                vstd::utf8::encode_utf8(said),
            ) matches Ok(root) ==> read == Ok::<FrameView, LlmErrorView>(FrameView::Root(root)))
        },
{
    reveal_strlit("[DONE]");
}

proof fn lemma_missing(value: Entries, extra: Entries, i: int, key: Seq<char>)
    requires
        0 <= i,
        json::entry(value, key) is Some,
    ensures
        json::entry(request_controls::put_missing(value, extra, i), key) == json::entry(value, key),
    decreases extra.len() - i,
{
    broadcast use json::entry_after_put;

    if i < extra.len() {
        if json::entry(value, extra[i].0) is Some {
            lemma_missing(value, extra, i + 1, key);
        } else {
            lemma_missing(json::put(value, extra[i].0, extra[i].1), extra, i + 1, key);
        }
    }
}

/// A tool is told to be of its own kind and to be loaded late where it is, and what else is
/// said of it never takes the place of what it already says.
#[verifier::spinoff_prover]
pub proof fn a_tool_is_of_its_own_kind(tool: ToolSpec, value: Entries, key: Seq<char>)
    ensures
        ({
            let after = request_controls::extended(tool, value);
            &&& tool.tool_type matches Some(kind) ==> json::entry(after, "type"@) == Some(
                JsonView::Str(kind@),
            )
            &&& tool.defer_loading matches Some(late) ==> json::entry(after, "defer_loading"@)
                == Some(JsonView::Bool(late))
            &&& tool.tool_type is None && tool.defer_loading is None && json::entry(value, key) is Some
                ==> json::entry(after, key) == json::entry(value, key)
        }),
{
    broadcast use json::entry_after_put;

    lemma_names();
    let none = Seq::<(Seq<char>, JsonView)>::empty();
    let extra = match json::entries_of(tool.extra@) {
        Some(extra) => extra,
        None => none,
    };
    let typed = match tool.tool_type {
        Some(kind) => {
            let typed = json::put(value, "type"@, JsonView::Str(kind@));
            json::without_keeps_other_keys(typed, "input_schema"@, "type"@);
            let bare = json::without(typed, "input_schema"@);
            json::without_keeps_other_keys(bare, "parameters"@, "type"@);
            if kind@ != "function"@ && !"custom"@.is_prefix_of(kind@) {
                json::without(bare, "parameters"@)
            } else {
                typed
            }
        },
        None => value,
    };
    let deferred = match tool.defer_loading {
        Some(defer) => json::put(typed, "defer_loading"@, JsonView::Bool(defer)),
        None => typed,
    };
    if tool.tool_type is Some {
        lemma_missing(deferred, extra, 0, "type"@);
    }
    if tool.defer_loading is Some {
        lemma_missing(deferred, extra, 0, "defer_loading"@);
    }
    if json::entry(deferred, key) is Some {
        lemma_missing(deferred, extra, 0, key);
    }
}

/// The names on the wire, told apart.
#[verifier::spinoff_prover]
proof fn lemma_names()
    ensures
        "{}"@.len() == 2,
        "cost"@.len() == 4,
        "type"@.len() == 4,
        "cost"@[0] == 'c',
        "type"@[0] == 't',
        "count"@.len() == 5,
        "[DONE]"@.len() == 6,
        "custom"@.len() == 6,
        "failed"@.len() == 6,
        "status"@.len() == 6,
        "[DONE]"@[0] == '[',
        "custom"@[0] == 'c',
        "failed"@[0] == 'f',
        "status"@[0] == 's',
        "x_tools"@.len() == 7,
        "function"@.len() == 8,
        "arguments"@.len() == 9,
        "parameters"@.len() == 10,
        "web_search"@.len() == 10,
        "parameters"@[0] == 'p',
        "web_search"@[0] == 'w',
        "file_search"@.len() == 11,
        "retry-after"@.len() == 11,
        "file_search"@[0] == 'f',
        "retry-after"@[0] == 'r',
        "input_schema"@.len() == 12,
        "input_tokens"@.len() == 12,
        "input_schema"@[6] == 's',
        "input_tokens"@[6] == 't',
        "cached_tokens"@.len() == 13,
        "defer_loading"@.len() == 13,
        "output_tokens"@.len() == 13,
        "prompt_tokens"@.len() == 13,
        "cached_tokens"@[0] == 'c',
        "defer_loading"@[0] == 'd',
        "output_tokens"@[0] == 'o',
        "prompt_tokens"@[0] == 'p',
        "reasoning_tokens"@.len() == 16,
        "completion_tokens"@.len() == 17,
        "input_tokens_details"@.len() == 20,
        "output_tokens_details"@.len() == 21,
        "prompt_tokens_details"@.len() == 21,
        "output_tokens_details"@[0] == 'o',
        "prompt_tokens_details"@[0] == 'p',
        "completion_tokens_details"@.len() == 25,
        "reasoning_tokens_separate"@.len() == 25,
        "completion_tokens_details"@[0] == 'c',
        "reasoning_tokens_separate"@[0] == 'r',
{
    reveal_strlit("[DONE]");
    reveal_strlit("arguments");
    reveal_strlit("cached_tokens");
    reveal_strlit("completion_tokens");
    reveal_strlit("completion_tokens_details");
    reveal_strlit("cost");
    reveal_strlit("count");
    reveal_strlit("custom");
    reveal_strlit("defer_loading");
    reveal_strlit("failed");
    reveal_strlit("file_search");
    reveal_strlit("function");
    reveal_strlit("input_schema");
    reveal_strlit("input_tokens");
    reveal_strlit("input_tokens_details");
    reveal_strlit("output_tokens");
    reveal_strlit("output_tokens_details");
    reveal_strlit("parameters");
    reveal_strlit("prompt_tokens");
    reveal_strlit("prompt_tokens_details");
    reveal_strlit("reasoning_tokens");
    reveal_strlit("reasoning_tokens_separate");
    reveal_strlit("retry-after");
    reveal_strlit("status");
    reveal_strlit("type");
    reveal_strlit("web_search");
    reveal_strlit("x_tools");
    reveal_strlit("{}");
}

} // verus!
