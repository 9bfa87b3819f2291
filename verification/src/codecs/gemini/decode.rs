//! Response and error decoding for `generateContent`.

use crate::codecs::inference;
use crate::codecs::openai::chat;
use crate::codecs::web_search_decode;
use crate::json::{self, Json, JsonView};
use crate::protocol::error;
use crate::protocol::{
    CompletionResponse, CompletionResponseView, ContentBlock, ContentBlockView, LlmError,
    LlmErrorView, ProviderProfile, StopReason, StopReasonView, Usage, UsageReport,
    UsageReportView, UsageView,
};
use crate::sorted;
use crate::text;
use crate::transport::{self, HttpResponse};
use crate::views;
use vstd::prelude::*;

verus! {

broadcast use {crate::views::group_views, crate::json::group_json};

/// The id of a call: the provider's, where it gives one, or else the function's
/// name, which is then the only stable handle.
pub open spec fn id_of(call: JsonView) -> Seq<char> {
    match json::str_at(call, "id"@) {
        Some(id) => id,
        None => json::text_or_empty(call, "name"@),
    }
}

/// The id of a call, and the provider's own.
fn own_id(call: &Json) -> (result: (String, Option<String>))
    ensures
        result.0@ == id_of(call@),
        result.1.deep_view() == json::str_at(call@, "id"@),
{
    match json::owned_text_in(call.get("id")) {
        Some(id) => (id.clone(), Some(id)),
        None => (json::text_at(call, "name"), None),
    }
}

/// The ids with those that the provider gives to the calls among the parts, from
/// the `i`th on.
pub open spec fn given_ids(parts: Seq<JsonView>, i: int, used: Seq<Seq<char>>) -> Seq<Seq<char>>
    decreases parts.len() - i,
{
    if i < 0 || i >= parts.len() {
        used
    } else {
        match json::str_in(json::member2(parts[i], "functionCall"@, "id"@)) {
            Some(id) => given_ids(parts, i + 1, used.push(id)),
            None => given_ids(parts, i + 1, used),
        }
    }
}

/// Adds the ids that the provider gives to the calls among the parts.
pub fn provider_call_ids(parts: &Vec<Json>, used: &mut Vec<String>)
    ensures
        final(used).deep_view() == given_ids(parts.deep_view(), 0, old(used).deep_view()),
{
    let mut i: usize = 0;
    while i < parts.len()
        invariant
            i <= parts.len(),
            given_ids(parts.deep_view(), 0, old(used).deep_view()) == given_ids(
                parts.deep_view(),
                i as int,
                used.deep_view(),
            ),
        decreases parts.len() - i,
    {
        assert(parts.deep_view()[i as int] == parts@[i as int]@);
        if let Some(id) = json::owned_text_in(parts[i].get2("functionCall", "id")) {
            used.push(id);
        }
        i = i + 1;
    }
}

/// The function's name, or one of the ids that are made of it.
pub open spec fn numbered(name: Seq<char>, n: int) -> Seq<char> {
    if n == 0 {
        name
    } else {
        name + ":"@ + text::decimal_text(n as nat)
    }
}

/// The first id of the name, from the `n`th on, that is not used.
pub open spec fn free_id(used: Seq<Seq<char>>, name: Seq<char>, n: int) -> Seq<char>
    decreases used.len() - n,
{
    if n < 0 || n >= used.len() || !used.contains(numbered(name, n)) {
        numbered(name, n)
    } else {
        free_id(used, name, n + 1)
    }
}

fn make_id(used: &Vec<String>, name: &str) -> (id: String)
    ensures
        id@ == free_id(used.deep_view(), name@, 0),
{
    if used.len() == 0 || !sorted::holds(used, name) {
        return name.to_owned();
    }
    let mut n: usize = 1;
    loop
        invariant
            1 <= n <= used.len(),
            free_id(used.deep_view(), name@, 0) == free_id(used.deep_view(), name@, n as int),
        decreases used.len() - n,
    {
        let id = text::cat3(name, ":", &text::decimal(n as u64));
        if n >= used.len() || !sorted::holds(used, &id) {
            return id;
        }
        n = n + 1;
    }
}

/// The id of a call and the ids that are used from then on. An id that the provider
/// gives is kept. Any other is made of the function's name, and is one that was not
/// used before.
pub open spec fn identified(call: JsonView, used: Seq<Seq<char>>) -> (Seq<char>, Seq<Seq<char>>) {
    match json::str_at(call, "id"@) {
        Some(id) => (id, used),
        None => {
            let id = free_id(used, json::text_or_empty(call, "name"@), 0);
            (id, used.push(id))
        },
    }
}

/// The id of a call, and the provider's own. An id that is made is used from then
/// on.
pub fn call_id(call: &Json, used: &mut Vec<String>) -> (result: (String, Option<String>))
    ensures
        (result.0@, final(used).deep_view()) == identified(call@, old(used).deep_view()),
        result.1.deep_view() == json::str_at(call@, "id"@),
{
    match json::owned_text_in(call.get("id")) {
        Some(id) => (id.clone(), Some(id)),
        None => {
            let name = json::text_at(call, "name");
            let id = make_id(used, &name);
            used.push(id.clone());
            (id, None)
        },
    }
}

proof fn lemma_numbered_differ(name: Seq<char>, a: int, b: int)
    requires
        0 <= a < b,
    ensures
        numbered(name, a) != numbered(name, b),
{
    let front = name + ":"@;
    reveal_strlit(":");
    assert(numbered(name, b).skip(front.len() as int) =~= text::decimal_text(b as nat));
    if a == 0 {
        assert(numbered(name, b).len() > name.len());
    } else {
        assert(numbered(name, a).skip(front.len() as int) =~= text::decimal_text(a as nat));
        text::decimal_texts_differ(a as nat, b as nat);
    }
}

proof fn lemma_free_id(used: Seq<Seq<char>>, name: Seq<char>, n: int)
    requires
        0 <= n <= used.len(),
        forall|k: int| 0 <= k < n ==> used.contains(#[trigger] numbered(name, k)),
    ensures
        !used.contains(free_id(used, name, n)),
    decreases used.len() - n,
{
    if used.contains(numbered(name, n)) {
        if n < used.len() {
            lemma_free_id(used, name, n + 1);
        } else {
            // One place for each of more ids than there are places.
            let places = Seq::new((n + 1) as nat, |k: int| used.index_of(numbered(name, k)));
            assert forall|k: int| 0 <= k < places.len() implies 0 <= #[trigger] places[k]
                < used.len() && used[places[k]] == numbered(name, k) by {
                assert(used.contains(numbered(name, k)));
            }
            assert forall|a: int, b: int|
                0 <= a < b < places.len() implies places[a] != places[b] by {
                lemma_numbered_differ(name, a, b);
            }
            assert(places.no_duplicates());
            places.unique_seq_to_set();
            let all = vstd::set_lib::set_int_range(0, used.len() as int);
            vstd::set_lib::lemma_int_range(0, used.len() as int);
            assert(places.to_set().subset_of(all));
            vstd::set_lib::lemma_len_subset(places.to_set(), all);
        }
    }
}

/// A call to which the provider gives an id keeps it. Any other call gets an id that
/// was not used before, and that is used from then on.
pub proof fn a_call_has_an_id_of_its_own(call: JsonView, used: Seq<Seq<char>>)
    ensures
        json::str_at(call, "id"@) matches Some(id) ==> identified(call, used) == (id, used),
        json::str_at(call, "id"@) is None ==> {
            &&& !used.contains(identified(call, used).0)
            &&& identified(call, used).1 == used.push(identified(call, used).0)
        },
{
    lemma_free_id(used, json::text_or_empty(call, "name"@), 0);
}

/// What a part becomes.
pub open spec fn block_of(part: JsonView) -> Option<ContentBlockView> {
    let signature = json::str_at(part, "thoughtSignature"@);
    match json::member(part, "functionCall"@) {
        Some(call) => match json::str_at(call, "name"@) {
            Some(name) => Some(
                ContentBlockView::ToolUse {
                    id: id_of(call),
                    name,
                    input: json::at(call, "args"@),
                    provider_id: json::str_at(call, "id"@),
                    thought_signature: signature,
                },
            ),
            None => None,
        },
        None => match json::str_at(part, "text"@) {
            Some(text) => if json::bool_at(part, "thought"@) == Some(true) {
                Some(ContentBlockView::Thinking { text, signature })
            } else {
                Some(ContentBlockView::Text { text, thought_signature: signature })
            },
            None => None,
        },
    }
}

/// Decodes a part, and notes a call.
pub fn decode_part(part: &Json, saw_tool_call: &mut bool) -> (block: Option<ContentBlock>)
    ensures
        block.deep_view() == block_of(part@),
        *final(saw_tool_call) == (*old(saw_tool_call) || json::member(
            part@,
            "functionCall"@,
        ) is Some),
{
    let signature = json::owned_text_in(part.get("thoughtSignature"));
    if let Some(call) = part.get("functionCall") {
        *saw_tool_call = true;
        let name = match json::owned_text_in(call.get("name")) {
            Some(name) => name,
            None => return None,
        };
        let (id, provider_id) = own_id(call);
        return Some(
            ContentBlock::ToolUse {
                id,
                name,
                input: json::member_or_null(call, "args"),
                provider_id,
                thought_signature: signature,
            },
        );
    }
    let text = match json::owned_text_in(part.get("text")) {
        Some(text) => text,
        None => return None,
    };
    let thought = match part.bool_at("thought") {
        Some(thought) => thought,
        None => false,
    };
    if thought {
        Some(ContentBlock::Thinking { text, signature })
    } else {
        Some(ContentBlock::Text { text, thought_signature: signature })
    }
}

/// The blocks of the parts from the `i`th on, and whether one is a call.
pub open spec fn blocks_of(
    parts: Seq<JsonView>,
    i: int,
    before: Seq<ContentBlockView>,
    called: bool,
) -> (Seq<ContentBlockView>, bool)
    decreases parts.len() - i,
{
    if i < 0 || i >= parts.len() {
        (before, called)
    } else {
        blocks_of(
            parts,
            i + 1,
            match block_of(parts[i]) {
                Some(block) => before.push(block),
                None => before,
            },
            called || json::member(parts[i], "functionCall"@) is Some,
        )
    }
}

fn decode_parts(parts: &Vec<Json>) -> (result: (Vec<ContentBlock>, bool))
    ensures
        (result.0.deep_view(), result.1) == blocks_of(parts.deep_view(), 0, Seq::empty(), false),
{
    let mut content: Vec<ContentBlock> = Vec::new();
    let mut called = false;
    let mut i: usize = 0;
    while i < parts.len()
        invariant
            i <= parts.len(),
            blocks_of(parts.deep_view(), 0, Seq::empty(), false) == blocks_of(
                parts.deep_view(),
                i as int,
                content.deep_view(),
                called,
            ),
        decreases parts.len() - i,
    {
        assert(parts.deep_view()[i as int] == parts@[i as int]@);
        if let Some(block) = decode_part(&parts[i], &mut called) {
            content.push(block);
        }
        i = i + 1;
    }
    (content, called)
}

/// Whether an argument error says that the prompt is over the context window. Both
/// words are asked for, so that an unrelated error does not lead to compaction.
pub open spec fn overflows(message: Seq<char>) -> bool {
    text::contains(text::lower(message), "token"@) && text::contains(
        text::lower(message),
        "exceed"@,
    )
}

fn is_context_overflow(message: &str) -> (result: bool)
    ensures
        result == overflows(message@),
{
    let lower = text::to_lower(message);
    text::has_part(&lower, "token") && text::has_part(&lower, "exceed")
}

/// The error that the provider's own status names. A prompt over the context
/// window is an `INVALID_ARGUMENT` on this wire.
pub open spec fn error_of_google(
    google: Seq<char>,
    said: Seq<char>,
    message: Seq<char>,
    retry_after: Option<u64>,
) -> Option<LlmErrorView> {
    if google == "UNAUTHENTICATED"@ {
        Some(LlmErrorView::Authentication { message })
    } else if google == "PERMISSION_DENIED"@ {
        Some(LlmErrorView::PermissionDenied { message })
    } else if google == "NOT_FOUND"@ {
        Some(LlmErrorView::ModelUnavailable { message })
    } else if google == "RESOURCE_EXHAUSTED"@ {
        Some(LlmErrorView::RateLimited { message, retry_after })
    } else if google == "UNAVAILABLE"@ {
        Some(LlmErrorView::Overloaded { message })
    } else if google == "INTERNAL"@ {
        Some(LlmErrorView::ProviderInternal { message })
    } else if google == "INVALID_ARGUMENT"@ || google == "FAILED_PRECONDITION"@ {
        Some(
            if overflows(said) {
                chat::decode::overflow_view(message)
            } else {
                LlmErrorView::InvalidRequest { message }
            },
        )
    } else {
        None
    }
}

/// The error that the HTTP status names.
pub open spec fn error_of_status(status: u16, message: Seq<char>, retry_after: Option<u64>) -> LlmErrorView {
    if status == 401 {
        LlmErrorView::Authentication { message }
    } else if status == 403 {
        LlmErrorView::PermissionDenied { message }
    } else if status == 404 {
        LlmErrorView::ModelUnavailable { message }
    } else if status == 429 {
        LlmErrorView::RateLimited { message, retry_after }
    } else if status == 400 || status == 422 {
        LlmErrorView::InvalidRequest { message }
    } else if status == 503 {
        LlmErrorView::Overloaded { message }
    } else {
        LlmErrorView::ProviderInternal { message }
    }
}

/// The status that an error body gives.
pub open spec fn google_status(body: JsonView) -> Seq<char> {
    json::text_or_empty(json::at(body, "error"@), "status"@)
}

/// The error of a response: by the provider's status, or else by that of HTTP.
pub open spec fn classified(status: u16, body: JsonView, retry_after: Option<u64>) -> LlmErrorView {
    let said = chat::decode::error_message(body);
    let message = chat::decode::displayed(status, body, said);
    match error_of_google(google_status(body), said, message, retry_after) {
        Some(error) => error,
        None => error_of_status(status, message, retry_after),
    }
}

fn by_google(google: &str, said: &str, message: String, retry_after: Option<u64>) -> (result: Result<
    LlmError,
    String,
>)
    ensures
        match error_of_google(google@, said@, message@, retry_after) {
            Some(error) => result matches Ok(found) && found@ == error,
            None => result matches Err(back) && back@ == message@,
        },
{
    if text::same(google, "UNAUTHENTICATED") {
        Ok(LlmError::Authentication { message })
    } else if text::same(google, "PERMISSION_DENIED") {
        Ok(LlmError::PermissionDenied { message })
    } else if text::same(google, "NOT_FOUND") {
        Ok(LlmError::ModelUnavailable { message })
    } else if text::same(google, "RESOURCE_EXHAUSTED") {
        Ok(LlmError::RateLimited { message, retry_after })
    } else if text::same(google, "UNAVAILABLE") {
        Ok(LlmError::Overloaded { message })
    } else if text::same(google, "INTERNAL") {
        Ok(LlmError::ProviderInternal { message })
    } else if text::same(google, "INVALID_ARGUMENT") || text::same(google, "FAILED_PRECONDITION") {
        if is_context_overflow(said) {
            Ok(LlmError::ContextOverflow { message, limit: None, actual: None })
        } else {
            Ok(LlmError::InvalidRequest { message })
        }
    } else {
        Err(message)
    }
}

fn by_status(status: u16, message: String, retry_after: Option<u64>) -> (error: LlmError)
    ensures
        error@ == error_of_status(status, message@, retry_after),
{
    if status == 401 {
        LlmError::Authentication { message }
    } else if status == 403 {
        LlmError::PermissionDenied { message }
    } else if status == 404 {
        LlmError::ModelUnavailable { message }
    } else if status == 429 {
        LlmError::RateLimited { message, retry_after }
    } else if status == 400 || status == 422 {
        LlmError::InvalidRequest { message }
    } else if status == 503 {
        LlmError::Overloaded { message }
    } else {
        LlmError::ProviderInternal { message }
    }
}

/// Maps a response without success onto the error taxonomy. `retry_after` is in
/// seconds.
pub fn classify_error(status: u16, body: &Json, retry_after: Option<u64>) -> (error: LlmError)
    ensures
        error@ == classified(status, body@, retry_after),
{
    let none = Json::Null;
    let found = json::member_or(body, "error", &none);
    let said = json::text_at(found, "message");
    let google = json::text_at(found, "status");
    let message = chat::decode::display(status, body, &said);
    match by_google(&google, &said, message, retry_after) {
        Ok(error) => error,
        Err(message) => by_status(status, message, retry_after),
    }
}

pub open spec fn stop_of(reason: Option<Seq<char>>) -> StopReasonView {
    match reason {
        None => StopReasonView::EndTurn,
        Some(reason) => if reason == "STOP"@ {
            StopReasonView::EndTurn
        } else if reason == "MAX_TOKENS"@ {
            StopReasonView::MaxTokens
        } else if reason == "SAFETY"@ || reason == "RECITATION"@ || reason
            == "PROHIBITED_CONTENT"@ {
            StopReasonView::Refusal
        } else {
            StopReasonView::Other(reason)
        },
    }
}

pub fn stop_reason(reason: Option<&str>) -> (result: StopReason)
    ensures
        result@ == stop_of(reason.deep_view()),
{
    match reason {
        None => StopReason::EndTurn,
        Some(reason) => if text::same(reason, "STOP") {
            StopReason::EndTurn
        } else if text::same(reason, "MAX_TOKENS") {
            StopReason::MaxTokens
        } else if text::same(reason, "SAFETY") || text::same(reason, "RECITATION") || text::same(
            reason,
            "PROHIBITED_CONTENT",
        ) {
            StopReason::Refusal
        } else {
            StopReason::Other(reason.to_owned())
        },
    }
}

/// The buckets of a usage object. Cached tokens are counted into the prompt and
/// come out of it; thinking tokens are not counted into the candidates and are
/// added to reach the output.
pub open spec fn usage_of(usage: JsonView) -> UsageView {
    let cached = json::count_in(json::member(usage, "cachedContentTokenCount"@));
    let thoughts = json::count_in(json::member(usage, "thoughtsTokenCount"@));
    UsageView {
        input_tokens: chat::decode::less(
            json::count_in(json::member(usage, "promptTokenCount"@)),
            cached,
        ),
        output_tokens: chat::decode::plus(
            json::count_in(json::member(usage, "candidatesTokenCount"@)),
            thoughts,
        ),
        cache_read_tokens: cached,
        cache_write_tokens: 0,
        cache_write_1h_tokens: 0,
        reasoning_tokens: thoughts,
        cost: None,
        server_tool_usage: None,
    }
}

pub fn usage(raw: &Json) -> (result: Usage)
    ensures
        result@ == usage_of(raw@),
{
    let cached = json::count(raw.get("cachedContentTokenCount"));
    let thoughts = json::count(raw.get("thoughtsTokenCount"));
    Usage {
        input_tokens: json::count(raw.get("promptTokenCount")).saturating_sub(cached),
        output_tokens: json::count(raw.get("candidatesTokenCount")).saturating_add(thoughts),
        cache_read_tokens: cached,
        cache_write_tokens: 0,
        cache_write_1h_tokens: 0,
        reasoning_tokens: thoughts,
        cost: None,
        server_tool_usage: None,
    }
}

/// Whether the counts agree with each other.
pub open spec fn consistent(usage: JsonView) -> bool {
    usage is Object && json::count_in(json::member(usage, "cachedContentTokenCount"@)) <= json::count_in(
        json::member(usage, "promptTokenCount"@),
    )
}

/// The report that a usage object makes, once the turn is over or before.
pub open spec fn report_of(usage: Option<JsonView>, over: bool) -> UsageReportView {
    match usage {
        Some(raw) => UsageReportView {
            reported: Some(usage_of(raw)),
            complete: over && consistent(raw),
        },
        None => UsageReportView { reported: None, complete: false },
    }
}

pub fn report(raw: Option<&Json>, over: bool) -> (result: UsageReport)
    ensures
        result@ == report_of(raw.deep_view(), over),
{
    match raw {
        Some(raw) => UsageReport {
            reported: Some(usage(raw)),
            complete: over && matches!(raw, Json::Object(_)) && json::count(
                raw.get("cachedContentTokenCount"),
            ) <= json::count(raw.get("promptTokenCount")),
        },
        None => UsageReport { reported: None, complete: false },
    }
}

/// What a body says of its usage, if it says anything.
pub open spec fn usage_in(body: JsonView) -> Option<JsonView> {
    json::member(body, "usageMetadata"@)
}

pub fn find_usage<'a>(body: &'a Json) -> (result: Option<&'a Json>)
    ensures
        result.deep_view() == usage_in(body@),
{
    body.get("usageMetadata")
}

/// Whether the provider blocked the prompt.
pub open spec fn blocked(root: JsonView) -> bool {
    json::str_in(json::member2(root, "promptFeedback"@, "blockReason"@)) is Some
}

pub fn prompt_feedback_is_blocking(root: &Json) -> (result: bool)
    ensures
        result == blocked(root@),
{
    json::text_in(root.get2("promptFeedback", "blockReason")).is_some()
}

/// The first candidate of a body.
pub open spec fn first_candidate(body: JsonView) -> Option<JsonView> {
    let candidates = json::items_in(json::member(body, "candidates"@));
    if candidates.len() == 0 {
        None
    } else {
        Some(candidates[0])
    }
}

pub fn find_candidate<'a>(body: &'a Json) -> (result: Option<&'a Json>)
    ensures
        result.deep_view() == first_candidate(body@),
{
    match web_search_decode::items_of(body.get("candidates")) {
        Some(candidates) => if candidates.len() == 0 {
            None
        } else {
            assert(candidates.deep_view()[0] == candidates@[0]@);
            Some(&candidates[0])
        },
        None => None,
    }
}

/// The parts of a candidate.
pub open spec fn parts_in(candidate: JsonView) -> Seq<JsonView> {
    json::items_in(json::member2(candidate, "content"@, "parts"@))
}

/// Whether a body is an answer at all: it has candidates, or says why not.
pub open spec fn answers(body: JsonView) -> bool {
    json::at(body, "candidates"@) is Array || json::at(body, "promptFeedback"@) is Object
}

fn is_answer(body: &Json) -> (result: bool)
    ensures
        result == answers(body@),
{
    let candidates = match body.get("candidates") {
        Some(Json::Array(_)) => true,
        _ => false,
    };
    let feedback = match body.get("promptFeedback") {
        Some(Json::Object(_)) => true,
        _ => false,
    };
    candidates || feedback
}

/// The turn of a response. One that produced a call is a tool turn whatever the
/// finish reason says: this wire reports `STOP` for both.
pub open spec fn decoded(response: HttpResponse, profile: ProviderProfile) -> Result<
    CompletionResponseView,
    LlmErrorView,
> {
    let body = json::bytes_value(response.body@);
    if !transport::is_success(response.status) {
        Err(classified(response.status, body, chat::decode::retry_after_of(response)))
    } else if !answers(body) {
        Err(
            error::internal_view("provider response has no valid candidates array"@),
        )
    } else {
        let candidate = json::or_null(first_candidate(body));
        let (content, called) = blocks_of(parts_in(candidate), 0, Seq::empty(), false);
        Ok(
            CompletionResponseView {
                content,
                stop_reason: if called {
                    StopReasonView::ToolUse
                } else {
                    stop_of(json::str_at(candidate, "finishReason"@))
                },
                usage: report_of(usage_in(body), true),
                model: json::text_or_empty(body, "modelVersion"@),
                response_id: None,
                web_search: web_search_decode::result_of(
                    web_search_decode::gemini_metadata(candidate),
                ),
                file_search: None,
                inference: inference::response_report(
                    response.headers.deep_view(),
                    Some(body),
                    profile,
                ),
            },
        )
    }
}

pub fn response(resp: &HttpResponse, profile: &ProviderProfile) -> (result: Result<
    CompletionResponse,
    LlmError,
>)
    ensures
        views::res(result) == decoded(*resp, *profile),
{
    let body = json::value_of_bytes(resp.body.as_slice());
    if !(200 <= resp.status && resp.status < 300) {
        return Err(classify_error(resp.status, &body, chat::decode::retry_after(resp)));
    }
    if !is_answer(&body) {
        return Err(error::internal("provider response has no valid candidates array"));
    }
    let none = Json::Null;
    let candidate = match find_candidate(&body) {
        Some(candidate) => candidate,
        None => &none,
    };
    let (content, called) = match web_search_decode::items_of(
        candidate.get2("content", "parts"),
    ) {
        Some(parts) => decode_parts(parts),
        None => (Vec::new(), false),
    };
    let stop_reason = if called {
        StopReason::ToolUse
    } else {
        stop_reason(candidate.str_at("finishReason"))
    };
    Ok(
        CompletionResponse {
            content,
            stop_reason,
            usage: report(find_usage(&body), true),
            model: json::text_at(&body, "modelVersion"),
            response_id: None,
            web_search: web_search_decode::gemini(candidate),
            file_search: None,
            inference: inference::response(&resp.headers, Some(&body), profile),
        },
    )
}

/// A prompt over the context window, which arrives as an argument error, is a
/// `ContextOverflow`.
pub proof fn an_overflow_is_classified(status: u16, body: JsonView, retry_after: Option<u64>)
    requires
        google_status(body) == "INVALID_ARGUMENT"@ || google_status(body)
            == "FAILED_PRECONDITION"@,
        overflows(chat::decode::error_message(body)),
    ensures
        classified(status, body, retry_after) is ContextOverflow,
{
    reveal_strlit("UNAUTHENTICATED");
    reveal_strlit("PERMISSION_DENIED");
    reveal_strlit("NOT_FOUND");
    reveal_strlit("RESOURCE_EXHAUSTED");
    reveal_strlit("UNAVAILABLE");
    reveal_strlit("INTERNAL");
    reveal_strlit("INVALID_ARGUMENT");
    reveal_strlit("FAILED_PRECONDITION");
    assert("UNAUTHENTICATED"@.len() == 15 && "PERMISSION_DENIED"@.len() == 17);
    assert("NOT_FOUND"@.len() == 9 && "RESOURCE_EXHAUSTED"@.len() == 18);
    assert("UNAVAILABLE"@.len() == 11 && "INTERNAL"@.len() == 8);
    assert("INVALID_ARGUMENT"@.len() == 16 && "FAILED_PRECONDITION"@.len() == 19);
}

/// The buckets partition the prompt, where the counts agree.
pub proof fn the_buckets_partition_the_prompt(usage: JsonView)
    requires
        consistent(usage),
    ensures
        usage_of(usage).input_tokens + usage_of(usage).cache_read_tokens == json::count_in(
            json::member(usage, "promptTokenCount"@),
        ),
{
}

} // verus!
