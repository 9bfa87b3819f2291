//! What a directory keeps of a page: every row, in order, with what it says.

use crate::directory::{
    self, anthropic, gemini, openai, AnthropicMessagesDirectory, GeminiDirectory, LiveModelView,
    ModelDirectory, OpenAiChatDirectory,
};
use crate::files::http;
use crate::json::{self, JsonView};
use crate::protocol::inference;
use crate::protocol::{CapabilitySupport, ProviderProfile, ReasoningEffort, ThinkingMode};
use crate::text;
use crate::transport::HttpResponse;
use vstd::prelude::*;

verus! {

broadcast use {crate::views::group_views, crate::json::group_json};

/// The rows of a page under a key.
pub open spec fn rows_in(response: HttpResponse, key: Seq<char>) -> Seq<JsonView> {
    json::items_in(json::member(json::bytes_value(response.body@), key))
}

/// A text that is there and not empty.
pub open spec fn full(row: JsonView, key: Seq<char>) -> Option<Seq<char>> {
    match json::str_at(row, key) {
        Some(text) => if text.len() > 0 {
            Some(text)
        } else {
            None
        },
        None => None,
    }
}

/// A model is the one that a row of an OpenAI-shaped list names.
pub open spec fn openai_lists(row: JsonView, model: LiveModelView) -> bool {
    let own = json::u64_at(row, "max_output_tokens"@);
    &&& json::str_at(row, "id"@) == Some(model.request_model)
    &&& model.display_name == full(row, "name"@)
    &&& model.description == full(row, "description"@)
    &&& model.context_window == json::u64_at(row, "context_length"@)
    &&& own is Some ==> model.max_output_tokens == own
    &&& own is None ==> model.max_output_tokens == json::u64_at(
        json::at(row, "top_provider"@),
        "max_completion_tokens"@,
    )
}

/// A model is the one that a row of a Messages list names.
pub open spec fn anthropic_lists(row: JsonView, model: LiveModelView) -> bool {
    &&& json::str_at(row, "id"@) == Some(model.request_model)
    &&& model.display_name == full(row, "display_name"@)
    &&& model.context_window == json::u64_at(row, "max_input_tokens"@)
    &&& model.max_output_tokens == json::u64_at(row, "max_tokens"@)
}

proof fn lemma_openai(rows: Seq<JsonView>, i: int, before: Seq<LiveModelView>)
    requires
        before.len() == i <= rows.len(),
        forall|k: int| 0 <= k < i ==> openai_lists(rows[k], #[trigger] before[k]),
    ensures
        openai::models_of(rows, i, before) matches Ok(models) ==> models.len() == rows.len()
            && forall|k: int|
            0 <= k < rows.len() ==> openai_lists(rows[k], #[trigger] models[k]),
    decreases rows.len() - i,
{
    if i < rows.len() {
        if let Ok(model) = openai::model_of(rows[i]) {
            assert(openai_lists(rows[i], model));
            lemma_openai(rows, i + 1, before.push(model));
        }
    }
}

proof fn lemma_anthropic(rows: Seq<JsonView>, i: int, before: Seq<LiveModelView>)
    requires
        before.len() == i <= rows.len(),
        forall|k: int| 0 <= k < i ==> anthropic_lists(rows[k], #[trigger] before[k]),
    ensures
        anthropic::models_of(rows, i, before) matches Ok(models) ==> models.len() == rows.len()
            && forall|k: int|
            0 <= k < rows.len() ==> anthropic_lists(rows[k], #[trigger] models[k]),
    decreases rows.len() - i,
{
    if i < rows.len() {
        if let Ok(model) = anthropic::model_of(rows[i]) {
            assert(anthropic_lists(rows[i], model));
            lemma_anthropic(rows, i + 1, before.push(model));
        }
    }
}

/// An OpenAI-shaped page gives one model for each row, in order, and is the only page.
pub proof fn an_openai_page_gives_every_row(response: HttpResponse)
    ensures
        OpenAiChatDirectory.page_of(response) matches Ok(page) ==> {
            let rows = rows_in(response, "data"@);
            &&& page.page.models.len() == rows.len()
            &&& forall|k: int|
                0 <= k < rows.len() ==> openai_lists(rows[k], #[trigger] page.page.models[k])
            &&& page.page.next_cursor is None
            &&& page.incompatible.len() == 0
            &&& page.compatible.len() == 0
        },
{
    lemma_openai(rows_in(response, "data"@), 0, Seq::empty());
}

/// A Messages page gives one model for each row, in order. There is another page if and
/// only if it says so, and that one starts after the last id.
pub proof fn a_messages_page_gives_every_row(response: HttpResponse)
    ensures
        AnthropicMessagesDirectory.page_of(response) matches Ok(page) ==> {
            let body = json::bytes_value(response.body@);
            let rows = rows_in(response, "data"@);
            &&& page.page.models.len() == rows.len()
            &&& forall|k: int|
                0 <= k < rows.len() ==> anthropic_lists(rows[k], #[trigger] page.page.models[k])
            &&& page.page.next_cursor is Some <==> json::bool_at(body, "has_more"@) == Some(true)
            &&& page.page.next_cursor is Some ==> page.page.next_cursor == json::str_at(
                body,
                "last_id"@,
            )
        },
{
    lemma_anthropic(rows_in(response, "data"@), 0, Seq::empty());
}

/// Whether a row of a Gemini list says that its model generates content: it lists that
/// method, it lists others only, or it lists none at all.
pub open spec fn generating(row: JsonView) -> Option<bool> {
    match json::member(row, "supportedGenerationMethods"@) {
        Some(JsonView::Array(methods)) => Some(
            methods.contains(JsonView::Str("generateContent"@)),
        ),
        _ => None,
    }
}

/// The rows among the first `n` of models that may be used.
pub open spec fn usable(rows: Seq<JsonView>, n: int) -> Seq<JsonView>
    decreases n,
{
    if n <= 0 {
        Seq::empty()
    } else if generating(rows[n - 1]) == Some(false) {
        usable(rows, n - 1)
    } else {
        usable(rows, n - 1).push(rows[n - 1])
    }
}

/// The rows among the first `n` of models that answer this in this way.
pub open spec fn answering(rows: Seq<JsonView>, n: int, answer: bool) -> Seq<JsonView>
    decreases n,
{
    if n <= 0 {
        Seq::empty()
    } else if generating(rows[n - 1]) == Some(answer) {
        answering(rows, n - 1, answer).push(rows[n - 1])
    } else {
        answering(rows, n - 1, answer)
    }
}

/// The id of a row: its name, without what stands before it in every name.
pub open spec fn named(row: JsonView, id: Seq<char>) -> bool {
    json::str_at(row, "name"@) matches Some(name) && (name == "models/"@ + id || (name == id
        && !"models/"@.is_prefix_of(name)))
}

/// A model is the one that a row of a Gemini list names.
pub open spec fn gemini_lists(row: JsonView, model: LiveModelView) -> bool {
    &&& named(row, model.request_model)
    &&& model.display_name == full(row, "displayName"@)
    &&& model.description == full(row, "description"@)
    &&& model.context_window == json::u64_at(row, "inputTokenLimit"@)
    &&& model.max_output_tokens == json::u64_at(row, "outputTokenLimit"@)
}

pub open spec fn all_listed(rows: Seq<JsonView>, models: Seq<LiveModelView>) -> bool {
    rows.len() == models.len() && forall|k: int|
        0 <= k < rows.len() ==> gemini_lists(rows[k], #[trigger] models[k])
}

pub open spec fn all_named(rows: Seq<JsonView>, ids: Seq<Seq<char>>) -> bool {
    rows.len() == ids.len() && forall|k: int|
        0 <= k < rows.len() ==> named(rows[k], #[trigger] ids[k])
}

proof fn lemma_generates(methods: Seq<JsonView>, i: int, before: bool)
    requires
        0 <= i <= methods.len(),
    ensures
        gemini::generates(methods, i, before) matches Ok(generates) ==> (generates <==> before
            || exists|k: int|
            i <= k < methods.len() && #[trigger] methods[k] == JsonView::Str("generateContent"@)),
    decreases methods.len() - i,
{
    if i < methods.len() {
        if let Some(method) = json::str_of(methods[i]) {
            lemma_generates(methods, i + 1, before || method == "generateContent"@);
        }
    }
}

proof fn lemma_supports(row: JsonView)
    ensures
        gemini::supports_of(row) matches Ok(supports) ==> supports == generating(row),
{
    if let Some(JsonView::Array(methods)) = json::member(row, "supportedGenerationMethods"@) {
        lemma_generates(methods, 0, false);
        if methods.contains(JsonView::Str("generateContent"@)) {
            let k = choose|k: int|
                0 <= k < methods.len() && methods[k] == JsonView::Str("generateContent"@);
            assert(methods[k] == JsonView::Str("generateContent"@));
        }
    }
}

proof fn lemma_gemini(read: gemini::RowsView, rows: Seq<JsonView>, i: int)
    requires
        0 <= i <= rows.len(),
        all_listed(usable(rows, i), read.models),
        all_named(answering(rows, i, false), read.incompatible),
        all_named(answering(rows, i, true), read.compatible),
    ensures
        gemini::with_rows(read, rows, i) matches Ok(after) ==> {
            let n = rows.len() as int;
            &&& all_listed(usable(rows, n), after.models)
            &&& all_named(answering(rows, n, false), after.incompatible)
            &&& all_named(answering(rows, n, true), after.compatible)
        },
    decreases rows.len() - i,
{
    if i < rows.len() {
        let row = rows[i];
        if let Ok(next) = gemini::with_row(read, row) {
            let name = json::str_at(row, "name"@)->0;
            let id = gemini::bare_id(name);
            lemma_supports(row);
            assert(named(row, id)) by {
                if "models/"@.is_prefix_of(name) {
                    assert(name =~= "models/"@ + id);
                }
            }
            assert(gemini_lists(row, gemini::model_of(row, id)));
            lemma_gemini(next, rows, i + 1);
        }
    }
}

/// A Gemini page gives one model for each row whose model may generate content, in order,
/// and tells the models that may not and those that are known to. There is another page
/// if and only if it names one.
pub proof fn a_gemini_page_gives_every_row(response: HttpResponse)
    ensures
        GeminiDirectory.page_of(response) matches Ok(page) ==> {
            let body = json::bytes_value(response.body@);
            let rows = rows_in(response, "models"@);
            let n = rows.len() as int;
            &&& all_listed(usable(rows, n), page.page.models)
            &&& all_named(answering(rows, n, false), page.incompatible)
            &&& all_named(answering(rows, n, true), page.compatible)
            &&& page.page.next_cursor == full(body, "nextPageToken"@)
        },
{
    lemma_gemini(gemini::no_rows(), rows_in(response, "models"@), 0);
}

/// A page is asked for by a GET at the connection's own address, at the cursor that the
/// page before named.
pub proof fn a_page_is_asked_for_at_its_cursor(profile: ProviderProfile, cursor: Seq<char>)
    ensures
        ({
            let base = crate::text::without_trailing(profile.base_url@, '/');
            let messages = AnthropicMessagesDirectory.listing_of(profile, Some(cursor));
            let gemini = GeminiDirectory.listing_of(profile, Some(cursor));
            let chat = OpenAiChatDirectory.listing_of(profile, None);
            &&& messages.method == "GET"@ && messages.body.len() == 0
            &&& messages.url == directory::query_of(
                base + "/v1/models"@,
                seq![("limit"@, "1000"@), ("after_id"@, cursor)],
            )
            &&& gemini.method == "GET"@ && gemini.body.len() == 0
            &&& gemini.url == directory::query_of(
                base + "/models"@,
                seq![("pageSize"@, "1000"@), ("pageToken"@, cursor)],
            )
            &&& chat.method == "GET"@ && chat.body.len() == 0
            &&& chat.url == base + "/models"@ || chat.url == base + "/v1/models"@
        }),
{
}

/// What an OpenAI-shaped row says of reasoning is what is learned of it.
#[verifier::spinoff_prover]
pub proof fn a_row_tells_how_its_model_reasons(row: JsonView)
    ensures
        openai::features_of(row) matches Some(features) ==> {
            let reasoning = json::at(row, "reasoning"@);
            let must = json::bool_at(reasoning, "mandatory"@);
            let budget = json::bool_at(reasoning, "supports_max_tokens"@);
            let on = json::bool_at(reasoning, "default_enabled"@);
            &&& features.thinking == CapabilitySupport::Supported
            &&& features.budget == CapabilitySupport::Supported <==> budget == Some(true)
            &&& features.budget == CapabilitySupport::Unsupported <==> budget == Some(false)
            &&& features.default_mode == Some(ThinkingMode::Enabled) <==> on == Some(true)
            &&& features.default_mode == Some(ThinkingMode::Disabled) <==> on == Some(false)
            &&& must == Some(true) ==> features.modes == Some(seq![ThinkingMode::Enabled])
            &&& must == Some(false) ==> (features.modes matches Some(modes) && modes.contains(
                ThinkingMode::Disabled,
            ) && modes.contains(ThinkingMode::Enabled))
            &&& must == Some(true) ==> (features.efforts matches Some(efforts)
                ==> !efforts.contains(ReasoningEffort::Off))
        },
{
    let reasoning = json::at(row, "reasoning"@);
    let both = seq![ThinkingMode::Disabled, ThinkingMode::Enabled];
    assert(both[0] == ThinkingMode::Disabled && both[1] == ThinkingMode::Enabled);
    if let Some(efforts) = openai::listed_efforts(reasoning) {
        lemma_without_off(efforts, 0, Seq::empty());
    }
}

proof fn lemma_without_off(efforts: Seq<ReasoningEffort>, i: int, before: Seq<ReasoningEffort>)
    requires
        !before.contains(ReasoningEffort::Off),
    ensures
        !openai::without_off(efforts, i, before).contains(ReasoningEffort::Off),
    decreases efforts.len() - i,
{
    if 0 <= i < efforts.len() {
        let next = if efforts[i] == ReasoningEffort::Off {
            before
        } else {
            before.push(efforts[i])
        };
        assert(!next.contains(ReasoningEffort::Off)) by {
            if next.contains(ReasoningEffort::Off) {
                let k = choose|k: int| 0 <= k < next.len() && next[k] == ReasoningEffort::Off;
                if k < before.len() {
                    assert(before[k] == ReasoningEffort::Off);
                }
            }
        }
        lemma_without_off(efforts, i + 1, next);
    }
}

/// The parameters of a query stand behind the address, each with its own value, the first
/// behind a question mark and the others behind an ampersand.
pub proof fn a_query_names_its_values(
    url: Seq<char>,
    first: (Seq<char>, Seq<char>),
    second: (Seq<char>, Seq<char>),
)
    requires
        !text::contains(url, "?"@),
    ensures
        directory::query_of(url, seq![first]) == url + seq!['?'] + first.0 + "="@
            + http::query_text(first.1),
        directory::query_of(url, seq![first, second]) == url + seq!['?'] + first.0 + "="@
            + http::query_text(first.1) + seq!['&'] + second.0 + "="@ + http::query_text(second.1),
{
    reveal_with_fuel(directory::queried, 3);
    let one = url.push('?') + first.0 + "="@ + http::query_text(first.1);
    assert(url.push('?') =~= url + seq!['?']);
    assert(one.push('&') =~= one + seq!['&']);
}

/// What a Messages row says of its capabilities is what is learned of it: whether it
/// thinks, in which modes, and with which efforts.
#[verifier::spinoff_prover]
pub proof fn a_messages_row_tells_what_its_model_can(row: JsonView, level: ReasoningEffort)
    ensures
        anthropic::features_of(row) matches Some(features) ==> {
            let caps = json::at(row, "capabilities"@);
            let thinking = json::bool_at(json::at(caps, "thinking"@), "supported"@);
            let effort = json::bool_at(json::at(caps, "effort"@), "supported"@);
            &&& features.thinking == CapabilitySupport::Supported <==> thinking == Some(true)
            &&& features.thinking == CapabilitySupport::Unsupported <==> thinking == Some(false)
            &&& features.effort == CapabilitySupport::Supported <==> effort == Some(true)
            &&& features.effort == CapabilitySupport::Unsupported <==> effort == Some(false)
            &&& json::bool_at(json::at(json::at(caps, "effort"@), "low"@), "supported"@) == Some(true)
                <==> features.effort_support.low == CapabilitySupport::Supported
            &&& json::bool_at(json::at(json::at(caps, "effort"@), "high"@), "supported"@) == Some(
                true,
            ) <==> features.effort_support.high == CapabilitySupport::Supported
            &&& json::bool_at(json::at(json::at(caps, "effort"@), "max"@), "supported"@) == Some(
                true,
            ) <==> features.effort_support.max == CapabilitySupport::Supported
            &&& features.sources.len() == 1
        },
        json::member(row, "capabilities"@) is None ==> anthropic::features_of(row) is None,
{
}

/// A value is the name of this effort.
pub open spec fn names_effort(value: JsonView, effort: ReasoningEffort) -> bool {
    match value {
        JsonView::Str(name) => inference::effort_named(name) == Some(effort),
        _ => false,
    }
}

proof fn lemma_efforts(values: Seq<JsonView>, i: int, before: Seq<ReasoningEffort>)
    requires
        before.len() == i <= values.len(),
        forall|k: int| 0 <= k < i ==> names_effort(values[k], #[trigger] before[k]),
    ensures
        openai::efforts_of(values, i, before) matches Some(all) ==> all.len() == values.len()
            && forall|k: int| 0 <= k < all.len() ==> names_effort(values[k], #[trigger] all[k]),
    decreases values.len() - i,
{
    if i < values.len() {
        if let Some(effort) = openai::effort_of(values[i]) {
            let next = before.push(effort);
            assert(names_effort(values[i], effort));
            assert forall|k: int| 0 <= k < i + 1 implies names_effort(
                values[k],
                #[trigger] next[k],
            ) by {
                if k < i {
                    assert(next[k] == before[k]);
                }
            }
            lemma_efforts(values, i + 1, next);
        }
    }
}

/// The efforts of an OpenAI-shaped row are those that it lists, in order, and its default
/// is the one that it names.
pub proof fn a_row_tells_its_efforts(row: JsonView, values: Seq<JsonView>)
    requires
        json::bool_at(json::at(row, "reasoning"@), "mandatory"@) != Some(true),
        json::member2(row, "reasoning"@, "supported_efforts"@) == Some(JsonView::Array(values)),
    ensures
        openai::features_of(row) matches Some(features) ==> {
            let default = json::str_in(json::member2(row, "reasoning"@, "default_effort"@));
            &&& features.effort == CapabilitySupport::Supported
            &&& features.efforts matches Some(efforts) ==> efforts.len() == values.len() && forall|
                k: int,
            |
                0 <= k < efforts.len() ==> names_effort(values[k], #[trigger] efforts[k])
            &&& default matches Some(name) ==> features.default_effort == inference::effort_named(
                name,
            )
        },
{
    lemma_efforts(values, 0, Seq::empty());
}

} // verus!
