//! The list that paginates with an id: `data`, `has_more`, `last_id`, and `after_id`
//! to continue.

use crate::codecs::anthropic;
use crate::codecs::extras;
use crate::codecs::openai::chat;
use crate::directory::openai;
use crate::directory::{
    self, DecodedModelPage, DecodedPageView, LiveModel, LiveModelView, ModelDirectory, ModelPage,
    ModelPageView,
};
use crate::json::{self, Entries, Json, JsonView};
use crate::protocol::error;
use crate::protocol::features;
use crate::protocol::inference;
use crate::protocol::{
    CapabilitySupport, EffortSupport, FeaturesView, InferenceFeatures, LlmError, LlmErrorView,
    ModeSupport, ProtocolFamily, ProviderProfile, ReasoningEffort, ThinkingMode,
};
use crate::transport::{self, HttpRequest, HttpRequestView, HttpResponse};
use crate::views;
use vstd::prelude::*;

verus! {

broadcast use {crate::views::group_views, crate::json::group_json};

#[derive(Debug, Default, Clone, Copy)]
pub struct AnthropicMessagesDirectory;

/// Where the facts come from.
pub const FEATURES_SOURCE: &'static str = "https://api.anthropic.com/v1/models";

/// Whether a capability says that it is supported.
pub open spec fn fact_of(value: JsonView) -> CapabilitySupport {
    openai::support_of(json::bool_at(value, "supported"@))
}

fn fact(value: &Json) -> (support: CapabilitySupport)
    ensures
        support == fact_of(value@),
{
    openai::read_support(value.bool_at("supported"))
}

/// What the types from the `i`th on state: the support of each mode, and of a
/// budget, which goes with the enabled one.
pub open spec fn modes_of(types: Entries, i: int, modes: ModeSupport, budget: CapabilitySupport) -> (
    ModeSupport,
    CapabilitySupport,
)
    decreases types.len() - i,
{
    if i < 0 || i >= types.len() {
        (modes, budget)
    } else {
        match inference::mode_named(types[i].0) {
            None => modes_of(types, i + 1, modes, budget),
            Some(mode) => {
                let support = fact_of(types[i].1);
                if support == CapabilitySupport::Unknown {
                    modes_of(types, i + 1, modes, budget)
                } else {
                    modes_of(
                        types,
                        i + 1,
                        modes.with(mode, support),
                        if mode == ThinkingMode::Enabled {
                            support
                        } else {
                            budget
                        },
                    )
                }
            },
        }
    }
}

fn read_modes(types: &Vec<(String, Json)>) -> (result: (ModeSupport, CapabilitySupport))
    ensures
        result == modes_of(
            types.deep_view(),
            0,
            features::no_modes(),
            CapabilitySupport::Unknown,
        ),
{
    let unknown = CapabilitySupport::Unknown;
    let mut modes = ModeSupport { enabled: unknown, disabled: unknown, adaptive: unknown };
    let mut budget = unknown;
    let mut i: usize = 0;
    while i < types.len()
        invariant
            i <= types.len(),
            modes_of(types.deep_view(), 0, features::no_modes(), CapabilitySupport::Unknown)
                == modes_of(types.deep_view(), i as int, modes, budget),
        decreases types.len() - i,
    {
        assert(types.deep_view()[i as int] == types@[i as int].deep_view());
        if let Some(mode) = ThinkingMode::named(&types[i].0) {
            let support = fact(&types[i].1);
            if support != CapabilitySupport::Unknown {
                modes.set(mode, support);
                if mode == ThinkingMode::Enabled {
                    budget = support;
                }
            }
        }
        i = i + 1;
    }
    (modes, budget)
}

/// What is stated of one effort.
pub open spec fn level_of(effort: JsonView, level: ReasoningEffort) -> CapabilitySupport {
    match json::member(effort, inference::effort_name(level)) {
        Some(value) => fact_of(value),
        None => CapabilitySupport::Unknown,
    }
}

fn read_level(effort: &Json, level: ReasoningEffort) -> (support: CapabilitySupport)
    ensures
        support == level_of(effort@, level),
{
    match effort.get(level.as_str()) {
        Some(value) => fact(value),
        None => CapabilitySupport::Unknown,
    }
}

/// What is stated of every effort.
pub open spec fn levels_of(effort: JsonView) -> EffortSupport {
    EffortSupport {
        off: level_of(effort, ReasoningEffort::Off),
        minimal: level_of(effort, ReasoningEffort::Minimal),
        low: level_of(effort, ReasoningEffort::Low),
        medium: level_of(effort, ReasoningEffort::Medium),
        high: level_of(effort, ReasoningEffort::High),
        xhigh: level_of(effort, ReasoningEffort::XHigh),
        max: level_of(effort, ReasoningEffort::Max),
    }
}

fn read_levels(effort: &Json) -> (result: EffortSupport)
    ensures
        result == levels_of(effort@),
{
    EffortSupport {
        off: read_level(effort, ReasoningEffort::Off),
        minimal: read_level(effort, ReasoningEffort::Minimal),
        low: read_level(effort, ReasoningEffort::Low),
        medium: read_level(effort, ReasoningEffort::Medium),
        high: read_level(effort, ReasoningEffort::High),
        xhigh: read_level(effort, ReasoningEffort::XHigh),
        max: read_level(effort, ReasoningEffort::Max),
    }
}

/// The types of thinking that are listed.
pub open spec fn types_in(caps: JsonView) -> Entries {
    match json::member2(caps, "thinking"@, "types"@) {
        Some(JsonView::Object(types)) => types,
        _ => Seq::empty(),
    }
}

/// What a `capabilities` object states.
pub open spec fn stated(caps: JsonView) -> FeaturesView {
    let (mode_support, budget) = modes_of(
        types_in(caps),
        0,
        features::no_modes(),
        CapabilitySupport::Unknown,
    );
    FeaturesView {
        thinking: match json::member(caps, "thinking"@) {
            Some(thinking) => fact_of(thinking),
            None => CapabilitySupport::Unknown,
        },
        mode_support,
        budget,
        effort: match json::member(caps, "effort"@) {
            Some(effort) => fact_of(effort),
            None => CapabilitySupport::Unknown,
        },
        effort_support: match json::member(caps, "effort"@) {
            Some(effort) => levels_of(effort),
            None => features::no_efforts(),
        },
        ..features::no_features()
    }
}

/// What a row states of its capabilities, if it states anything.
pub open spec fn features_of(row: JsonView) -> Option<FeaturesView> {
    match json::member(row, "capabilities"@) {
        Some(caps) => if caps is Object && stated(caps) != features::no_features() {
            Some(FeaturesView { sources: seq![FEATURES_SOURCE@], ..stated(caps) })
        } else {
            None
        },
        None => None,
    }
}

fn inference_features(row: &Json) -> (result: Option<InferenceFeatures>)
    ensures
        result.deep_view() == features_of(row@),
{
    let caps = match row.get("capabilities") {
        Some(caps) => caps,
        None => return None,
    };
    match caps {
        Json::Object(_) => {},
        _ => return None,
    }
    let mut found = InferenceFeatures::default();
    let empty = InferenceFeatures::default();
    if let Some(thinking) = caps.get("thinking") {
        found.thinking = fact(thinking);
    }
    match caps.get2("thinking", "types") {
        Some(Json::Object(types)) => {
            let (mode_support, budget) = read_modes(types);
            found.mode_support = mode_support;
            found.budget = budget;
        },
        _ => {},
    }
    if let Some(effort) = caps.get("effort") {
        found.effort = fact(effort);
        found.effort_support = read_levels(effort);
    }
    assert(found@ == stated(caps@));
    if found.same(&empty) {
        return None;
    }
    let mut sources: Vec<String> = Vec::new();
    sources.push(FEATURES_SOURCE.to_owned());
    assert(sources.deep_view() =~= seq![FEATURES_SOURCE@]);
    found.sources = sources;
    Some(found)
}

/// A row of the list, or its refusal.
pub open spec fn model_of(row: JsonView) -> Result<LiveModelView, LlmErrorView> {
    match json::str_at(row, "id"@) {
        None => Err(directory::no_id("id"@)),
        Some(id) => Ok(
            LiveModelView {
                inference_features: features_of(row),
                request_model: id,
                display_name: directory::text_of(row, "display_name"@),
                description: None,
                context_window: json::u64_at(row, "max_input_tokens"@),
                max_output_tokens: json::u64_at(row, "max_tokens"@),
            },
        ),
    }
}

fn read_model(row: &Json) -> (result: Result<LiveModel, LlmError>)
    ensures
        views::res(result) == model_of(row@),
{
    let id = directory::required_id(row, "id")?;
    Ok(
        LiveModel {
            inference_features: inference_features(row),
            request_model: id,
            display_name: directory::find_text(row, "display_name"),
            description: None,
            context_window: row.u64_at("max_input_tokens"),
            max_output_tokens: row.u64_at("max_tokens"),
        },
    )
}

/// The models of the rows from the `i`th on.
pub open spec fn models_of(rows: Seq<JsonView>, i: int, before: Seq<LiveModelView>) -> Result<
    Seq<LiveModelView>,
    LlmErrorView,
>
    decreases rows.len() - i,
{
    if i < 0 || i >= rows.len() {
        Ok(before)
    } else {
        match model_of(rows[i]) {
            Ok(model) => models_of(rows, i + 1, before.push(model)),
            Err(error) => Err(error),
        }
    }
}

fn read_models(rows: &Vec<Json>) -> (result: Result<Vec<LiveModel>, LlmError>)
    ensures
        views::res(result) == models_of(rows.deep_view(), 0, Seq::empty()),
{
    let mut models: Vec<LiveModel> = Vec::new();
    let mut i: usize = 0;
    while i < rows.len()
        invariant
            i <= rows.len(),
            models_of(rows.deep_view(), 0, Seq::empty()) == models_of(
                rows.deep_view(),
                i as int,
                models.deep_view(),
            ),
        decreases rows.len() - i,
    {
        assert(rows.deep_view()[i as int] == rows@[i as int]@);
        let model = read_model(&rows[i])?;
        models.push(model);
        i = i + 1;
    }
    Ok(models)
}

/// The cursor of a page. `has_more` ends the walk: `last_id` is there on the last
/// page too, and following it would not end.
pub open spec fn cursor_of(body: JsonView) -> Result<Option<Seq<char>>, LlmErrorView> {
    match json::bool_at(body, "has_more"@) {
        Some(true) => match directory::text_of(body, "last_id"@) {
            Some(id) => Ok(Some(id)),
            None => Err(
                error::internal_view(
                    "the Anthropic model directory says there is more data but has no usable \"last_id\" cursor"@,
                ),
            ),
        },
        Some(false) => Ok(None),
        None => Err(
            error::internal_view(
                "the Anthropic model directory page has no boolean \"has_more\" value"@,
            ),
        ),
    }
}

fn read_cursor(body: &Json) -> (result: Result<Option<String>, LlmError>)
    ensures
        views::res(result) == cursor_of(body@),
{
    match body.bool_at("has_more") {
        Some(true) => match directory::find_text(body, "last_id") {
            Some(id) => Ok(Some(id)),
            None => Err(
                error::internal(
                    "the Anthropic model directory says there is more data but has no usable \"last_id\" cursor",
                ),
            ),
        },
        Some(false) => Ok(None),
        None => Err(
            error::internal(
                "the Anthropic model directory page has no boolean \"has_more\" value",
            ),
        ),
    }
}

/// The body of a success, or the error that a completion would have given.
pub open spec fn answer_of(response: HttpResponse) -> Result<JsonView, LlmErrorView> {
    if transport::is_success(response.status) {
        directory::body_of(response)
    } else {
        Err(
            anthropic::decode::classified(
                response.status,
                json::bytes_value(response.body@),
                chat::decode::retry_after_of(response),
            ),
        )
    }
}

fn read_answer(response: &HttpResponse) -> (result: Result<Json, LlmError>)
    ensures
        views::res(result) == answer_of(*response),
{
    if 200 <= response.status && response.status < 300 {
        return directory::read_body(response);
    }
    let body = json::value_of_bytes(response.body.as_slice());
    Err(
        anthropic::classify_error(response.status, &body, chat::decode::retry_after(response)),
    )
}

/// The page of a response.
pub open spec fn cursor_page(response: HttpResponse) -> Result<ModelPageView, LlmErrorView> {
    match answer_of(response) {
        Err(error) => Err(error),
        Ok(body) => match directory::rows_of(body, "data"@) {
            Err(error) => Err(error),
            Ok(rows) => match models_of(rows, 0, Seq::empty()) {
                Err(error) => Err(error),
                Ok(models) => match cursor_of(body) {
                    Err(error) => Err(error),
                    Ok(next_cursor) => Ok(ModelPageView { models, next_cursor }),
                },
            },
        },
    }
}

/// The query of a page.
pub open spec fn params_of(cursor: Option<Seq<char>>) -> Seq<(Seq<char>, Seq<char>)> {
    match cursor {
        Some(after) => seq![("limit"@, directory::PAGE_SIZE@), ("after_id"@, after)],
        None => seq![("limit"@, directory::PAGE_SIZE@)],
    }
}

impl ModelDirectory for AnthropicMessagesDirectory {
    open spec fn shape_of(&self) -> ProtocolFamily {
        ProtocolFamily::AnthropicMessages
    }

    /// The list needs the version header of the Messages wire.
    open spec fn listing_of(&self, profile: ProviderProfile, cursor: Option<Seq<char>>) -> HttpRequestView {
        let request = directory::get_of(
            directory::query_of(
                directory::endpoint_of(profile, "/v1/models"@),
                params_of(cursor),
            ),
            profile,
        );
        HttpRequestView {
            headers: transport::without_header(request.headers, "anthropic-version"@).push(
                (
                    "anthropic-version"@,
                    anthropic::encode::api_version(
                        profile,
                        extras::DEFAULT_ANTHROPIC_API_VERSION@,
                    ),
                ),
            ),
            ..request
        }
    }

    open spec fn page_of(&self, response: HttpResponse) -> Result<DecodedPageView, LlmErrorView> {
        directory::unexcluded(cursor_page(response))
    }

    fn shape(&self) -> (shape: ProtocolFamily) {
        ProtocolFamily::AnthropicMessages
    }

    fn list_request(&self, profile: &ProviderProfile, cursor: Option<&str>) -> (request:
        HttpRequest) {
        let mut params: Vec<(&str, &str)> = Vec::new();
        params.push(("limit", directory::PAGE_SIZE));
        if let Some(after) = cursor {
            params.push(("after_id", after));
        }
        assert(views::pairs(params@) =~= params_of(cursor.deep_view()));
        let url = directory::with_query(&directory::endpoint(profile, "/v1/models"), &params);
        let mut request = directory::get(url, profile);
        transport::drop_header(&mut request.headers, "anthropic-version");
        request.headers.push(
            (
                "anthropic-version".to_owned(),
                anthropic::encode::version_of(
                    profile,
                    extras::DEFAULT_ANTHROPIC_API_VERSION,
                ).to_owned(),
            ),
        );
        request
    }

    fn decode_page(&self, response: &HttpResponse) -> (result: Result<ModelPage, LlmError>) {
        let body = read_answer(response)?;
        let rows = directory::rows(&body, "data")?;
        let models = read_models(rows)?;
        let next_cursor = read_cursor(&body)?;
        Ok(ModelPage { models, next_cursor })
    }

    fn decode_page_with_exclusions(&self, response: &HttpResponse) -> (result: Result<
        DecodedModelPage,
        LlmError,
    >) {
        directory::without_exclusions(self.decode_page(response))
    }
}

/// A page that is read by the wrong shape, with its list under another key, is
/// refused rather than read as an empty catalog.
pub proof fn a_page_without_its_list_is_refused(response: HttpResponse)
    requires
        transport::is_success(response.status),
        json::parsed(response.body@) is Ok,
        !(json::at(json::parsed(response.body@)->Ok_0, "data"@) is Array),
    ensures
        AnthropicMessagesDirectory.page_of(response) is Err,
{
}

} // verus!
