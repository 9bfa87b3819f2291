//! The flat list: a `data` array of `{id}` objects in one response.

use crate::codecs::openai::chat;
use crate::directory::{
    self, DecodedModelPage, DecodedPageView, LiveModel, LiveModelView, ModelDirectory, ModelPage,
    ModelPageView,
};
use crate::json::{self, Json, JsonView};
use crate::protocol::features;
use crate::protocol::inference;
use crate::protocol::{
    CapabilitySupport, FeaturesView, InferenceFeatures, LlmError, LlmErrorView, ProtocolFamily,
    ProviderProfile, ReasoningEffort, ThinkingMode,
};
use crate::transport::{self, HttpRequest, HttpRequestView, HttpResponse};
use crate::views;
use vstd::prelude::*;

verus! {

broadcast use {crate::views::group_views, crate::json::group_json};

/// The shape without pagination. Endpoints that publish more than the id are read
/// for it.
#[derive(Debug, Default, Clone, Copy)]
pub struct OpenAiChatDirectory;

/// The effort that a value names.
pub open spec fn effort_of(value: JsonView) -> Option<ReasoningEffort> {
    match json::str_of(value) {
        Some(name) => inference::effort_named(name),
        None => None,
    }
}

fn read_effort(value: &Json) -> (result: Option<ReasoningEffort>)
    ensures
        result == effort_of(value@),
{
    match value.as_str() {
        Some(name) => ReasoningEffort::named(name),
        None => None,
    }
}

/// The efforts that the values from the `i`th on name, if each names one.
pub open spec fn efforts_of(values: Seq<JsonView>, i: int, before: Seq<ReasoningEffort>) -> Option<
    Seq<ReasoningEffort>,
>
    decreases values.len() - i,
{
    if i < 0 || i >= values.len() {
        Some(before)
    } else {
        match effort_of(values[i]) {
            Some(effort) => efforts_of(values, i + 1, before.push(effort)),
            None => None,
        }
    }
}

fn read_efforts(values: &Vec<Json>) -> (result: Option<Vec<ReasoningEffort>>)
    ensures
        features::listed(result) == efforts_of(values.deep_view(), 0, Seq::empty()),
{
    let mut out: Vec<ReasoningEffort> = Vec::new();
    let mut i: usize = 0;
    while i < values.len()
        invariant
            i <= values.len(),
            efforts_of(values.deep_view(), 0, Seq::empty()) == efforts_of(
                values.deep_view(),
                i as int,
                out@,
            ),
        decreases values.len() - i,
    {
        assert(values.deep_view()[i as int] == values@[i as int]@);
        match read_effort(&values[i]) {
            Some(effort) => out.push(effort),
            None => return None,
        }
        i = i + 1;
    }
    Some(out)
}

/// The efforts that are listed. A null list means every one; an absent list states
/// nothing.
pub open spec fn listed_efforts(reasoning: JsonView) -> Option<Seq<ReasoningEffort>> {
    match json::member(reasoning, "supported_efforts"@) {
        Some(JsonView::Null) => Some(inference::all_efforts()),
        Some(JsonView::Array(values)) => efforts_of(values, 0, Seq::empty()),
        _ => None,
    }
}

fn find_efforts(reasoning: &Json) -> (result: Option<Vec<ReasoningEffort>>)
    ensures
        features::listed(result) == listed_efforts(reasoning@),
{
    match reasoning.get("supported_efforts") {
        Some(Json::Null) => {
            let mut all: Vec<ReasoningEffort> = Vec::new();
            all.push(ReasoningEffort::Off);
            all.push(ReasoningEffort::Minimal);
            all.push(ReasoningEffort::Low);
            all.push(ReasoningEffort::Medium);
            all.push(ReasoningEffort::High);
            all.push(ReasoningEffort::XHigh);
            all.push(ReasoningEffort::Max);
            assert(all@ =~= inference::all_efforts());
            Some(all)
        },
        Some(Json::Array(values)) => read_efforts(values),
        _ => None,
    }
}

/// The efforts without the one that turns reasoning off.
pub open spec fn without_off(efforts: Seq<ReasoningEffort>, i: int, before: Seq<ReasoningEffort>) -> Seq<
    ReasoningEffort,
>
    decreases efforts.len() - i,
{
    if i < 0 || i >= efforts.len() {
        before
    } else {
        without_off(
            efforts,
            i + 1,
            if efforts[i] == ReasoningEffort::Off {
                before
            } else {
                before.push(efforts[i])
            },
        )
    }
}

fn drop_off(efforts: &Vec<ReasoningEffort>) -> (result: Vec<ReasoningEffort>)
    ensures
        result@ == without_off(efforts@, 0, Seq::empty()),
{
    let mut out: Vec<ReasoningEffort> = Vec::new();
    let mut i: usize = 0;
    while i < efforts.len()
        invariant
            i <= efforts.len(),
            without_off(efforts@, 0, Seq::empty()) == without_off(efforts@, i as int, out@),
        decreases efforts.len() - i,
    {
        if efforts[i] != ReasoningEffort::Off {
            out.push(efforts[i]);
        }
        i = i + 1;
    }
    out
}

/// A fact as support.
pub open spec fn support_of(fact: Option<bool>) -> CapabilitySupport {
    match fact {
        Some(true) => CapabilitySupport::Supported,
        Some(false) => CapabilitySupport::Unsupported,
        None => CapabilitySupport::Unknown,
    }
}

pub fn read_support(fact: Option<bool>) -> (support: CapabilitySupport)
    ensures
        support == support_of(fact),
{
    match fact {
        Some(true) => CapabilitySupport::Supported,
        Some(false) => CapabilitySupport::Unsupported,
        None => CapabilitySupport::Unknown,
    }
}

/// The modes, where it is stated whether reasoning is mandatory.
pub open spec fn modes_of(reasoning: JsonView) -> Option<Seq<ThinkingMode>> {
    match json::bool_at(reasoning, "mandatory"@) {
        Some(true) => Some(seq![ThinkingMode::Enabled]),
        Some(false) => Some(seq![ThinkingMode::Disabled, ThinkingMode::Enabled]),
        None => None,
    }
}

fn find_modes(reasoning: &Json) -> (result: Option<Vec<ThinkingMode>>)
    ensures
        features::listed(result) == modes_of(reasoning@),
{
    match reasoning.bool_at("mandatory") {
        Some(mandatory) => {
            let mut modes: Vec<ThinkingMode> = Vec::new();
            if !mandatory {
                modes.push(ThinkingMode::Disabled);
            }
            modes.push(ThinkingMode::Enabled);
            assert(modes@ =~= modes_of(reasoning@)->0);
            Some(modes)
        },
        None => None,
    }
}

/// The mode in which a model starts.
pub open spec fn default_of(reasoning: JsonView) -> Option<ThinkingMode> {
    match json::bool_at(reasoning, "default_enabled"@) {
        Some(true) => Some(ThinkingMode::Enabled),
        Some(false) => Some(ThinkingMode::Disabled),
        None => None,
    }
}

/// What a `reasoning` object states.
pub open spec fn stated(reasoning: JsonView) -> FeaturesView {
    let efforts = listed_efforts(reasoning);
    FeaturesView {
        modes: modes_of(reasoning),
        default_mode: default_of(reasoning),
        effort: if json::member(reasoning, "supported_efforts"@) is Some {
            CapabilitySupport::Supported
        } else {
            CapabilitySupport::Unknown
        },
        efforts: match efforts {
            Some(efforts) => if json::bool_at(reasoning, "mandatory"@) == Some(true) {
                Some(without_off(efforts, 0, Seq::empty()))
            } else {
                Some(efforts)
            },
            None => None,
        },
        default_effort: match json::member(reasoning, "default_effort"@) {
            Some(value) => effort_of(value),
            None => None,
        },
        budget: support_of(json::bool_at(reasoning, "supports_max_tokens"@)),
        ..features::no_features()
    }
}

/// What a row states of reasoning, if it states anything.
pub open spec fn features_of(row: JsonView) -> Option<FeaturesView> {
    match json::member(row, "reasoning"@) {
        Some(reasoning) => if reasoning is Object && stated(reasoning) != features::no_features() {
            Some(
                FeaturesView { thinking: CapabilitySupport::Supported, ..stated(reasoning) },
            )
        } else {
            None
        },
        None => None,
    }
}

fn reasoning_features(row: &Json) -> (result: Option<InferenceFeatures>)
    ensures
        result.deep_view() == features_of(row@),
{
    let reasoning = match row.get("reasoning") {
        Some(reasoning) => reasoning,
        None => return None,
    };
    match reasoning {
        Json::Object(_) => {},
        _ => return None,
    }
    let empty = InferenceFeatures::default();
    let mandatory = match reasoning.bool_at("mandatory") {
        Some(mandatory) => mandatory,
        None => false,
    };
    let efforts = match find_efforts(reasoning) {
        Some(efforts) => if mandatory {
            Some(drop_off(&efforts))
        } else {
            Some(efforts)
        },
        None => None,
    };
    let default_mode = match reasoning.bool_at("default_enabled") {
        Some(true) => Some(ThinkingMode::Enabled),
        Some(false) => Some(ThinkingMode::Disabled),
        None => None,
    };
    let default_effort = match reasoning.get("default_effort") {
        Some(value) => read_effort(value),
        None => None,
    };
    let found = InferenceFeatures {
        modes: find_modes(reasoning),
        default_mode,
        effort: if reasoning.get("supported_efforts").is_some() {
            CapabilitySupport::Supported
        } else {
            CapabilitySupport::Unknown
        },
        efforts,
        default_effort,
        budget: read_support(reasoning.bool_at("supports_max_tokens")),
        ..InferenceFeatures::default()
    };
    assert(found@.sources =~= Seq::empty());
    assert(found@ == stated(reasoning@));
    if found.same(&empty) {
        return None;
    }
    let mut found = found;
    found.thinking = CapabilitySupport::Supported;
    Some(found)
}

/// A row of the list, or its refusal.
pub open spec fn model_of(row: JsonView) -> Result<LiveModelView, LlmErrorView> {
    match json::str_at(row, "id"@) {
        None => Err(directory::no_id("id"@)),
        Some(id) => Ok(
            LiveModelView {
                inference_features: features_of(row),
                request_model: id,
                display_name: directory::text_of(row, "name"@),
                description: directory::text_of(row, "description"@),
                context_window: json::u64_at(row, "context_length"@),
                max_output_tokens: match json::u64_at(row, "max_output_tokens"@) {
                    Some(n) => Some(n),
                    None => json::u64_at(
                        json::at(row, "top_provider"@),
                        "max_completion_tokens"@,
                    ),
                },
            },
        ),
    }
}

fn read_model(row: &Json) -> (result: Result<LiveModel, LlmError>)
    ensures
        views::res(result) == model_of(row@),
{
    let none = Json::Null;
    let id = directory::required_id(row, "id")?;
    let max_output_tokens = match row.u64_at("max_output_tokens") {
        Some(n) => Some(n),
        None => json::member_or(row, "top_provider", &none).u64_at("max_completion_tokens"),
    };
    Ok(
        LiveModel {
            inference_features: reasoning_features(row),
            request_model: id,
            display_name: directory::find_text(row, "name"),
            description: directory::find_text(row, "description"),
            context_window: row.u64_at("context_length"),
            max_output_tokens,
        },
    )
}

/// The models of the rows from the `i`th on.
pub open spec fn models_of(rows: Seq<JsonView>, i: int, before: Seq<LiveModelView>) -> Result<
    Seq<LiveModelView>,
    LlmErrorView,
>
    decreases rows.len() - i,
{
    if i < 0 || i >= rows.len() {
        Ok(before)
    } else {
        match model_of(rows[i]) {
            Ok(model) => models_of(rows, i + 1, before.push(model)),
            Err(error) => Err(error),
        }
    }
}

fn read_models(rows: &Vec<Json>) -> (result: Result<Vec<LiveModel>, LlmError>)
    ensures
        views::res(result) == models_of(rows.deep_view(), 0, Seq::empty()),
{
    let mut models: Vec<LiveModel> = Vec::new();
    let mut i: usize = 0;
    while i < rows.len()
        invariant
            i <= rows.len(),
            models_of(rows.deep_view(), 0, Seq::empty()) == models_of(
                rows.deep_view(),
                i as int,
                models.deep_view(),
            ),
        decreases rows.len() - i,
    {
        assert(rows.deep_view()[i as int] == rows@[i as int]@);
        let model = read_model(&rows[i])?;
        models.push(model);
        i = i + 1;
    }
    Ok(models)
}

/// The body of a success, or the error that a completion would have given.
pub open spec fn answer_of(response: HttpResponse) -> Result<JsonView, LlmErrorView> {
    if transport::is_success(response.status) {
        directory::body_of(response)
    } else {
        Err(
            chat::decode::classified(
                response.status,
                json::bytes_value(response.body@),
                chat::decode::retry_after_of(response),
            ),
        )
    }
}

fn read_answer(response: &HttpResponse) -> (result: Result<Json, LlmError>)
    ensures
        views::res(result) == answer_of(*response),
{
    if 200 <= response.status && response.status < 300 {
        return directory::read_body(response);
    }
    let body = json::value_of_bytes(response.body.as_slice());
    Err(
        chat::classify_error(response.status, &body, chat::decode::retry_after(response)),
    )
}

/// The page of a response, which is the only one.
pub open spec fn flat_page(response: HttpResponse) -> Result<ModelPageView, LlmErrorView> {
    match answer_of(response) {
        Err(error) => Err(error),
        Ok(body) => match directory::rows_of(body, "data"@) {
            Err(error) => Err(error),
            Ok(rows) => match models_of(rows, 0, Seq::empty()) {
                Err(error) => Err(error),
                Ok(models) => Ok(ModelPageView { models, next_cursor: None }),
            },
        },
    }
}

/// The path of the list: a Messages connection has a bare origin, also where its
/// list has this shape.
pub open spec fn list_path(profile: ProviderProfile) -> Seq<char> {
    if profile.protocol == ProtocolFamily::AnthropicMessages {
        "/v1/models"@
    } else {
        "/models"@
    }
}

impl ModelDirectory for OpenAiChatDirectory {
    open spec fn shape_of(&self) -> ProtocolFamily {
        ProtocolFamily::OpenAiChat
    }

    open spec fn listing_of(&self, profile: ProviderProfile, cursor: Option<Seq<char>>) -> HttpRequestView {
        directory::get_of(directory::endpoint_of(profile, list_path(profile)), profile)
    }

    open spec fn page_of(&self, response: HttpResponse) -> Result<DecodedPageView, LlmErrorView> {
        directory::unexcluded(flat_page(response))
    }

    fn shape(&self) -> (shape: ProtocolFamily) {
        ProtocolFamily::OpenAiChat
    }

    fn list_request(&self, profile: &ProviderProfile, cursor: Option<&str>) -> (request:
        HttpRequest) {
        let path = if profile.protocol == ProtocolFamily::AnthropicMessages {
            "/v1/models"
        } else {
            "/models"
        };
        directory::get(directory::endpoint(profile, path), profile)
    }

    fn decode_page(&self, response: &HttpResponse) -> (result: Result<ModelPage, LlmError>) {
        let body = read_answer(response)?;
        let rows = directory::rows(&body, "data")?;
        let models = read_models(rows)?;
        Ok(ModelPage { models, next_cursor: None })
    }

    fn decode_page_with_exclusions(&self, response: &HttpResponse) -> (result: Result<
        DecodedModelPage,
        LlmError,
    >) {
        directory::without_exclusions(self.decode_page(response))
    }
}

/// A page that is read by the wrong shape, with its list under another key, is
/// refused rather than read as an empty catalog.
pub proof fn a_page_without_its_list_is_refused(response: HttpResponse)
    requires
        transport::is_success(response.status),
        json::parsed(response.body@) is Ok,
        !(json::at(json::parsed(response.body@)->Ok_0, "data"@) is Array),
    ensures
        OpenAiChatDirectory.page_of(response) is Err,
{
}

} // verus!
