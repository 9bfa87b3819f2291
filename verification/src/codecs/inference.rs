//! Declarative inference controls, shared by encoding, discovery and pricing.

use crate::codecs::extras::HeaderViews;
use crate::codecs::{self, CodecContext};
use crate::json::{self, Entries, Json, JsonView, Number, NumberView};
use crate::protocol::error;
use crate::protocol::features;
use crate::protocol::inference;
use crate::protocol::profile;
use crate::protocol::{
    CapabilitySupport, CompletionRequest, FastWire, FeaturesView, InferenceFeatures,
    InferenceReport, InferenceReportView, LlmError, LlmErrorView, ProtocolFamily, ProviderProfile,
    ReasoningEffort, ReasoningWire, ServiceTier, StreamEvent, StreamEventView, ThinkingBudget,
    ThinkingConfig, ThinkingMode, ToolChoice,
};
use crate::text;
use crate::transport::{self, HttpResponse};
use crate::views;
use vstd::prelude::*;

verus! {

broadcast use {crate::views::group_views, crate::json::group_json};

/// How the connection asks for faster service.
pub open spec fn fast_wire_of(profile: ProviderProfile) -> FastWire {
    match profile.inference.fast {
        Some(wire) => wire,
        None => match profile.protocol {
            ProtocolFamily::OpenAiChat
            | ProtocolFamily::OpenAiResponses
            | ProtocolFamily::GeminiGenerateContent => FastWire::Priority,
            ProtocolFamily::AnthropicMessages => FastWire::Speed,
            _ => FastWire::Unavailable,
        },
    }
}

pub fn fast_wire(profile: &ProviderProfile) -> (result: FastWire)
    ensures
        result == fast_wire_of(*profile),
{
    match profile.inference.fast {
        Some(wire) => wire,
        None => match profile.protocol {
            ProtocolFamily::OpenAiChat => FastWire::Priority,
            ProtocolFamily::OpenAiResponses => FastWire::Priority,
            ProtocolFamily::GeminiGenerateContent => FastWire::Priority,
            ProtocolFamily::AnthropicMessages => FastWire::Speed,
            _ => FastWire::Unavailable,
        },
    }
}

/// What is known of the model on the connection.
pub open spec fn features_of(profile: ProviderProfile, model: Seq<char>) -> FeaturesView {
    features::on_connection(
        match profile::row_for(profile.models@, model, 0) {
            Some(row) => row.features@,
            None => features::no_features(),
        },
        profile.features@,
    )
}

pub fn features(profile: &ProviderProfile, model: &str) -> (result: InferenceFeatures)
    ensures
        result@ == features_of(*profile, model@),
{
    match profile::find_row(&profile.models, model) {
        Some(row) => row.features.on_connection(&profile.features),
        None => InferenceFeatures::default().on_connection(&profile.features),
    }
}

/// The request field of the service tier.
pub open spec fn tier_key(profile: ProviderProfile) -> Seq<char> {
    if fast_wire_of(profile) == FastWire::Speed {
        "speed"@
    } else if profile.protocol == ProtocolFamily::GeminiGenerateContent || profile.protocol
        == ProtocolFamily::VertexGemini {
        "serviceTier"@
    } else {
        "service_tier"@
    }
}

fn gemini_tier(profile: &ProviderProfile) -> (result: bool)
    ensures
        result == (tier_key(*profile) == "serviceTier"@),
{
    proof {
        reveal_strlit("speed");
        reveal_strlit("serviceTier");
        reveal_strlit("service_tier");
        assert("speed"@.len() != "serviceTier"@.len());
        assert("service_tier"@.len() != "serviceTier"@.len());
    }
    fast_wire(profile) != FastWire::Speed && (profile.protocol
        == ProtocolFamily::GeminiGenerateContent || profile.protocol
        == ProtocolFamily::VertexGemini)
}

fn tier_field(profile: &ProviderProfile) -> (result: &'static str)
    ensures
        result@ == tier_key(*profile),
{
    if fast_wire(profile) == FastWire::Speed {
        "speed"
    } else if profile.protocol == ProtocolFamily::GeminiGenerateContent || profile.protocol
        == ProtocolFamily::VertexGemini {
        "serviceTier"
    } else {
        "service_tier"
    }
}

/// The tier that a native name stands for.
pub open spec fn tier_named(raw: Option<Seq<char>>) -> Option<ServiceTier> {
    match raw {
        None => None,
        Some(raw) => if raw == "priority"@ || raw == "fast"@ {
            Some(ServiceTier::Fast)
        } else if raw == "standard"@ || raw == "default"@ || raw == "standard_only"@ {
            Some(ServiceTier::Standard)
        } else {
            None
        },
    }
}

fn tier_from_raw(raw: Option<&str>) -> (result: Option<ServiceTier>)
    ensures
        result == tier_named(raw.deep_view()),
{
    match raw {
        None => None,
        Some(raw) => if text::same(raw, "priority") || text::same(raw, "fast") {
            Some(ServiceTier::Fast)
        } else if text::same(raw, "standard") || text::same(raw, "default") || text::same(
            raw,
            "standard_only",
        ) {
            Some(ServiceTier::Standard)
        } else {
            None
        },
    }
}

/// The body fields that the profile adds.
pub open spec fn extra_body(profile: ProviderProfile) -> JsonView {
    json::at(profile.extra@, "body"@)
}

/// The tier that the profile's body states, if it states one.
pub open spec fn raw_tier_of(profile: ProviderProfile) -> Result<JsonView, LlmErrorView> {
    let body = extra_body(profile);
    let primary = json::at(body, tier_key(profile));
    let alias = if tier_key(profile) == "serviceTier"@ {
        json::at(body, "service_tier"@)
    } else {
        JsonView::Null
    };
    let named = tier_named(json::str_of(primary));
    let same_tier = named is Some && named == tier_named(json::str_of(alias));
    let raw = if primary == JsonView::Null {
        alias
    } else {
        primary
    };
    if primary != JsonView::Null && alias != JsonView::Null && !json::equal(primary, alias)
        && !same_tier {
        Err(error::invalid_view("serviceTier conflicts with service_tier in extra.body"@))
    } else if raw != JsonView::Null && json::str_of(raw) is None {
        Err(error::invalid_view("service tier in extra.body must be a string"@))
    } else {
        Ok(raw)
    }
}

/// The stated tier as text, or nothing. A tier that is no text is an error.
fn raw_tier(profile: &ProviderProfile) -> (result: Result<Option<&str>, LlmError>)
    ensures
        match result {
            Ok(raw) => raw_tier_of(*profile) == Ok::<JsonView, LlmErrorView>(
                match raw.deep_view() {
                    Some(raw) => JsonView::Str(raw),
                    None => JsonView::Null,
                },
            ),
            Err(error) => raw_tier_of(*profile) == Err::<JsonView, LlmErrorView>(error@),
        },
{
    let body = profile.extra.get("body");
    let primary = json::get_in(body, tier_field(profile));
    let alias = if gemini_tier(profile) {
        json::get_in(body, "service_tier")
    } else {
        None
    };
    let named = tier_from_raw(json::text_in(primary));
    let same_tier = named.is_some() && inference::same_tier(
        named,
        tier_from_raw(json::text_in(alias)),
    );
    if let Some(p) = primary {
        if let Some(a) = alias {
            if !json::is_null(primary) && !json::is_null(alias) && !json::same(p, a)
                && !same_tier {
                return Err(
                    error::invalid("serviceTier conflicts with service_tier in extra.body"),
                );
            }
        }
    }
    let raw = if json::is_null(primary) {
        alias
    } else {
        primary
    };
    match raw {
        Some(Json::Str(raw)) => Ok(Some(raw.as_str())),
        Some(Json::Null) => Ok(None),
        None => Ok(None),
        Some(_) => Err(error::invalid("service tier in extra.body must be a string")),
    }
}

pub open spec fn at2(json: JsonView, a: Seq<char>, b: Seq<char>) -> JsonView {
    json::at(json::at(json, a), b)
}

fn get2<'a>(json: Option<&'a Json>, a: &str, b: &str) -> (result: Option<&'a Json>)
    ensures
        json::or_null(result.deep_view()) == at2(json::or_null(json.deep_view()), a@, b@),
{
    json::get_in(json::get_in(json, a), b)
}

pub open spec fn at3(json: JsonView, a: Seq<char>, b: Seq<char>, c: Seq<char>) -> JsonView {
    json::at(at2(json, a, b), c)
}

fn get3<'a>(json: Option<&'a Json>, a: &str, b: &str, c: &str) -> (result: Option<&'a Json>)
    ensures
        json::or_null(result.deep_view()) == at3(json::or_null(json.deep_view()), a@, b@, c@),
{
    json::get_in(get2(json, a, b), c)
}

/// The mode, budget and effort fields of the wire, as the body states them.
pub open spec fn native_controls(wire: ReasoningWire, b: JsonView) -> (
    JsonView,
    JsonView,
    JsonView,
) {
    let none = JsonView::Null;
    match wire {
        ReasoningWire::OpenAiChat => (none, none, json::at(b, "reasoning_effort"@)),
        ReasoningWire::OpenAiResponses => (none, none, at2(b, "reasoning"@, "effort"@)),
        ReasoningWire::Anthropic => (
            at2(b, "thinking"@, "type"@),
            at2(b, "thinking"@, "budget_tokens"@),
            at2(b, "output_config"@, "effort"@),
        ),
        ReasoningWire::Gemini => (
            none,
            at3(b, "generationConfig"@, "thinkingConfig"@, "thinkingBudget"@),
            at3(b, "generationConfig"@, "thinkingConfig"@, "thinkingLevel"@),
        ),
        ReasoningWire::ThinkingType => (
            at2(b, "thinking"@, "type"@),
            at2(b, "thinking"@, "budget_tokens"@),
            json::at(b, "reasoning_effort"@),
        ),
        ReasoningWire::EnableThinking => (
            json::at(b, "enable_thinking"@),
            json::at(b, "thinking_budget"@),
            json::at(b, "reasoning_effort"@),
        ),
        ReasoningWire::ReasoningObject => (
            at2(b, "reasoning"@, "enabled"@),
            at2(b, "reasoning"@, "max_tokens"@),
            at2(b, "reasoning"@, "effort"@),
        ),
        ReasoningWire::Unavailable => (none, none, none),
    }
}

fn find_controls<'a>(wire: ReasoningWire, b: Option<&'a Json>) -> (result: (
    Option<&'a Json>,
    Option<&'a Json>,
    Option<&'a Json>,
))
    ensures
        (
            json::or_null(result.0.deep_view()),
            json::or_null(result.1.deep_view()),
            json::or_null(result.2.deep_view()),
        ) == native_controls(wire, json::or_null(b.deep_view())),
{
    match wire {
        ReasoningWire::OpenAiChat => (None, None, json::get_in(b, "reasoning_effort")),
        ReasoningWire::OpenAiResponses => (None, None, get2(b, "reasoning", "effort")),
        ReasoningWire::Anthropic => (
            get2(b, "thinking", "type"),
            get2(b, "thinking", "budget_tokens"),
            get2(b, "output_config", "effort"),
        ),
        ReasoningWire::Gemini => (
            None,
            get3(b, "generationConfig", "thinkingConfig", "thinkingBudget"),
            get3(b, "generationConfig", "thinkingConfig", "thinkingLevel"),
        ),
        ReasoningWire::ThinkingType => (
            get2(b, "thinking", "type"),
            get2(b, "thinking", "budget_tokens"),
            json::get_in(b, "reasoning_effort"),
        ),
        ReasoningWire::EnableThinking => (
            json::get_in(b, "enable_thinking"),
            json::get_in(b, "thinking_budget"),
            json::get_in(b, "reasoning_effort"),
        ),
        ReasoningWire::ReasoningObject => (
            get2(b, "reasoning", "enabled"),
            get2(b, "reasoning", "max_tokens"),
            get2(b, "reasoning", "effort"),
        ),
        ReasoningWire::Unavailable => (None, None, None),
    }
}

/// The mode that a body field states.
pub open spec fn stated_mode(mode: JsonView) -> Result<Option<ThinkingMode>, LlmErrorView> {
    let bad = error::invalid_view("invalid thinking mode in extra.body"@);
    match mode {
        JsonView::Null => Ok(None),
        JsonView::Bool(true) => Ok(Some(ThinkingMode::Enabled)),
        JsonView::Bool(false) => Ok(Some(ThinkingMode::Disabled)),
        JsonView::Str(name) => match inference::mode_named(name) {
            Some(mode) => Ok(Some(mode)),
            None => Err(bad),
        },
        _ => Err(bad),
    }
}

fn read_mode(mode: Option<&Json>) -> (result: Result<Option<ThinkingMode>, LlmError>)
    ensures
        match result {
            Ok(mode_read) => stated_mode(json::or_null(mode.deep_view())) == Ok::<
                Option<ThinkingMode>,
                LlmErrorView,
            >(mode_read),
            Err(error) => stated_mode(json::or_null(mode.deep_view())) == Err::<
                Option<ThinkingMode>,
                LlmErrorView,
            >(error@),
        },
{
    match mode {
        None => Ok(None),
        Some(Json::Null) => Ok(None),
        Some(Json::Bool(on)) => if *on {
            Ok(Some(ThinkingMode::Enabled))
        } else {
            Ok(Some(ThinkingMode::Disabled))
        },
        Some(Json::Str(name)) => match ThinkingMode::named(name) {
            Some(mode) => Ok(Some(mode)),
            None => Err(error::invalid("invalid thinking mode in extra.body")),
        },
        Some(_) => Err(error::invalid("invalid thinking mode in extra.body")),
    }
}

/// The mode and budget, once a budget field is taken in.
pub open spec fn with_stated_budget(
    mode: Option<ThinkingMode>,
    budget: JsonView,
    wire: ReasoningWire,
) -> Result<(Option<ThinkingMode>, Option<ThinkingBudget>), LlmErrorView> {
    if budget == JsonView::Null {
        Ok((mode, None))
    } else {
        match json::i64_of(budget) {
            Some(n) => if n == -1 && wire == ReasoningWire::Gemini {
                Ok((mode, Some(ThinkingBudget::Dynamic)))
            } else if n == 0 && wire == ReasoningWire::Gemini {
                Ok((Some(ThinkingMode::Disabled), None))
            } else if 0 < n <= u32::MAX {
                Ok((mode, Some(ThinkingBudget::Tokens(n as u32))))
            } else {
                Err(error::invalid_view("invalid thinking budget in extra.body"@))
            },
            None => Err(error::invalid_view("invalid thinking budget in extra.body"@)),
        }
    }
}

/// The effort that a body field states.
pub open spec fn stated_effort(effort: JsonView) -> Result<Option<ReasoningEffort>, LlmErrorView> {
    let bad = error::invalid_view("invalid reasoning effort"@);
    match effort {
        JsonView::Null => Ok(None),
        JsonView::Str(name) => match inference::effort_named(name) {
            Some(effort) => Ok(Some(effort)),
            None => Err(bad),
        },
        _ => Err(bad),
    }
}

fn parse_effort(value: Option<&Json>) -> (result: Result<Option<ReasoningEffort>, LlmError>)
    ensures
        match result {
            Ok(effort) => stated_effort(json::or_null(value.deep_view())) == Ok::<
                Option<ReasoningEffort>,
                LlmErrorView,
            >(effort),
            Err(error) => stated_effort(json::or_null(value.deep_view())) == Err::<
                Option<ReasoningEffort>,
                LlmErrorView,
            >(error@),
        },
{
    match value {
        None => Ok(None),
        Some(Json::Null) => Ok(None),
        Some(Json::Str(name)) => match ReasoningEffort::named(name) {
            Some(effort) => Ok(Some(effort)),
            None => Err(error::invalid("invalid reasoning effort")),
        },
        Some(_) => Err(error::invalid("invalid reasoning effort")),
    }
}

/// What the profile's body states of thinking.
pub open spec fn stated_thinking(profile: ProviderProfile) -> Result<ThinkingConfig, LlmErrorView> {
    let wire = profile.inference.reasoning;
    let (mode, budget, effort) = native_controls(wire, extra_body(profile));
    match stated_mode(mode) {
        Err(error) => Err(error),
        Ok(mode) => match with_stated_budget(mode, budget, wire) {
            Err(error) => Err(error),
            Ok((mode, budget)) => match stated_effort(effort) {
                Err(error) => Err(error),
                Ok(effort) => Ok(ThinkingConfig { mode, budget, effort }),
            },
        },
    }
}

fn read_thinking(profile: &ProviderProfile) -> (result: Result<ThinkingConfig, LlmError>)
    ensures
        match result {
            Ok(config) => stated_thinking(*profile) == Ok::<ThinkingConfig, LlmErrorView>(config),
            Err(error) => stated_thinking(*profile) == Err::<ThinkingConfig, LlmErrorView>(error@),
        },
{
    let wire = profile.inference.reasoning;
    let (mode, budget, effort) = find_controls(wire, profile.extra.get("body"));
    let mut mode = read_mode(mode)?;
    let mut limit: Option<ThinkingBudget> = None;
    if !json::is_null(budget) {
        let n = match budget {
            Some(budget) => budget.as_i64(),
            None => None,
        };
        match n {
            Some(n) => {
                if n == -1 && wire == ReasoningWire::Gemini {
                    limit = Some(ThinkingBudget::Dynamic);
                } else if n == 0 && wire == ReasoningWire::Gemini {
                    mode = Some(ThinkingMode::Disabled);
                } else if 0 < n && n <= 0xffff_ffff {
                    limit = Some(ThinkingBudget::Tokens(n as u32));
                } else {
                    return Err(error::invalid("invalid thinking budget in extra.body"));
                }
            },
            None => return Err(error::invalid("invalid thinking budget in extra.body")),
        }
    }
    let effort = parse_effort(effort)?;
    Ok(ThinkingConfig { mode, budget: limit, effort })
}

/// What is there, once the typed value is taken in: a typed value must not
/// contradict.
pub open spec fn taken<T>(current: Option<T>, typed: Option<T>, field: Seq<char>) -> Result<
    Option<T>,
    LlmErrorView,
> {
    match typed {
        None => Ok(current),
        Some(value) => if current is Some && current->0 != value {
            Err(
                error::invalid_view("typed "@ + field + " conflicts with extra.body"@),
            )
        } else {
            Ok(Some(value))
        },
    }
}

fn conflict(field: &str) -> (error: LlmError)
    ensures
        error@ == error::invalid_view("typed "@ + field@ + " conflicts with extra.body"@),
{
    error::invalid(&text::cat3("typed ", field, " conflicts with extra.body"))
}

fn take_mode(current: Option<ThinkingMode>, typed: Option<ThinkingMode>) -> (result: Result<
    Option<ThinkingMode>,
    LlmError,
>)
    ensures
        match result {
            Ok(mode) => taken(current, typed, "thinking mode"@) == Ok::<
                Option<ThinkingMode>,
                LlmErrorView,
            >(mode),
            Err(error) => taken(current, typed, "thinking mode"@) == Err::<
                Option<ThinkingMode>,
                LlmErrorView,
            >(error@),
        },
{
    match (current, typed) {
        (_, None) => Ok(current),
        (None, Some(value)) => Ok(Some(value)),
        (Some(old), Some(value)) => if old != value {
            Err(conflict("thinking mode"))
        } else {
            Ok(Some(value))
        },
    }
}

fn take_budget(current: Option<ThinkingBudget>, typed: Option<ThinkingBudget>) -> (result: Result<
    Option<ThinkingBudget>,
    LlmError,
>)
    ensures
        match result {
            Ok(budget) => taken(current, typed, "thinking budget"@) == Ok::<
                Option<ThinkingBudget>,
                LlmErrorView,
            >(budget),
            Err(error) => taken(current, typed, "thinking budget"@) == Err::<
                Option<ThinkingBudget>,
                LlmErrorView,
            >(error@),
        },
{
    match (current, typed) {
        (_, None) => Ok(current),
        (None, Some(value)) => Ok(Some(value)),
        (Some(old), Some(value)) => if old != value {
            Err(conflict("thinking budget"))
        } else {
            Ok(Some(value))
        },
    }
}

fn take_effort(current: Option<ReasoningEffort>, typed: Option<ReasoningEffort>) -> (result: Result<
    Option<ReasoningEffort>,
    LlmError,
>)
    ensures
        match result {
            Ok(effort) => taken(current, typed, "reasoning effort"@) == Ok::<
                Option<ReasoningEffort>,
                LlmErrorView,
            >(effort),
            Err(error) => taken(current, typed, "reasoning effort"@) == Err::<
                Option<ReasoningEffort>,
                LlmErrorView,
            >(error@),
        },
{
    match (current, typed) {
        (_, None) => Ok(current),
        (None, Some(value)) => Ok(Some(value)),
        (Some(old), Some(value)) => if old != value {
            Err(conflict("reasoning effort"))
        } else {
            Ok(Some(value))
        },
    }
}

/// The thinking controls of a request: those of the profile's body and the typed
/// ones, which must not contradict them.
pub open spec fn thinking_of(req: CompletionRequest, profile: ProviderProfile) -> Result<
    ThinkingConfig,
    LlmErrorView,
> {
    match stated_thinking(profile) {
        Err(error) => Err(error),
        Ok(stated) => match req.thinking {
            None => Ok(stated),
            Some(typed) => match taken(stated.mode, typed.mode, "thinking mode"@) {
                Err(error) => Err(error),
                Ok(mode) => match taken(stated.budget, typed.budget, "thinking budget"@) {
                    Err(error) => Err(error),
                    Ok(budget) => match taken(stated.effort, typed.effort, "reasoning effort"@) {
                        Err(error) => Err(error),
                        Ok(effort) => Ok(ThinkingConfig { mode, budget, effort }),
                    },
                },
            },
        },
    }
}

/// The service tier of a request: that of the profile's body and the typed one,
/// which must not contradict it.
pub open spec fn tier_of(req: CompletionRequest, profile: ProviderProfile) -> Result<
    Option<ServiceTier>,
    LlmErrorView,
> {
    match raw_tier_of(profile) {
        Err(error) => Err(error),
        Ok(raw) => {
            let stated = tier_named(json::str_of(raw));
            if req.service_tier is Some && raw != JsonView::Null && stated != req.service_tier {
                Err(error::invalid_view("typed service tier conflicts with extra.body"@))
            } else if req.service_tier is Some {
                Ok(req.service_tier)
            } else {
                Ok(stated)
            }
        },
    }
}

/// The thinking controls and the service tier of a request.
pub open spec fn controls_of(req: CompletionRequest, profile: ProviderProfile) -> Result<
    (ThinkingConfig, Option<ServiceTier>),
    LlmErrorView,
> {
    match thinking_of(req, profile) {
        Err(error) => Err(error),
        Ok(thinking) => match tier_of(req, profile) {
            Err(error) => Err(error),
            Ok(tier) => Ok((thinking, tier)),
        },
    }
}

/// Recognizes existing body defaults, so that typed controls cannot contradict
/// them and what they cost is known.
pub fn controls(req: &CompletionRequest, profile: &ProviderProfile) -> (result: Result<
    (ThinkingConfig, Option<ServiceTier>),
    LlmError,
>)
    ensures
        match result {
            Ok(found) => controls_of(*req, *profile) == Ok::<
                (ThinkingConfig, Option<ServiceTier>),
                LlmErrorView,
            >(found),
            Err(error) => controls_of(*req, *profile) == Err::<
                (ThinkingConfig, Option<ServiceTier>),
                LlmErrorView,
            >(error@),
        },
{
    let mut config = read_thinking(profile)?;
    if let Some(typed) = &req.thinking {
        let mode = take_mode(config.mode, typed.mode)?;
        let budget = take_budget(config.budget, typed.budget)?;
        let effort = take_effort(config.effort, typed.effort)?;
        config = ThinkingConfig { mode, budget, effort };
    }
    let raw = raw_tier(profile)?;
    let stated = tier_from_raw(raw);
    if req.service_tier.is_some() {
        if raw.is_some() && !inference::same_tier(stated, req.service_tier) {
            return Err(error::invalid("typed service tier conflicts with extra.body"));
        }
        Ok((config, req.service_tier))
    } else {
        Ok((config, stated))
    }
}

/// The texts that are not blank, trimmed, from the `i`th on.
pub open spec fn nonblank(texts: Seq<Seq<char>>, i: int, before: Seq<Seq<char>>) -> Seq<Seq<char>>
    decreases texts.len() - i,
{
    if i < 0 || i >= texts.len() {
        before
    } else {
        let beta = text::trimmed(texts[i]);
        nonblank(
            texts,
            i + 1,
            if beta.len() == 0 {
                before
            } else {
                before.push(beta)
            },
        )
    }
}

fn push_nonblank(texts: &Vec<String>, out: &mut Vec<String>)
    ensures
        final(out).deep_view() == nonblank(texts.deep_view(), 0, old(out).deep_view()),
{
    let mut i: usize = 0;
    while i < texts.len()
        invariant
            i <= texts.len(),
            nonblank(texts.deep_view(), 0, old(out).deep_view()) == nonblank(
                texts.deep_view(),
                i as int,
                out.deep_view(),
            ),
        decreases texts.len() - i,
    {
        assert(texts.deep_view()[i as int] == texts@[i as int]@);
        let beta = text::trim(&texts[i]);
        if !text::is_empty(&beta) {
            out.push(beta);
        }
        i = i + 1;
    }
}

/// The texts among the items, trimmed and not blank, from the `i`th on.
pub open spec fn listed_betas(items: Seq<JsonView>, i: int, before: Seq<Seq<char>>) -> Seq<Seq<char>>
    decreases items.len() - i,
{
    if i < 0 || i >= items.len() {
        before
    } else {
        match json::str_of(items[i]) {
            Some(s) => listed_betas(
                items,
                i + 1,
                if text::trimmed(s).len() == 0 {
                    before
                } else {
                    before.push(text::trimmed(s))
                },
            ),
            None => listed_betas(items, i + 1, before),
        }
    }
}

/// The betas of the configured beta headers, from the `i`th on.
pub open spec fn header_betas(headers: Entries, i: int, before: Seq<Seq<char>>) -> Seq<Seq<char>>
    decreases headers.len() - i,
{
    if i < 0 || i >= headers.len() {
        before
    } else if text::lower(headers[i].0) == text::lower("anthropic-beta"@) {
        match json::str_of(headers[i].1) {
            Some(value) => header_betas(
                headers,
                i + 1,
                nonblank(text::parts(value, ','), 0, before),
            ),
            None => header_betas(headers, i + 1, before),
        }
    } else {
        header_betas(headers, i + 1, before)
    }
}

/// The betas that a profile asks for, in its list and in its headers.
pub open spec fn betas_of(profile: ProviderProfile) -> Seq<Seq<char>> {
    let listed = match json::array_of(json::at(profile.extra@, "betas"@)) {
        Some(items) => listed_betas(items, 0, Seq::empty()),
        None => Seq::empty(),
    };
    match json::entries_of(json::at(profile.extra@, "headers"@)) {
        Some(headers) => header_betas(headers, 0, listed),
        None => listed,
    }
}

pub fn beta_headers(profile: &ProviderProfile) -> (result: Vec<String>)
    ensures
        result.deep_view() == betas_of(*profile),
{
    let mut out: Vec<String> = Vec::new();
    if let Some(betas) = profile.extra.get("betas") {
        if let Some(items) = betas.as_array() {
            let mut i: usize = 0;
            while i < items.len()
                invariant
                    i <= items.len(),
                    listed_betas(items.deep_view(), 0, Seq::empty()) == listed_betas(
                        items.deep_view(),
                        i as int,
                        out.deep_view(),
                    ),
                decreases items.len() - i,
            {
                assert(items.deep_view()[i as int] == items@[i as int]@);
                if let Some(s) = items[i].as_str() {
                    let beta = text::trim(s);
                    if !text::is_empty(&beta) {
                        out.push(beta);
                    }
                }
                i = i + 1;
            }
        }
    }
    let ghost listed = out.deep_view();
    if let Some(headers) = profile.extra.get("headers") {
        if let Some(headers) = headers.as_object() {
            let mut i: usize = 0;
            while i < headers.len()
                invariant
                    i <= headers.len(),
                    header_betas(headers.deep_view(), 0, listed) == header_betas(
                        headers.deep_view(),
                        i as int,
                        out.deep_view(),
                    ),
                decreases headers.len() - i,
            {
                assert(headers.deep_view()[i as int] == headers@[i as int].deep_view());
                if text::same_ignoring_case(&headers[i].0, "anthropic-beta") {
                    if let Some(value) = headers[i].1.as_str() {
                        push_nonblank(&text::split(value, ','), &mut out);
                    }
                }
                i = i + 1;
            }
        }
    }
    out
}

/// What the controls come to on the wire.
pub open spec fn effective(thinking: ThinkingConfig, wire: ReasoningWire) -> ThinkingConfig {
    let mode = match thinking.mode {
        Some(mode) => Some(mode),
        None => if thinking.budget is Some {
            Some(ThinkingMode::Enabled)
        } else {
            None
        },
    };
    let budget = if wire == ReasoningWire::Gemini && thinking.budget is None
        && thinking.effort is None && (mode == Some(ThinkingMode::Enabled) || mode == Some(
        ThinkingMode::Adaptive,
    )) {
        Some(ThinkingBudget::Dynamic)
    } else {
        thinking.budget
    };
    let effort = if (wire == ReasoningWire::OpenAiChat || wire == ReasoningWire::OpenAiResponses)
        && mode == Some(ThinkingMode::Disabled) && thinking.effort is None {
        Some(ReasoningEffort::Off)
    } else {
        thinking.effort
    };
    ThinkingConfig { mode, budget, effort }
}

fn is_mode(mode: Option<ThinkingMode>, wanted: ThinkingMode) -> (result: bool)
    ensures
        result == (mode == Some(wanted)),
{
    match mode {
        Some(mode) => mode == wanted,
        None => false,
    }
}

pub fn effective_thinking(thinking: ThinkingConfig, wire: ReasoningWire) -> (result: ThinkingConfig)
    ensures
        result == effective(thinking, wire),
{
    let mode = match thinking.mode {
        Some(mode) => Some(mode),
        None => if thinking.budget.is_some() {
            Some(ThinkingMode::Enabled)
        } else {
            None
        },
    };
    let budget = if wire == ReasoningWire::Gemini && thinking.budget.is_none()
        && thinking.effort.is_none() && (is_mode(mode, ThinkingMode::Enabled) || is_mode(
        mode,
        ThinkingMode::Adaptive,
    )) {
        Some(ThinkingBudget::Dynamic)
    } else {
        thinking.budget
    };
    let effort = if (wire == ReasoningWire::OpenAiChat || wire == ReasoningWire::OpenAiResponses)
        && is_mode(mode, ThinkingMode::Disabled) && thinking.effort.is_none() {
        Some(ReasoningEffort::Off)
    } else {
        thinking.effort
    };
    ThinkingConfig { mode, budget, effort }
}

/// The first of two errors.
pub open spec fn first(a: Option<LlmErrorView>, b: Option<LlmErrorView>) -> Option<LlmErrorView> {
    if a is Some {
        a
    } else {
        b
    }
}

/// What the model on the connection does not support.
pub open spec fn rejection(profile: ProviderProfile, model: Seq<char>, what: Seq<char>) -> LlmErrorView {
    error::unsupported_view(
        text::debug_text(model) + " on "@ + text::debug_text(profile.profile_name@)
            + " does not support "@ + what,
    )
}

fn reject(profile: &ProviderProfile, model: &str, what: &str) -> (error: LlmError)
    ensures
        error@ == rejection(*profile, model@, what@),
{
    error::unsupported(
        &text::cat5(
            &text::debug(model),
            " on ",
            &text::debug(&profile.profile_name),
            " does not support ",
            what,
        ),
    )
}

/// What speaks against the mode.
pub open spec fn mode_error(
    t: ThinkingConfig,
    f: FeaturesView,
    profile: ProviderProfile,
    model: Seq<char>,
) -> Option<LlmErrorView> {
    let wire = profile.inference.reasoning;
    if wire == ReasoningWire::Unavailable && (t.mode is Some || t.budget is Some || t.effort is Some) {
        Some(rejection(profile, model, "a verified reasoning control mapping"@))
    } else if t.mode == Some(ThinkingMode::Adaptive) && wire != ReasoningWire::Anthropic && wire
        != ReasoningWire::Gemini {
        Some(rejection(profile, model, "adaptive thinking on this wire"@))
    } else {
        match t.mode {
            None => None,
            Some(mode) => {
                let said = match t.effort {
                    Some(effort) => f.effort_conflict(Some(mode), effort),
                    None => None,
                };
                if mode == ThinkingMode::Disabled && t.budget is Some {
                    Some(error::invalid_view("disabled thinking cannot have a budget"@))
                } else if said is Some {
                    Some(error::invalid_view(said->0))
                } else if f.mode_fact(mode) == CapabilitySupport::Unsupported {
                    Some(rejection(profile, model, "the requested thinking mode"@))
                } else {
                    None
                }
            },
        }
    }
}

fn check_mode(
    t: &ThinkingConfig,
    f: &InferenceFeatures,
    profile: &ProviderProfile,
    model: &str,
) -> (result: Result<(), LlmError>)
    ensures
        views::res(result) == codecs::checked(mode_error(*t, f@, *profile, model@)),
{
    let wire = profile.inference.reasoning;
    if wire == ReasoningWire::Unavailable && (t.mode.is_some() || t.budget.is_some()
        || t.effort.is_some()) {
        return Err(reject(profile, model, "a verified reasoning control mapping"));
    }
    if is_mode(t.mode, ThinkingMode::Adaptive) && wire != ReasoningWire::Anthropic && wire
        != ReasoningWire::Gemini {
        return Err(reject(profile, model, "adaptive thinking on this wire"));
    }
    if let Some(mode) = t.mode {
        if mode == ThinkingMode::Disabled && t.budget.is_some() {
            return Err(error::invalid("disabled thinking cannot have a budget"));
        }
        if let Some(effort) = t.effort {
            if let Some(message) = f.effort_mode_error(Some(mode), effort) {
                return Err(error::invalid(&message));
            }
        }
        if f.supports_mode(mode) == CapabilitySupport::Unsupported {
            return Err(reject(profile, model, "the requested thinking mode"));
        }
    }
    Ok(())
}

/// The effort that counts: the requested one, or the default where it does not
/// contradict the mode. An explicit mode can override a default that denotes the
/// opposite mode.
pub open spec fn counted_effort(t: ThinkingConfig, f: FeaturesView) -> Option<ReasoningEffort> {
    match t.effort {
        Some(effort) => Some(effort),
        None => match f.default_effort {
            Some(effort) => if f.effort_conflict(t.mode, effort) is None {
                Some(effort)
            } else {
                None
            },
            None => None,
        },
    }
}

/// What speaks against the effort.
pub open spec fn effort_error(
    t: ThinkingConfig,
    f: FeaturesView,
    profile: ProviderProfile,
    model: Seq<char>,
) -> Option<LlmErrorView> {
    match counted_effort(t, f) {
        Some(effort) => if f.effort_fact(t.mode, effort) == CapabilitySupport::Unsupported {
            Some(rejection(profile, model, "the requested effort"@))
        } else {
            None
        },
        None => None,
    }
}

fn check_effort(
    t: &ThinkingConfig,
    f: &InferenceFeatures,
    profile: &ProviderProfile,
    model: &str,
) -> (result: Result<(), LlmError>)
    ensures
        views::res(result) == codecs::checked(effort_error(*t, f@, *profile, model@)),
{
    let effort = match t.effort {
        Some(effort) => Some(effort),
        None => match f.default_effort {
            Some(effort) => if f.effort_mode_error(t.mode, effort).is_none() {
                Some(effort)
            } else {
                None
            },
            None => None,
        },
    };
    if let Some(effort) = effort {
        if f.supports_effort(t.mode, effort) == CapabilitySupport::Unsupported {
            return Err(reject(profile, model, "the requested effort"));
        }
    }
    Ok(())
}

/// Whether a temperature is one.
pub open spec fn is_one(n: NumberView) -> bool {
    n == NumberView::PosInt(1) || n == NumberView::Float("1.0"@)
}

fn one(n: &Number) -> (result: bool)
    ensures
        result == is_one(n@),
{
    match n {
        Number::PosInt(n) => *n == 1,
        Number::NegInt(_) => false,
        Number::Float(t) => text::same(t, "1.0"),
    }
}

/// Whether manual thinking has to come with a budget.
pub open spec fn budget_required(profile: ProviderProfile) -> bool {
    profile.inference.enabled_requires_budget != Some(false)
}

fn requires_budget(profile: &ProviderProfile) -> (result: bool)
    ensures
        result == budget_required(*profile),
{
    match profile.inference.enabled_requires_budget {
        Some(required) => required,
        None => true,
    }
}

/// Whether thinking goes on between tool calls.
pub open spec fn interleaved(req: CompletionRequest, profile: ProviderProfile) -> bool {
    req.tools@.len() > 0 && betas_of(profile).contains("interleaved-thinking-2025-05-14"@)
}

fn is_interleaved(req: &CompletionRequest, profile: &ProviderProfile) -> (result: bool)
    ensures
        result == interleaved(*req, *profile),
{
    if req.tools.len() == 0 {
        return false;
    }
    let betas = beta_headers(profile);
    let ghost wanted = "interleaved-thinking-2025-05-14"@;
    let mut i: usize = 0;
    while i < betas.len()
        invariant
            i <= betas.len(),
            wanted == "interleaved-thinking-2025-05-14"@,
            betas.deep_view() == betas_of(*profile),
            req.tools@.len() > 0,
            forall|k: int| 0 <= k < i ==> betas.deep_view()[k] != wanted,
        decreases betas.len() - i,
    {
        assert(betas.deep_view()[i as int] == betas@[i as int]@);
        if text::same(&betas[i], "interleaved-thinking-2025-05-14") {
            assert(betas_of(*profile).contains(wanted));
            return true;
        }
        i = i + 1;
    }
    false
}

/// What speaks against a budget in tokens.
pub open spec fn tokens_error(
    n: u32,
    t: ThinkingConfig,
    req: CompletionRequest,
    f: FeaturesView,
    profile: ProviderProfile,
) -> Option<LlmErrorView> {
    let limit = match req.max_tokens {
        Some(max) => max,
        None => 4096u32,
    };
    if n == 0 || (f.min_budget is Some && n < f.min_budget->0) || (f.max_budget is Some && n
        > f.max_budget->0) {
        Some(
            error::invalid_view(
                "thinking budget is outside the supported range; use disabled mode to turn thinking off"@,
            ),
        )
    } else if profile.inference.reasoning != ReasoningWire::Anthropic {
        None
    } else if req.temperature is Some && !is_one(req.temperature->0@) && budget_required(profile) {
        Some(
            error::invalid_view(
                "manual thinking requires temperature 1 when temperature is specified"@,
            ),
        )
    } else if n < 1024 || (!interleaved(req, profile) && n >= limit) {
        Some(
            error::invalid_view(
                "manual thinking needs at least 1024 tokens and a budget below max_tokens (except enabled interleaved thinking)"@,
            ),
        )
    } else if t.mode == Some(ThinkingMode::Adaptive) {
        Some(error::invalid_view("adaptive thinking cannot have a manual budget"@))
    } else {
        None
    }
}

fn check_tokens(
    n: u32,
    t: &ThinkingConfig,
    req: &CompletionRequest,
    f: &InferenceFeatures,
    profile: &ProviderProfile,
) -> (result: Result<(), LlmError>)
    ensures
        views::res(result) == codecs::checked(tokens_error(n, *t, *req, f@, *profile)),
{
    let below = match f.min_budget {
        Some(min) => n < min,
        None => false,
    };
    let above = match f.max_budget {
        Some(max) => n > max,
        None => false,
    };
    if n == 0 || below || above {
        return Err(
            error::invalid(
                "thinking budget is outside the supported range; use disabled mode to turn thinking off",
            ),
        );
    }
    if profile.inference.reasoning != ReasoningWire::Anthropic {
        return Ok(());
    }
    let warm = match &req.temperature {
        Some(temperature) => !one(temperature),
        None => false,
    };
    if warm && requires_budget(profile) {
        return Err(
            error::invalid("manual thinking requires temperature 1 when temperature is specified"),
        );
    }
    let limit = match req.max_tokens {
        Some(max) => max,
        None => 4096,
    };
    if n < 1024 || (!is_interleaved(req, profile) && n >= limit) {
        return Err(
            error::invalid(
                "manual thinking needs at least 1024 tokens and a budget below max_tokens (except enabled interleaved thinking)",
            ),
        );
    }
    if is_mode(t.mode, ThinkingMode::Adaptive) {
        return Err(error::invalid("adaptive thinking cannot have a manual budget"));
    }
    Ok(())
}

/// What speaks against the budget.
pub open spec fn budget_error(
    t: ThinkingConfig,
    req: CompletionRequest,
    f: FeaturesView,
    profile: ProviderProfile,
    model: Seq<char>,
) -> Option<LlmErrorView> {
    let wire = profile.inference.reasoning;
    match t.budget {
        None => None,
        Some(budget) => {
            let bounds = match budget {
                ThinkingBudget::Dynamic => if wire != ReasoningWire::Gemini || f.dynamic_budget
                    == CapabilitySupport::Unsupported {
                    Some(rejection(profile, model, "dynamic thinking budgets"@))
                } else {
                    None
                },
                ThinkingBudget::Tokens(n) => tokens_error(n, t, req, f, profile),
            };
            if f.thinking == CapabilitySupport::Unsupported {
                Some(rejection(profile, model, "thinking"@))
            } else if f.budget == CapabilitySupport::Unsupported {
                Some(rejection(profile, model, "a thinking token budget"@))
            } else if bounds is Some {
                bounds
            } else if wire == ReasoningWire::OpenAiChat || wire == ReasoningWire::OpenAiResponses
                || wire == ReasoningWire::ThinkingType || wire == ReasoningWire::Unavailable {
                Some(rejection(profile, model, "a numeric thinking budget on this wire"@))
            } else if t.effort is Some && (wire == ReasoningWire::Gemini || wire
                == ReasoningWire::ReasoningObject) {
                Some(
                    error::invalid_view(
                        "this wire accepts either a budget or an effort, not both"@,
                    ),
                )
            } else {
                None
            }
        },
    }
}

fn check_budget(
    t: &ThinkingConfig,
    req: &CompletionRequest,
    f: &InferenceFeatures,
    profile: &ProviderProfile,
    model: &str,
) -> (result: Result<(), LlmError>)
    ensures
        views::res(result) == codecs::checked(budget_error(*t, *req, f@, *profile, model@)),
{
    let wire = profile.inference.reasoning;
    let budget = match t.budget {
        Some(budget) => budget,
        None => return Ok(()),
    };
    if f.thinking == CapabilitySupport::Unsupported {
        return Err(reject(profile, model, "thinking"));
    }
    if f.budget == CapabilitySupport::Unsupported {
        return Err(reject(profile, model, "a thinking token budget"));
    }
    match budget {
        ThinkingBudget::Dynamic => {
            if wire != ReasoningWire::Gemini || f.dynamic_budget == CapabilitySupport::Unsupported {
                return Err(reject(profile, model, "dynamic thinking budgets"));
            }
        },
        ThinkingBudget::Tokens(n) => {
            check_tokens(n, t, req, f, profile)?;
        },
    }
    if wire == ReasoningWire::OpenAiChat || wire == ReasoningWire::OpenAiResponses || wire
        == ReasoningWire::ThinkingType || wire == ReasoningWire::Unavailable {
        return Err(reject(profile, model, "a numeric thinking budget on this wire"));
    }
    if t.effort.is_some() && (wire == ReasoningWire::Gemini || wire
        == ReasoningWire::ReasoningObject) {
        return Err(error::invalid("this wire accepts either a budget or an effort, not both"));
    }
    Ok(())
}

/// What a wire lacks to enable thinking.
pub open spec fn enabling_error(t: ThinkingConfig, profile: ProviderProfile) -> Option<LlmErrorView> {
    let wire = profile.inference.reasoning;
    if t.mode == Some(ThinkingMode::Enabled) && t.effort is None && (wire
        == ReasoningWire::OpenAiChat || wire == ReasoningWire::OpenAiResponses) {
        Some(
            error::invalid_view("an explicit effort is required to enable reasoning on this wire"@),
        )
    } else if wire == ReasoningWire::Anthropic && t.mode == Some(ThinkingMode::Enabled)
        && t.budget is None && budget_required(profile) {
        Some(
            error::invalid_view(
                "manual thinking requires a budget; use adaptive mode on models that support it"@,
            ),
        )
    } else {
        None
    }
}

fn check_enabling(t: &ThinkingConfig, profile: &ProviderProfile) -> (result: Result<(), LlmError>)
    ensures
        views::res(result) == codecs::checked(enabling_error(*t, *profile)),
{
    let wire = profile.inference.reasoning;
    if is_mode(t.mode, ThinkingMode::Enabled) && t.effort.is_none() && (wire
        == ReasoningWire::OpenAiChat || wire == ReasoningWire::OpenAiResponses) {
        return Err(
            error::invalid("an explicit effort is required to enable reasoning on this wire"),
        );
    }
    if wire == ReasoningWire::Anthropic && is_mode(t.mode, ThinkingMode::Enabled)
        && t.budget.is_none() && requires_budget(profile) {
        return Err(
            error::invalid(
                "manual thinking requires a budget; use adaptive mode on models that support it",
            ),
        );
    }
    Ok(())
}

/// What speaks against the service tier.
pub open spec fn tier_error(
    tier: Option<ServiceTier>,
    f: FeaturesView,
    profile: ProviderProfile,
    model: Seq<char>,
) -> Option<LlmErrorView> {
    if tier is Some && (fast_wire_of(profile) == FastWire::Unavailable || (tier == Some(
        ServiceTier::Fast,
    ) && f.fast == CapabilitySupport::Unsupported)) {
        Some(rejection(profile, model, "the requested service tier"@))
    } else {
        None
    }
}

/// Whether a tool has to be called.
pub open spec fn forces_tool(req: CompletionRequest) -> bool {
    req.tools@.len() > 0 && (req.tool_choice is Any || req.tool_choice is Tool)
}

/// What speaks against a forced tool call.
pub open spec fn forced_error(
    t: ThinkingConfig,
    req: CompletionRequest,
    f: FeaturesView,
    profile: ProviderProfile,
    model: Seq<char>,
) -> Option<LlmErrorView> {
    let mode = match t.mode {
        Some(mode) => Some(mode),
        None => f.default_mode,
    };
    let manual = profile.inference.reasoning == ReasoningWire::Anthropic && budget_required(profile)
        && mode == Some(ThinkingMode::Enabled);
    let unsupported = manual || (mode is Some && f.forced_tool_choice.of(mode->0)
        == CapabilitySupport::Unsupported);
    let disabled = mode == Some(ThinkingMode::Disabled) || t.effort == Some(ReasoningEffort::Off);
    if (unsupported || profile::flag_of(profile, "thinking_rejects_forced_tool_choice"@))
        && forces_tool(req) && (unsupported || !disabled) {
        Some(rejection(profile, model, "forced tool choice while thinking is enabled"@))
    } else {
        None
    }
}

fn check_forced(
    t: &ThinkingConfig,
    req: &CompletionRequest,
    f: &InferenceFeatures,
    profile: &ProviderProfile,
    model: &str,
) -> (result: Result<(), LlmError>)
    ensures
        views::res(result) == codecs::checked(forced_error(*t, *req, f@, *profile, model@)),
{
    let mode = match t.mode {
        Some(mode) => Some(mode),
        None => f.default_mode,
    };
    let manual = profile.inference.reasoning == ReasoningWire::Anthropic && requires_budget(profile)
        && is_mode(mode, ThinkingMode::Enabled);
    let refused = match mode {
        Some(mode) => f.supports_forced_tool_choice(mode) == CapabilitySupport::Unsupported,
        None => false,
    };
    let unsupported = manual || refused;
    let forced = match &req.tool_choice {
        ToolChoice::Any => true,
        ToolChoice::Tool { .. } => true,
        _ => false,
    };
    let off = match t.effort {
        Some(effort) => effort == ReasoningEffort::Off,
        None => false,
    };
    let disabled = is_mode(mode, ThinkingMode::Disabled) || off;
    if (unsupported || profile::flag(profile, "thinking_rejects_forced_tool_choice"))
        && req.tools.len() > 0 && forced && (unsupported || !disabled) {
        return Err(reject(profile, model, "forced tool choice while thinking is enabled"));
    }
    Ok(())
}

/// What speaks against the controls, if anything, in the order of the checks.
pub open spec fn control_error(
    t: ThinkingConfig,
    tier: Option<ServiceTier>,
    req: CompletionRequest,
    profile: ProviderProfile,
    model: Seq<char>,
) -> Option<LlmErrorView> {
    let f = features_of(profile, model);
    first(
        mode_error(t, f, profile, model),
        first(
            effort_error(t, f, profile, model),
            first(
                budget_error(t, req, f, profile, model),
                first(
                    enabling_error(t, profile),
                    first(
                        tier_error(tier, f, profile, model),
                        forced_error(t, req, f, profile, model),
                    ),
                ),
            ),
        ),
    )
}

/// What speaks against a request's controls, if anything.
pub open spec fn validation_error(
    req: CompletionRequest,
    profile: ProviderProfile,
    model: Seq<char>,
) -> Option<LlmErrorView> {
    match controls_of(req, profile) {
        Err(error) => Some(error),
        Ok((thinking, tier)) => control_error(
            effective(thinking, profile.inference.reasoning),
            tier,
            req,
            profile,
            model,
        ),
    }
}

pub fn validate(req: &CompletionRequest, profile: &ProviderProfile, model: &str) -> (result: Result<
    (),
    LlmError,
>)
    ensures
        views::res(result) == codecs::checked(validation_error(*req, *profile, model@)),
{
    let (thinking, tier) = controls(req, profile)?;
    let f = &features(profile, model);
    let t = effective_thinking(thinking, profile.inference.reasoning);
    check_mode(&t, f, profile, model)?;
    check_effort(&t, f, profile, model)?;
    check_budget(&t, req, f, profile, model)?;
    check_enabling(&t, profile)?;
    if let Some(tier) = tier {
        if fast_wire(profile) == FastWire::Unavailable || (tier == ServiceTier::Fast && f.fast
            == CapabilitySupport::Unsupported) {
            return Err(reject(profile, model, "the requested service tier"));
        }
    }
    check_forced(&t, req, f, profile, model)
}

pub open spec fn effort_json(effort: ReasoningEffort) -> JsonView {
    JsonView::Str(inference::effort_name(effort))
}

fn effort_value(effort: ReasoningEffort) -> (json: Json)
    ensures
        json@ == effort_json(effort),
{
    json::string(effort.as_str())
}

pub open spec fn mode_json(mode: ThinkingMode) -> JsonView {
    JsonView::Str(inference::mode_name(mode))
}

fn mode_value(mode: ThinkingMode) -> (json: Json)
    ensures
        json@ == mode_json(mode),
{
    json::string(mode.as_str())
}

/// The tokens of a budget that has some.
pub open spec fn budget_tokens(budget: Option<ThinkingBudget>) -> Option<JsonView> {
    match budget {
        Some(ThinkingBudget::Tokens(n)) => Some(json::uint_view(n as u64)),
        _ => None,
    }
}

fn put_tokens(fields: &mut Vec<(String, Json)>, key: &str, budget: Option<ThinkingBudget>)
    ensures
        final(fields).deep_view() == json::put_some(
            old(fields).deep_view(),
            key@,
            budget_tokens(budget),
        ),
{
    if let Some(ThinkingBudget::Tokens(n)) = budget {
        json::set(fields, key, json::uint(n as u64));
    }
}

fn put_effort(fields: &mut Vec<(String, Json)>, key: &str, effort: Option<ReasoningEffort>)
    ensures
        final(fields).deep_view() == json::put_some(
            old(fields).deep_view(),
            key@,
            some_effort(effort),
        ),
{
    if let Some(effort) = effort {
        json::set(fields, key, effort_value(effort));
    }
}

pub open spec fn some_effort(effort: Option<ReasoningEffort>) -> Option<JsonView> {
    match effort {
        Some(effort) => Some(effort_json(effort)),
        None => None,
    }
}

pub open spec fn some_mode(mode: Option<ThinkingMode>) -> Option<JsonView> {
    match mode {
        Some(mode) => Some(mode_json(mode)),
        None => None,
    }
}

fn put_mode(fields: &mut Vec<(String, Json)>, key: &str, mode: Option<ThinkingMode>)
    ensures
        final(fields).deep_view() == json::put_some(
            old(fields).deep_view(),
            key@,
            some_mode(mode),
        ),
{
    if let Some(mode) = mode {
        json::set(fields, key, mode_value(mode));
    }
}

/// Whether the mode turns thinking on, where it says anything.
pub open spec fn some_on(mode: Option<ThinkingMode>) -> Option<JsonView> {
    match mode {
        Some(mode) => Some(JsonView::Bool(mode != ThinkingMode::Disabled)),
        None => None,
    }
}

fn put_on(fields: &mut Vec<(String, Json)>, key: &str, mode: Option<ThinkingMode>)
    ensures
        final(fields).deep_view() == json::put_some(old(fields).deep_view(), key@, some_on(mode)),
{
    if let Some(mode) = mode {
        json::set(fields, key, Json::Bool(mode != ThinkingMode::Disabled));
    }
}

/// The object, unless it is empty.
pub open spec fn unless_empty(fields: Entries) -> Option<JsonView> {
    if fields.len() == 0 {
        None
    } else {
        Some(JsonView::Object(fields))
    }
}

fn put_object(fields: &mut Vec<(String, Json)>, key: &str, object: Vec<(String, Json)>)
    ensures
        final(fields).deep_view() == json::put_some(
            old(fields).deep_view(),
            key@,
            unless_empty(object.deep_view()),
        ),
{
    if object.len() > 0 {
        json::set(fields, key, Json::Object(object));
    }
}

/// Gemini's thinking object.
pub open spec fn gemini_config(t: ThinkingConfig, profile: ProviderProfile) -> Entries {
    let none = Seq::<(Seq<char>, JsonView)>::empty();
    let off = if t.mode == Some(ThinkingMode::Disabled) {
        json::put(none, "thinkingBudget"@, json::uint_view(0))
    } else {
        none
    };
    let budgeted = match t.budget {
        Some(ThinkingBudget::Tokens(n)) => json::put(
            off,
            "thinkingBudget"@,
            json::uint_view(n as u64),
        ),
        Some(ThinkingBudget::Dynamic) => json::put(
            off,
            "thinkingBudget"@,
            JsonView::Number(NumberView::NegInt((-1i64) as i64)),
        ),
        None => off,
    };
    let config = json::put_some(budgeted, "thinkingLevel"@, some_effort(t.effort));
    if config.len() > 0 && json::member(
        at2(extra_body(profile), "generationConfig"@, "thinkingConfig"@),
        "includeThoughts"@,
    ) is None {
        json::put(config, "includeThoughts"@, JsonView::Bool(true))
    } else {
        config
    }
}

fn gemini_fields(t: &ThinkingConfig, profile: &ProviderProfile) -> (config: Vec<(String, Json)>)
    ensures
        config.deep_view() == gemini_config(*t, *profile),
{
    let mut config = json::fields();
    if is_mode(t.mode, ThinkingMode::Disabled) {
        json::set(&mut config, "thinkingBudget", json::uint(0));
    }
    match t.budget {
        Some(ThinkingBudget::Tokens(n)) => {
            json::set(&mut config, "thinkingBudget", json::uint(n as u64));
        },
        Some(ThinkingBudget::Dynamic) => {
            json::set(&mut config, "thinkingBudget", Json::Number(Number::NegInt(-1)));
        },
        None => {},
    }
    put_effort(&mut config, "thinkingLevel", t.effort);
    if config.len() > 0 && json::get_in(
        get2(profile.extra.get("body"), "generationConfig", "thinkingConfig"),
        "includeThoughts",
    ).is_none() {
        json::set(&mut config, "includeThoughts", Json::Bool(true));
    }
    config
}

/// The body fields of the thinking controls.
pub open spec fn thinking_fields(t: ThinkingConfig, profile: ProviderProfile) -> Entries {
    let none = Seq::<(Seq<char>, JsonView)>::empty();
    match profile.inference.reasoning {
        ReasoningWire::OpenAiChat => json::put_some(
            none,
            "reasoning_effort"@,
            some_effort(openai_effort(t)),
        ),
        ReasoningWire::OpenAiResponses => json::put_some(
            none,
            "reasoning"@,
            unless_empty(json::put_some(none, "effort"@, some_effort(openai_effort(t)))),
        ),
        ReasoningWire::Anthropic => json::put_some(
            json::put_some(
                none,
                "thinking"@,
                unless_empty(
                    json::put_some(
                        json::put_some(none, "type"@, some_mode(t.mode)),
                        "budget_tokens"@,
                        budget_tokens(t.budget),
                    ),
                ),
            ),
            "output_config"@,
            unless_empty(json::put_some(none, "effort"@, some_effort(t.effort))),
        ),
        ReasoningWire::Gemini => json::put_some(
            none,
            "generationConfig"@,
            unless_empty(
                json::put_some(none, "thinkingConfig"@, unless_empty(gemini_config(t, profile))),
            ),
        ),
        ReasoningWire::ThinkingType => json::put_some(
            json::put_some(
                json::put_some(
                    none,
                    "thinking"@,
                    unless_empty(json::put_some(none, "type"@, some_mode(t.mode))),
                ),
                "thinking_budget"@,
                budget_tokens(t.budget),
            ),
            "reasoning_effort"@,
            some_effort(t.effort),
        ),
        ReasoningWire::EnableThinking => json::put_some(
            json::put_some(
                json::put_some(none, "enable_thinking"@, some_on(t.mode)),
                "thinking_budget"@,
                budget_tokens(t.budget),
            ),
            "reasoning_effort"@,
            some_effort(t.effort),
        ),
        ReasoningWire::ReasoningObject => json::put_some(
            none,
            "reasoning"@,
            unless_empty(
                json::put_some(
                    json::put_some(
                        json::put_some(none, "enabled"@, some_on(t.mode)),
                        "max_tokens"@,
                        budget_tokens(t.budget),
                    ),
                    "effort"@,
                    some_effort(t.effort),
                ),
            ),
        ),
        ReasoningWire::Unavailable => none,
    }
}

/// The effort that an OpenAI wire carries: none at all where thinking is off.
pub open spec fn openai_effort(t: ThinkingConfig) -> Option<ReasoningEffort> {
    if t.mode == Some(ThinkingMode::Disabled) {
        Some(ReasoningEffort::Off)
    } else {
        t.effort
    }
}

fn fields_for(t: &ThinkingConfig, profile: &ProviderProfile) -> (fields: Vec<(String, Json)>)
    ensures
        fields.deep_view() == thinking_fields(*t, *profile),
{
    let mut fields = json::fields();
    let mut inner = json::fields();
    let effort = if is_mode(t.mode, ThinkingMode::Disabled) {
        Some(ReasoningEffort::Off)
    } else {
        t.effort
    };
    match profile.inference.reasoning {
        ReasoningWire::OpenAiChat => {
            put_effort(&mut fields, "reasoning_effort", effort);
        },
        ReasoningWire::OpenAiResponses => {
            put_effort(&mut inner, "effort", effort);
            put_object(&mut fields, "reasoning", inner);
        },
        ReasoningWire::Anthropic => {
            put_mode(&mut inner, "type", t.mode);
            put_tokens(&mut inner, "budget_tokens", t.budget);
            put_object(&mut fields, "thinking", inner);
            let mut output = json::fields();
            put_effort(&mut output, "effort", t.effort);
            put_object(&mut fields, "output_config", output);
        },
        ReasoningWire::Gemini => {
            put_object(&mut inner, "thinkingConfig", gemini_fields(t, profile));
            put_object(&mut fields, "generationConfig", inner);
        },
        ReasoningWire::ThinkingType => {
            put_mode(&mut inner, "type", t.mode);
            put_object(&mut fields, "thinking", inner);
            put_tokens(&mut fields, "thinking_budget", t.budget);
            put_effort(&mut fields, "reasoning_effort", t.effort);
        },
        ReasoningWire::EnableThinking => {
            put_on(&mut fields, "enable_thinking", t.mode);
            put_tokens(&mut fields, "thinking_budget", t.budget);
            put_effort(&mut fields, "reasoning_effort", t.effort);
        },
        ReasoningWire::ReasoningObject => {
            put_on(&mut inner, "enabled", t.mode);
            put_tokens(&mut inner, "max_tokens", t.budget);
            put_effort(&mut inner, "effort", t.effort);
            put_object(&mut fields, "reasoning", inner);
        },
        ReasoningWire::Unavailable => {},
    }
    fields
}

/// What the wire calls the tier.
pub open spec fn tier_value(wire: FastWire, reasoning: ReasoningWire, tier: ServiceTier) -> Option<
    Seq<char>,
> {
    match (wire, tier) {
        (FastWire::Speed, ServiceTier::Standard) => Some("standard"@),
        (FastWire::Speed, ServiceTier::Fast) => Some("fast"@),
        (FastWire::Fast, ServiceTier::Fast) => Some("fast"@),
        (FastWire::Priority, ServiceTier::Fast) => Some("priority"@),
        (_, ServiceTier::Standard) => if reasoning == ReasoningWire::Anthropic || reasoning
            == ReasoningWire::Gemini {
            Some("standard"@)
        } else {
            Some("default"@)
        },
        _ => None,
    }
}

fn tier_text(wire: FastWire, reasoning: ReasoningWire, tier: ServiceTier) -> (result: Option<
    &'static str,
>)
    ensures
        result.deep_view() == tier_value(wire, reasoning, tier),
{
    match (wire, tier) {
        (FastWire::Speed, ServiceTier::Standard) => Some("standard"),
        (FastWire::Speed, ServiceTier::Fast) => Some("fast"),
        (FastWire::Fast, ServiceTier::Fast) => Some("fast"),
        (FastWire::Priority, ServiceTier::Fast) => Some("priority"),
        (_, ServiceTier::Standard) => if reasoning == ReasoningWire::Anthropic || reasoning
            == ReasoningWire::Gemini {
            Some("standard")
        } else {
            Some("default")
        },
        _ => None,
    }
}

/// The fields with the tier's, where there is one.
pub open spec fn with_tier(fields: Entries, tier: Option<ServiceTier>, profile: ProviderProfile) -> Result<
    Entries,
    LlmErrorView,
> {
    let key = tier_key(profile);
    match raw_tier_of(profile) {
        Err(error) => Err(error),
        Ok(raw) => match tier {
            Some(tier) => match tier_value(
                fast_wire_of(profile),
                profile.inference.reasoning,
                tier,
            ) {
                None => Err(
                    error::unsupported_view("service tier has no verified wire mapping"@),
                ),
                Some(value) => Ok(
                    json::put(
                        fields,
                        key,
                        if tier_named(json::str_of(raw)) == Some(tier) {
                            raw
                        } else {
                            JsonView::Str(value)
                        },
                    ),
                ),
            },
            // An unrecognized native tier is kept without inventing a known price.
            None => Ok(
                if key == "serviceTier"@ && raw != JsonView::Null {
                    json::put(fields, "serviceTier"@, raw)
                } else {
                    fields
                },
            ),
        },
    }
}

fn add_tier(fields: Vec<(String, Json)>, tier: Option<ServiceTier>, profile: &ProviderProfile) -> (result:
    Result<Vec<(String, Json)>, LlmError>)
    ensures
        views::res(result) == with_tier(fields.deep_view(), tier, *profile),
{
    let mut fields = fields;
    let raw = raw_tier(profile)?;
    match tier {
        Some(tier) => {
            let value = match tier_text(
                fast_wire(profile),
                profile.inference.reasoning,
                tier,
            ) {
                Some(value) => value,
                None => return Err(
                    error::unsupported("service tier has no verified wire mapping"),
                ),
            };
            let kept = inference::same_tier(tier_from_raw(raw), Some(tier));
            let value = match raw {
                Some(raw) => if kept {
                    raw
                } else {
                    value
                },
                None => value,
            };
            json::set(&mut fields, tier_field(profile), json::string(value));
        },
        None => {
            if gemini_tier(profile) {
                if let Some(raw) = raw {
                    json::set(&mut fields, "serviceTier", json::string(raw));
                }
            }
        },
    }
    Ok(fields)
}

/// Whether a beta is among the parts of a header's value, from the `i`th on.
pub open spec fn has_part_from(parts: Seq<Seq<char>>, beta: Seq<char>, i: int) -> bool
    decreases parts.len() - i,
{
    if i < 0 || i >= parts.len() {
        false
    } else {
        text::trimmed(parts[i]) == beta || has_part_from(parts, beta, i + 1)
    }
}

/// The value of a beta header with the beta in it.
pub open spec fn joined_beta(value: Seq<char>, beta: Seq<char>) -> Seq<char> {
    if has_part_from(text::parts(value, ','), beta, 0) {
        value
    } else if value.len() == 0 {
        beta
    } else {
        value + ","@ + beta
    }
}

/// The headers with the beta in the first beta header, from the `i`th on.
pub open spec fn with_beta(headers: HeaderViews, beta: Seq<char>, i: int) -> HeaderViews
    decreases headers.len() - i,
{
    if i < 0 || i >= headers.len() {
        headers.push(("anthropic-beta"@, beta))
    } else if text::lower(headers[i].0) == text::lower("anthropic-beta"@) {
        headers.update(i, (headers[i].0, joined_beta(headers[i].1, beta)))
    } else {
        with_beta(headers, beta, i + 1)
    }
}

fn join_beta(value: &str, beta: &str) -> (result: String)
    ensures
        result@ == joined_beta(value@, beta@),
{
    let parts = text::split(value, ',');
    let mut i: usize = 0;
    while i < parts.len()
        invariant
            i <= parts.len(),
            parts.deep_view() == text::parts(value@, ','),
            has_part_from(parts.deep_view(), beta@, 0) == has_part_from(
                parts.deep_view(),
                beta@,
                i as int,
            ),
        decreases parts.len() - i,
    {
        assert(parts.deep_view()[i as int] == parts@[i as int]@);
        if text::same(&text::trim(&parts[i]), beta) {
            return value.to_owned();
        }
        i = i + 1;
    }
    if text::is_empty(value) {
        beta.to_owned()
    } else {
        text::cat3(value, ",", beta)
    }
}

pub fn append_beta(headers: &mut Vec<(String, String)>, beta: &str)
    ensures
        final(headers).deep_view() == with_beta(old(headers).deep_view(), beta@, 0),
{
    let mut i: usize = 0;
    while i < headers.len()
        invariant
            i <= headers.len(),
            headers@ == old(headers)@,
            with_beta(old(headers).deep_view(), beta@, 0) == with_beta(
                headers.deep_view(),
                beta@,
                i as int,
            ),
        decreases headers.len() - i,
    {
        assert(headers.deep_view()[i as int] == headers@[i as int].deep_view());
        if text::same_ignoring_case(&headers[i].0, "anthropic-beta") {
            let joined = join_beta(&headers[i].1, beta);
            let name = headers[i].0.clone();
            let ghost before = headers.deep_view();
            headers.set(i, (name, joined));
            assert(headers.deep_view() =~= before.update(i as int, (before[i as int].0, joined@)));
            return;
        }
        i = i + 1;
    }
    headers.push(("anthropic-beta".to_owned(), beta.to_owned()));
}

/// The headers with the betas from the `i`th on.
pub open spec fn with_betas(headers: HeaderViews, betas: Seq<Seq<char>>, i: int) -> HeaderViews
    decreases betas.len() - i,
{
    if i < 0 || i >= betas.len() {
        headers
    } else {
        with_betas(with_beta(headers, betas[i], 0), betas, i + 1)
    }
}

/// The headers of a request with these controls.
pub open spec fn control_headers(
    headers: HeaderViews,
    tier: Option<ServiceTier>,
    profile: ProviderProfile,
) -> HeaderViews {
    let listed = if profile.inference.reasoning == ReasoningWire::Anthropic {
        with_betas(headers, betas_of(profile), 0)
    } else {
        headers
    };
    if tier == Some(ServiceTier::Fast) && fast_wire_of(profile) == FastWire::Speed {
        with_beta(
            listed,
            match profile.inference.fast_beta {
                Some(beta) => beta@,
                None => "fast-mode-2026-02-01"@,
            },
            0,
        )
    } else {
        listed
    }
}

fn add_headers(headers: &mut Vec<(String, String)>, tier: Option<ServiceTier>, profile: &ProviderProfile)
    ensures
        final(headers).deep_view() == control_headers(old(headers).deep_view(), tier, *profile),
{
    if profile.inference.reasoning == ReasoningWire::Anthropic {
        let betas = beta_headers(profile);
        let mut i: usize = 0;
        while i < betas.len()
            invariant
                i <= betas.len(),
                with_betas(old(headers).deep_view(), betas.deep_view(), 0) == with_betas(
                    headers.deep_view(),
                    betas.deep_view(),
                    i as int,
                ),
            decreases betas.len() - i,
        {
            assert(betas.deep_view()[i as int] == betas@[i as int]@);
            append_beta(headers, &betas[i]);
            i = i + 1;
        }
    }
    let fast = match tier {
        Some(tier) => tier == ServiceTier::Fast,
        None => false,
    };
    if fast && fast_wire(profile) == FastWire::Speed {
        let beta = match &profile.inference.fast_beta {
            Some(beta) => beta.as_str(),
            None => "fast-mode-2026-02-01",
        };
        append_beta(headers, beta);
    }
}

pub open spec fn field_conflict(path: Seq<char>) -> LlmErrorView {
    error::invalid_view("conflicting request field "@ + path)
}

/// The value with the incoming one merged in: objects member by member, and
/// anything else only where it is equal.
pub open spec fn merged(target: JsonView, incoming: JsonView, path: Seq<char>) -> Result<
    JsonView,
    LlmErrorView,
>
    decreases incoming, 0nat,
{
    match (target, incoming) {
        (JsonView::Object(dst), JsonView::Object(src)) => match merged_entries(dst, src, 0, path) {
            Ok(entries) => Ok(JsonView::Object(entries)),
            Err(error) => Err(error),
        },
        _ => if json::equal(target, incoming) {
            Ok(target)
        } else {
            Err(field_conflict(path))
        },
    }
}

pub open spec fn merged_entries(dst: Entries, src: Entries, i: int, path: Seq<char>) -> Result<
    Entries,
    LlmErrorView,
>
    decreases src, src.len() - i,
{
    if i < 0 || i >= src.len() {
        Ok(dst)
    } else {
        proof {
            assert(decreases_to!(src => src[i]));
            assert(decreases_to!(src[i] => src[i].1));
        }
        let key = src[i].0;
        match json::entry(dst, key) {
            None => merged_entries(json::put(dst, key, src[i].1), src, i + 1, path),
            Some(old) => match merged(old, src[i].1, path + "."@ + key) {
                Err(error) => Err(error),
                Ok(new) => merged_entries(json::put(dst, key, new), src, i + 1, path),
            },
        }
    }
}

pub fn merge_json(target: Json, incoming: &Json, path: &str) -> (result: Result<Json, LlmError>)
    ensures
        views::res(result) == merged(target@, incoming@, path@),
    decreases incoming,
{
    match (target, incoming) {
        (Json::Object(dst), Json::Object(src)) => {
            let ghost whole = merged_entries(dst.deep_view(), src.deep_view(), 0, path@);
            assert(merged(target@, incoming@, path@) == (match whole {
                Ok(entries) => Ok::<JsonView, LlmErrorView>(JsonView::Object(entries)),
                Err(error) => Err(error),
            }));
            let mut dst = dst;
            let mut i: usize = 0;
            while i < src.len()
                invariant
                    i <= src.len(),
                    decreases_to!(incoming => src@),
                    whole == merged_entries(dst.deep_view(), src.deep_view(), i as int, path@),
                    merged(target@, incoming@, path@) == (match whole {
                        Ok(entries) => Ok::<JsonView, LlmErrorView>(JsonView::Object(entries)),
                        Err(error) => Err(error),
                    }),
                decreases src.len() - i,
            {
                assert(decreases_to!(src@ => src@[i as int]));
                assert(decreases_to!(src@[i as int] => src@[i as int].1));
                assert(src.deep_view()[i as int] == src@[i as int].deep_view());
                let key = src[i].0.as_str();
                let new = match json::find(&dst, key) {
                    None => src[i].1.dup(),
                    Some(old) => merge_json(old.dup(), &src[i].1, &text::cat3(path, ".", key))?,
                };
                json::set(&mut dst, key, new);
                i = i + 1;
            }
            Ok(Json::Object(dst))
        },
        (target, incoming) => if json::same(&target, incoming) {
            Ok(target)
        } else {
            Err(error::invalid(&text::cat2("conflicting request field ", path)))
        },
    }
}

/// The body with the controlled fields from the `i`th on: merged with what the
/// profile adds under the same key, and then with what the codec wrote.
pub open spec fn with_fields(body: Entries, fields: Entries, i: int, extra: JsonView) -> Result<
    Entries,
    LlmErrorView,
>
    decreases fields.len() - i,
{
    if i < 0 || i >= fields.len() {
        Ok(body)
    } else {
        let key = fields[i].0;
        let value = match json::member(extra, key) {
            Some(extra) => merged(extra, fields[i].1, key),
            None => Ok(fields[i].1),
        };
        match value {
            Err(error) => Err(error),
            Ok(value) => {
                let new = match json::entry(body, key) {
                    Some(existing) => merged(existing, value, key),
                    None => Ok(value),
                };
                match new {
                    Err(error) => Err(error),
                    Ok(new) => with_fields(json::put(body, key, new), fields, i + 1, extra),
                }
            },
        }
    }
}

fn add_fields(body: Vec<(String, Json)>, fields: &Vec<(String, Json)>, extra: Option<&Json>) -> (result:
    Result<Vec<(String, Json)>, LlmError>)
    ensures
        views::res(result) == with_fields(
            body.deep_view(),
            fields.deep_view(),
            0,
            json::or_null(extra.deep_view()),
        ),
{
    let ghost first = body.deep_view();
    let ghost e = json::or_null(extra.deep_view());
    let mut out = body;
    let mut i: usize = 0;
    while i < fields.len()
        invariant
            i <= fields.len(),
            first == body.deep_view(),
            e == json::or_null(extra.deep_view()),
            with_fields(first, fields.deep_view(), 0, e) == with_fields(
                out.deep_view(),
                fields.deep_view(),
                i as int,
                e,
            ),
        decreases fields.len() - i,
    {
        assert(fields.deep_view()[i as int] == fields@[i as int].deep_view());
        let key = fields[i].0.as_str();
        let value = match json::get_in(extra, key) {
            Some(extra) => merge_json(extra.dup(), &fields[i].1, key)?,
            None => fields[i].1.dup(),
        };
        let new = match json::find(&out, key) {
            Some(existing) => merge_json(existing.dup(), &value, key)?,
            None => value,
        };
        json::set(&mut out, key, new);
        i = i + 1;
    }
    Ok(out)
}

/// The body and headers of a request with its controls.
pub open spec fn applied(
    req: CompletionRequest,
    context: CodecContext,
    body: Entries,
    headers: HeaderViews,
) -> Result<(Entries, HeaderViews), LlmErrorView> {
    let profile = context.profile;
    match validation_error(req, profile, context.request_model@) {
        Some(error) => Err(error),
        None => match controls_of(req, profile) {
            Err(error) => Err(error),
            Ok((thinking, tier)) => {
                let t = effective(thinking, profile.inference.reasoning);
                match with_tier(thinking_fields(t, profile), tier, profile) {
                    Err(error) => Err(error),
                    Ok(fields) => match with_fields(body, fields, 0, extra_body(profile)) {
                        Err(error) => Err(error),
                        Ok(body) => Ok((body, control_headers(headers, tier, profile))),
                    },
                }
            },
        },
    }
}

/// A request under construction.
pub struct Draft {
    pub body: Vec<(String, Json)>,
    pub headers: Vec<(String, String)>,
}

impl DeepView for Draft {
    type V = (Entries, HeaderViews);

    open spec fn deep_view(&self) -> (Entries, HeaderViews) {
        (self.body.deep_view(), self.headers.deep_view())
    }
}

pub fn apply(req: &CompletionRequest, context: &CodecContext, draft: Draft) -> (result: Result<
    Draft,
    LlmError,
>)
    ensures
        views::res(result) == applied(
            *req,
            *context,
            draft.body.deep_view(),
            draft.headers.deep_view(),
        ),
{
    let profile = &context.profile;
    validate(req, profile, &context.request_model)?;
    let (thinking, tier) = controls(req, profile)?;
    let t = effective_thinking(thinking, profile.inference.reasoning);
    let fields = add_tier(fields_for(&t, profile), tier, profile)?;
    let body = add_fields(draft.body, &fields, profile.extra.get("body"))?;
    let mut headers = draft.headers;
    add_headers(&mut headers, tier, profile);
    Ok(Draft { body, headers })
}

/// What was asked of inference.
pub open spec fn requested_report(req: CompletionRequest, profile: ProviderProfile) -> Result<
    InferenceReportView,
    LlmErrorView,
> {
    match controls_of(req, profile) {
        Err(error) => Err(error),
        Ok((thinking, tier)) => match raw_tier_of(profile) {
            Err(error) => Err(error),
            Ok(raw) => Ok(
                InferenceReportView {
                    requested_effort: thinking.effort,
                    requested_service_tier: tier,
                    requested_raw_service_tier: json::str_of(raw),
                    ..inference::no_report()
                },
            ),
        },
    }
}

pub fn requested(req: &CompletionRequest, profile: &ProviderProfile) -> (result: Result<
    InferenceReport,
    LlmError,
>)
    ensures
        views::res(result) == requested_report(*req, *profile),
{
    let (thinking, tier) = controls(req, profile)?;
    let raw = raw_tier(profile)?;
    let none = InferenceReport::default();
    Ok(
        InferenceReport {
            requested_effort: thinking.effort,
            requested_service_tier: tier,
            requested_raw_service_tier: match raw {
                Some(raw) => Some(raw.to_owned()),
                None => None,
            },
            ..none
        },
    )
}

/// The first text that is there.
pub open spec fn text_of3(a: JsonView, b: JsonView, c: JsonView) -> Option<Seq<char>> {
    match json::str_of(a) {
        Some(s) => Some(s),
        None => match json::str_of(b) {
            Some(s) => Some(s),
            None => json::str_of(c),
        },
    }
}

fn first_text<'a>(a: Option<&'a Json>, b: Option<&'a Json>, c: Option<&'a Json>) -> (result: Option<
    &'a str,
>)
    ensures
        result.deep_view() == text_of3(
            json::or_null(a.deep_view()),
            json::or_null(b.deep_view()),
            json::or_null(c.deep_view()),
        ),
{
    match json::text_in(a) {
        Some(s) => Some(s),
        None => match json::text_in(b) {
            Some(s) => Some(s),
            None => json::text_in(c),
        },
    }
}

/// The tier that a report's native fields come to. On a wire with speeds, a
/// capacity tier is different from the fast inference speed.
pub open spec fn reported_tier(
    raw_tier: Option<Seq<char>>,
    raw_speed: Option<Seq<char>>,
    wire: FastWire,
) -> Option<ServiceTier> {
    if wire == FastWire::Speed {
        if raw_tier is Some && raw_tier != Some("standard"@) && raw_tier != Some("default"@)
            && raw_speed != Some("fast"@) {
            None
        } else {
            tier_named(raw_speed)
        }
    } else {
        tier_named(raw_tier)
    }
}

/// The report with what a response or an event states.
pub open spec fn observed(report: InferenceReportView, root: JsonView, wire: FastWire) -> InferenceReportView {
    let body = match json::either(root, "response"@, "message"@) {
        Some(body) => body,
        None => root,
    };
    let tier = text_of3(
        json::at(body, "service_tier"@),
        at2(body, "usage"@, "service_tier"@),
        at2(body, "usageMetadata"@, "serviceTier"@),
    );
    let speed = text_of3(
        at2(body, "usage"@, "speed"@),
        json::at(body, "speed"@),
        JsonView::Null,
    );
    let effort = text_of3(
        at2(body, "reasoning"@, "effort"@),
        json::at(body, "reasoning_effort"@),
        at2(body, "output_config"@, "effort"@),
    );
    let raw_service_tier = if tier is Some {
        tier
    } else {
        report.raw_service_tier
    };
    let raw_speed = if speed is Some {
        speed
    } else {
        report.raw_speed
    };
    InferenceReportView {
        raw_service_tier,
        raw_speed,
        raw_effort: if effort is Some {
            effort
        } else {
            report.raw_effort
        },
        reported_effort: match effort {
            Some(effort) => inference::effort_named(effort),
            None => report.reported_effort,
        },
        service_tier: reported_tier(raw_service_tier, raw_speed, wire),
        ..report
    }
}

fn text_is(s: &Option<String>, t: &str) -> (result: bool)
    ensures
        result == (s.deep_view() == Some(t@)),
{
    match s {
        Some(s) => text::same(s, t),
        None => false,
    }
}

fn as_str(s: &Option<String>) -> (result: Option<&str>)
    ensures
        result.deep_view() == s.deep_view(),
{
    match s {
        Some(s) => Some(s.as_str()),
        None => None,
    }
}

fn or_kept(found: Option<&str>, kept: Option<String>) -> (result: Option<String>)
    ensures
        result.deep_view() == (if found.deep_view() is Some {
            found.deep_view()
        } else {
            kept.deep_view()
        }),
{
    match found {
        Some(found) => Some(found.to_owned()),
        None => kept,
    }
}

pub fn observe(report: InferenceReport, root: &Json, wire: FastWire) -> (result: InferenceReport)
    ensures
        result@ == observed(report@, root@, wire),
{
    let body = match root.get_either("response", "message") {
        Some(body) => body,
        None => root,
    };
    let b = Some(body);
    let tier = first_text(
        body.get("service_tier"),
        get2(b, "usage", "service_tier"),
        get2(b, "usageMetadata", "serviceTier"),
    );
    let speed = first_text(get2(b, "usage", "speed"), body.get("speed"), None);
    let effort = first_text(
        get2(b, "reasoning", "effort"),
        body.get("reasoning_effort"),
        get2(b, "output_config", "effort"),
    );
    let raw_service_tier = or_kept(tier, report.raw_service_tier);
    let raw_speed = or_kept(speed, report.raw_speed);
    let reported_effort = match effort {
        Some(effort) => ReasoningEffort::named(effort),
        None => report.reported_effort,
    };
    let raw_effort = or_kept(effort, report.raw_effort);
    let service_tier = if wire == FastWire::Speed {
        if raw_service_tier.is_some() && !text_is(&raw_service_tier, "standard") && !text_is(
            &raw_service_tier,
            "default",
        ) && !text_is(&raw_speed, "fast") {
            None
        } else {
            tier_from_raw(as_str(&raw_speed))
        }
    } else {
        tier_from_raw(as_str(&raw_service_tier))
    };
    InferenceReport {
        requested_effort: report.requested_effort,
        requested_service_tier: report.requested_service_tier,
        requested_raw_service_tier: report.requested_raw_service_tier,
        reported_effort,
        raw_effort,
        service_tier,
        raw_service_tier,
        raw_speed,
    }
}

/// The response header that states the tier, if one does.
pub open spec fn tier_header(profile: ProviderProfile) -> Option<Seq<char>> {
    match profile.inference.tier_response_header {
        Some(name) => Some(name@),
        None => if profile.protocol == ProtocolFamily::GeminiGenerateContent {
            Some("x-gemini-service-tier"@)
        } else {
            None
        },
    }
}

fn tier_header_name(profile: &ProviderProfile) -> (result: Option<String>)
    ensures
        result.deep_view() == tier_header(*profile),
{
    match &profile.inference.tier_response_header {
        Some(name) => Some(name.clone()),
        None => if profile.protocol == ProtocolFamily::GeminiGenerateContent {
            Some("x-gemini-service-tier".to_owned())
        } else {
            None
        },
    }
}

/// The report with what the response headers state.
pub open spec fn header_observed(
    report: InferenceReportView,
    headers: HeaderViews,
    name: Option<Seq<char>>,
) -> InferenceReportView {
    let value = match name {
        Some(name) => transport::header_in(headers, name, 0),
        None => None,
    };
    match value {
        Some(value) => InferenceReportView {
            raw_service_tier: Some(value),
            service_tier: tier_named(Some(value)),
            ..report
        },
        None => report,
    }
}

fn observe_header(report: InferenceReport, headers: &Vec<(String, String)>, name: &Option<String>) -> (result:
    InferenceReport)
    ensures
        result@ == header_observed(report@, headers.deep_view(), name.deep_view()),
{
    let value = match name {
        Some(name) => transport::find_header(headers, name),
        None => None,
    };
    match value {
        Some(value) => InferenceReport {
            service_tier: tier_from_raw(Some(value)),
            raw_service_tier: Some(value.to_owned()),
            ..report
        },
        None => report,
    }
}

/// The report of a whole response, given its parsed body.
pub open spec fn response_report(
    headers: HeaderViews,
    body: Option<JsonView>,
    profile: ProviderProfile,
) -> InferenceReportView {
    let report = header_observed(inference::no_report(), headers, tier_header(profile));
    match body {
        Some(body) => observed(report, body, fast_wire_of(profile)),
        None => report,
    }
}

pub fn response(headers: &Vec<(String, String)>, body: Option<&Json>, profile: &ProviderProfile) -> (result:
    InferenceReport)
    ensures
        result@ == response_report(headers.deep_view(), body.deep_view(), *profile),
{
    let report = observe_header(
        InferenceReport::default(),
        headers,
        &tier_header_name(profile),
    );
    match body {
        Some(body) => observe(report, body, fast_wire(profile)),
        None => report,
    }
}

/// What a stream has reported of inference so far.
#[derive(Debug)]
pub struct StreamInference {
    pub report: InferenceReport,
    pub fast: FastWire,
    pub header: Option<String>,
}

pub struct StreamInferenceView {
    pub report: InferenceReportView,
    pub fast: FastWire,
    pub header: Option<Seq<char>>,
}

impl View for StreamInference {
    type V = StreamInferenceView;

    open spec fn view(&self) -> StreamInferenceView {
        StreamInferenceView {
            report: self.report@,
            fast: self.fast,
            header: self.header.deep_view(),
        }
    }
}

/// Whether the body reports an error.
pub open spec fn reports_error(body: JsonView) -> bool {
    json::at(body, "error"@) != JsonView::Null || json::str_at(body, "type"@) == Some("error"@)
}

/// The state before anything was reported.
pub open spec fn stream_start(profile: ProviderProfile) -> StreamInferenceView {
    StreamInferenceView {
        report: inference::no_report(),
        fast: fast_wire_of(profile),
        header: tier_header(profile),
    }
}

/// The state once the response's headers are known.
pub open spec fn headers_seen(state: StreamInferenceView, headers: HeaderViews) -> StreamInferenceView {
    StreamInferenceView {
        report: header_observed(state.report, headers, state.header),
        ..state
    }
}

/// The state once a body was observed.
pub open spec fn stream_observed(state: StreamInferenceView, body: JsonView) -> StreamInferenceView {
    if reports_error(body) {
        state
    } else {
        StreamInferenceView { report: observed(state.report, body, state.fast), ..state }
    }
}

/// The events that a change of the report makes.
pub open spec fn report_events(before: InferenceReportView, after: InferenceReportView) -> Seq<
    StreamEventView,
> {
    if before == after {
        Seq::empty()
    } else {
        seq![StreamEventView::Inference { report: after }]
    }
}

impl StreamInference {
    pub fn new(context: &CodecContext) -> (result: Self)
        ensures
            result@ == stream_start(context.profile),
    {
        StreamInference {
            report: InferenceReport::default(),
            fast: fast_wire(&context.profile),
            header: tier_header_name(&context.profile),
        }
    }

    /// Takes in the response's headers.
    pub fn headers(&mut self, headers: &Vec<(String, String)>)
        ensures
            final(self)@ == headers_seen(old(self)@, headers.deep_view()),
    {
        self.report = observe_header(self.report.dup(), headers, &self.header);
    }

    /// Takes in one event's body, and says what changed.
    pub fn observe(&mut self, body: &Json, out: &mut Vec<StreamEvent>)
        ensures
            final(self)@ == stream_observed(old(self)@, body@),
            final(out).deep_view() == old(out).deep_view() + report_events(
                old(self)@.report,
                final(self)@.report,
            ),
    {
        let ghost before_out = out.deep_view();
        let failed = match body.str_at("type") {
            Some(kind) => text::same(kind, "error"),
            None => false,
        };
        if failed || !json::is_null(body.get("error")) {
            assert(out.deep_view() =~= before_out + Seq::empty());
            return;
        }
        let before = self.report.dup();
        self.report = observe(before.dup(), body, self.fast);
        if !self.report.same(&before) {
            out.push(StreamEvent::Inference { report: self.report.dup() });
            assert(out.deep_view() =~= before_out + report_events(before@, self.report@));
        } else {
            assert(out.deep_view() =~= before_out + Seq::empty());
        }
    }
}

/// A mode that the model is known not to support on the connection is refused before
/// anything is sent, and so is a budget where it is known not to think.
pub proof fn an_unsupported_control_is_refused(
    req: CompletionRequest,
    profile: ProviderProfile,
    model: Seq<char>,
)
    requires
        controls_of(req, profile) is Ok,
    ensures
        ({
            let t = effective(controls_of(req, profile)->Ok_0.0, profile.inference.reasoning);
            let f = features_of(profile, model);
            &&& t.mode is Some && f.mode_fact(t.mode->0) == CapabilitySupport::Unsupported
                ==> validation_error(req, profile, model) is Some
            &&& t.budget is Some && f.thinking == CapabilitySupport::Unsupported
                ==> validation_error(req, profile, model) is Some
        }),
{
}

} // verus!
