//! How the controls of a request reach the wire.

use crate::codecs::inference;
use crate::codecs::request_controls;
use crate::json::{self, Entries, JsonView, NumberView};
use crate::protocol::inference as names;
use crate::protocol::{
    CapabilitySupport, CompletionRequest, FastWire, ProtocolFamily, ProviderProfile,
    ReasoningEffort, ReasoningWire, ResponseFormat, ServiceTier, ThinkingBudget, ThinkingConfig,
    ThinkingMode,
};
use vstd::prelude::*;

verus! {

broadcast use {crate::views::group_views, crate::json::group_json};

/// An effort under the name that the wires have for it.
pub open spec fn says_effort(said: Option<JsonView>, effort: Option<ReasoningEffort>) -> bool {
    &&& effort is None <==> said is None
    &&& effort == Some(ReasoningEffort::Off) <==> said == Some(JsonView::Str("none"@))
    &&& effort == Some(ReasoningEffort::Minimal) <==> said == Some(JsonView::Str("minimal"@))
    &&& effort == Some(ReasoningEffort::Low) <==> said == Some(JsonView::Str("low"@))
    &&& effort == Some(ReasoningEffort::Medium) <==> said == Some(JsonView::Str("medium"@))
    &&& effort == Some(ReasoningEffort::High) <==> said == Some(JsonView::Str("high"@))
    &&& effort == Some(ReasoningEffort::XHigh) <==> said == Some(JsonView::Str("xhigh"@))
    &&& effort == Some(ReasoningEffort::Max) <==> said == Some(JsonView::Str("max"@))
}

/// A mode under the name that the wires have for it.
pub open spec fn says_mode(said: Option<JsonView>, mode: Option<ThinkingMode>) -> bool {
    &&& mode is None <==> said is None
    &&& mode == Some(ThinkingMode::Enabled) <==> said == Some(JsonView::Str("enabled"@))
    &&& mode == Some(ThinkingMode::Disabled) <==> said == Some(JsonView::Str("disabled"@))
    &&& mode == Some(ThinkingMode::Adaptive) <==> said == Some(JsonView::Str("adaptive"@))
}

/// A mode as a switch.
pub open spec fn says_on(said: Option<JsonView>, mode: Option<ThinkingMode>) -> bool {
    &&& mode is None <==> said is None
    &&& mode is Some ==> said == Some(JsonView::Bool(mode != Some(ThinkingMode::Disabled)))
}

/// A budget in tokens.
pub open spec fn says_tokens(said: Option<JsonView>, budget: Option<ThinkingBudget>) -> bool {
    &&& budget matches Some(ThinkingBudget::Tokens(n)) ==> said == Some(json::uint_view(n as u64))
    &&& !(budget matches Some(ThinkingBudget::Tokens(_))) ==> said is None
}

#[verifier::spinoff_prover]
proof fn lemma_effort(effort: Option<ReasoningEffort>)
    ensures
        says_effort(inference::some_effort(effort), effort),
{
    lemma_names();
}

#[verifier::spinoff_prover]
proof fn lemma_mode(mode: Option<ThinkingMode>)
    ensures
        says_mode(inference::some_mode(mode), mode),
{
    lemma_names();
}

/// A member of an object that is left out where it would be empty.
proof fn lemma_inner(fields: Entries, key: Seq<char>)
    ensures
        (match inference::unless_empty(fields) {
            Some(object) => json::member(object, key),
            None => None,
        }) == json::entry(fields, key),
{
}

/// How to think is told under the names of the connection's wire: the mode, the budget
/// and the effort, each where that wire has it, and nothing of what was not asked for.
#[verifier::spinoff_prover]
#[verifier::rlimit(60)]
pub proof fn thinking_is_told_as_the_wire_has_it(t: ThinkingConfig, profile: ProviderProfile)
    ensures
        ({
            let sent = JsonView::Object(inference::thinking_fields(t, profile));
            let wire = profile.inference.reasoning;
            &&& wire == ReasoningWire::Anthropic ==> {
                &&& says_mode(json::member2(sent, "thinking"@, "type"@), t.mode)
                &&& says_tokens(json::member2(sent, "thinking"@, "budget_tokens"@), t.budget)
                &&& says_effort(json::member2(sent, "output_config"@, "effort"@), t.effort)
            }
            &&& wire == ReasoningWire::OpenAiChat ==> says_effort(
                json::member(sent, "reasoning_effort"@),
                if t.mode == Some(ThinkingMode::Disabled) {
                    Some(ReasoningEffort::Off)
                } else {
                    t.effort
                },
            )
            &&& wire == ReasoningWire::OpenAiResponses ==> says_effort(
                json::member2(sent, "reasoning"@, "effort"@),
                if t.mode == Some(ThinkingMode::Disabled) {
                    Some(ReasoningEffort::Off)
                } else {
                    t.effort
                },
            )
            &&& wire == ReasoningWire::ThinkingType ==> {
                &&& says_mode(json::member2(sent, "thinking"@, "type"@), t.mode)
                &&& says_effort(json::member(sent, "reasoning_effort"@), t.effort)
            }
            &&& wire == ReasoningWire::EnableThinking ==> {
                &&& says_on(json::member(sent, "enable_thinking"@), t.mode)
                &&& says_tokens(json::member(sent, "thinking_budget"@), t.budget)
                &&& says_effort(json::member(sent, "reasoning_effort"@), t.effort)
            }
            &&& wire == ReasoningWire::ReasoningObject ==> {
                &&& says_on(json::member2(sent, "reasoning"@, "enabled"@), t.mode)
                &&& says_tokens(json::member2(sent, "reasoning"@, "max_tokens"@), t.budget)
                &&& says_effort(json::member2(sent, "reasoning"@, "effort"@), t.effort)
            }
            &&& wire == ReasoningWire::Unavailable ==> inference::thinking_fields(t, profile).len()
                == 0
        }),
{
    broadcast use json::entry_after_put;

    lemma_names();
    lemma_effort(t.effort);
    lemma_effort(Some(ReasoningEffort::Off));
    lemma_mode(t.mode);
    let none = Seq::<(Seq<char>, JsonView)>::empty();
    let moded = json::put_some(
        json::put_some(none, "type"@, inference::some_mode(t.mode)),
        "budget_tokens"@,
        inference::budget_tokens(t.budget),
    );
    lemma_inner(moded, "type"@);
    lemma_inner(moded, "budget_tokens"@);
    let effort = json::put_some(none, "effort"@, inference::some_effort(t.effort));
    lemma_inner(effort, "effort"@);
    let openai = json::put_some(
        none,
        "effort"@,
        inference::some_effort(inference::openai_effort(t)),
    );
    lemma_inner(openai, "effort"@);
    let typed = json::put_some(none, "type"@, inference::some_mode(t.mode));
    lemma_inner(typed, "type"@);
    let switched = json::put_some(
        json::put_some(
            json::put_some(none, "enabled"@, inference::some_on(t.mode)),
            "max_tokens"@,
            inference::budget_tokens(t.budget),
        ),
        "effort"@,
        inference::some_effort(t.effort),
    );
    lemma_inner(switched, "enabled"@);
    lemma_inner(switched, "max_tokens"@);
    lemma_inner(switched, "effort"@);
}

/// On a Gemini wire the thinking configuration holds the budget, which is nought where
/// thinking is off and minus one where the model is to decide, and the level.
#[verifier::spinoff_prover]
#[verifier::rlimit(60)]
pub proof fn gemini_is_told_its_budget(t: ThinkingConfig, profile: ProviderProfile)
    requires
        profile.inference.reasoning == ReasoningWire::Gemini,
    ensures
        ({
            let sent = json::member2(
                JsonView::Object(inference::thinking_fields(t, profile)),
                "generationConfig"@,
                "thinkingConfig"@,
            );
            let config = json::or_null(sent);
            let budget = json::member(config, "thinkingBudget"@);
            &&& t.budget matches Some(ThinkingBudget::Tokens(n)) ==> budget == Some(
                json::uint_view(n as u64),
            )
            &&& t.budget == Some(ThinkingBudget::Dynamic) ==> budget == Some(
                JsonView::Number(NumberView::NegInt(-1i64)),
            )
            &&& t.budget is None && t.mode == Some(ThinkingMode::Disabled) ==> budget == Some(
                json::uint_view(0),
            )
            &&& t.budget is None && t.mode != Some(ThinkingMode::Disabled) ==> budget is None
            &&& says_effort(json::member(config, "thinkingLevel"@), t.effort)
        }),
{
    broadcast use json::entry_after_put;

    lemma_names();
    lemma_effort(t.effort);
    let none = Seq::<(Seq<char>, JsonView)>::empty();
    let config = inference::gemini_config(t, profile);
    lemma_inner(config, "thinkingBudget"@);
    lemma_inner(config, "thinkingLevel"@);
    let held = json::put_some(none, "thinkingConfig"@, inference::unless_empty(config));
    lemma_inner(held, "thinkingConfig"@);
}

/// The name of an effort and of a mode is read back as the same one.
#[verifier::spinoff_prover]
pub proof fn a_name_is_read_back(effort: ReasoningEffort, mode: ThinkingMode)
    ensures
        names::effort_named(names::effort_name(effort)) == Some(effort),
        names::mode_named(names::mode_name(mode)) == Some(mode),
{
    lemma_names();
}

/// A service tier is told under the name that the connection's wire has for it.
#[verifier::spinoff_prover]
pub proof fn a_tier_is_told_as_the_wire_has_it(
    fields: Entries,
    tier: ServiceTier,
    profile: ProviderProfile,
)
    requires
        inference::raw_tier_of(profile) matches Ok(raw) && raw is Null,
    ensures
        inference::with_tier(fields, Some(tier), profile) matches Ok(after) ==> {
            let sent = JsonView::Object(after);
            let gemini = profile.protocol == ProtocolFamily::GeminiGenerateContent
                || profile.protocol == ProtocolFamily::VertexGemini;
            let fast = inference::fast_wire_of(profile);
            let said = if fast == FastWire::Speed {
                json::str_at(sent, "speed"@)
            } else if gemini {
                json::str_at(sent, "serviceTier"@)
            } else {
                json::str_at(sent, "service_tier"@)
            };
            &&& tier == ServiceTier::Fast && fast == FastWire::Priority ==> said == Some("priority"@)
            &&& tier == ServiceTier::Fast && fast != FastWire::Priority ==> said == Some("fast"@)
            &&& tier == ServiceTier::Standard ==> said == Some("standard"@) || said == Some(
                "default"@,
            )
            &&& inference::tier_named(said) == Some(tier)
        },
{
    broadcast use json::entry_after_put;

    lemma_names();
}

/// A key that the fields do not write keeps what the body holds.
proof fn lemma_other_field(body: Entries, fields: Entries, i: int, extra: JsonView, key: Seq<char>)
    requires
        0 <= i,
        forall|j: int| i <= j < fields.len() ==> (#[trigger] fields[j]).0 != key,
    ensures
        inference::with_fields(body, fields, i, extra) matches Ok(after) ==> json::entry(after, key)
            == json::entry(body, key),
    decreases fields.len() - i,
{
    if i < fields.len() {
        let name = fields[i].0;
        let value = match json::member(extra, name) {
            Some(extra) => inference::merged(extra, fields[i].1, name),
            None => Ok(fields[i].1),
        };
        if let Ok(value) = value {
            let new = match json::entry(body, name) {
                Some(existing) => inference::merged(existing, value, name),
                None => Ok(value),
            };
            if let Ok(new) = new {
                json::put_then_entry(body, name, new, key);
                lemma_other_field(json::put(body, name, new), fields, i + 1, extra, key);
            }
        }
    }
}

/// Every field of the controls is in the body afterwards, as it is, where neither the body
/// nor the profile held one of that name.
pub proof fn a_control_reaches_the_body(
    body: Entries,
    fields: Entries,
    i: int,
    extra: JsonView,
    k: int,
)
    requires
        0 <= i <= k < fields.len(),
        json::ordered(fields),
        json::entry(body, fields[k].0) is None,
        json::member(extra, fields[k].0) is None,
    ensures
        inference::with_fields(body, fields, i, extra) matches Ok(after) ==> json::entry(
            after,
            fields[k].0,
        ) == Some(fields[k].1),
    decreases fields.len() - i,
{
    let key = fields[k].0;
    let name = fields[i].0;
    let value = match json::member(extra, name) {
        Some(extra) => inference::merged(extra, fields[i].1, name),
        None => Ok(fields[i].1),
    };
    if let Ok(value) = value {
        let new = match json::entry(body, name) {
            Some(existing) => inference::merged(existing, value, name),
            None => Ok(value),
        };
        if let Ok(new) = new {
            json::put_then_entry(body, name, new, key);
            let next = json::put(body, name, new);
            if i < k {
                crate::text::less_is_total(fields[i].0, fields[k].0);
                a_control_reaches_the_body(next, fields, i + 1, extra, k);
            } else {
                assert forall|j: int| i + 1 <= j < fields.len() implies (#[trigger] fields[j]).0
                    != key by {
                    assert(crate::text::less(fields[k].0, fields[j].0));
                    crate::text::less_is_total(fields[k].0, fields[j].0);
                }
                lemma_other_field(next, fields, i + 1, extra, key);
            }
        }
    }
}

/// The typed controls of a request are sent where the wire takes them: `top_p`, the
/// metadata, the hint, and the format that the answer is to have.
#[verifier::spinoff_prover]
#[verifier::rlimit(80)]
pub proof fn the_typed_controls_are_sent(
    req: CompletionRequest,
    family: ProtocolFamily,
    body: Entries,
)
    requires
        req.controls.responses@.len() == 0,
    ensures
        request_controls::with_controls(req, family, body) matches Ok(after) ==> {
            let sent = JsonView::Object(after);
            let gemini = family == ProtocolFamily::GeminiGenerateContent || family
                == ProtocolFamily::VertexGemini;
            let messages = family == ProtocolFamily::AnthropicMessages || family
                == ProtocolFamily::VertexClaude || family == ProtocolFamily::BedrockClaude || family
                == ProtocolFamily::FoundryClaude;
            let responses = family == ProtocolFamily::OpenAiResponses;
            &&& req.controls.top_p matches Some(top_p) ==> {
                &&& top_p.in_range
                &&& gemini ==> json::member2(sent, "generationConfig"@, "topP"@) == Some(
                    JsonView::Number(top_p.value@),
                )
                &&& !gemini ==> json::member(sent, "top_p"@) == Some(
                    JsonView::Number(top_p.value@),
                )
            }
            &&& req.metadata@ != JsonView::Null && !gemini ==> json::member(sent, "metadata"@)
                == Some(req.metadata@)
            &&& req.controls.context_hint matches Some(hint) ==> messages && json::member(
                sent,
                "context_hint"@,
            ) == Some(hint@)
            &&& req.controls.response_format matches Some(ResponseFormat::JsonSchema {
                name,
                schema,
                strict,
            }) ==> {
                &&& gemini ==> json::member2(sent, "generationConfig"@, "responseJsonSchema"@)
                    == Some(schema@)
                &&& messages ==> json::member2(json::at(sent, "output_config"@), "format"@, "schema"@)
                    == Some(schema@)
                &&& responses ==> json::member2(json::at(sent, "text"@), "format"@, "schema"@)
                    == Some(schema@)
                &&& !gemini && !messages && !responses ==> json::member2(
                    json::at(sent, "response_format"@),
                    "json_schema"@,
                    "schema"@,
                ) == Some(schema@)
            }
            &&& req.controls.response_format matches Some(ResponseFormat::JsonObject) ==> {
                &&& gemini ==> json::member2(sent, "generationConfig"@, "responseMimeType"@) == Some(
                    JsonView::Str("application/json"@),
                )
                &&& responses ==> json::str_in(
                    json::member2(json::at(sent, "text"@), "format"@, "type"@),
                ) == Some("json_object"@)
                &&& !gemini && !responses ==> json::str_in(
                    json::member2(sent, "response_format"@, "type"@),
                ) == Some("json_object"@)
            }
        },
{
    broadcast use json::entry_after_put;

    lemma_names();
}

/// What a request types is what counts: its mode, its budget and its effort where it
/// names them, and what the profile states where it does not. The two may not differ.
pub proof fn what_is_typed_is_what_counts(req: CompletionRequest, profile: ProviderProfile)
    ensures
        inference::thinking_of(req, profile) matches Ok(used) ==> {
            &&& inference::stated_thinking(profile) matches Ok(stated)
            &&& req.thinking is None ==> used == stated
            &&& req.thinking matches Some(typed) ==> {
                &&& typed.mode is Some ==> used.mode == typed.mode && (stated.mode is None
                    || stated.mode == typed.mode)
                &&& typed.mode is None ==> used.mode == stated.mode
                &&& typed.budget is Some ==> used.budget == typed.budget && (stated.budget is None
                    || stated.budget == typed.budget)
                &&& typed.budget is None ==> used.budget == stated.budget
                &&& typed.effort is Some ==> used.effort == typed.effort && (stated.effort is None
                    || stated.effort == typed.effort)
                &&& typed.effort is None ==> used.effort == stated.effort
            }
        },
        inference::tier_of(req, profile) matches Ok(tier) ==> (req.service_tier is Some ==> tier
            == req.service_tier),
{
}

/// Asking for a budget turns thinking on where no mode is named; turning it off asks an
/// OpenAI wire for no effort; and a Gemini wire is left to decide the budget where
/// thinking is on and nothing else is said. All else stays as it was asked for.
pub proof fn what_is_meant_is_made_explicit(t: ThinkingConfig, wire: ReasoningWire)
    ensures
        ({
            let e = inference::effective(t, wire);
            let openai = wire == ReasoningWire::OpenAiChat || wire == ReasoningWire::OpenAiResponses;
            &&& t.mode is Some ==> e.mode == t.mode
            &&& t.mode is None && t.budget is Some ==> e.mode == Some(ThinkingMode::Enabled)
            &&& t.mode is None && t.budget is None ==> e.mode is None
            &&& t.effort is Some ==> e.effort == t.effort
            &&& t.effort is None && openai && t.mode == Some(ThinkingMode::Disabled) ==> e.effort
                == Some(ReasoningEffort::Off)
            &&& t.effort is None && !openai ==> e.effort is None
            &&& t.budget is Some ==> e.budget == t.budget
            &&& wire != ReasoningWire::Gemini ==> e.budget == t.budget
            &&& wire == ReasoningWire::Gemini && t.mode == Some(ThinkingMode::Enabled)
                && t.budget is None && t.effort is None ==> e.budget == Some(ThinkingBudget::Dynamic)
        }),
{
}

/// A budget that is let through is one that the model and the wire take.
pub proof fn a_budget_is_within_its_bounds(
    req: CompletionRequest,
    profile: ProviderProfile,
    model: Seq<char>,
    n: u32,
)
    requires
        inference::thinking_of(req, profile) matches Ok(t) && t.budget == Some(
            ThinkingBudget::Tokens(n),
        ),
    ensures
        inference::validation_error(req, profile, model) is None ==> {
            let f = inference::features_of(profile, model);
            let wire = profile.inference.reasoning;
            &&& n > 0
            &&& f.min_budget matches Some(min) ==> n >= min
            &&& f.max_budget matches Some(max) ==> n <= max
            &&& f.budget != CapabilitySupport::Unsupported
            &&& f.thinking != CapabilitySupport::Unsupported
            &&& wire == ReasoningWire::Anthropic ==> n >= 1024
            &&& wire != ReasoningWire::OpenAiChat && wire != ReasoningWire::OpenAiResponses && wire
                != ReasoningWire::ThinkingType && wire != ReasoningWire::Unavailable
        },
{
}

/// Controls that are let through are ones that the wire has words for, that the model can
/// do, and that do not speak against one another.
#[verifier::spinoff_prover]
#[verifier::rlimit(40)]
pub proof fn a_control_that_is_sent_makes_sense(
    req: CompletionRequest,
    profile: ProviderProfile,
    model: Seq<char>,
)
    requires
        inference::controls_of(req, profile) is Ok,
    ensures
        inference::validation_error(req, profile, model) is None ==> {
            let (asked, tier) = inference::controls_of(req, profile)->Ok_0;
            let wire = profile.inference.reasoning;
            let t = inference::effective(asked, wire);
            let f = inference::features_of(profile, model);
            &&& wire == ReasoningWire::Unavailable ==> t.mode is None && t.budget is None
                && t.effort is None
            &&& t.mode == Some(ThinkingMode::Adaptive) ==> wire == ReasoningWire::Anthropic || wire
                == ReasoningWire::Gemini
            &&& t.mode == Some(ThinkingMode::Disabled) ==> t.budget is None
            &&& t.mode matches Some(mode) ==> f.mode_fact(mode) != CapabilitySupport::Unsupported
            &&& t.effort matches Some(effort) ==> f.effort_fact(t.mode, effort)
                != CapabilitySupport::Unsupported
            &&& t.mode == Some(ThinkingMode::Enabled) && (wire == ReasoningWire::OpenAiChat || wire
                == ReasoningWire::OpenAiResponses) ==> t.effort is Some
            &&& tier == Some(ServiceTier::Fast) ==> f.fast != CapabilitySupport::Unsupported
            &&& tier is Some ==> inference::fast_wire_of(profile) != FastWire::Unavailable
            &&& wire == ReasoningWire::Anthropic && t.mode == Some(ThinkingMode::Enabled)
                && profile.inference.enabled_requires_budget != Some(false) ==> t.budget is Some && !(
            req.tools@.len() > 0 && (req.tool_choice is Any || req.tool_choice is Tool))
            &&& profile_rejects(profile) && req.tools@.len() > 0 && (req.tool_choice is Any
                || req.tool_choice is Tool) ==> t.mode == Some(ThinkingMode::Disabled) || t.effort
                == Some(ReasoningEffort::Off) || (t.mode is None && f.default_mode == Some(
                ThinkingMode::Disabled,
            ))
        },
{
}

/// A profile that says that its models cannot be made to call a tool while they think.
pub open spec fn profile_rejects(profile: ProviderProfile) -> bool {
    json::bool_at(profile.extra@, "thinking_rejects_forced_tool_choice"@) == Some(true)
}

/// What a profile states of thinking is read where its wire has it: the mode, the budget
/// and the effort.
#[verifier::spinoff_prover]
#[verifier::rlimit(40)]
pub proof fn what_a_profile_states_is_read_where_its_wire_has_it(profile: ProviderProfile)
    ensures
        inference::stated_thinking(profile) matches Ok(t) ==> {
            let wire = profile.inference.reasoning;
            let body = json::at(profile.extra@, "body"@);
            let within = |a: Seq<char>, b: Seq<char>| json::str_of(json::at(json::at(body, a), b));
            let config = json::at(json::at(body, "generationConfig"@), "thinkingConfig"@);
            let plain = json::str_at(body, "reasoning_effort"@);
            &&& wire == ReasoningWire::OpenAiChat || wire == ReasoningWire::ThinkingType || wire
                == ReasoningWire::EnableThinking ==> (plain matches Some(name) ==> t.effort
                == names::effort_named(name))
            &&& wire == ReasoningWire::OpenAiResponses || wire == ReasoningWire::ReasoningObject ==> (
            within("reasoning"@, "effort"@) matches Some(name) ==> t.effort == names::effort_named(
                name,
            ))
            &&& wire == ReasoningWire::Anthropic ==> (within(
                "output_config"@,
                "effort"@,
            ) matches Some(name) ==> t.effort == names::effort_named(name))
            &&& wire == ReasoningWire::Anthropic || wire == ReasoningWire::ThinkingType ==> (within(
                "thinking"@,
                "type"@,
            ) matches Some(name) ==> t.mode == names::mode_named(name))
            &&& wire == ReasoningWire::Anthropic ==> (json::u64_at(
                json::at(body, "thinking"@),
                "budget_tokens"@,
            ) matches Some(n) ==> (0 < n <= u32::MAX ==> t.budget == Some(
                ThinkingBudget::Tokens(n as u32),
            )))
            &&& wire == ReasoningWire::EnableThinking ==> (json::bool_at(
                body,
                "enable_thinking"@,
            ) matches Some(on) ==> t.mode == Some(
                if on {
                    ThinkingMode::Enabled
                } else {
                    ThinkingMode::Disabled
                },
            ))
            &&& wire == ReasoningWire::Gemini ==> (json::str_at(config, "thinkingLevel"@) matches Some(
                name,
            ) ==> t.effort == names::effort_named(name))
            &&& wire == ReasoningWire::Gemini ==> (json::u64_at(
                config,
                "thinkingBudget"@,
            ) matches Some(n) ==> (0 < n <= u32::MAX ==> t.budget == Some(
                ThinkingBudget::Tokens(n as u32),
            )) && (n == 0 ==> t.mode == Some(ThinkingMode::Disabled)))
        },
{
}

/// What is reported to have been asked for is what was asked for.
pub proof fn what_was_asked_for_is_reported(req: CompletionRequest, profile: ProviderProfile)
    ensures
        inference::requested_report(req, profile) matches Ok(report) ==> {
            &&& req.service_tier is Some ==> report.requested_service_tier == req.service_tier
            &&& req.thinking matches Some(typed) ==> (typed.effort is Some
                ==> report.requested_effort == typed.effort)
            &&& report.service_tier is None
            &&& report.reported_effort is None
        },
{
}

/// The tier of a Gemini reply is read in its header, unless the profile names another.
pub proof fn a_tier_is_read_in_its_header(profile: ProviderProfile)
    ensures
        profile.inference.tier_response_header matches Some(name) ==> inference::tier_header(profile)
            == Some(name@),
        profile.inference.tier_response_header is None && profile.protocol
            == ProtocolFamily::GeminiGenerateContent ==> inference::tier_header(profile) == Some(
            "x-gemini-service-tier"@,
        ),
{
}

/// The names on the wire, told apart.
#[verifier::spinoff_prover]
proof fn lemma_names()
    ensures
        "low"@.len() == 3,
        "max"@.len() == 3,
        "low"@[0] == 'l',
        "max"@[0] == 'm',
        "body"@.len() == 4,
        "fast"@.len() == 4,
        "high"@.len() == 4,
        "name"@.len() == 4,
        "none"@.len() == 4,
        "text"@.len() == 4,
        "topP"@.len() == 4,
        "type"@.len() == 4,
        "body"@[2] == 'd',
        "fast"@[2] == 's',
        "high"@[2] == 'g',
        "name"@[2] == 'm',
        "none"@[2] == 'n',
        "text"@[2] == 'x',
        "topP"@[2] == 'p',
        "type"@[2] == 'p',
        "body"@[1] == 'o',
        "fast"@[1] == 'a',
        "high"@[1] == 'i',
        "name"@[1] == 'a',
        "none"@[1] == 'o',
        "text"@[1] == 'e',
        "topP"@[1] == 'o',
        "type"@[1] == 'y',
        "speed"@.len() == 5,
        "top_p"@.len() == 5,
        "xhigh"@.len() == 5,
        "speed"@[0] == 's',
        "top_p"@[0] == 't',
        "xhigh"@[0] == 'x',
        "custom"@.len() == 6,
        "effort"@.len() == 6,
        "format"@.len() == 6,
        "medium"@.len() == 6,
        "schema"@.len() == 6,
        "strict"@.len() == 6,
        "custom"@[1] == 'u',
        "effort"@[1] == 'f',
        "format"@[1] == 'o',
        "medium"@[1] == 'e',
        "schema"@[1] == 'c',
        "strict"@[1] == 't',
        "default"@.len() == 7,
        "enabled"@.len() == 7,
        "minimal"@.len() == 7,
        "default"@[0] == 'd',
        "enabled"@[0] == 'e',
        "minimal"@[0] == 'm',
        "adaptive"@.len() == 8,
        "disabled"@.len() == 8,
        "function"@.len() == 8,
        "metadata"@.len() == 8,
        "priority"@.len() == 8,
        "standard"@.len() == 8,
        "thinking"@.len() == 8,
        "adaptive"@[0] == 'a',
        "disabled"@[0] == 'd',
        "function"@[0] == 'f',
        "metadata"@[0] == 'm',
        "priority"@[0] == 'p',
        "standard"@[0] == 's',
        "thinking"@[0] == 't',
        "reasoning"@.len() == 9,
        "max_tokens"@.len() == 10,
        "parameters"@.len() == 10,
        "max_tokens"@[0] == 'm',
        "parameters"@[0] == 'p',
        "json_object"@.len() == 11,
        "json_schema"@.len() == 11,
        "serviceTier"@.len() == 11,
        "json_object"@[5] == 'o',
        "json_schema"@[5] == 's',
        "serviceTier"@[5] == 'c',
        "context_hint"@.len() == 12,
        "input_schema"@.len() == 12,
        "service_tier"@.len() == 12,
        "context_hint"@[0] == 'c',
        "input_schema"@[0] == 'i',
        "service_tier"@[0] == 's',
        "budget_tokens"@.len() == 13,
        "defer_loading"@.len() == 13,
        "output_config"@.len() == 13,
        "standard_only"@.len() == 13,
        "thinkingLevel"@.len() == 13,
        "budget_tokens"@[0] == 'b',
        "defer_loading"@[0] == 'd',
        "output_config"@[0] == 'o',
        "standard_only"@[0] == 's',
        "thinkingLevel"@[0] == 't',
        "thinkingBudget"@.len() == 14,
        "thinkingConfig"@.len() == 14,
        "thinkingBudget"@[8] == 'B',
        "thinkingConfig"@[8] == 'C',
        "enable_thinking"@.len() == 15,
        "includeThoughts"@.len() == 15,
        "response_format"@.len() == 15,
        "thinking_budget"@.len() == 15,
        "enable_thinking"@[0] == 'e',
        "includeThoughts"@[0] == 'i',
        "response_format"@[0] == 'r',
        "thinking_budget"@[0] == 't',
        "application/json"@.len() == 16,
        "generationConfig"@.len() == 16,
        "reasoning_effort"@.len() == 16,
        "responseMimeType"@.len() == 16,
        "application/json"@[2] == 'p',
        "generationConfig"@[2] == 'n',
        "reasoning_effort"@[2] == 'a',
        "responseMimeType"@[2] == 's',
        "responseJsonSchema"@.len() == 18,
        "x-gemini-service-tier"@.len() == 21,
        "thinking_rejects_forced_tool_choice"@.len() == 35,
{
    reveal_strlit("adaptive");
    reveal_strlit("application/json");
    reveal_strlit("body");
    reveal_strlit("budget_tokens");
    reveal_strlit("context_hint");
    reveal_strlit("custom");
    reveal_strlit("default");
    reveal_strlit("defer_loading");
    reveal_strlit("disabled");
    reveal_strlit("effort");
    reveal_strlit("enable_thinking");
    reveal_strlit("enabled");
    reveal_strlit("fast");
    reveal_strlit("format");
    reveal_strlit("function");
    reveal_strlit("generationConfig");
    reveal_strlit("high");
    reveal_strlit("includeThoughts");
    reveal_strlit("input_schema");
    reveal_strlit("json_object");
    reveal_strlit("json_schema");
    reveal_strlit("low");
    reveal_strlit("max");
    reveal_strlit("max_tokens");
    reveal_strlit("medium");
    reveal_strlit("metadata");
    reveal_strlit("minimal");
    reveal_strlit("name");
    reveal_strlit("none");
    reveal_strlit("output_config");
    reveal_strlit("parameters");
    reveal_strlit("priority");
    reveal_strlit("reasoning");
    reveal_strlit("reasoning_effort");
    reveal_strlit("responseJsonSchema");
    reveal_strlit("responseMimeType");
    reveal_strlit("response_format");
    reveal_strlit("schema");
    reveal_strlit("serviceTier");
    reveal_strlit("service_tier");
    reveal_strlit("speed");
    reveal_strlit("standard");
    reveal_strlit("standard_only");
    reveal_strlit("strict");
    reveal_strlit("text");
    reveal_strlit("thinking");
    reveal_strlit("thinkingBudget");
    reveal_strlit("thinkingConfig");
    reveal_strlit("thinkingLevel");
    reveal_strlit("thinking_budget");
    reveal_strlit("thinking_rejects_forced_tool_choice");
    reveal_strlit("topP");
    reveal_strlit("top_p");
    reveal_strlit("type");
    reveal_strlit("x-gemini-service-tier");
    reveal_strlit("xhigh");
}

} // verus!
