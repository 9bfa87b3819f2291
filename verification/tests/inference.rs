use lingxi_llm_client::codecs::anthropic::AnthropicMessagesCodec;
use lingxi_llm_client::codecs::inference::{self, merge_json};
use lingxi_llm_client::codecs::{CodecContext, EncodeRequest, RequestMode, WireCodec};
use lingxi_llm_client::json::{self, Json};
use lingxi_llm_client::protocol::{
    CapabilitySupport, CompletionRequest, ConnectionSpec, ContentBlock, ConversationMessage,
    EffortRule, ImageConfig, InferenceConfig, InferenceFeatures, LlmError, MessageRole,
    ProtocolFamily, ProviderProfile, ReasoningEffort, ReasoningWire, RequestControls,
    ThinkingBudget, ThinkingConfig, ThinkingMode, ToolChoice,
};

fn value(text: &str) -> Json {
    json::value_of_bytes(text.as_bytes())
}

fn profile() -> ProviderProfile {
    let mut features = InferenceFeatures::default();
    features.thinking = CapabilitySupport::Supported;
    features.budget = CapabilitySupport::Supported;
    features.mode_support.enabled = CapabilitySupport::Supported;
    features.max_budget = Some(2048);
    ProviderProfile {
        provider_id: "x".to_owned(),
        profile_name: "x".to_owned(),
        base_url: "https://x.test".to_owned(),
        protocol: ProtocolFamily::AnthropicMessages,
        regions: vec![],
        connection: ConnectionSpec { group: None, hidden: false },
        models: vec![],
        inference: InferenceConfig {
            reasoning: ReasoningWire::Anthropic,
            fast: None,
            enabled_requires_budget: Some(true),
            fast_beta: None,
            tier_response_header: None,
        },
        features,
        azure: None,
        images: ImageConfig { routes: vec![], models: vec![] },
        extra: Json::Null,
        auth: None,
        signing: Json::Null,
        static_credential: false,
        account: Json::Null,
    }
}

fn request(thinking: ThinkingConfig) -> CompletionRequest {
    CompletionRequest {
        system: vec![],
        messages: vec![ConversationMessage {
            role: MessageRole::User,
            content: vec![ContentBlock::Text {
                text: "hi".to_owned(),
                thought_signature: None,
            }],
        }],
        tools: vec![],
        tool_choice: ToolChoice::Auto,
        max_tokens: Some(4096),
        temperature: None,
        stop_sequences: vec![],
        thinking: Some(thinking),
        service_tier: None,
        web_search: None,
        file_search: None,
        previous_response_id: None,
        controls: RequestControls {
            top_p: None,
            context_hint: None,
            responses: vec![],
            response_format: None,
        },
        metadata: Json::Null,
    }
}

#[test]
fn a_budget_is_written_as_the_wire_takes_it() {
    let p = profile();
    let context = CodecContext::new(&p, "m", RequestMode::Complete);
    let req = request(ThinkingConfig {
        mode: Some(ThinkingMode::Enabled),
        budget: Some(ThinkingBudget::Tokens(1024)),
        effort: None,
    });
    let sent = AnthropicMessagesCodec
        .encode_request(EncodeRequest::new(&req), &context)
        .unwrap();
    let body = json::value_of_bytes(&sent.body);
    assert_eq!(
        body.get("thinking"),
        Some(&value(r#"{"type":"enabled","budget_tokens":1024}"#))
    );
}

#[test]
fn a_budget_over_the_model_limit_is_refused() {
    let p = profile();
    let context = CodecContext::new(&p, "m", RequestMode::Complete);
    let req = request(ThinkingConfig {
        mode: Some(ThinkingMode::Enabled),
        budget: Some(ThinkingBudget::Tokens(4000)),
        effort: None,
    });
    assert!(AnthropicMessagesCodec.validate_request(&req, &context).is_err());
}

#[test]
fn fields_merge_and_conflicts_are_refused() {
    assert_eq!(
        merge_json(value(r#"{"a":{"b":1}}"#), &value(r#"{"a":{"c":2}}"#), "x"),
        Ok(value(r#"{"a":{"b":1,"c":2}}"#))
    );
    assert_eq!(
        merge_json(value(r#"{"a":1}"#), &value(r#"{"a":2}"#), "x"),
        Err(LlmError::InvalidRequest {
            message: "conflicting request field x.a".to_owned()
        })
    );
}

#[test]
fn an_observation_fills_in_what_was_unknown() {
    let mut seed = InferenceFeatures::default();
    seed.sources = vec!["a".to_owned()];
    let mut later = InferenceFeatures::default();
    later.thinking = CapabilitySupport::Supported;
    later.modes = Some(vec![ThinkingMode::Adaptive]);
    later.sources = vec!["a".to_owned(), "b".to_owned()];
    seed.overlay(&later);
    assert_eq!(seed.thinking, CapabilitySupport::Supported);
    assert_eq!(seed.modes, Some(vec![ThinkingMode::Adaptive]));
    assert_eq!(seed.sources, ["a", "b"]);
    let before = seed.clone();
    seed.overlay(&InferenceFeatures::default());
    assert_eq!(seed, before);
}

fn enabled() -> ThinkingConfig {
    ThinkingConfig {
        mode: Some(ThinkingMode::Enabled),
        budget: Some(ThinkingBudget::Tokens(1024)),
        effort: None,
    }
}

#[test]
fn a_connection_narrows_what_is_known_of_a_model() {
    let mut own = InferenceFeatures::default();
    own.thinking = CapabilitySupport::Supported;
    own.modes = Some(vec![ThinkingMode::Adaptive, ThinkingMode::Enabled]);
    own.efforts = Some(vec![ReasoningEffort::Low]);
    own.min_budget = Some(10);
    own.max_budget = Some(100);
    own.default_effort = Some(ReasoningEffort::Low);
    let mut connection = InferenceFeatures::default();
    connection.thinking = CapabilitySupport::Unsupported;
    connection.fast = CapabilitySupport::Supported;
    connection.modes = Some(vec![ThinkingMode::Enabled, ThinkingMode::Disabled]);
    connection.min_budget = Some(20);
    connection.max_budget = Some(200);
    connection.default_effort = Some(ReasoningEffort::High);
    connection.sources = vec!["c".to_owned()];
    let both = own.on_connection(&connection);
    assert_eq!(both.thinking, CapabilitySupport::Unsupported);
    assert_eq!(both.fast, CapabilitySupport::Supported);
    assert_eq!(both.modes, Some(vec![ThinkingMode::Enabled]));
    assert_eq!(both.efforts, Some(vec![ReasoningEffort::Low]));
    assert_eq!((both.min_budget, both.max_budget), (Some(20), Some(100)));
    assert_eq!(both.default_effort, Some(ReasoningEffort::Low));
    assert_eq!(both.sources, ["c"]);
    assert_eq!(both.on_connection(&connection), both);
    assert_eq!(own.on_connection(&InferenceFeatures::default()), own);
}

#[test]
fn a_connection_narrows_the_rules_for_efforts() {
    let rule = |effort, support, conflict: Option<&str>| EffortRule {
        mode: Some(ThinkingMode::Enabled),
        effort,
        support,
        conflict: conflict.map(str::to_owned),
    };
    let (yes, no) = (CapabilitySupport::Supported, CapabilitySupport::Unsupported);
    let mut own = InferenceFeatures::default();
    own.effort_rules = vec![
        rule(ReasoningEffort::Low, no, Some("own")),
        rule(ReasoningEffort::High, yes, None),
        rule(ReasoningEffort::Max, yes, None),
    ];
    let mut connection = InferenceFeatures::default();
    connection.effort_rules = vec![
        rule(ReasoningEffort::High, no, Some("connection")),
        rule(ReasoningEffort::Low, yes, None),
    ];
    let both = own.on_connection(&connection);
    assert_eq!(
        both.effort_rules,
        [
            rule(ReasoningEffort::High, no, Some("connection")),
            rule(ReasoningEffort::Low, no, Some("own")),
            rule(ReasoningEffort::Max, yes, None),
        ]
    );
    assert_eq!(both.on_connection(&connection), both);
    let mut seed = own.clone();
    seed.overlay(&connection);
    assert_eq!(
        seed.effort_rules,
        [
            rule(ReasoningEffort::High, no, Some("connection")),
            rule(ReasoningEffort::Low, yes, None),
            rule(ReasoningEffort::Max, yes, None),
        ]
    );
}

#[test]
fn the_closest_fact_decides() {
    let mut f = InferenceFeatures::default();
    assert_eq!(f.supports_mode(ThinkingMode::Enabled), CapabilitySupport::Unknown);
    f.thinking = CapabilitySupport::Unsupported;
    assert_eq!(f.supports_mode(ThinkingMode::Enabled), CapabilitySupport::Unsupported);
    assert_eq!(f.supports_mode(ThinkingMode::Disabled), CapabilitySupport::Unknown);
    f.modes = Some(vec![ThinkingMode::Enabled]);
    assert_eq!(f.supports_mode(ThinkingMode::Enabled), CapabilitySupport::Supported);
    assert_eq!(f.supports_mode(ThinkingMode::Disabled), CapabilitySupport::Unsupported);
    f.mode_support.disabled = CapabilitySupport::Supported;
    assert_eq!(f.supports_mode(ThinkingMode::Disabled), CapabilitySupport::Supported);
    let low = ReasoningEffort::Low;
    assert_eq!(f.supports_effort(None, low), CapabilitySupport::Unknown);
    f.effort = CapabilitySupport::Unsupported;
    assert_eq!(f.supports_effort(None, low), CapabilitySupport::Unsupported);
    f.efforts = Some(vec![low]);
    assert_eq!(f.supports_effort(None, low), CapabilitySupport::Supported);
    f.effort_support.low = CapabilitySupport::Unsupported;
    assert_eq!(f.supports_effort(None, low), CapabilitySupport::Unsupported);
    f.effort_rules = vec![EffortRule {
        mode: Some(ThinkingMode::Disabled),
        effort: low,
        support: CapabilitySupport::Supported,
        conflict: Some("no".to_owned()),
    }];
    let off = Some(ThinkingMode::Disabled);
    assert_eq!(f.supports_effort(off, low), CapabilitySupport::Supported);
    assert_eq!(f.effort_mode_error(off, low), Some("no".to_owned()));
    assert_eq!(f.effort_mode_error(None, low), None);
}

#[test]
fn a_model_without_thinking_is_sent_no_thinking() {
    let mut p = profile();
    assert!(inference::validate(&request(enabled()), &p, "m").is_ok());
    p.features.mode_support.enabled = CapabilitySupport::Unsupported;
    assert_eq!(
        inference::validate(&request(enabled()), &p, "m"),
        Err(LlmError::UnsupportedCapability {
            message: "\"m\" on \"x\" does not support the requested thinking mode".to_owned()
        })
    );
}
