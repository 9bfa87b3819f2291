use lingxi_llm_client::directory::{
    AnthropicMessagesDirectory, GeminiDirectory, ModelDirectory, OpenAiChatDirectory,
};
use lingxi_llm_client::json::{self, Json};
use lingxi_llm_client::protocol::{
    CapabilitySupport, ConnectionSpec, ImageConfig, InferenceConfig, InferenceFeatures,
    LlmError, ProtocolFamily, ProviderProfile, ReasoningEffort, ReasoningWire, ThinkingMode,
};
use lingxi_llm_client::transport::HttpResponse;

fn profile(protocol: ProtocolFamily, extra: &str) -> ProviderProfile {
    ProviderProfile {
        provider_id: "x".to_owned(),
        profile_name: "x".to_owned(),
        base_url: "https://x.test/".to_owned(),
        protocol,
        regions: vec![],
        connection: ConnectionSpec { group: None, hidden: false },
        models: vec![],
        inference: InferenceConfig {
            reasoning: ReasoningWire::Unavailable,
            fast: None,
            enabled_requires_budget: None,
            fast_beta: None,
            tier_response_header: None,
        },
        features: InferenceFeatures::default(),
        azure: None,
        images: ImageConfig { routes: vec![], models: vec![] },
        extra: json::value_of_bytes(extra.as_bytes()),
        auth: None,
        signing: Json::Null,
        static_credential: false,
        account: Json::Null,
    }
}

fn response(status: u16, body: &str) -> HttpResponse {
    HttpResponse { status, headers: vec![], body: body.as_bytes().to_vec() }
}

#[test]
fn the_flat_list_is_one_page() {
    let p = profile(ProtocolFamily::OpenAiChat, r#"{"headers":{"X-Title":"App"}}"#);
    let request = OpenAiChatDirectory.list_request(&p, None);
    assert_eq!(request.method, "GET");
    assert_eq!(request.url, "https://x.test/models");
    assert_eq!(
        request.headers,
        vec![
            ("accept".to_owned(), "application/json".to_owned()),
            ("X-Title".to_owned(), "App".to_owned())
        ]
    );
    assert_eq!(request.timeout, Some(30_000));
    let messages = profile(ProtocolFamily::AnthropicMessages, "{}");
    assert_eq!(
        OpenAiChatDirectory.list_request(&messages, None).url,
        "https://x.test/v1/models"
    );
    let page = OpenAiChatDirectory
        .decode_page(&response(
            200,
            r#"{"data":[{"id":"a","name":"","context_length":10,"top_provider":{"max_completion_tokens":5}},{"id":"b","max_output_tokens":7}]}"#,
        ))
        .unwrap();
    assert_eq!(page.next_cursor, None);
    assert_eq!(page.models[0].request_model, "a");
    assert_eq!(page.models[0].display_name, None);
    assert_eq!(page.models[0].context_window, Some(10));
    assert_eq!(page.models[0].max_output_tokens, Some(5));
    assert_eq!(page.models[1].max_output_tokens, Some(7));
    assert_eq!(page.models[1].inference_features, None);
}

#[test]
fn a_gateway_states_its_efforts() {
    let page = OpenAiChatDirectory
        .decode_page(&response(
            200,
            r#"{"data":[{"id":"a","reasoning":{"supported_efforts":null,"mandatory":true,"default_effort":"high","supports_max_tokens":false}},{"id":"b","reasoning":{"supported_efforts":["low","unheard-of"]}},{"id":"c","reasoning":{}}]}"#,
        ))
        .unwrap();
    let a = page.models[0].inference_features.as_ref().unwrap();
    assert_eq!(a.thinking, CapabilitySupport::Supported);
    assert_eq!(a.effort, CapabilitySupport::Supported);
    assert_eq!(a.budget, CapabilitySupport::Unsupported);
    assert_eq!(a.modes, Some(vec![ThinkingMode::Enabled]));
    assert_eq!(a.default_effort, Some(ReasoningEffort::High));
    assert_eq!(a.efforts.as_ref().unwrap().len(), 6);
    assert!(!a.efforts.as_ref().unwrap().contains(&ReasoningEffort::Off));
    let b = page.models[1].inference_features.as_ref().unwrap();
    assert_eq!(b.effort, CapabilitySupport::Supported);
    assert_eq!(b.efforts, None);
    assert_eq!(page.models[2].inference_features, None);
}

#[test]
fn the_id_cursor_ends_with_has_more() {
    let p = profile(ProtocolFamily::AnthropicMessages, r#"{"api_version":"2024-01-01"}"#);
    let request = AnthropicMessagesDirectory.list_request(&p, Some("a b&c"));
    assert_eq!(
        request.url,
        "https://x.test/v1/models?limit=1000&after_id=a%20b%26c"
    );
    assert_eq!(
        request.headers.last(),
        Some(&("anthropic-version".to_owned(), "2024-01-01".to_owned()))
    );
    let page = |body: &str| AnthropicMessagesDirectory.decode_page(&response(200, body));
    assert_eq!(
        page(r#"{"data":[],"has_more":false,"last_id":"z"}"#).unwrap().next_cursor,
        None
    );
    assert_eq!(
        page(r#"{"data":[],"has_more":true,"last_id":"z"}"#).unwrap().next_cursor,
        Some("z".to_owned())
    );
    assert!(page(r#"{"data":[],"has_more":true}"#).is_err());
    assert!(page(r#"{"data":[]}"#).is_err());
    let row = page(
        r#"{"data":[{"id":"m","display_name":"M","max_tokens":9,"capabilities":{"thinking":{"supported":true,"types":{"enabled":{"supported":true},"adaptive":{"supported":false},"odd":{"supported":true}}},"effort":{"supported":true,"max":{"supported":false}}}}],"has_more":false}"#,
    )
    .unwrap();
    let features = row.models[0].inference_features.as_ref().unwrap();
    assert_eq!(features.thinking, CapabilitySupport::Supported);
    assert_eq!(features.mode_support.enabled, CapabilitySupport::Supported);
    assert_eq!(features.mode_support.adaptive, CapabilitySupport::Unsupported);
    assert_eq!(features.mode_support.disabled, CapabilitySupport::Unknown);
    assert_eq!(features.budget, CapabilitySupport::Supported);
    assert_eq!(features.effort_support.max, CapabilitySupport::Unsupported);
    assert_eq!(features.effort_support.low, CapabilitySupport::Unknown);
    assert_eq!(features.sources.len(), 1);
}

#[test]
fn the_token_list_says_which_models_serve_the_wire() {
    let p = profile(ProtocolFamily::GeminiGenerateContent, "{}");
    assert_eq!(
        GeminiDirectory.list_request(&p, Some("a=/+")).url,
        "https://x.test/models?pageSize=1000&pageToken=a%3D%2F%2B"
    );
    let decoded = GeminiDirectory
        .decode_page_with_exclusions(&response(
            200,
            r#"{"models":[{"name":"models/a","supportedGenerationMethods":["generateContent"],"inputTokenLimit":5},{"name":"models/b","supportedGenerationMethods":["embedContent"]},{"name":"c"}],"nextPageToken":"n"}"#,
        ))
        .unwrap();
    let ids: Vec<&str> = decoded
        .page
        .models
        .iter()
        .map(|m| m.request_model.as_str())
        .collect();
    assert_eq!(ids, ["a", "c"]);
    assert_eq!(decoded.incompatible_model_ids, ["b"]);
    assert_eq!(decoded.explicitly_compatible_model_ids, ["a"]);
    assert_eq!(decoded.page.next_cursor, Some("n".to_owned()));
    let refused = |body: &str| {
        GeminiDirectory
            .decode_page(&response(200, body))
            .unwrap_err()
    };
    assert!(matches!(
        refused(r#"{"models":[],"nextPageToken":3}"#),
        LlmError::ProviderInternal { .. }
    ));
    assert!(matches!(
        refused(r#"{"models":[{"name":"a","supportedGenerationMethods":[1]}]}"#),
        LlmError::ProviderInternal { .. }
    ));
}

#[test]
fn a_page_of_another_shape_is_refused() {
    let gemini = r#"{"models":[{"name":"models/a"}]}"#;
    let flat = r#"{"data":[{"id":"a"}],"has_more":false}"#;
    assert!(OpenAiChatDirectory.decode_page(&response(200, gemini)).is_err());
    assert!(AnthropicMessagesDirectory.decode_page(&response(200, gemini)).is_err());
    assert_eq!(
        GeminiDirectory.decode_page(&response(200, flat)),
        Err(LlmError::ProviderInternal {
            message: "the model directory's page has no \"models\" array".to_owned()
        })
    );
    assert_eq!(
        OpenAiChatDirectory.decode_page(&response(200, r#"{"data":[{}]}"#)),
        Err(LlmError::ProviderInternal {
            message: "a listed model has no \"id\", so nothing could be requested of it"
                .to_owned()
        })
    );
    assert!(matches!(
        OpenAiChatDirectory.decode_page(&response(401, "{}")),
        Err(LlmError::Authentication { .. })
    ));
    assert!(
        matches!(OpenAiChatDirectory.decode_page(&response(200, "<html>")), Err(LlmError::ProviderInternal { message }) if message.starts_with("the model directory answered with something that is not JSON: "))
    );
}
