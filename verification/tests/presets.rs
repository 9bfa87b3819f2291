use lingxi_llm_client::json::{self, Json};
use lingxi_llm_client::presets::{merge, preset, CatalogModel, PresetError};
use lingxi_llm_client::protocol::{
    CapabilitySupport, ConnectionSpec, ImageConfig, InferenceConfig, InferenceFeatures,
    ModelCapability, ProtocolFamily, ProviderProfile, ReasoningWire,
};

fn route(name: &str) -> ProviderProfile {
    ProviderProfile {
        provider_id: "vendor".to_owned(),
        profile_name: name.to_owned(),
        base_url: "https://x.test".to_owned(),
        protocol: ProtocolFamily::OpenAiChat,
        regions: vec![],
        connection: ConnectionSpec { group: None, hidden: false },
        models: vec![],
        inference: InferenceConfig {
            reasoning: ReasoningWire::Unavailable,
            fast: None,
            enabled_requires_budget: None,
            fast_beta: None,
            tier_response_header: None,
        },
        features: InferenceFeatures::default(),
        azure: None,
        images: ImageConfig { routes: vec![], models: vec![] },
        extra: Json::Null,
        auth: None,
        signing: Json::Null,
        static_credential: false,
        account: Json::Null,
    }
}

fn catalog(id: &str, name: Option<&str>) -> CatalogModel {
    CatalogModel {
        id: id.to_owned(),
        name: name.map(str::to_owned),
        description: None,
        family: None,
        knowledge_cutoff: None,
        release_date: None,
        last_updated: None,
        context_window: Some(100),
        max_input: None,
        max_output: None,
        input_modalities: vec!["text".to_owned(), "pdf".to_owned()],
        output_modalities: vec![],
        tool_call: true,
        reasoning: false,
        structured_output: false,
        temperature: None,
        attachment: None,
        open_weights: None,
        pricing: Some(json::value_of_bytes(br#"{"input":1.5}"#)),
        billing_mode: None,
    }
}

#[test]
fn a_preset_is_its_route_with_the_models_of_the_catalog() {
    let models = vec![
        catalog("m-1", Some("Model")),
        catalog("m-1-preview", Some("Model")),
        catalog("m-2", Some("Other")),
        catalog("m-3", None),
    ];
    let p = preset("shipped", route("ignored"), &models).unwrap();
    assert_eq!(p.profile_name, "shipped");
    let names: Vec<&str> = p.models.iter().map(|m| m.display_model.as_str()).collect();
    assert_eq!(names, ["m-1", "m-1-preview", "Other", "m-3"]);
    let first = &p.models[0];
    assert_eq!(first.metadata.context_window_tokens, Some(100));
    let supported = |c| first.capability_support_for(c) == CapabilitySupport::Supported;
    assert!(supported(ModelCapability::Streaming) && supported(ModelCapability::Tools));
    assert!(supported(ModelCapability::Documents) && !supported(ModelCapability::Vision));
    assert_eq!(
        first.capability_support_for(ModelCapability::SignedReasoning),
        CapabilitySupport::Unsupported
    );
    assert_eq!(first.pricing, models[0].pricing);
}

#[test]
fn a_preset_without_a_model_is_refused() {
    let error = preset("empty", route("r"), &vec![]).unwrap_err();
    assert_eq!(error, PresetError::NoModels { profile_name: "empty".to_owned() });
    assert_eq!(
        error.message(),
        "the preset for \"empty\" declares no model, so nothing can resolve to it"
    );
    assert_eq!(
        PresetError::Invalid { profile_name: "p".to_owned(), message: "why".to_owned() }.message(),
        "the preset for \"p\" is not valid: why"
    );
}

#[test]
fn an_entry_of_the_user_replaces_the_preset_of_its_name() {
    let mut own = route("a");
    own.base_url = "https://own.test".to_owned();
    let merged = merge(vec![own], &vec![route("a"), route("b")]);
    let names: Vec<&str> = merged.iter().map(|p| p.profile_name.as_str()).collect();
    assert_eq!(names, ["a", "b"]);
    assert_eq!(merged[0].base_url, "https://own.test");
}
