use lingxi_llm_client::configuration::model::{empty_model, ModelOverrides};
use lingxi_llm_client::configuration::{
    repository, state, sync, ChangeSet, Coordinator, DefinitionRef, Definitions, FieldOverride,
    ModelField, ModelKey, ProviderStoreError, ProviderSyncOperation, SavedConfig, SavedProfile,
    MAX_PAGES,
};
use lingxi_llm_client::directory::{DecodedModelPage, LiveModel, ModelPage};
use lingxi_llm_client::json::{self, Json};
use lingxi_llm_client::codecs::inference;
use lingxi_llm_client::files::policy;
use lingxi_llm_client::protocol::{
    CapabilitySupport, CompletionRequest, ConnectionSpec, ImageConfig, InferenceConfig,
    InferenceFeatures, LlmError, ModelCapabilities, ModelProfile, ProtocolFamily,
    ProviderProfile, ReasoningWire, RequestControls, ThinkingConfig, ThinkingMode, ToolChoice,
};

fn model(wire: &str, label: &str) -> ModelProfile {
    let mut model = empty_model(wire);
    model.display_model = label.to_owned();
    model
}

fn profile(name: &str, models: Vec<ModelProfile>) -> ProviderProfile {
    ProviderProfile {
        provider_id: "vendor".to_owned(),
        profile_name: name.to_owned(),
        base_url: "https://x.test".to_owned(),
        protocol: ProtocolFamily::OpenAiChat,
        regions: vec![],
        connection: ConnectionSpec { group: None, hidden: false },
        models,
        inference: InferenceConfig {
            reasoning: ReasoningWire::Unavailable,
            fast: None,
            enabled_requires_budget: None,
            fast_beta: None,
            tier_response_header: None,
        },
        features: InferenceFeatures::default(),
        azure: None,
        images: ImageConfig { routes: vec![], models: vec![] },
        extra: Json::Null,
        auth: None,
        signing: Json::Null,
        static_credential: false,
        account: Json::Null,
    }
}

fn every_capability() -> ModelCapabilities {
    let yes = CapabilitySupport::Supported;
    ModelCapabilities {
        streaming: yes,
        tools: yes,
        vision: yes,
        documents: yes,
        reasoning: yes,
        structured_output: yes,
        signed_reasoning: yes,
    }
}

fn thinking_request() -> CompletionRequest {
    CompletionRequest {
        system: vec![],
        messages: vec![],
        tools: vec![],
        tool_choice: ToolChoice::Auto,
        max_tokens: None,
        temperature: None,
        stop_sequences: vec![],
        thinking: Some(ThinkingConfig {
            mode: Some(ThinkingMode::Enabled),
            budget: None,
            effort: None,
        }),
        service_tier: None,
        web_search: None,
        file_search: None,
        previous_response_id: None,
        controls: RequestControls {
            top_p: None,
            context_hint: None,
            responses: vec![],
            response_format: None,
        },
        metadata: Json::Null,
    }
}

fn thinking_profile(models: Vec<ModelProfile>) -> ProviderProfile {
    let mut p = profile("p", models);
    p.inference.reasoning = ReasoningWire::ThinkingType;
    p
}

/// How a request to think is taken on the connection that a configuration shows.
fn asked_to_think(
    config: &SavedConfig,
    definitions: &Definitions,
    model: &str,
) -> Result<(), LlmError> {
    let shown = config.profiles(definitions, true);
    inference::validate(&thinking_request(), &shown[0], model)
}

fn refused(model: &str) -> Result<(), LlmError> {
    Err(LlmError::UnsupportedCapability {
        message: format!("{model:?} on \"p\" does not support the requested thinking mode"),
    })
}

fn caller() -> DefinitionRef {
    DefinitionRef::Caller { name: "p".to_owned() }
}

fn live(wire: &str) -> LiveModel {
    LiveModel {
        inference_features: None,
        request_model: wire.to_owned(),
        display_name: Some("Shown".to_owned()),
        description: None,
        context_window: Some(42),
        max_output_tokens: None,
    }
}

fn page(models: Vec<LiveModel>, next: Option<&str>) -> DecodedModelPage {
    DecodedModelPage {
        page: ModelPage { models, next_cursor: next.map(str::to_owned) },
        incompatible_model_ids: vec![],
        explicitly_compatible_model_ids: vec![],
    }
}

#[test]
fn an_inherited_account_shows_the_models_of_its_definition() {
    let p = profile("p", vec![model("a", "A"), model("a", "A"), model("b", "B")]);
    let saved = SavedProfile::inherited(&p, caller());
    assert_eq!(
        saved.models[1].id,
        r#"definition:{"wire":"a","label":"A","occurrence":1}"#
    );
    let definitions = Definitions::new(vec![p.clone()], vec![]);
    let rows = saved.rows(&definitions);
    let shown: Vec<ModelProfile> = rows.iter().map(|r| r.model.clone()).collect();
    assert_eq!(shown, p.models);
    assert!(rows.iter().all(|r| r.compatible));
}

#[test]
fn a_row_id_is_json_text() {
    let mut p = profile("p", vec![model("a\"b", "x")]);
    let saved = SavedProfile::inherited(&p, caller());
    assert_eq!(
        saved.models[0].id,
        r#"definition:{"wire":"a\"b","label":"x","occurrence":0}"#
    );
    p.models.clear();
    assert!(SavedProfile::inherited(&p, caller()).models.is_empty());
}

#[test]
fn a_replacement_keeps_its_models_when_the_definition_changes() {
    let p = profile("p", vec![model("a", "Mine")]);
    let saved = SavedProfile::replacement(&p, caller());
    let mut other = profile("p", vec![model("a", "Theirs"), model("b", "B")]);
    other.models[0].features.thinking = CapabilitySupport::Unsupported;
    other.models[0].capability_support = Some(every_capability());
    let definitions = Definitions::new(vec![other], vec![]);
    let rows = saved.rows(&definitions);
    assert_eq!(rows.len(), 1);
    assert_eq!(rows[0].model, p.models[0]);
}

#[test]
fn a_default_that_left_is_not_shown_and_a_renamed_one_is_adopted() {
    let p = profile("p", vec![model("a", "A"), model("b", "B")]);
    let mut saved = SavedProfile::inherited(&p, caller());
    saved.models[0].overrides.description = Some(Some("kept".to_owned()));
    let now = profile("p", vec![model("a", "A2"), model("c", "C")]);
    let definitions = Definitions::new(vec![now], vec![]);
    let rows = saved.rows(&definitions);
    let names: Vec<&str> = rows.iter().map(|r| r.model.display_model.as_str()).collect();
    assert_eq!(names, ["A2", "C"]);
    assert_eq!(rows[0].model.description.as_deref(), Some("kept"));
    saved.removed_defaults = vec![ModelKey {
        wire: "c".to_owned(),
        label: "C".to_owned(),
        occurrence: 0,
    }];
    assert_eq!(saved.rows(&definitions).len(), 1);
}

#[test]
fn an_override_can_clear_what_a_definition_says() {
    assert_eq!(FieldOverride::<u64>::Inherit.setting(), None);
    assert_eq!(FieldOverride::Value(3u64).setting(), Some(Some(3)));
    assert_eq!(FieldOverride::<u64>::Clear.setting(), Some(None));
    let mut p = profile("p", vec![model("a", "A")]);
    p.models[0].metadata.max_output_tokens = Some(9);
    let mut saved = SavedProfile::inherited(&p, caller());
    saved.models[0].overrides = ModelOverrides {
        max_output_tokens: FieldOverride::Clear.setting(),
        hidden: Some(true),
        ..ModelOverrides::default()
    };
    let rows = saved.rows(&Definitions::new(vec![p], vec![]));
    assert_eq!(rows[0].model.metadata.max_output_tokens, None);
    assert!(rows[0].model.hidden);
}

#[test]
fn the_stored_names_of_fields() {
    assert_eq!(ModelField::all().len(), 22);
    assert_eq!(ModelField::DisplayModel.path(), ("display_model", ""));
    assert_eq!(ModelField::InferenceFeatures.path(), ("features", "info"));
    assert_eq!(
        ModelField::KnowledgeCutoff.path(),
        ("knowledgeCutoff", "metadata")
    );
}

#[test]
fn only_what_is_tracked_is_kept_and_a_session_goes_on_with_the_rest() {
    let p = profile("p", vec![model("a", "A"), model("b", "B")]);
    let definitions = Definitions::new(vec![p], vec![]);
    let mut config = SavedConfig::default();
    config.ensure_definitions(&definitions);
    config.tracked_models = vec![("vendor".to_owned(), vec!["a".to_owned()])];
    let kept = config.persisted();
    assert_eq!(kept.providers[0].models.len(), 1);
    assert_eq!(kept.providers[0].fallback.models.len(), 1);
    assert_eq!(kept.persisted(), kept);
    let mut read = kept.clone();
    read.reconcile_session(&config);
    assert_eq!(read, config);
    let mut changed = kept;
    changed.providers[0].connection.base_url = "https://y.test".to_owned();
    let before = changed.clone();
    changed.reconcile_session(&config);
    assert_eq!(changed, before);
}

#[test]
fn accounts_are_made_once_and_not_for_deleted_profiles() {
    let definitions = Definitions::new(
        vec![profile("p", vec![model("a", "A")]), profile("q", vec![])],
        vec![],
    );
    let mut config = SavedConfig::default();
    config.deleted_profiles = vec!["q".to_owned()];
    config.ensure_definitions(&definitions);
    assert_eq!(config.providers.len(), 1);
    let once = config.clone();
    config.ensure_definitions(&definitions);
    assert_eq!(config, once);
    assert_eq!(config.profiles(&definitions, true).len(), 1);
}

#[test]
fn a_row_is_made_for_a_default_that_has_none() {
    let p = profile("p", vec![model("a", "A")]);
    let mut saved = SavedProfile::inherited(&p, caller());
    saved.models.clear();
    let definitions = Definitions::new(vec![p], vec![]);
    let id = r#"definition:{"wire":"a","label":"A","occurrence":0}"#;
    assert_eq!(saved.ensure_row(id, &definitions), Ok(0));
    assert_eq!(saved.ensure_row(id, &definitions), Ok(0));
    assert_eq!(saved.models.len(), 1);
    assert_eq!(
        saved.ensure_row("no", &definitions),
        Err(ProviderStoreError::UnknownModel {
            profile_name: "p".to_owned(),
            model: "no".to_owned()
        })
    );
}

#[test]
fn a_change_names_what_changed() {
    let before = vec![profile("a", vec![]), profile("b", vec![]), profile("gone", vec![])];
    assert_eq!(ChangeSet::between(&before, &before).profiles.len(), 0);
    assert_eq!(ChangeSet::between(&before, &before).connections.len(), 0);
    let mut after = vec![profile("a", vec![model("m", "M")]), profile("b", vec![])];
    after[1].base_url = "https://y.test".to_owned();
    let changes = ChangeSet::between(&before, &after);
    assert_eq!(changes.profiles, ["a", "b", "gone"]);
    assert_eq!(changes.connections, ["b", "gone"]);
    assert!(state::same_connection(&before[0], &after[0]));
}

#[test]
fn json_numbers_that_are_equal_do_not_change_a_connection() {
    let mut a = profile("a", vec![]);
    let mut b = profile("a", vec![]);
    a.extra = json::value_of_bytes(b"{\"x\":0.0}");
    b.extra = json::value_of_bytes(b"{\"x\":-0.0}");
    assert!(state::same_connection(&a, &b));
    b.extra = json::value_of_bytes(b"{\"x\":1}");
    assert!(!state::same_connection(&a, &b));
}

#[test]
fn a_coordinator_carries_the_state() {
    let mut coordinator = Coordinator::new(
        vec![profile("p", vec![model("a", "A")])],
        vec![profile("shipped", vec![])],
    );
    assert_eq!(coordinator.configured_models("p").unwrap().len(), 1);
    assert_eq!(
        coordinator.configured_models("q"),
        Err(ProviderStoreError::UnknownProfile("q".to_owned()))
    );
    let mut state = SavedConfig::default();
    state.deleted_profiles = vec!["other".to_owned(), "shipped".to_owned()];
    coordinator.open(state);
    assert_eq!(coordinator.generation, 1);
    assert_eq!(coordinator.deleted_builtin_profiles, ["shipped"]);
    let mut read = coordinator.state.clone();
    coordinator.prepare(&mut read);
    assert_eq!(read.providers.len(), 1);
    let profiles = coordinator.settle(&mut read);
    assert_eq!(profiles[0].models.len(), 1);
}

#[test]
fn what_cannot_be_saved_is_refused() {
    let account = |p: ProviderProfile| SavedProfile::inherited(&p, caller());
    let config = |providers| SavedConfig { providers, ..SavedConfig::default() };
    assert!(repository::validate(&config(vec![account(profile("p", vec![]))])).is_ok());
    assert_eq!(
        repository::validate(&config(vec![
            account(profile("p", vec![])),
            account(profile("p", vec![]))
        ])),
        Err(ProviderStoreError::DuplicateProfile("p".to_owned()))
    );
    let mut secret = profile("p", vec![]);
    secret.static_credential = true;
    assert_eq!(
        repository::validate(&config(vec![account(secret)])),
        Err(ProviderStoreError::StaticCredential("p".to_owned()))
    );
    let mut header = profile("p", vec![]);
    header.extra = json::value_of_bytes(br#"{"headers":{"X-Api-Key":"k"}}"#);
    assert_eq!(
        repository::validate(&config(vec![account(header)])),
        Err(ProviderStoreError::CredentialHeader("p".to_owned()))
    );
    let mut twice = account(profile("p", vec![model("a", "A")]));
    let row = twice.models[0].clone();
    twice.models.push(row);
    assert_eq!(
        repository::validate(&config(vec![twice])),
        Err(ProviderStoreError::InvalidModelOverride(
            "duplicate model row id".to_owned()
        ))
    );
}

#[test]
fn a_file_of_another_version_is_refused() {
    let check = |text: &str| repository::check_version(&json::value_of_bytes(text.as_bytes()));
    assert_eq!(check(r#"{"version":2}"#), Ok(()));
    assert_eq!(
        check(r#"{"version":1}"#),
        Err(ProviderStoreError::UnsupportedVersion(1))
    );
    assert_eq!(check("{}"), Err(ProviderStoreError::UnsupportedVersion(0)));
    assert_eq!(
        check(r#"{"version":4294967298}"#),
        Err(ProviderStoreError::UnsupportedVersion(2))
    );
}

#[test]
fn the_bytes_of_a_file_are_read_before_its_version() {
    assert_eq!(repository::check_file(br#"{"version":2,"providers":[]}"#), Ok(()));
    assert_eq!(
        repository::check_file(br#"{"version":1}"#),
        Err(ProviderStoreError::UnsupportedVersion(1))
    );
    assert_eq!(repository::check_file(b"[]"), Err(ProviderStoreError::UnsupportedVersion(0)));
    for broken in [&b"{"[..], b"", b"{\"version\":2} x", b"\xFF"] {
        let error = repository::check_file(broken).unwrap_err();
        assert!(matches!(error, ProviderStoreError::Json(_)));
        assert!(error.message().starts_with("provider configuration JSON is invalid: "));
    }
}

#[test]
fn a_directory_is_authenticated_where_its_connection_is() {
    let mut p = profile("p", vec![]);
    let open = ProviderSyncOperation::new(p.clone(), 1);
    assert_eq!(open.check_authenticator(false), Ok(false));
    assert_eq!(open.check_authenticator(true), Ok(false));
    p.auth = Some("bearer".to_owned());
    let closed = ProviderSyncOperation::new(p.clone(), 1);
    assert_eq!(closed.check_authenticator(true), Ok(true));
    assert_eq!(
        closed.check_authenticator(false),
        Err(ProviderStoreError::MissingAuthenticator {
            profile_name: "p".to_owned(),
            strategy: "bearer".to_owned()
        })
    );
}

#[test]
fn a_directory_is_read_for_the_connection_that_is_there() {
    let definitions = Definitions::new(vec![profile("p", vec![])], vec![]);
    let mut config = SavedConfig::default();
    config.ensure_definitions(&definitions);
    let source = config.profiles(&definitions, false)[0].clone();
    assert_eq!(sync::check_source(&config, &definitions, &source), Ok(()));
    let mut changed = source.clone();
    changed.auth = Some("bearer".to_owned());
    assert_eq!(
        sync::check_source(&config, &definitions, &changed),
        Err(ProviderStoreError::ProfileChanged("p".to_owned()))
    );
    changed.profile_name = "q".to_owned();
    assert_eq!(
        sync::check_source(&config, &definitions, &changed),
        Err(ProviderStoreError::UnknownProfile("q".to_owned()))
    );
}

#[test]
fn a_change_is_the_same_seen_from_either_side() {
    let mut signed = profile("b", vec![]);
    signed.signing = json::value_of_bytes(br#"{"region":"r"}"#);
    let before = vec![profile("a", vec![]), profile("b", vec![]), profile("c", vec![])];
    let after = vec![signed, profile("a", vec![model("m", "M")]), profile("d", vec![])];
    let there = ChangeSet::between(&before, &after);
    assert_eq!(there.profiles, ["a", "b", "c", "d"]);
    assert_eq!(there.connections, ["b", "c", "d"]);
    let back = ChangeSet::between(&after, &before);
    assert_eq!(back.profiles, there.profiles);
    assert_eq!(back.connections, there.connections);
}

#[test]
fn a_directory_walk_ends() {
    let mut walk = ProviderSyncOperation::new(profile("p", vec![]), 1);
    assert_eq!(walk.accept(page(vec![], Some("c"))), Ok(Some("c".to_owned())));
    assert_eq!(
        walk.accept(page(vec![], Some("c"))),
        Err(ProviderStoreError::InvalidPagination)
    );
    let mut long = ProviderSyncOperation::new(profile("p", vec![]), 1);
    for n in 0..MAX_PAGES - 1 {
        assert!(long.accept(page(vec![], Some(&format!("c{n}")))).unwrap().is_some());
    }
    assert_eq!(
        long.accept(page(vec![], Some("one more"))),
        Err(ProviderStoreError::InvalidPagination)
    );
}

#[test]
fn what_a_directory_lists_is_taken_into_its_account() {
    let p = profile("p", vec![model("a", "A")]);
    let definitions = Definitions::new(vec![p.clone()], vec![]);
    let mut config = SavedConfig::default();
    config.ensure_definitions(&definitions);
    config.tracked_models = vec![(
        "vendor".to_owned(),
        vec!["a".to_owned(), "bad".to_owned(), "new".to_owned()],
    )];
    let mut walk = ProviderSyncOperation::new(config.profiles(&definitions, false)[0].clone(), 0);
    let mut listed = page(
        vec![live("a"), live("bad"), live("new"), live("untracked")],
        None,
    );
    listed.incompatible_model_ids = vec!["bad".to_owned()];
    assert_eq!(walk.accept(listed), Ok(None));
    let read = walk.finish();
    assert_eq!(read.commit(&mut config, &definitions), Ok(2));
    let account = &config.providers[0];
    assert_eq!(account.incompatible_models, ["bad"]);
    assert_eq!(account.models[1].id, "observed:new:0");
    let rows = account.rows(&definitions);
    assert_eq!(rows[0].model.metadata.context_window_tokens, Some(42));
    assert_eq!(rows[0].model.description, None);
    assert_eq!(rows[1].model.request_model, "new");
    assert_eq!(rows[1].model.description.as_deref(), Some("Shown"));

    let mut moved = read.clone();
    moved.source.base_url = "https://y.test".to_owned();
    let before = config.clone();
    assert_eq!(
        moved.commit(&mut config, &definitions),
        Err(ProviderStoreError::ProfileChanged("p".to_owned()))
    );
    assert_eq!(config, before);
}

#[test]
fn an_error_says_what_it_is_about() {
    assert_eq!(
        ProviderStoreError::UnknownProfile("p".to_owned()).message(),
        "provider profile \"p\" was not found"
    );
    assert_eq!(
        ProviderStoreError::UnknownModel {
            profile_name: "p".to_owned(),
            model: "m".to_owned()
        }
        .message(),
        "model \"m\" was not found on provider profile \"p\""
    );
    assert_eq!(
        ProviderStoreError::InvalidPagination.message(),
        "model directory pagination exceeded 100 pages or repeated a cursor"
    );
    assert_eq!(
        ProviderStoreError::UnsupportedVersion(1).message(),
        "unsupported provider configuration version 1"
    );
    assert_eq!(
        ProviderStoreError::MissingAuthenticator {
            profile_name: "p".to_owned(),
            strategy: "bearer".to_owned()
        }
        .message(),
        "no authenticator is registered for \"bearer\" on profile \"p\""
    );
}

#[test]
fn what_a_directory_observes_reaches_a_request() {
    let definitions = Definitions::new(vec![thinking_profile(vec![model("a", "A")])], vec![]);
    let mut config = SavedConfig::default();
    config.ensure_definitions(&definitions);
    config.tracked_models = vec![("vendor".to_owned(), vec!["a".to_owned()])];
    assert_eq!(asked_to_think(&config, &definitions, "a"), Ok(()));
    let mut walk = ProviderSyncOperation::new(config.profiles(&definitions, false)[0].clone(), 0);
    let mut seen = live("a");
    let mut facts = InferenceFeatures::default();
    facts.thinking = CapabilitySupport::Unsupported;
    seen.inference_features = Some(facts);
    assert_eq!(walk.accept(page(vec![seen], None)), Ok(None));
    assert_eq!(walk.finish().commit(&mut config, &definitions), Ok(1));
    assert_eq!(asked_to_think(&config, &definitions, "a"), refused("a"));
    // What is set goes before what was observed.
    let mut own = InferenceFeatures::default();
    own.thinking = CapabilitySupport::Supported;
    config.providers[0].models[0].overrides.features = Some(own);
    assert_eq!(asked_to_think(&config, &definitions, "a"), Ok(()));
}

#[test]
fn what_is_set_reaches_a_request() {
    let definitions = Definitions::new(vec![thinking_profile(vec![model("a", "A")])], vec![]);
    let mut config = SavedConfig::default();
    config.ensure_definitions(&definitions);
    let mut own = InferenceFeatures::default();
    own.modes = Some(vec![ThinkingMode::Disabled]);
    config.providers[0].models[0].overrides.features = Some(own);
    assert_eq!(asked_to_think(&config, &definitions, "a"), refused("a"));
    config.providers[0].models[0].overrides.features = None;
    config.providers[0].connection.features.mode_support.enabled = CapabilitySupport::Unsupported;
    assert_eq!(asked_to_think(&config, &definitions, "a"), refused("a"));
}

#[test]
fn what_replaces_a_preset_reaches_a_request() {
    let mut preset = thinking_profile(vec![model("a", "A")]);
    preset.models[0].features.thinking = CapabilitySupport::Unsupported;
    preset.models[0].capability_support = Some(every_capability());
    let mine = thinking_profile(vec![model("a", "A")]);
    let definitions = Definitions::new(vec![preset.clone()], vec![]);
    let mut config = SavedConfig::default();
    config.ensure_definitions(&definitions);
    assert_eq!(asked_to_think(&config, &definitions, "a"), refused("a"));
    assert!(policy::model_declares_file_input(&config.profiles(&definitions, true)[0].models[0]));
    config.providers[0] = SavedProfile::replacement(&mine, caller());
    assert_eq!(asked_to_think(&config, &definitions, "a"), Ok(()));
    let shown = config.profiles(&definitions, true);
    assert_eq!(shown[0].models, mine.models);
    assert!(!policy::model_declares_file_input(&shown[0].models[0]));
    assert!(!policy::model_declares_image_input(&shown[0].models[0]));
    config.providers[0].models[0].overrides.capability_support = Some(Some(every_capability()));
    let shown = config.profiles(&definitions, true);
    assert!(policy::model_declares_file_input(&shown[0].models[0]));
    assert!(policy::model_declares_image_input(&shown[0].models[0]));
}
