use lingxi_llm_client::codecs::extras::{merge_body, merge_headers};
use lingxi_llm_client::json::{self, Json};
use lingxi_llm_client::protocol::{
    ConnectionSpec, ImageConfig, InferenceConfig, InferenceFeatures, ProtocolFamily,
    ProviderProfile, ReasoningWire,
};

fn value(text: &str) -> Json {
    json::value_of_bytes(text.as_bytes())
}

fn profile(extra: &str) -> ProviderProfile {
    ProviderProfile {
        provider_id: "x".to_owned(),
        profile_name: "x".to_owned(),
        base_url: "https://x.test".to_owned(),
        protocol: ProtocolFamily::OpenAiChat,
        regions: vec![],
        connection: ConnectionSpec { group: None, hidden: false },
        models: vec![],
        inference: InferenceConfig {
            reasoning: ReasoningWire::Unavailable,
            fast: None,
            enabled_requires_budget: None,
            fast_beta: None,
            tier_response_header: None,
        },
        features: InferenceFeatures::default(),
        azure: None,
        images: ImageConfig { routes: vec![], models: vec![] },
        extra: value(extra),
        auth: None,
        signing: Json::Null,
        static_credential: false,
        account: Json::Null,
    }
}

#[test]
fn a_nested_object_the_wire_does_not_define_is_passed_through_whole() {
    // An aggregator's routing preferences are a structure, not a flag, and this
    // crate must not know its name.
    let p = profile(
        r#"{"body": {
            "provider": {"sort": "throughput", "data_collection": "deny"},
            "user": "stable-id"
        }}"#,
    );
    let mut body = vec![];
    assert!(merge_body(&p, &mut body).is_empty());
    assert_eq!(
        json::find(&body, "provider"),
        Some(&value(r#"{"sort": "throughput", "data_collection": "deny"}"#))
    );
    assert_eq!(json::find(&body, "user"), Some(&value(r#""stable-id""#)));
}

#[test]
fn configuration_cannot_redirect_a_request_to_another_model() {
    // The model was resolved, priced and recorded. Silently sending a different
    // one would make every one of those records wrong.
    let p = profile(r#"{"body": {"model": "someone-elses-model"}}"#);
    let mut body = vec![];
    json::set(&mut body, "model", json::string("the-resolved-one"));
    assert_eq!(merge_body(&p, &mut body), vec!["model".to_owned()]);
    assert_eq!(
        json::find(&body, "model"),
        Some(&json::string("the-resolved-one"))
    );
}

#[test]
fn configuration_cannot_inject_a_responses_continuation() {
    let p = profile(r#"{"body": {"previous_response_id": "resp_untyped"}}"#);
    let mut body = vec![];
    assert_eq!(
        merge_body(&p, &mut body),
        vec!["previous_response_id".to_owned()]
    );
    assert!(json::find(&body, "previous_response_id").is_none());
}

#[test]
fn an_authorization_header_cannot_be_smuggled_in_through_config() {
    for name in ["Authorization", "x-api-key", "COOKIE"] {
        let p = profile(&format!(r#"{{"headers": {{"{name}": "sk-not-yours"}}}}"#));
        let mut headers = vec![];
        assert_eq!(merge_headers(&p, &mut headers), vec![name.to_owned()]);
        assert!(
            headers.is_empty(),
            "{name} belongs to the authenticator, which runs after this"
        );
    }
}

#[test]
fn a_header_the_codec_already_wrote_is_not_duplicated() {
    let p = profile(r#"{"headers": {"Content-Type": "text/plain"}}"#);
    let mut headers = vec![("content-type".to_owned(), "application/json".to_owned())];
    assert_eq!(
        merge_headers(&p, &mut headers),
        vec!["Content-Type".to_owned()]
    );
    assert_eq!(headers.len(), 1);
    assert_eq!(headers[0].1, "application/json");
}

#[test]
fn attribution_headers_go_through() {
    let p = profile(r#"{"headers": {"HTTP-Referer": "https://app.test", "X-Title": "App"}}"#);
    let mut headers = vec![];
    assert!(merge_headers(&p, &mut headers).is_empty());
    assert_eq!(headers.len(), 2);
}

#[test]
fn a_header_whose_value_is_not_a_string_is_refused() {
    let p = profile(r#"{"headers": {"X-Count": 3}}"#);
    let mut headers = vec![];
    assert_eq!(merge_headers(&p, &mut headers), vec!["X-Count".to_owned()]);
    assert!(headers.is_empty());
}

#[test]
fn a_profile_that_declares_nothing_changes_nothing() {
    let p = profile(r#"{"stream_usage_opt_in": true}"#);
    let mut body = vec![];
    let mut headers = vec![];
    assert!(merge_body(&p, &mut body).is_empty());
    assert!(merge_headers(&p, &mut headers).is_empty());
    assert!(body.is_empty() && headers.is_empty());
}

#[test]
fn a_second_merge_refuses_every_key() {
    let p = profile(r#"{"body": {"a": 1, "b": 2, "model": "x", "previous_response_id": "r"}}"#);
    let mut body = vec![("b".to_owned(), value("3"))];
    assert_eq!(merge_body(&p, &mut body), ["b", "model", "previous_response_id"]);
    assert_eq!(body, [("a".to_owned(), value("1")), ("b".to_owned(), value("3"))]);
    let once = body.clone();
    assert_eq!(merge_body(&p, &mut body), ["a", "b", "model", "previous_response_id"]);
    assert_eq!(body, once);
}

#[test]
fn headers_are_added_once() {
    let p = profile(r#"{"headers": {"Cookie": "c", "X-A": "1", "X-N": 2}}"#);
    let mut headers = vec![];
    assert_eq!(merge_headers(&p, &mut headers), ["Cookie", "X-N"]);
    assert_eq!(headers, [("X-A".to_owned(), "1".to_owned())]);
    assert_eq!(merge_headers(&p, &mut headers), ["Cookie", "X-A", "X-N"]);
    assert_eq!(headers.len(), 1);
}
