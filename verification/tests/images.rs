use lingxi_llm_client::images::decode;
use lingxi_llm_client::images::encode::encode;
use lingxi_llm_client::images::error::{ImageDispatch, ImageError};
use lingxi_llm_client::images::service::{self, ImageService};
use lingxi_llm_client::images::validate::validate;
use lingxi_llm_client::json::{self, Json};
use lingxi_llm_client::protocol::{
    AttachmentRef, ConnectionSpec, ImageApi, ImageCapabilities, ImageConfig, ImageData,
    ImageEditRequest, ImageGenerationRequest, ImageInput, ImageModelProfile, ImageOutcome,
    ImageOutput, ImageRequest, ImageRouteConfig, ImageSize, InferenceConfig, InferenceFeatures,
    LlmError, ProtocolFamily, ProviderProfile, ReasoningWire, Region,
};
use lingxi_llm_client::transport::{HttpRequest, HttpResponse};

fn output() -> ImageOutput {
    ImageOutput { count: None, size: None, aspect_ratio: None, format: None, quality: None }
}

fn generate(prompt: &str) -> ImageGenerationRequest {
    ImageGenerationRequest {
        model: "pic".to_owned(),
        prompt: prompt.to_owned(),
        references: vec![],
        output: output(),
        provider_options: vec![],
    }
}

fn route(api: ImageApi) -> ImageRouteConfig {
    ImageRouteConfig {
        api,
        base_url: "https://img.test/v1".to_owned(),
        task_base_url: None,
        authenticator: None,
        api_key_header: None,
    }
}

fn image_model() -> ImageModelProfile {
    ImageModelProfile {
        display_model: "Picture".to_owned(),
        request_model: "pic-1".to_owned(),
        route: "main".to_owned(),
        aliases: vec!["pic".to_owned()],
        hidden: false,
        capabilities: ImageCapabilities {
            text_to_image: true,
            ..ImageCapabilities::default()
        },
    }
}

fn profile(name: &str) -> ProviderProfile {
    ProviderProfile {
        provider_id: "x".to_owned(),
        profile_name: name.to_owned(),
        base_url: "https://x.test".to_owned(),
        protocol: ProtocolFamily::OpenAiChat,
        regions: vec![],
        connection: ConnectionSpec { group: None, hidden: false },
        models: vec![],
        inference: InferenceConfig {
            reasoning: ReasoningWire::Unavailable,
            fast: None,
            enabled_requires_budget: None,
            fast_beta: None,
            tier_response_header: None,
        },
        features: InferenceFeatures::default(),
        azure: None,
        images: ImageConfig {
            routes: vec![("main".to_owned(), route(ImageApi::OpenAi))],
            models: vec![image_model()],
        },
        extra: Json::Null,
        auth: None,
        signing: Json::Null,
        static_credential: false,
        account: Json::Null,
    }
}

#[test]
fn a_generation_goes_to_the_route_of_its_model() {
    let mut request = generate("a cat");
    request.output.size = Some(ImageSize::Pixels { width: 1024, height: 512 });
    request.output.count = Some(2);
    let sent = encode(
        &ImageRequest::Generate(request),
        &image_model(),
        &route(ImageApi::OpenAi),
        false,
    )
    .unwrap();
    assert_eq!(sent.method, "POST");
    assert_eq!(sent.url, "https://img.test/v1/images/generations");
    let body = json::value_of_bytes(&sent.body);
    assert_eq!(body.str_at("model"), Some("pic-1"));
    assert_eq!(body.str_at("prompt"), Some("a cat"));
    assert_eq!(body.str_at("size"), Some("1024x512"));
    assert_eq!(body.u64_at("n"), Some(2));
}

#[test]
fn a_request_that_a_model_cannot_do_is_refused() {
    let edit = ImageRequest::Edit(ImageEditRequest {
        model: "pic".to_owned(),
        prompt: "p".to_owned(),
        images: vec![ImageInput::Url { url: "https://y.test/a.png".to_owned() }],
        mask: None,
        output: output(),
        provider_options: vec![],
    });
    assert!(validate(&edit, &image_model(), &route(ImageApi::OpenAi), false).is_err());
    let plain = ImageRequest::Generate(generate("a cat"));
    assert!(validate(&plain, &image_model(), &route(ImageApi::OpenAi), false).is_ok());
    assert!(validate(&plain, &image_model(), &route(ImageApi::OpenAi), true).is_err());
}

#[test]
fn images_are_found_in_a_response() {
    let body = json::value_of_bytes(br#"{"data":[{"b64_json":"YWJj"},{"url":"https://y.test/i.png"}]}"#);
    let decoded = decode::decode(ImageApi::OpenAi, &body, "pic-1", &profile("p")).unwrap();
    assert_eq!(decoded.outcome, ImageOutcome::Complete);
    assert_eq!(decoded.images[0].data, ImageData::Base64 { data: "YWJj".to_owned() });
    assert_eq!(
        decoded.images[1].data,
        ImageData::Url { url: "https://y.test/i.png".to_owned() }
    );
    assert_eq!(decoded.executed_profile, "p");
}

#[test]
fn a_failed_call_says_whether_it_was_sent() {
    let llm = |message: &str| LlmError::ProviderInternal { message: message.to_owned() };
    assert_eq!(ImageError::Llm(llm("x")).dispatch(), ImageDispatch::NotSent);
    assert_eq!(
        ImageError::InvalidResponse("x".to_owned()).dispatch(),
        ImageDispatch::Accepted
    );
    assert_eq!(
        ImageError::Dispatched { source: llm("x"), dispatch: ImageDispatch::Rejected }.dispatch(),
        ImageDispatch::Rejected
    );
    let refused = decode::parse_json(&HttpResponse {
        status: 401,
        headers: vec![],
        body: br#"{"error":{"message":"no"}}"#.to_vec(),
    });
    assert!(refused.is_err());
}

#[test]
fn a_model_is_found_by_any_of_its_names() {
    let profiles = vec![profile("p")];
    let images = ImageService::new(&profiles, Region::International);
    assert_eq!(images.models().len(), 1);
    for name in ["pic", "pic-1", "Picture"] {
        let (found, model, _) = images.resolve(name, None).unwrap();
        assert_eq!(found.profile_name, "p");
        assert_eq!(model.request_model, "pic-1");
    }
    assert!(images.resolve("other", None).is_err());
    assert!(images.capabilities("pic").unwrap().text_to_image);
    let two = vec![profile("p"), profile("q")];
    let images = ImageService::new(&two, Region::International);
    assert!(images.resolve("pic", None).is_err());
    assert!(images.resolve("pic", Some("q")).is_ok());
}

#[test]
fn a_task_belongs_to_the_account_that_submitted_it() {
    let p = profile("p");
    let mut qwen = image_model();
    qwen.route = "main".to_owned();
    let body = json::value_of_bytes(br#"{"output":{"task_id":"t1","task_status":"PENDING"}}"#);
    let task = service::accepted(&body, &p, &qwen, &route(ImageApi::Qwen), "fp", "me").unwrap();
    assert_eq!(task.provider_task_id, "t1");
    assert!(service::check_task(&task, &p, "fp", Some("me")).is_ok());
    assert!(service::check_task(&task, &p, "fp", Some("you")).is_err());
    assert!(service::check_task(&task, &p, "other", Some("me")).is_err());
    assert!(service::check_task(&task, &p, "fp", None).is_err());
}

#[test]
fn a_route_is_known_by_its_digest() {
    assert_eq!(
        service::fingerprint(b"abc"),
        "ba7816bf8f01cfea414140de5dae2223b00361a396177a9cb410ff61f20015ad"
    );
}

#[test]
fn a_credential_is_put_where_the_route_reads_it() {
    let mut request = HttpRequest {
        method: "POST".to_owned(),
        url: "https://x.test".to_owned(),
        headers: vec![("Authorization".to_owned(), "stale".to_owned())],
        body: vec![],
        timeout: None,
    };
    service::apply_credential(&mut request, None, Some("k")).unwrap();
    assert_eq!(
        request.headers,
        vec![("authorization".to_owned(), "Bearer k".to_owned())]
    );
    service::apply_credential(&mut request, Some("x-key"), Some("k")).unwrap();
    assert_eq!(request.headers[1], ("x-key".to_owned(), "k".to_owned()));
    assert!(service::apply_credential(&mut request, None, None).is_err());
}

#[test]
fn an_attachment_is_inlined_as_base64() {
    let mut attachment = AttachmentRef {
        id: "a".to_owned(),
        filename: "a.png".to_owned(),
        media_type: "image/png".to_owned(),
        size_bytes: 3,
    };
    assert!(service::check_attachment(&attachment).is_ok());
    assert_eq!(
        service::inlined(&attachment, b"abc"),
        ImageInput::Base64 { media_type: "image/png".to_owned(), data: "YWJj".to_owned() }
    );
    attachment.media_type = "text/plain".to_owned();
    assert!(service::check_attachment(&attachment).is_err());
}

#[test]
fn an_image_error_says_what_failed() {
    let inner = || LlmError::InvalidRequest { message: "m".to_owned() };
    assert_eq!(ImageError::Llm(inner()).message("shown"), "shown");
    assert_eq!(
        ImageError::InvalidResponse("m".to_owned()).message(""),
        "invalid image response: m"
    );
    assert_eq!(
        ImageError::TaskScopeMismatch("m".to_owned()).message(""),
        "image task cannot be used with this connection: m"
    );
    let dispatch = |dispatch| ImageError::Dispatched { source: inner(), dispatch }.message("shown");
    for (how, name) in [
        (ImageDispatch::NotSent, "NotSent"),
        (ImageDispatch::Rejected, "Rejected"),
        (ImageDispatch::Unknown, "Unknown"),
        (ImageDispatch::Accepted, "Accepted"),
    ] {
        assert_eq!(
            dispatch(how),
            format!("image request failed after dispatch ({name}): shown")
        );
        assert_eq!(format!("{how:?}"), name);
    }
}
