use lingxi_llm_client::files::http;
use lingxi_llm_client::files::policy::{self, Adapter};
use lingxi_llm_client::files::service::{
    self, DownloadPlan, FileService, GeminiStep, QwenStep, UploadPlan,
};
use lingxi_llm_client::files::types::{
    FileOperation, FilePurpose, ModelFileReference, ProviderFileRef, UploadFile,
};
use lingxi_llm_client::files::waiting::{
    gemini_poll_delay, gemini_poll_timeout, gemini_processing_expired, qwen_deadline,
    qwen_poll_wait, QwenWait,
};
use lingxi_llm_client::json::{self, Json};
use lingxi_llm_client::protocol::{
    ConnectionSpec, ImageConfig, InferenceConfig, InferenceFeatures, LlmError, ProtocolFamily,
    ProviderProfile, ReasoningWire,
};
use lingxi_llm_client::transport::HttpResponse;

fn profile(provider: &str, base_url: &str, protocol: ProtocolFamily) -> ProviderProfile {
    ProviderProfile {
        provider_id: provider.to_owned(),
        profile_name: provider.to_owned(),
        base_url: base_url.to_owned(),
        protocol,
        regions: vec![],
        connection: ConnectionSpec { group: None, hidden: false },
        models: vec![],
        inference: InferenceConfig {
            reasoning: ReasoningWire::Unavailable,
            fast: None,
            enabled_requires_budget: None,
            fast_beta: None,
            tier_response_header: None,
        },
        features: InferenceFeatures::default(),
        azure: None,
        images: ImageConfig { routes: vec![], models: vec![] },
        extra: Json::Null,
        auth: None,
        signing: Json::Null,
        static_credential: false,
        account: Json::Null,
    }
}

fn openai() -> ProviderProfile {
    profile("openai", "https://api.openai.com/v1", ProtocolFamily::OpenAiResponses)
}

fn upload() -> UploadFile {
    UploadFile {
        filename: "a.pdf".to_owned(),
        media_type: "application/pdf".to_owned(),
        bytes: b"body".to_vec(),
    }
}

fn ok(body: &str) -> HttpResponse {
    HttpResponse { status: 200, headers: vec![], body: body.as_bytes().to_vec() }
}

#[test]
fn an_endpoint_decides_which_file_api_there_is() {
    assert_eq!(policy::adapter(&openai()), Some(Adapter::OpenAi));
    let own = profile("openai", "https://proxy.test/v1", ProtocolFamily::OpenAiResponses);
    assert_eq!(policy::adapter(&own), None);
    let capabilities = policy::capabilities_for_adapter(Adapter::OpenAi);
    assert!(capabilities.supports(FileOperation::Upload));
    assert!(capabilities.supports(FileOperation::Delete));
}

#[test]
fn a_file_is_uploaded_and_belongs_to_its_connection() {
    let p = openai();
    let files = FileService::new(&p, Some("me".to_owned()));
    let plan = files
        .plan_upload(&upload(), FilePurpose::ModelInput, None, "BOUNDARY")
        .unwrap();
    let request = match plan {
        UploadPlan::Multipart { request } => request,
        UploadPlan::Resumable => panic!("one request"),
    };
    assert_eq!(request.url, "https://api.openai.com/v1/files");
    let text = String::from_utf8(request.body).unwrap();
    assert!(text.starts_with("--BOUNDARY\r\n"));
    assert!(text.ends_with("--BOUNDARY--\r\n"));
    assert!(text.contains("filename=\"a.pdf\""));
    let uploaded = files
        .uploaded(
            &upload(),
            FilePurpose::ModelInput,
            &ok(r#"{"id":"file-1","filename":"a.pdf","bytes":4}"#),
        )
        .unwrap();
    assert_eq!(uploaded.file_id, "file-1");
    assert_eq!(uploaded.account_scope.as_deref(), Some("me"));
    assert!(files.check_ref(&uploaded).is_ok());
    assert!(FileService::new(&p, Some("you".to_owned())).check_ref(&uploaded).is_err());
    let other = profile("openai", "https://eu.api.openai.com/v1", ProtocolFamily::OpenAiResponses);
    assert!(FileService::new(&other, Some("me".to_owned())).check_ref(&uploaded).is_err());
    let reference = uploaded.model_reference();
    assert_eq!(reference.file_id, "file-1");
}

fn file(p: &ProviderProfile, id: &str) -> ProviderFileRef {
    ProviderFileRef {
        provider_id: p.provider_id.clone(),
        profile_name: p.profile_name.clone(),
        endpoint_fingerprint: http::provider_file_endpoint_fingerprint(&p.base_url),
        account_scope: None,
        protocol: p.protocol,
        file_id: id.to_owned(),
        uri: None,
        filename: None,
        media_type: None,
        size_bytes: None,
        expires_at: None,
        downloadable: None,
        purpose: None,
    }
}

#[test]
fn an_id_stays_one_segment_of_the_path() {
    let p = openai();
    let files = FileService::new(&p, None);
    let request = files.get_request(&file(&p, "a/b?c")).unwrap();
    assert_eq!(request.method, "GET");
    assert_eq!(request.url, "https://api.openai.com/v1/files/a%2Fb%3Fc");
    let request = files.delete_request(&file(&p, "f")).unwrap();
    assert_eq!(request.method, "DELETE");
    assert!(files
        .deleted(&file(&p, "f"), &ok(r#"{"deleted":true}"#))
        .is_ok());
    match files.plan_download(&file(&p, "f")).unwrap() {
        DownloadPlan::Direct { request } => {
            assert_eq!(request.url, "https://api.openai.com/v1/files/f/content");
        }
        DownloadPlan::IfMarked { .. } => panic!("uploaded files can be read back"),
    }
}

#[test]
fn text_that_goes_into_a_request_is_made_safe() {
    assert_eq!(http::query_value("a b&c"), "a%20b%26c");
    assert!(!http::sanitize_filename("a\r\n\"b\"/c").contains(['\r', '\n', '"']));
    assert!(http::validate_media_type("application/pdf").is_ok());
    assert!(http::validate_media_type("a\r\nb").is_err());
    assert!(http::same_origin("https://a.test/x", "https://a.test:443/y"));
    assert!(!http::same_origin("https://a.test", "http://a.test"));
}

#[test]
fn a_failure_is_classified_by_its_status() {
    assert!(matches!(
        http::status_error(401, "no", "upload"),
        LlmError::Authentication { .. }
    ));
    assert!(matches!(
        http::status_error(429, "slow", "upload"),
        LlmError::RateLimited { .. }
    ));
    assert!(http::status_result(&ok(""), "upload").is_ok());
}

#[test]
fn a_download_is_bounded_and_calls_are_paced() {
    let mut body = Vec::new();
    assert!(service::append_download(&mut body, b"abc").is_ok());
    assert_eq!(body, b"abc");
    assert_eq!(service::pace(10, 4), 6);
    assert_eq!(service::pace(4, 10), 0);
    assert!(service::cleanup_retry(0).is_some());
    assert_eq!(service::cleanup_retry(u32::MAX), None);
}

#[test]
fn a_provider_takes_file_references_for_some_media_only() {
    let p = openai();
    let capabilities = policy::capabilities_for_purpose(
        &p,
        "unlisted",
        "application/x-unheard-of",
        FilePurpose::ModelInput,
    );
    assert_eq!(capabilities.model_input, ModelFileReference::Unsupported);
}

fn gemini() -> ProviderProfile {
    profile(
        "google",
        "https://generativelanguage.googleapis.com/v1beta",
        ProtocolFamily::GeminiGenerateContent,
    )
}

fn qwen() -> ProviderProfile {
    profile(
        "qwen",
        "https://dashscope.aliyuncs.com/compatible-mode/v1",
        ProtocolFamily::OpenAiChat,
    )
}

fn value(text: &str) -> Json {
    json::value_of_bytes(text.as_bytes())
}

#[test]
fn a_gemini_upload_stays_on_its_origin() {
    let p = gemini();
    let files = FileService::new(&p, Some("me".to_owned()));
    assert!(matches!(
        files.plan_upload(&upload(), FilePurpose::ModelInput, None, "B"),
        Ok(UploadPlan::Resumable)
    ));
    let start = files.gemini_start(&upload());
    assert_eq!(start.url, "https://generativelanguage.googleapis.com/upload/v1beta/files");
    assert_eq!(start.body, br#"{"file":{"display_name":"a.pdf"}}"#);
    assert!(files
        .gemini_start_headers(&upload())
        .contains(&("x-goog-upload-header-content-length".to_owned(), "4".to_owned())));
    let started = |url: &str| HttpResponse {
        status: 200,
        headers: vec![("X-Goog-Upload-Url".to_owned(), url.to_owned())],
        body: vec![],
    };
    let own = "https://generativelanguage.googleapis.com/upload?id=1";
    assert_eq!(files.gemini_started(&started(own)).unwrap(), own);
    assert!(matches!(
        files.gemini_started(&started("https://elsewhere.test/upload")),
        Err(LlmError::PermissionDenied { .. })
    ));
    assert!(files.gemini_started(&ok("")).is_err());
    let transfer = files.gemini_transfer(&upload(), own, 9);
    assert_eq!(transfer.body, b"body");
    assert_eq!(transfer.timeout, Some(9));
}

#[test]
fn a_gemini_file_is_waited_for() {
    let p = gemini();
    let files = FileService::new(&p, Some("me".to_owned()));
    let step = files.gemini_transferred(
        &upload(),
        &value(r#"{"file":{"name":"files/1","uri":"u","state":"PROCESSING"}}"#),
    );
    let pending = match step {
        GeminiStep::Pending { file } => file,
        other => panic!("{other:?}"),
    };
    assert_eq!(pending.media_type.as_deref(), Some("application/pdf"));
    assert_eq!(
        files.gemini_poll(&pending).url,
        "https://generativelanguage.googleapis.com/v1beta/files/1"
    );
    assert!(matches!(
        files.gemini_polled(pending.clone(), &value(r#"{"state":"PROCESSING"}"#)),
        GeminiStep::Pending { .. }
    ));
    match files.gemini_polled(
        pending.clone(),
        &value(r#"{"name":"files/1","uri":"v","state":"ACTIVE"}"#),
    ) {
        GeminiStep::Ready { file } => {
            assert_eq!(file.uri.as_deref(), Some("v"));
            assert_eq!(file.filename.as_deref(), Some("a.pdf"));
        }
        other => panic!("{other:?}"),
    }
    assert!(matches!(
        files.gemini_polled(pending.clone(), &value(r#"{"name":"files/2","state":"ACTIVE"}"#)),
        GeminiStep::Unresolved { .. }
    ));
    assert!(matches!(
        files.gemini_polled(pending.clone(), &value(r#"{"state":"FAILED"}"#)),
        GeminiStep::Failed { .. }
    ));
    assert!(matches!(
        files.gemini_polled(pending.clone(), &value(r#"{"state":"ODD"}"#)),
        GeminiStep::Unresolved { .. }
    ));
    let resumed = files.resume_gemini(&pending.model_reference()).unwrap();
    assert_eq!(resumed.file_id, pending.file_id);
    assert!(FileService::new(&p, None).resume_gemini(&pending.model_reference()).is_err());
    match service::gemini_processing_remaining(5, 5, "5ms", &pending) {
        Err(LlmError::ProviderFileProcessing { message, file }) => {
            assert_eq!(message, "Gemini file remains PROCESSING after 5ms");
            assert_eq!(file.file_id, "files/1");
        }
        other => panic!("{other:?}"),
    }
    assert_eq!(service::gemini_timeout_remaining(7, 3, "7ms", "upload").unwrap(), 4);
    assert!(matches!(
        service::gemini_timeout_remaining(3, 3, "3ms", "upload"),
        Err(LlmError::TransportTimeout { .. })
    ));
}

#[test]
fn a_video_has_more_time_and_no_more() {
    let p = gemini();
    let files = FileService::new(&p, None);
    assert_eq!(files.gemini_timeouts("application/pdf"), (120_000, 600_000));
    assert_eq!(files.gemini_timeouts("Video/mp4"), (7_200_000, 600_000));
    let files = files
        .with_gemini_upload_timeout(9_000_000)
        .with_gemini_processing_timeout(9_000_000);
    assert_eq!(files.gemini_timeouts("application/pdf"), (9_000_000, 9_000_000));
    assert_eq!(files.gemini_timeouts("video/mp4"), (7_200_000, 7_200_000));
}

#[test]
fn a_qwen_file_is_parsed_before_it_is_used() {
    let p = qwen();
    let files = FileService::new(&p, Some("me".to_owned()));
    let f = file(&p, "file-1");
    assert!(files.qwen_wait(&f).unwrap());
    assert!(files.qwen_wait(&file(&p, "a/b")).is_err());
    let other = openai();
    assert!(!FileService::new(&other, None).qwen_wait(&f).unwrap());
    assert_eq!(
        files.qwen_poll(&f).url,
        "https://dashscope.aliyuncs.com/compatible-mode/v1/files/file-1"
    );
    let step = |body: &str| files.qwen_polled(&f, &ok(body));
    assert_eq!(step(r#"{"id":"file-1","status":"processed"}"#), QwenStep::Ready);
    assert_eq!(step(r#"{"id":"file-1","status":"processing"}"#), QwenStep::Pending);
    assert!(matches!(step(r#"{"id":"file-1","status":"error"}"#), QwenStep::Failed { .. }));
    assert!(matches!(step(r#"{"id":"file-2","status":"processed"}"#), QwenStep::Failed { .. }));
    assert!(matches!(step(r#"{"id":"file-1","status":"odd"}"#), QwenStep::Failed { .. }));
    let limited = HttpResponse { status: 429, headers: vec![], body: b"{}".to_vec() };
    assert_eq!(files.qwen_polled(&f, &limited), QwenStep::Pending);
    let error = LlmError::RateLimited { message: "slow".to_owned(), retry_after: None };
    assert_eq!(files.automatic_retry(&error, 0), Some(500));
    assert_eq!(files.automatic_retry(&error, 2), Some(2_000));
    assert_eq!(files.automatic_retry(&error, 3), None);
    assert_eq!(FileService::new(&other, None).automatic_retry(&error, 0), None);
    assert_eq!(files.automatic_expiration(), None);
}

#[test]
fn an_automatic_upload_keeps_the_prepared_size() {
    let p = profile(
        "anthropic",
        "https://api.anthropic.com",
        ProtocolFamily::AnthropicMessages,
    );
    let files = FileService::new(&p, None);
    assert!(files.automatic_expiration().is_some());
    assert!(files.check_automatic(&file(&p, &"x".repeat(510))).is_ok());
    assert!(files.check_automatic(&file(&p, &"x".repeat(511))).is_err());
}

#[test]
fn a_listing_goes_on_where_it_stopped() {
    let p = openai();
    let files = FileService::new(&p, None);
    let plan = files.list(Some("a b")).unwrap();
    assert_eq!(plan.request.url, "https://api.openai.com/v1/files?limit=100&after=a%20b");
    let page = files
        .listed(
            &plan,
            &ok(r#"{"data":[{"id":"f1"},{"id":"f2","filename":"n"}],"has_more":true,"last_id":"f2"}"#),
        )
        .unwrap();
    assert_eq!(page.files.len(), 2);
    assert_eq!(page.files[1].file.filename.as_deref(), Some("n"));
    assert_eq!(page.next_cursor.as_deref(), Some("f2"));
    let minimax = profile("minimax", "https://api.minimax.io/v1", ProtocolFamily::OpenAiChat);
    assert!(matches!(
        FileService::new(&minimax, None).list(None),
        Err(LlmError::InvalidRequest { .. })
    ));
}

#[test]
fn extracted_text_is_text() {
    let p = profile("moonshot", "https://api.moonshot.ai/v1", ProtocolFamily::OpenAiChat);
    let files = FileService::new(&p, None);
    assert_eq!(
        files.extract_request(&file(&p, "f")).unwrap().url,
        "https://api.moonshot.ai/v1/files/f/content"
    );
    assert_eq!(files.extracted(ok("h\u{e9}")).unwrap(), "h\u{e9}");
    let broken = HttpResponse { status: 200, headers: vec![], body: vec![0xff] };
    match files.extracted(broken) {
        Err(LlmError::ProviderInternal { message }) => {
            assert!(message.starts_with("extracted file text is not UTF-8: "), "{message}");
        }
        other => panic!("{other:?}"),
    }
    let other = openai();
    assert!(FileService::new(&other, None).extract_request(&file(&other, "f")).is_err());
}

#[test]
fn a_failed_download_keeps_what_fits_of_its_body() {
    let p = openai();
    let files = FileService::new(&p, None);
    let mut body = Vec::new();
    assert!(service::append_error_body(&mut body, b"abc", 2));
    assert_eq!(body, b"ab");
    assert!(!service::append_error_body(&mut body, b"c", 2));
    assert!(matches!(
        files.download_failed(403, &[b'n', 0xff]),
        LlmError::PermissionDenied { message } if message.contains("n\u{fffd}")
    ));
    assert_eq!(
        files
            .download_media_type(&vec![(
                "Content-Type".to_owned(),
                " text/plain ; charset=utf-8".to_owned()
            )])
            .as_deref(),
        Some("text/plain")
    );
    let kept = service::release(vec![file(&p, "a"), file(&p, "b")], "a");
    assert_eq!(kept.len(), 1);
    assert_eq!(kept[0].file_id, "b");
}

#[test]
fn a_file_operation_is_authenticated_where_its_connection_is() {
    let mut p = openai();
    assert_eq!(FileService::new(&p, None).check_authenticator(false), Ok(false));
    assert_eq!(FileService::new(&p, None).request_left(0, 500_000), Some(120_000));
    p.auth = Some("bearer".to_owned());
    let files = FileService::new(&p, None);
    assert_eq!(files.check_authenticator(true), Ok(true));
    assert_eq!(
        files.check_authenticator(false),
        Err(LlmError::UnsupportedCapability {
            message: "no authenticator is registered for file operations on profile \"openai\""
                .to_owned()
        })
    );
    assert_eq!(files.request_left(1_000, 2_000), Some(119_000));
    assert_eq!(files.request_left(1_000, 121_000), None);
    let hurried = files.with_gemini_request_deadline(5_000);
    assert_eq!(hurried.request_left(1_000, 2_000), Some(3_000));
    assert_eq!(hurried.request_left(1_000, 5_000), None);
}

#[test]
fn an_upload_ends_by_the_earliest_of_its_deadlines() {
    let p = gemini();
    let files = FileService::new(&p, None);
    assert_eq!(files.gemini_upload_deadline("application/pdf", 10), Ok(120_010));
    assert_eq!(files.gemini_upload_deadline("video/mp4", 10), Ok(7_200_010));
    assert_eq!(
        files.gemini_upload_deadline("application/pdf", u64::MAX),
        Err(LlmError::InvalidRequest { message: "Gemini upload timeout is too large".to_owned() })
    );
    assert_eq!(files.gemini_processing_deadline("application/pdf", 10, 20), Ok(600_020));
    assert_eq!(
        files.gemini_processing_deadline("VIDEO/mp4", 10, 7_000_010),
        Ok(7_200_010)
    );
    assert_eq!(
        files.gemini_processing_deadline("application/pdf", 10, u64::MAX),
        Err(LlmError::InvalidRequest {
            message: "Gemini processing timeout is too large".to_owned()
        })
    );
    assert_eq!(files.gemini_resume_deadline(5), Ok(600_005));
    assert_eq!(
        files.gemini_resume_deadline(u64::MAX),
        Err(LlmError::InvalidRequest {
            message: "Gemini processing timeout is too large".to_owned()
        })
    );
    let hurried = files.with_gemini_request_deadline(90_000);
    assert_eq!(hurried.gemini_upload_deadline("application/pdf", 10), Ok(90_000));
    assert_eq!(hurried.gemini_processing_deadline("video/mp4", 10, 20), Ok(90_000));
    assert_eq!(hurried.gemini_resume_deadline(5), Ok(600_005));
}

#[test]
fn a_pending_file_is_polled_until_its_deadline() {
    let p = gemini();
    let f = file(&p, "files/1");
    assert_eq!(gemini_poll_timeout(600_000, 0, "600s", &f), Ok(120_000));
    assert_eq!(gemini_poll_timeout(600_000, 599_000, "600s", &f), Ok(1_000));
    assert_eq!(gemini_poll_delay(600_000, 599_500, "600s", &f), Ok(500));
    assert_eq!(
        gemini_poll_delay(600_000, 0, "600s", &f),
        Ok(service::GEMINI_FILE_POLL_INTERVAL)
    );
    match gemini_poll_timeout(600_000, 600_000, "600s", &f).unwrap_err() {
        LlmError::ProviderFileProcessing { message, file } => {
            assert_eq!(message, "Gemini file remains PROCESSING after 600s");
            assert_eq!(file.file_id, "files/1");
        }
        error => panic!("{error:?}"),
    }
    match gemini_processing_expired(&f, "600s") {
        LlmError::ProviderFileProcessing { message, file } => {
            assert_eq!(message, "Gemini file processing timed out after 600s");
            assert_eq!(file.file_id, "files/1");
        }
        error => panic!("{error:?}"),
    }
    let longest = service::QWEN_FILE_PROCESSING_TIMEOUT;
    assert_eq!(qwen_deadline(None, 7), longest + 7);
    assert_eq!(qwen_deadline(Some(u64::MAX), 7), longest + 7);
    assert_eq!(qwen_deadline(Some(1_000), 7), 1_007);
    assert_eq!(
        qwen_poll_wait(1_007, 7),
        Ok(QwenWait { request: 1_000, delay: 1_000.min(service::QWEN_FILE_POLL_INTERVAL) })
    );
    assert_eq!(
        qwen_poll_wait(1_007, 1_007),
        Err(LlmError::TransportTimeout { message: "Qwen file parsing timed out".to_owned() })
    );
}
