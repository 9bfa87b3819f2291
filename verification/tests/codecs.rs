use lingxi_llm_client::codecs::anthropic::AnthropicMessagesCodec;
use lingxi_llm_client::codecs::gemini::GeminiCodec;
use lingxi_llm_client::codecs::hosted::{
    AzureOpenAiCodec, BedrockClaudeCodec, FoundryClaudeCodec, VertexClaudeCodec, VertexGeminiCodec,
};
use lingxi_llm_client::codecs::openai::chat::OpenAiChatCodec;
use lingxi_llm_client::codecs::openai::responses::OpenAiResponsesCodec;
use lingxi_llm_client::codecs::{
    CodecContext, EncodeRequest, PreparedMedia, RequestMode, StreamDecoder, WireCodec,
};
use lingxi_llm_client::framing::eventstream::{crc32, PRELUDE_BYTES};
use lingxi_llm_client::json::{self, Json};
use lingxi_llm_client::protocol::{
    AttachmentRef, AzureConfig, CompletionRequest, ConnectionSpec, ContentBlock,
    ConversationMessage, ImageConfig, ImageSource, InferenceConfig, InferenceFeatures, LlmError,
    MessageRole, ProtocolFamily, ProviderProfile, ReasoningWire, RequestControls, StopReason,
    StreamEvent, SystemBlock, ToolChoice, ToolSpec,
};
use lingxi_llm_client::transport::{HttpRequest, HttpResponse};

fn value(text: &str) -> Json {
    json::value_of_bytes(text.as_bytes())
}

fn profile(protocol: ProtocolFamily, extra: &str) -> ProviderProfile {
    ProviderProfile {
        provider_id: "x".to_owned(),
        profile_name: "x".to_owned(),
        base_url: "https://x.test/root/".to_owned(),
        protocol,
        regions: vec![],
        connection: ConnectionSpec { group: None, hidden: false },
        models: vec![],
        inference: InferenceConfig {
            reasoning: ReasoningWire::Unavailable,
            fast: None,
            enabled_requires_budget: None,
            fast_beta: None,
            tier_response_header: None,
        },
        features: InferenceFeatures::default(),
        azure: None,
        images: ImageConfig { routes: vec![], models: vec![] },
        extra: value(extra),
        auth: None,
        signing: Json::Null,
        static_credential: false,
        account: Json::Null,
    }
}

fn text_block(text: &str) -> ContentBlock {
    ContentBlock::Text { text: text.to_owned(), thought_signature: None }
}

fn user(content: Vec<ContentBlock>) -> ConversationMessage {
    ConversationMessage { role: MessageRole::User, content }
}

fn request(messages: Vec<ConversationMessage>) -> CompletionRequest {
    CompletionRequest {
        system: vec![],
        messages,
        tools: vec![],
        tool_choice: ToolChoice::Auto,
        max_tokens: None,
        temperature: None,
        stop_sequences: vec![],
        thinking: None,
        service_tier: None,
        web_search: None,
        file_search: None,
        previous_response_id: None,
        controls: RequestControls {
            top_p: None,
            context_hint: None,
            responses: vec![],
            response_format: None,
        },
        metadata: Json::Null,
    }
}

fn context(profile: &ProviderProfile, mode: RequestMode) -> CodecContext {
    CodecContext::new(profile, "the-model", mode)
}

fn body(request: &HttpRequest) -> Json {
    json::value_of_bytes(&request.body)
}

fn ok(body: &str) -> HttpResponse {
    HttpResponse { status: 200, headers: vec![], body: body.as_bytes().to_vec() }
}

fn response(status: u16, body: &str) -> HttpResponse {
    HttpResponse { status, headers: vec![], body: body.as_bytes().to_vec() }
}

fn events<D: StreamDecoder>(decoder: &mut D, text: &str) -> Vec<StreamEvent> {
    decoder
        .push_bytes(text.as_bytes())
        .into_iter()
        .map(|item| item.unwrap())
        .collect()
}

#[test]
fn a_chat_request_carries_the_resolved_model_and_the_text() {
    let p = profile(ProtocolFamily::OpenAiChat, r#"{"body": {"model": "other", "user": "u"}}"#);
    let mut req = request(vec![user(vec![text_block("hi")])]);
    req.system = vec![SystemBlock { text: "be brief".to_owned(), cacheable: false }];
    req.max_tokens = Some(7);
    let sent = OpenAiChatCodec
        .encode_request(EncodeRequest::new(&req), &context(&p, RequestMode::Complete))
        .unwrap();
    assert_eq!(sent.method, "POST");
    assert_eq!(sent.url, "https://x.test/root/chat/completions");
    let body = body(&sent);
    assert_eq!(body.str_at("model"), Some("the-model"));
    assert_eq!(body.str_at("user"), Some("u"));
    assert_eq!(
        body.get("messages"),
        Some(&value(
            r#"[{"role":"system","content":"be brief"},{"role":"user","content":"hi"}]"#
        ))
    );
    assert_eq!(body.get("stream"), None);
    let len = OpenAiChatCodec
        .encoded_body_len(EncodeRequest::new(&req), &context(&p, RequestMode::Complete))
        .unwrap();
    assert_eq!(len, sent.body.len());
}

#[test]
fn a_chat_response_is_decoded() {
    let p = profile(ProtocolFamily::OpenAiChat, "{}");
    let decoded = OpenAiChatCodec
        .decode_response(
            &ok(r#"{"id":"r1","model":"m","choices":[{"message":{"role":"assistant","content":"hello"},"finish_reason":"stop"}],"usage":{"prompt_tokens":10,"completion_tokens":2,"prompt_tokens_details":{"cached_tokens":4}}}"#),
            &context(&p, RequestMode::Complete),
        )
        .unwrap();
    assert_eq!(decoded.content, vec![text_block("hello")]);
    assert_eq!(decoded.stop_reason, StopReason::EndTurn);
    let usage = decoded.usage.reported.unwrap();
    assert_eq!(usage.cache_read_tokens, 4);
    assert_eq!(usage.input_tokens, 6);
    assert_eq!(usage.output_tokens, 2);
}

#[test]
fn a_chat_error_is_classified() {
    let p = profile(ProtocolFamily::OpenAiChat, "{}");
    let c = context(&p, RequestMode::Complete);
    let decode = |status: u16, body: &str| {
        OpenAiChatCodec
            .decode_response(&response(status, body), &c)
            .unwrap_err()
    };
    assert!(matches!(
        decode(401, r#"{"error":{"message":"no"}}"#),
        LlmError::Authentication { .. }
    ));
    assert!(matches!(
        decode(429, r#"{"error":{"message":"slow"}}"#),
        LlmError::RateLimited { .. }
    ));
    assert!(matches!(
        decode(400, r#"{"error":{"code":"context_length_exceeded","message":"maximum context length is 10 tokens"}}"#),
        LlmError::ContextOverflow { .. }
    ));
    assert!(matches!(decode(500, "oops"), LlmError::ProviderInternal { .. }));
}

#[test]
fn a_chat_stream_ends_once() {
    let p = profile(ProtocolFamily::OpenAiChat, "{}");
    let mut decoder = OpenAiChatCodec.stream_decoder(&context(&p, RequestMode::Stream));
    let mut out = events(
        &mut decoder,
        "data: {\"id\":\"r\",\"model\":\"m\",\"choices\":[{\"delta\":{\"content\":\"he\"}}]}\n\n",
    );
    out.extend(events(
        &mut decoder,
        "data: {\"choices\":[{\"delta\":{\"content\":\"y\"},\"finish_reason\":\"stop\"}]}\n\ndata: [DONE]\n\n",
    ));
    assert!(decoder.finish().is_empty());
    let text: String = out
        .iter()
        .map(|e| match e {
            StreamEvent::TextDelta { text, .. } => text.as_str(),
            _ => "",
        })
        .collect();
    assert_eq!(text, "hey");
    let ends = out
        .iter()
        .filter(|e| matches!(e, StreamEvent::End { .. }))
        .count();
    assert_eq!(ends, 1);
    assert!(matches!(
        out.last(),
        Some(StreamEvent::End { stop_reason: StopReason::EndTurn, .. })
    ));
}

#[test]
fn an_unresolved_attachment_is_refused_and_a_prepared_one_is_inlined() {
    let p = profile(ProtocolFamily::OpenAiChat, "{}");
    let attachment = AttachmentRef {
        id: "a1".to_owned(),
        filename: "cat.png".to_owned(),
        media_type: "image/png".to_owned(),
        size_bytes: 3,
    };
    let req = request(vec![user(vec![ContentBlock::Image {
        source: ImageSource::Attachment { attachment: attachment.clone() },
    }])]);
    let c = context(&p, RequestMode::Complete);
    assert!(OpenAiChatCodec.encode_request(EncodeRequest::new(&req), &c).is_err());
    let media = vec![PreparedMedia { attachment: &attachment, bytes: b"abc" }];
    let sent = OpenAiChatCodec
        .encode_request(EncodeRequest::new(&req).with_media(&media), &c)
        .unwrap();
    let text = String::from_utf8(sent.body.clone()).unwrap();
    assert!(text.contains("data:image/png;base64,YWJj"), "{text}");
}

#[test]
fn a_messages_request_and_response() {
    let p = profile(ProtocolFamily::AnthropicMessages, "{}");
    let mut req = request(vec![user(vec![text_block("hi")])]);
    req.tools = vec![ToolSpec {
        name: "t".to_owned(),
        description: "d".to_owned(),
        input_schema: value(r#"{"type":"object"}"#),
        strict: None,
        tool_type: None,
        defer_loading: None,
        extra: Json::Null,
    }];
    let c = context(&p, RequestMode::Stream);
    let sent = AnthropicMessagesCodec
        .encode_request(EncodeRequest::new(&req), &c)
        .unwrap();
    assert_eq!(sent.url, "https://x.test/root/v1/messages");
    assert!(sent
        .headers
        .contains(&("anthropic-version".to_owned(), "2023-06-01".to_owned())));
    let body = body(&sent);
    assert_eq!(body.str_at("model"), Some("the-model"));
    assert_eq!(body.bool_at("stream"), Some(true));
    assert!(body.get("max_tokens").is_some());

    let decoded = AnthropicMessagesCodec
        .decode_response(
            &ok(r#"{"id":"m1","model":"m","content":[{"type":"text","text":"hello"},{"type":"tool_use","id":"c1","name":"t","input":{"a":1}}],"stop_reason":"tool_use","usage":{"input_tokens":3,"output_tokens":5,"cache_read_input_tokens":2}}"#),
            &c,
        )
        .unwrap();
    assert_eq!(decoded.stop_reason, StopReason::ToolUse);
    assert_eq!(decoded.content[0], text_block("hello"));
    assert!(
        matches!(&decoded.content[1], ContentBlock::ToolUse { id, name, .. } if id == "c1" && name == "t")
    );
    let usage = decoded.usage.reported.unwrap();
    assert_eq!((usage.input_tokens, usage.output_tokens, usage.cache_read_tokens), (3, 5, 2));
}

#[test]
fn unsigned_thinking_is_not_replayed_to_a_signing_endpoint() {
    let p = profile(ProtocolFamily::AnthropicMessages, "{}");
    let req = request(vec![
        user(vec![text_block("hi")]),
        ConversationMessage {
            role: MessageRole::Assistant,
            content: vec![ContentBlock::Thinking { text: "hm".to_owned(), signature: None }],
        },
    ]);
    let c = context(&p, RequestMode::Complete);
    assert!(AnthropicMessagesCodec
        .encode_request(EncodeRequest::new(&req), &c)
        .is_err());
}

#[test]
fn a_messages_stream_that_is_cut_is_an_interruption() {
    let p = profile(ProtocolFamily::AnthropicMessages, "{}");
    let mut decoder = AnthropicMessagesCodec.stream_decoder(&context(&p, RequestMode::Stream));
    let out = events(
        &mut decoder,
        "data: {\"type\":\"message_start\",\"message\":{\"id\":\"m\",\"model\":\"m\",\"usage\":{\"input_tokens\":1,\"output_tokens\":1}}}\n\ndata: {\"type\":\"content_block_start\",\"index\":0,\"content_block\":{\"type\":\"text\",\"text\":\"\"}}\n\ndata: {\"type\":\"content_block_delta\",\"index\":0,\"delta\":{\"type\":\"text_delta\",\"text\":\"he\"}}\n\n",
    );
    assert!(out
        .iter()
        .any(|e| matches!(e, StreamEvent::TextDelta { text, .. } if text == "he")));
    assert!(!decoder.usage_report().complete);
    let end = decoder.finish();
    assert!(matches!(end.last(), Some(Err(LlmError::StreamInterrupted { .. }))));
}

#[test]
fn a_responses_request_and_stream() {
    let p = profile(ProtocolFamily::OpenAiResponses, "{}");
    let req = request(vec![user(vec![text_block("hi")])]);
    let c = context(&p, RequestMode::Stream);
    let sent = OpenAiResponsesCodec
        .encode_request(EncodeRequest::new(&req), &c)
        .unwrap();
    assert_eq!(sent.url, "https://x.test/root/responses");
    let body = body(&sent);
    assert_eq!(body.str_at("model"), Some("the-model"));
    assert!(body.get("input").unwrap().as_array().unwrap().len() == 1);
    let mut decoder = OpenAiResponsesCodec.stream_decoder(&c);
    let out = events(
        &mut decoder,
        "data: {\"type\":\"response.completed\",\"response\":{\"id\":\"r\",\"model\":\"m\",\"status\":\"completed\",\"output\":[],\"usage\":{\"input_tokens\":4,\"output_tokens\":1}}}\n\n",
    );
    assert!(matches!(out.last(), Some(StreamEvent::End { .. })));
    assert!(decoder.usage_report().complete);
    let mut cut = OpenAiResponsesCodec.stream_decoder(&c);
    assert!(matches!(
        cut.finish().last(),
        Some(Err(LlmError::StreamInterrupted { .. }))
    ));
}

#[test]
fn a_gemini_request_and_response() {
    let p = profile(ProtocolFamily::GeminiGenerateContent, "{}");
    let req = request(vec![user(vec![text_block("hi")])]);
    let c = context(&p, RequestMode::Complete);
    let sent = GeminiCodec.encode_request(EncodeRequest::new(&req), &c).unwrap();
    assert_eq!(sent.url, "https://x.test/root/models/the-model:generateContent");
    assert!(body(&sent).get("contents").is_some());
    let decoded = GeminiCodec
        .decode_response(
            &ok(r#"{"candidates":[{"content":{"parts":[{"text":"hello"}]},"finishReason":"STOP"}],"usageMetadata":{"promptTokenCount":5,"candidatesTokenCount":2,"cachedContentTokenCount":1}}"#),
            &c,
        )
        .unwrap();
    assert_eq!(decoded.content, vec![text_block("hello")]);
    let usage = decoded.usage.reported.unwrap();
    assert_eq!((usage.input_tokens, usage.cache_read_tokens), (4, 1));
}

#[test]
fn azure_takes_the_deployment_from_the_path() {
    let mut p = profile(ProtocolFamily::AzureOpenAi, "{}");
    let req = request(vec![user(vec![text_block("hi")])]);
    let c = context(&p, RequestMode::Complete);
    assert!(matches!(
        AzureOpenAiCodec.encode_request(EncodeRequest::new(&req), &c),
        Err(LlmError::InvalidRequest { .. })
    ));
    p.azure = Some(AzureConfig {
        api_version: Some("2024-10-21".to_owned()),
        deployment: Some("dep".to_owned()),
    });
    let sent = AzureOpenAiCodec
        .encode_request(EncodeRequest::new(&req), &context(&p, RequestMode::Complete))
        .unwrap();
    assert_eq!(
        sent.url,
        "https://x.test/root/openai/deployments/dep/chat/completions?api-version=2024-10-21"
    );
    assert_eq!(body(&sent).get("model"), None);
}

#[test]
fn hosted_messages_put_the_version_where_the_host_reads_it() {
    let req = request(vec![user(vec![text_block("hi")])]);
    let vertex = profile(ProtocolFamily::VertexClaude, "{}");
    let sent = VertexClaudeCodec
        .encode_request(EncodeRequest::new(&req), &context(&vertex, RequestMode::Stream))
        .unwrap();
    assert_eq!(
        sent.url,
        "https://x.test/root/publishers/anthropic/models/the-model:streamRawPredict"
    );
    assert!(!sent.headers.iter().any(|(name, _)| name == "anthropic-version"));
    assert_eq!(body(&sent).get("model"), None);
    assert!(body(&sent).str_at("anthropic_version").is_some());

    let bedrock = profile(ProtocolFamily::BedrockClaude, "{}");
    let mut c = context(&bedrock, RequestMode::Stream);
    c.request_model = "vendor/model v1".to_owned();
    let sent = BedrockClaudeCodec
        .encode_request(EncodeRequest::new(&req), &c)
        .unwrap();
    assert_eq!(
        sent.url,
        "https://x.test/root/model/vendor%2Fmodel%20v1/invoke-with-response-stream"
    );
    assert_eq!(body(&sent).get("model"), None);
    assert_eq!(body(&sent).get("stream"), None);
    assert_eq!(
        body(&sent).str_at("anthropic_version"),
        Some("bedrock-2023-05-31")
    );

    let foundry = profile(ProtocolFamily::FoundryClaude, "{}");
    let sent = FoundryClaudeCodec
        .encode_request(EncodeRequest::new(&req), &context(&foundry, RequestMode::Complete))
        .unwrap();
    assert_eq!(body(&sent).str_at("model"), Some("the-model"));

    let google = profile(ProtocolFamily::VertexGemini, "{}");
    let sent = VertexGeminiCodec
        .encode_request(EncodeRequest::new(&req), &context(&google, RequestMode::Complete))
        .unwrap();
    assert_eq!(
        sent.url,
        "https://x.test/root/publishers/google/models/the-model:generateContent"
    );
}

fn frame(headers: &[(&str, &str)], payload: &[u8]) -> Vec<u8> {
    let mut h = Vec::new();
    for (name, value) in headers {
        h.push(name.len() as u8);
        h.extend_from_slice(name.as_bytes());
        h.push(7);
        h.extend_from_slice(&(value.len() as u16).to_be_bytes());
        h.extend_from_slice(value.as_bytes());
    }
    let total = (PRELUDE_BYTES + h.len() + payload.len() + 4) as u32;
    let mut out = Vec::new();
    out.extend_from_slice(&total.to_be_bytes());
    out.extend_from_slice(&(h.len() as u32).to_be_bytes());
    out.extend_from_slice(&crc32(&out[0..8]).to_be_bytes());
    out.extend_from_slice(&h);
    out.extend_from_slice(payload);
    let crc = crc32(&out);
    out.extend_from_slice(&crc.to_be_bytes());
    out
}

#[test]
fn a_bedrock_stream_carries_messages_events() {
    let p = profile(ProtocolFamily::BedrockClaude, "{}");
    let mut decoder = BedrockClaudeCodec.stream_decoder(&context(&p, RequestMode::Stream));
    // The base64 text of {"type":"message_start","message":{"id":"m","model":"m"}}.
    let payload = br#"{"bytes":"eyJ0eXBlIjoibWVzc2FnZV9zdGFydCIsIm1lc3NhZ2UiOnsiaWQiOiJtIiwibW9kZWwiOiJtIn19"}"#;
    let items = decoder.push_bytes(&frame(&[(":message-type", "event")], payload));
    assert!(matches!(&items[0], Ok(StreamEvent::Start { model, .. }) if model == "m"));
    let items = decoder.push_bytes(&frame(
        &[(":message-type", "exception"), (":exception-type", "throttlingException")],
        b"slow down",
    ));
    assert!(
        matches!(&items[0], Err(LlmError::StreamInterrupted { message }) if message.contains("throttlingException") && message.contains("slow down"))
    );
    assert!(decoder.finish().is_empty());
}

#[test]
fn betas_accumulate_in_one_header() {
    let p = profile(ProtocolFamily::AnthropicMessages, r#"{"betas":["one","two"]}"#);
    let req = request(vec![user(vec![text_block("hi")])]);
    let sent = AnthropicMessagesCodec
        .encode_request(EncodeRequest::new(&req), &context(&p, RequestMode::Complete))
        .unwrap();
    let betas: Vec<&(String, String)> = sent
        .headers
        .iter()
        .filter(|(name, _)| name == "anthropic-beta")
        .collect();
    assert_eq!(betas, vec![&("anthropic-beta".to_owned(), "one,two".to_owned())]);
    let plain = profile(ProtocolFamily::AnthropicMessages, r#"{"betas":[]}"#);
    let sent = AnthropicMessagesCodec
        .encode_request(EncodeRequest::new(&req), &context(&plain, RequestMode::Complete))
        .unwrap();
    assert!(!sent.headers.iter().any(|(name, _)| name == "anthropic-beta"));
}

#[test]
fn a_system_message_among_the_messages_is_refused() {
    let mut message = user(vec![text_block("hi")]);
    message.role = MessageRole::System;
    let req = request(vec![message]);
    let p = profile(ProtocolFamily::AnthropicMessages, "{}");
    assert!(matches!(
        AnthropicMessagesCodec
            .encode_request(EncodeRequest::new(&req), &context(&p, RequestMode::Complete)),
        Err(LlmError::InvalidRequest { message })
            if message == "the system prompt belongs in `system`, not in `messages`"
    ));
    let p = profile(ProtocolFamily::GeminiGenerateContent, "{}");
    assert!(matches!(
        GeminiCodec.encode_request(EncodeRequest::new(&req), &context(&p, RequestMode::Complete)),
        Err(LlmError::InvalidRequest { message })
            if message == "the system prompt belongs in `systemInstruction`"
    ));
}

#[test]
fn a_gemini_result_echoes_its_call() {
    let p = profile(ProtocolFamily::GeminiGenerateContent, "{}");
    let call = ContentBlock::ToolUse {
        id: "local".to_owned(),
        name: "look".to_owned(),
        input: value(r#"{"a":1}"#),
        provider_id: Some("remote".to_owned()),
        thought_signature: Some("sig".to_owned()),
    };
    let result = |id: &str| ContentBlock::ToolResult {
        tool_use_id: id.to_owned(),
        content: "seen".to_owned(),
        is_error: false,
        blocks: None,
    };
    let mut said = user(vec![call]);
    said.role = MessageRole::Assistant;
    let req = request(vec![said.clone(), user(vec![result("local")])]);
    let c = context(&p, RequestMode::Complete);
    let sent = GeminiCodec.encode_request(EncodeRequest::new(&req), &c).unwrap();
    assert_eq!(
        body(&sent).get("contents"),
        Some(&value(
            r#"[{"role":"model","parts":[{"functionCall":{"name":"look","args":{"a":1},"id":"remote"},"thoughtSignature":"sig"}]},{"role":"user","parts":[{"functionResponse":{"name":"look","response":{"result":"seen"},"id":"remote"}}]}]"#
        ))
    );
    let req = request(vec![said, user(vec![result("other")])]);
    assert!(matches!(
        GeminiCodec.encode_request(EncodeRequest::new(&req), &c),
        Err(LlmError::InvalidRequest { .. })
    ));
}

#[test]
fn a_responses_request_names_its_model_unless_a_control_does() {
    let p = profile(ProtocolFamily::OpenAiResponses, r#"{"body":{"model":"other","user":"u"}}"#);
    let mut req = request(vec![user(vec![text_block("hi")])]);
    let c = context(&p, RequestMode::Complete);
    let sent = OpenAiResponsesCodec.encode_request(EncodeRequest::new(&req), &c).unwrap();
    assert_eq!(body(&sent).str_at("model"), Some("the-model"));
    assert_eq!(body(&sent).str_at("user"), Some("u"));
    req.controls.responses = vec![("model".to_owned(), value("\"typed\""))];
    let sent = OpenAiResponsesCodec.encode_request(EncodeRequest::new(&req), &c).unwrap();
    assert_eq!(body(&sent).str_at("model"), Some("typed"));
}

#[test]
fn a_context_keeps_how_its_connection_authenticates() {
    let mut p = profile(ProtocolFamily::BedrockClaude, "{}");
    p.auth = Some("signed".to_owned());
    p.signing = value(r#"{"region":"r"}"#);
    p.connection = ConnectionSpec { group: Some("g".to_owned()), hidden: true };
    let c = context(&p, RequestMode::Complete);
    assert_eq!(c.profile.auth.as_deref(), Some("signed"));
    assert_eq!(c.profile.signing, value(r#"{"region":"r"}"#));
    assert_eq!((&c.profile.connection.group, c.profile.connection.hidden), (&None, false));
    assert!(c.profile.images.routes.is_empty() && c.profile.images.models.is_empty());
}

fn call_ids(events: &[StreamEvent]) -> Vec<(String, Option<String>)> {
    events
        .iter()
        .filter_map(|event| match event {
            StreamEvent::ToolCallDelta { id, provider_id, .. } => {
                Some((id.clone(), provider_id.clone()))
            }
            _ => None,
        })
        .collect()
}

#[test]
fn two_calls_of_one_function_have_ids_of_their_own() {
    let p = profile(ProtocolFamily::GeminiGenerateContent, "{}");
    let mut decoder = GeminiCodec.stream_decoder(&context(&p, RequestMode::Stream));
    let out = events(
        &mut decoder,
        "data: {\"candidates\":[{\"content\":{\"parts\":[{\"functionCall\":{\"name\":\"f\",\"args\":{}}},{\"functionCall\":{\"name\":\"f\",\"args\":{}}},{\"functionCall\":{\"id\":\"f:1\",\"name\":\"f\",\"args\":{}}}]}}]}\n\n",
    );
    assert_eq!(
        call_ids(&out),
        [
            ("f".to_owned(), None),
            ("f:2".to_owned(), None),
            ("f:1".to_owned(), Some("f:1".to_owned()))
        ]
    );
    let out = events(
        &mut decoder,
        "data: {\"candidates\":[{\"content\":{\"parts\":[{\"functionCall\":{\"name\":\"f\",\"args\":{}}},{\"functionCall\":{\"name\":\"g\",\"args\":{}}}]}}]}\n\n",
    );
    assert_eq!(call_ids(&out), [("f:3".to_owned(), None), ("g".to_owned(), None)]);
}

#[test]
fn the_latest_usage_counts_even_where_it_is_null() {
    let p = profile(ProtocolFamily::GeminiGenerateContent, "{}");
    let c = context(&p, RequestMode::Complete);
    let decoded = GeminiCodec
        .decode_response(
            &ok(r#"{"candidates":[{"content":{"parts":[{"text":"x"}]},"finishReason":"STOP"}],"usageMetadata":null}"#),
            &c,
        )
        .unwrap();
    assert!(!decoded.usage.complete);
    let mut decoder = GeminiCodec.stream_decoder(&context(&p, RequestMode::Stream));
    events(
        &mut decoder,
        "data: {\"candidates\":[{\"content\":{\"parts\":[{\"text\":\"x\"}]}}],\"usageMetadata\":{\"promptTokenCount\":5,\"candidatesTokenCount\":2}}\n\n",
    );
    assert_eq!(decoder.usage_report().reported.unwrap().input_tokens, 5);
    events(&mut decoder, "data: {\"usageMetadata\":null}\n\n");
    let report = decoder.usage_report();
    assert_eq!(report.reported.unwrap().input_tokens, 0);
    assert!(!report.complete);
}

#[test]
fn a_responses_stream_starts_and_ends_once_whatever_follows() {
    let p = profile(ProtocolFamily::OpenAiResponses, "{}");
    let mut decoder = OpenAiResponsesCodec.stream_decoder(&context(&p, RequestMode::Stream));
    let created = "data: {\"type\":\"response.created\",\"response\":{\"id\":\"r\",\"model\":\"m\",\"status\":\"in_progress\",\"output\":[]}}\n\n";
    let completed = "data: {\"type\":\"response.completed\",\"response\":{\"id\":\"r\",\"model\":\"m\",\"status\":\"completed\",\"output\":[],\"usage\":{\"input_tokens\":4,\"output_tokens\":1}}}\n\n";
    let mut out = events(&mut decoder, created);
    out.extend(events(&mut decoder, created));
    out.extend(events(&mut decoder, completed));
    let starts = out.iter().filter(|e| matches!(e, StreamEvent::Start { .. })).count();
    let ends = out.iter().filter(|e| matches!(e, StreamEvent::End { .. })).count();
    assert_eq!((starts, ends), (1, 1));
    assert!(events(&mut decoder, completed)
        .iter()
        .all(|e| !matches!(e, StreamEvent::End { .. } | StreamEvent::Start { .. })));
    assert!(decoder.push_bytes(b"data: [DONE]\n\n").is_empty());
    assert!(decoder.finish().is_empty());
}

#[test]
fn every_stream_ends_once() {
    let count = |events: &[StreamEvent]| {
        let starts = events.iter().filter(|e| matches!(e, StreamEvent::Start { .. })).count();
        let ends = events.iter().filter(|e| matches!(e, StreamEvent::End { .. })).count();
        (starts, ends)
    };
    let p = profile(ProtocolFamily::GeminiGenerateContent, "{}");
    let mut decoder = GeminiCodec.stream_decoder(&context(&p, RequestMode::Stream));
    let part = "data: {\"candidates\":[{\"content\":{\"parts\":[{\"text\":\"x\"}]},\"finishReason\":\"STOP\"}]}\n\n";
    let mut out = events(&mut decoder, part);
    out.extend(events(&mut decoder, part));
    out.extend(decoder.finish().into_iter().map(|item| item.unwrap()));
    assert_eq!(count(&out), (1, 1));
    assert!(decoder.finish().is_empty());

    let p = profile(ProtocolFamily::AnthropicMessages, "{}");
    let mut decoder = AnthropicMessagesCodec.stream_decoder(&context(&p, RequestMode::Stream));
    let stop = "data: {\"type\":\"message_stop\"}\n\n";
    let mut out = events(&mut decoder, stop);
    out.extend(events(&mut decoder, stop));
    assert_eq!(count(&out), (0, 1));
    assert!(decoder.finish().is_empty());
}

#[test]
fn bedrock_refuses_a_base_that_is_no_url() {
    let mut p = profile(ProtocolFamily::BedrockClaude, "{}");
    let req = request(vec![user(vec![text_block("hi")])]);
    let mut refused = |base: &str| {
        p.base_url = base.to_owned();
        let c = context(&p, RequestMode::Complete);
        match BedrockClaudeCodec.encode_request(EncodeRequest::new(&req), &c) {
            Err(LlmError::InvalidRequest { message }) => message,
            other => panic!("{other:?}"),
        }
    };
    assert!(refused("no url").starts_with("Bedrock base URL is invalid: "));
    assert_eq!(refused("mailto:a@b"), "Bedrock base URL cannot accept path segments");
}
