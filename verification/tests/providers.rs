use baochuan::providers::openai::{openai_request_body, OPENAI_BASE_URL};
use baochuan::providers::openai_compat::{api_status_error, is_success_status, openai_chunk_result, streaming_request, tts_unsupported};
use baochuan::providers::{
    AnthropicProvider, CerebrasProvider, CloudflareProvider, CopilotProvider, DeepSeekProvider,
    FireworksProvider, GeminiProvider, GrokProvider, GroqProvider, HuggingFaceProvider, LlamaCppProvider,
    LmStudioProvider, MistralProvider, MoonshotProvider, NousProvider, NvidiaProvider, OllamaProvider,
    OpenAIProvider, OpenRouterProvider, PerplexityProvider, QwenProvider, SambaNovaProvider, ZhipuProvider,
};
use baochuan::types::response::simple_chunk;
use baochuan::{
    AudioInput, BaochuanError, ChatMessage, ChatRequestBuilder, ContentPart, MessageContent, Role,
    ThinkingConfig, TtsRequestBuilder,
};

#[test]
fn test_builder_produces_valid_request() {
    let req = ChatRequestBuilder::new("gpt-4o")
        .message(ChatMessage::system("Be concise."))
        .message(ChatMessage::user("Hello"))
        .max_tokens(256)
        .temperature(0.5f32.to_bits())
        .build()
        .unwrap();

    assert_eq!(req.model, "gpt-4o");
    assert_eq!(req.messages.len(), 2);
    assert_eq!(req.max_tokens, Some(256));
    assert_eq!(req.temperature.map(f32::from_bits), Some(0.5));
    assert!(!req.stream);
}

#[test]
fn test_builder_requires_messages() {
    let err = ChatRequestBuilder::new("gpt-4o").build().unwrap_err();
    assert!(err.to_string().contains("message"));
}

#[test]
fn test_chat_message_constructors() {
    let u = ChatMessage::user("hi");
    let s = ChatMessage::system("sys");
    let a = ChatMessage::assistant("ok");

    assert!(matches!(u.role, baochuan::Role::User));
    assert!(matches!(s.role, baochuan::Role::System));
    assert!(matches!(a.role, baochuan::Role::Assistant));
}

#[test]
fn test_openai_provider_name() {
    let p = OpenAIProvider::new("key");
    assert_eq!(p.name(), "openai");
}

#[test]
fn test_deepseek_provider_name() {
    assert_eq!(DeepSeekProvider::new("k").name(), "deepseek");
}

#[test]
fn test_grok_provider_name() {
    assert_eq!(GrokProvider::new("k").name(), "grok");
}

#[test]
fn test_mistral_provider_name() {
    assert_eq!(MistralProvider::new("k").name(), "mistral");
}

#[test]
fn test_openrouter_provider_name() {
    assert_eq!(OpenRouterProvider::new("k").name(), "openrouter");
}

#[test]
fn test_anthropic_provider_name() {
    assert_eq!(AnthropicProvider::new("k").name(), "anthropic");
}

#[test]
fn test_gemini_provider_name() {
    assert_eq!(GeminiProvider::new("k").name(), "gemini");
}

#[test]
fn test_lmstudio_provider_name() {
    assert_eq!(LmStudioProvider::new().name(), "lmstudio");
}

#[test]
fn test_ollama_provider_name() {
    assert_eq!(OllamaProvider::new().name(), "ollama");
}

#[test]
fn test_llamacpp_provider_name() {
    assert_eq!(LlamaCppProvider::new().name(), "llamacpp");
}

#[test]
fn test_moonshot_provider_name() {
    assert_eq!(MoonshotProvider::new("k").name(), "moonshot");
}

#[test]
fn test_nous_provider_name() {
    assert_eq!(NousProvider::new("k").name(), "nous");
}

#[test]
fn test_cloudflare_provider_name() {
    assert_eq!(CloudflareProvider::new("a", "t").name(), "cloudflare");
}

#[test]
fn test_perplexity_provider_name() {
    assert_eq!(PerplexityProvider::new("k").name(), "perplexity");
}

#[test]
fn test_qwen_provider_name() {
    assert_eq!(QwenProvider::new("k").name(), "qwen");
}

#[test]
fn test_message_content_to_text_lossy_skips_images() {
    let content = MessageContent::Parts(vec![
        ContentPart::text("hello "),
        ContentPart::image_url("https://example.com/img.jpg"),
        ContentPart::text("world"),
    ]);
    assert_eq!(content.to_text_lossy(), "hello world");
}

#[test]
fn test_message_content_as_str_finds_first_text() {
    let content = MessageContent::Parts(vec![
        ContentPart::image_url("https://example.com/img.jpg"),
        ContentPart::text("caption"),
    ]);
    assert_eq!(content.as_str(), Some("caption"));
}

#[test]
fn test_audio_input_mime_type() {
    let a = AudioInput { data: "x".into(), format: "mp3".into() };
    assert_eq!(a.mime_type(), "audio/mpeg");
    let b = AudioInput { data: "x".into(), format: "wav".into() };
    assert_eq!(b.mime_type(), "audio/wav");
    let c = AudioInput { data: "x".into(), format: "flac".into() };
    assert_eq!(c.mime_type(), "audio/flac");
}

#[test]
fn test_chat_message_tool_result_constructor() {
    let msg = ChatMessage::tool_result("call_abc123", "Sunny, 22C");
    assert_eq!(msg.role, baochuan::Role::Tool);
    assert_eq!(msg.tool_call_id, Some("call_abc123".to_string()));
    assert_eq!(msg.content.as_str(), Some("Sunny, 22C"));
    assert!(msg.tool_calls.is_none());
}

#[test]
fn other_compatible_provider_names() {
    assert_eq!(GroqProvider::new("k").name(), "groq");
    assert_eq!(NvidiaProvider::new("k").name(), "nvidia");
    assert_eq!(SambaNovaProvider::new("k").name(), "sambanova");
    assert_eq!(CerebrasProvider::new("k").name(), "cerebras");
    assert_eq!(FireworksProvider::new("k").name(), "fireworks");
    assert_eq!(HuggingFaceProvider::new("k").name(), "huggingface");
    assert_eq!(ZhipuProvider::new("k").name(), "zhipu");
    assert_eq!(CopilotProvider::new("k").name(), "copilot");
}

#[test]
fn compatible_endpoints_follow_the_base_url() {
    let p = OpenAIProvider::new("sk-test");
    assert_eq!(p.inner.base_url, OPENAI_BASE_URL);
    assert_eq!(p.inner.chat_url(), "https://api.openai.com/v1/chat/completions");
    assert_eq!(p.inner.bearer_token(), Some("sk-test"));
    let p = DeepSeekProvider::new("sk-test").with_base_url("http://127.0.0.1:9/v1");
    assert_eq!(p.inner.chat_url(), "http://127.0.0.1:9/v1/chat/completions");
    assert_eq!(p.inner.models_url(), "http://127.0.0.1:9/v1/models");
    assert_eq!(p.inner.tts_url(), "http://127.0.0.1:9/v1/audio/speech");
    assert_eq!(p.inner.api_key.as_deref(), Some("sk-test"));
    assert_eq!(MoonshotProvider::new("k").inner.base_url, "https://api.moonshot.ai/v1");
    assert_eq!(baochuan::providers::moonshot::CHINA_BASE_URL, "https://api.moonshot.cn/v1");
    assert_eq!(QwenProvider::new("k").inner.base_url, "https://dashscope.aliyuncs.com/compatible-mode/v1");
    assert_eq!(ZhipuProvider::new("k").inner.base_url, "https://api.z.ai/api/paas/v4");
}

#[test]
fn local_servers_normalise_their_address() {
    let l = LlamaCppProvider::new();
    assert_eq!(l.inner.base_url, "http://localhost:8080/v1");
    assert_eq!(l.inner.bearer_token(), None);
    let l = LlamaCppProvider::default().with_base_url("http://gpu-box:8080//");
    assert_eq!(l.inner.base_url, "http://gpu-box:8080/v1");
    let s = LmStudioProvider::new().with_base_url("http://192.168.1.10:1234/").with_api_key("lm");
    assert_eq!(s.inner.base_url, "http://192.168.1.10:1234/api/v0");
    assert_eq!(s.inner.bearer_token(), Some("lm"));
    assert_eq!(LmStudioProvider::default().inner.base_url, "http://localhost:1234/api/v0");
}

#[test]
fn identification_headers_are_sent_when_set() {
    let c = CopilotProvider::new("t").editor_version("vscode/1.90.0").integration_id("vscode-chat");
    assert_eq!(
        c.extra_headers(),
        vec![
            ("Editor-Version".to_string(), "vscode/1.90.0".to_string()),
            ("Copilot-Integration-Id".to_string(), "vscode-chat".to_string())
        ]
    );
    assert!(CopilotProvider::new("t").extra_headers().is_empty());
    let o = OpenRouterProvider::new("k").site_name("My App");
    assert_eq!(o.extra_headers(), vec![("X-Title".to_string(), "My App".to_string())]);
    let o = o.site_url("https://example.com");
    assert_eq!(o.extra_headers()[0], ("HTTP-Referer".to_string(), "https://example.com".to_string()));
}

#[test]
fn native_provider_urls() {
    let a = AnthropicProvider::new("sk-ant").with_base_url("http://h/v1");
    assert_eq!(a.messages_url(), "http://h/v1/messages");
    assert_eq!(a.models_url(), "http://h/v1/models");
    assert_eq!(
        a.auth_headers(),
        vec![
            ("x-api-key".to_string(), "sk-ant".to_string()),
            ("anthropic-version".to_string(), "2023-06-01".to_string())
        ]
    );
    let g = GeminiProvider::new("gk").with_base_url("http://h/v1beta");
    assert_eq!(g.generate_url("gemini-1.5-flash"), "http://h/v1beta/models/gemini-1.5-flash:generateContent?key=gk");
    assert_eq!(
        g.stream_url("gemini-1.5-flash"),
        "http://h/v1beta/models/gemini-1.5-flash:streamGenerateContent?alt=sse&key=gk"
    );
    assert_eq!(g.models_url(), "http://h/v1beta/models?key=gk");
    let o = OllamaProvider::default();
    assert_eq!(o.chat_url(), "http://localhost:11434/api/chat");
    assert_eq!(o.with_base_url("http://box:1").tags_url(), "http://box:1/api/tags");
}

#[test]
fn tts_is_unsupported_outside_openai() {
    let err = tts_unsupported(DeepSeekProvider::new("key").name());
    assert!(matches!(err, BaochuanError::InvalidRequest(_)));
    assert_eq!(err.to_string(), "Invalid request: deepseek does not support text-to-speech");
    let req = TtsRequestBuilder::new("tts-1", "test").voice("alloy").build().unwrap();
    assert_eq!(req.voice, "alloy");
}

#[test]
fn success_statuses_are_2xx() {
    assert!(is_success_status(200));
    assert!(is_success_status(299));
    assert!(!is_success_status(199));
    assert!(!is_success_status(300));
    assert!(!is_success_status(401));
}

#[test]
fn streaming_request_sets_stream() {
    let req = ChatRequestBuilder::new("m").message(ChatMessage::user("q")).build().unwrap();
    let s = streaming_request(req);
    assert!(s.stream);
    assert_eq!(s.model, "m");
    assert_eq!(s.messages.len(), 1);
}

#[test]
fn openai_chunks_pass_through_and_parse_errors_are_stream_errors() {
    let c = simple_chunk("s1".to_string(), "m".to_string(), Some("Par".to_string()), None);
    let ok = openai_chunk_result(Ok(c)).unwrap();
    assert_eq!(ok.delta_content(), Some("Par"));
    assert!(!ok.is_finished());
    let err = openai_chunk_result(Err("expected value at line 1 column 1".to_string())).unwrap_err();
    assert_eq!(err.to_string(), "Stream error: failed to parse chunk: expected value at line 1 column 1");
}

#[test]
fn openai_sends_one_token_limit() {
    let req = ChatRequestBuilder::new("gpt-4o")
        .message(ChatMessage::user("q"))
        .max_tokens(100)
        .max_completion_tokens(200)
        .build()
        .unwrap();
    let body = openai_request_body(req);
    assert_eq!(body.max_tokens, None);
    assert_eq!(body.max_completion_tokens, Some(200));

    let req = ChatRequestBuilder::new("o3-mini").message(ChatMessage::user("q")).max_tokens(100).build().unwrap();
    let body = openai_request_body(req);
    assert_eq!(body.max_tokens, None);
    assert_eq!(body.max_completion_tokens, Some(100));

    let req = ChatRequestBuilder::new("gpt-4o").message(ChatMessage::user("q")).max_tokens(100).build().unwrap();
    let body = openai_request_body(req);
    assert_eq!(body.max_tokens, Some(100));
    assert_eq!(body.max_completion_tokens, None);
}

#[test]
fn builder_carries_reasoning_settings() {
    let req = ChatRequestBuilder::new("deepseek-v4-flash")
        .message(ChatMessage::user("Solve 2+2."))
        .thinking(ThinkingConfig::enabled())
        .reasoning_effort("high")
        .build()
        .unwrap();
    assert_eq!(req.thinking.unwrap().thinking_type, "enabled");
    assert_eq!(req.reasoning_effort.as_deref(), Some("high"));
    assert_eq!(ThinkingConfig::disabled().thinking_type, "disabled");
}

#[test]
fn builder_without_model_is_refused() {
    let err = ChatRequestBuilder::default().message(ChatMessage::user("x")).build().unwrap_err();
    assert_eq!(err.to_string(), "Invalid request: model must be specified");
}

#[test]
fn error_descriptions() {
    assert_eq!(
        BaochuanError::Api { status: 401, message: "bad key".to_string() }.to_string(),
        "API error (HTTP 401): bad key"
    );
    assert_eq!(BaochuanError::Http("timeout".to_string()).to_string(), "HTTP error: timeout");
    assert_eq!(
        BaochuanError::Deserialization("missing field".to_string()).to_string(),
        "Deserialization error: missing field"
    );
}

#[test]
fn first_text_is_a_prefix_of_the_lossy_text() {
    let content = MessageContent::Parts(vec![
        ContentPart::audio("base64audiodata==", "wav"),
        ContentPart::text("a"),
        ContentPart::document("base64pdfdata==", "application/pdf"),
        ContentPart::text("b"),
    ]);
    assert_eq!(content.as_str(), Some("a"));
    assert_eq!(content.to_text_lossy(), "ab");
    assert!(content.to_text_lossy().starts_with(content.as_str().unwrap()));
    assert_eq!(MessageContent::from("plain".to_string()).as_str(), Some("plain"));
    assert_eq!(MessageContent::default().to_text_lossy(), "");
}

#[test]
fn user_with_image_and_roles() {
    let msg = ChatMessage::user_with_image("describe this", "https://example.com/img.jpg");
    assert_eq!(msg.role, Role::User);
    assert_eq!(msg.content.as_str(), Some("describe this"));
    assert_eq!(Role::Assistant.to_string(), "assistant");
    assert_eq!(Role::Tool.to_string(), "tool");
}

#[test]
fn non_success_status_is_an_api_error_with_the_body() {
    let e = api_status_error(401, "{\"error\": {\"message\": \"Invalid API key\"}}".to_string());
    assert!(matches!(e, BaochuanError::Api { status: 401, ref message } if message.contains("Invalid API key")));
}
