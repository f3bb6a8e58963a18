use baochuan::providers::anthropic::{
    from_anthropic_response, models_from_anthropic, to_anthropic_request, AnthropicContent,
    AnthropicContentBlock, AnthropicImageSource, AnthropicMessageContent, AnthropicModelEntry,
    AnthropicResponse, AnthropicStreamState, AnthropicUsage, DEFAULT_MAX_TOKENS,
};
use baochuan::providers::cloudflare::{
    cf_chat_outcome, models_from_cf, to_cf_request, CfChatResult, CfError, CfModel, CfModelTask,
    CfResponse, CfStreamChunkData, CfStreamState,
};
use baochuan::providers::gemini::{
    from_gemini_response, models_from_gemini, to_gemini_request, GeminiCandidate, GeminiModelEntry,
    GeminiPart, GeminiResponse, GeminiResponseContent, GeminiResponsePart, GeminiStreamState,
    GeminiUsageMetadata,
};
use baochuan::providers::anthropic::to_anthropic_message;
use baochuan::providers::gemini::{to_gemini_content, GeminiFunctionCallPart};
use baochuan::providers::helpers::{guess_image_mime_type, image_mime_for_lowercase_url, parse_data_url};
use baochuan::providers::lmstudio::{models_from_lmstudio, LmsModel};
use baochuan::providers::ollama::{
    from_ollama_response, models_from_ollama, to_ollama_request, OllamaChatResponse, OllamaModelDetails,
    OllamaModelEntry, OllamaResponseMessage, OllamaStreamChunk, OllamaStreamState,
};
use baochuan::providers::openrouter::{models_from_openrouter, OpenRouterModel};
use baochuan::providers::CloudflareProvider;
use baochuan::types::model::{models_from_openai_list, OpenAIModelEntry, OpenAIModelList};
use baochuan::types::response::{AnthropicStreamDelta, AnthropicStreamEvent, AnthropicStreamMessage};
use baochuan::{BaochuanError, ChatMessage, ChatRequestBuilder, ContentPart, FunctionCall, ModelInfo, Role, ToolCall};

#[test]
fn data_urls_and_image_mime_types() {
    assert_eq!(
        parse_data_url("data:image/png;base64,abc123"),
        Some(("image/png".to_string(), "abc123".to_string()))
    );
    assert_eq!(parse_data_url("https://example.com/a.png"), None);
    assert_eq!(parse_data_url("data:image/png,abc"), None);
    assert_eq!(guess_image_mime_type("https://x/photo.PNG"), "image/png");
    assert_eq!(guess_image_mime_type("https://x/a.gif?x=1"), "image/gif");
    assert_eq!(guess_image_mime_type("https://x/a.webp"), "image/webp");
    assert_eq!(guess_image_mime_type("https://x/a"), "image/jpeg");
}

#[test]
fn anthropic_request_extracts_system_prompt() {
    let req = ChatRequestBuilder::new("opus-4-6")
        .message(ChatMessage::system("You are a helpful assistant."))
        .message(ChatMessage::user("Hello"))
        .message(ChatMessage::system("Be brief."))
        .build()
        .unwrap();
    let body = to_anthropic_request(&req, false);
    assert_eq!(body.system.as_deref(), Some("You are a helpful assistant.\nBe brief."));
    assert_eq!(body.messages.len(), 1);
    assert_eq!(body.messages[0].role, "user");
    assert_eq!(body.max_tokens, DEFAULT_MAX_TOKENS);
    assert!(!body.stream);
}

#[test]
fn anthropic_images_and_tool_results() {
    let req = ChatRequestBuilder::new("opus-4-6")
        .message(ChatMessage::user_with_image("What is in this image?", "data:image/jpeg;base64,/9j/4AAQSk=="))
        .message(ChatMessage::tool_result("toolu_01", "Sunny, 22C"))
        .max_tokens(10)
        .build()
        .unwrap();
    let body = to_anthropic_request(&req, true);
    assert_eq!(body.max_tokens, 10);
    assert!(body.stream);
    match &body.messages[0].content {
        AnthropicMessageContent::Parts(blocks) => match &blocks[1] {
            AnthropicContentBlock::Image { source: AnthropicImageSource::Base64 { media_type, data } } => {
                assert_eq!(media_type, "image/jpeg");
                assert_eq!(data, "/9j/4AAQSk==");
            }
            other => panic!("unexpected block {:?}", other),
        },
        other => panic!("unexpected content {:?}", other),
    }
    assert_eq!(body.messages[1].role, "user");
    match &body.messages[1].content {
        AnthropicMessageContent::Parts(blocks) => match &blocks[0] {
            AnthropicContentBlock::ToolResult { tool_use_id, content } => {
                assert_eq!(tool_use_id, "toolu_01");
                assert_eq!(content, "Sunny, 22C");
            }
            other => panic!("unexpected block {:?}", other),
        },
        other => panic!("unexpected content {:?}", other),
    }
}

#[test]
fn anthropic_response_text_tools_and_usage() {
    let resp = AnthropicResponse {
        id: "msg_test".to_string(),
        model: "opus-4-6".to_string(),
        content: vec![
            AnthropicContent {
                content_type: "text".to_string(),
                text: Some("I will check the weather.".to_string()),
                id: None,
                name: None,
                input: None,
            },
            AnthropicContent {
                content_type: "tool_use".to_string(),
                text: None,
                id: Some("toolu_01".to_string()),
                name: Some("get_weather".to_string()),
                input: Some("{\"location\":\"Paris\"}".to_string()),
            },
        ],
        stop_reason: Some("tool_use".to_string()),
        usage: AnthropicUsage { input_tokens: 10, output_tokens: 2 },
    };
    let chat = from_anthropic_response(resp);
    assert_eq!(chat.id, "msg_test");
    assert_eq!(chat.content(), Some("I will check the weather."));
    let calls = chat.choices[0].message.tool_calls.as_ref().unwrap();
    assert_eq!(calls[0].id, "toolu_01");
    assert_eq!(calls[0].function.name, "get_weather");
    assert_eq!(calls[0].function.arguments, "{\"location\":\"Paris\"}");
    assert_eq!(chat.usage.unwrap().total_tokens, 12);
    assert_eq!(chat.choices[0].finish_reason.as_deref(), Some("tool_use"));
}

#[test]
fn anthropic_stream_events() {
    let mut st = AnthropicStreamState::new();
    let start = AnthropicStreamEvent {
        message: Some(AnthropicStreamMessage { id: Some("msg_1".into()), model: Some("opus".into()) }),
        delta: None,
    };
    assert!(st.on_frame(&Some("message_start".to_string()), Some(start)).is_none());
    let delta = AnthropicStreamEvent {
        message: None,
        delta: Some(AnthropicStreamDelta { delta_type: Some("text_delta".into()), text: Some("Par".into()) }),
    };
    let c = st.on_frame(&Some("content_block_delta".to_string()), Some(delta)).unwrap();
    assert_eq!((c.id.as_str(), c.model.as_str(), c.delta_content()), ("msg_1", "opus", Some("Par")));
    assert!(st.on_frame(&Some("ping".to_string()), None).is_none());
    let stop = st.on_frame(&Some("message_stop".to_string()), None).unwrap();
    assert!(stop.is_finished());
}

#[test]
fn gemini_request_and_response() {
    let req = ChatRequestBuilder::new("gemini-1.5-flash")
        .message(ChatMessage::system("Be terse."))
        .message(ChatMessage::user("Capital of France?"))
        .message(ChatMessage::assistant("Paris."))
        .max_tokens(64)
        .build()
        .unwrap();
    let body = to_gemini_request(&req);
    assert_eq!(body.contents.len(), 2);
    assert_eq!(body.contents[0].role, "user");
    assert_eq!(body.contents[1].role, "model");
    match &body.system_instruction.as_ref().unwrap().parts[0] {
        GeminiPart::Text { text } => assert_eq!(text, "Be terse."),
        other => panic!("unexpected part {:?}", other),
    }
    assert_eq!(body.generation_config.as_ref().unwrap().max_output_tokens, Some(64));

    let resp = GeminiResponse {
        candidates: vec![GeminiCandidate {
            content: GeminiResponseContent {
                parts: vec![
                    GeminiResponsePart { text: Some("Par".into()), function_call: None },
                    GeminiResponsePart { text: Some("is.".into()), function_call: None },
                ],
            },
            finish_reason: Some("STOP".into()),
            index: None,
        }],
        usage_metadata: Some(GeminiUsageMetadata {
            prompt_token_count: Some(10),
            candidates_token_count: Some(2),
            total_token_count: Some(12),
        }),
    };
    let chat = from_gemini_response(resp.clone(), "gemini-1.5-flash");
    assert_eq!(chat.content(), Some("Paris."));
    assert_eq!(chat.usage.unwrap().total_tokens, 12);
    assert_eq!(chat.model, "gemini-1.5-flash");

    let mut st = GeminiStreamState::new();
    let c = st.on_parsed(Ok(resp), "gemini-1.5-flash").unwrap();
    assert_eq!(c.id, "gemini-chunk-1");
    assert_eq!(c.delta_content(), Some("Par"));
    let e = st.on_parsed(Err("bad".to_string()), "m").unwrap_err();
    assert_eq!(e.to_string(), "Stream error: failed to parse Gemini chunk: bad");
}

#[test]
fn ollama_request_response_and_stream() {
    let req = ChatRequestBuilder::new("llama3.2")
        .message(ChatMessage::with_parts(
            Role::User,
            vec![ContentPart::text("What is this?"), ContentPart::image_url("data:image/png;base64,abc")],
        ))
        .max_tokens(32)
        .build()
        .unwrap();
    let body = to_ollama_request(&req, false);
    assert_eq!(body.messages[0].content, "What is this?");
    assert_eq!(body.messages[0].images, Some(vec!["abc".to_string()]));
    assert_eq!(body.options.unwrap().num_predict, Some(32));

    let chat = from_ollama_response(OllamaChatResponse {
        model: "llama3.2".into(),
        message: OllamaResponseMessage { role: "assistant".into(), content: "Paris.".into() },
        done: true,
        prompt_eval_count: Some(10),
        eval_count: Some(2),
    });
    assert_eq!(chat.content(), Some("Paris."));
    assert_eq!(chat.usage.unwrap().total_tokens, 12);
    assert_eq!(chat.choices[0].finish_reason.as_deref(), Some("stop"));

    let mut st = OllamaStreamState::new();
    let chunk = |text: &str, done: bool| OllamaStreamChunk {
        model: "llama3.2".into(),
        message: OllamaResponseMessage { role: "assistant".into(), content: text.into() },
        done,
    };
    let a = st.on_parsed(Ok(chunk("Par", false))).unwrap();
    let b = st.on_parsed(Ok(chunk("", true))).unwrap();
    assert_eq!(a.id, "ollama-chunk-1");
    assert_eq!(b.id, "ollama-chunk-2");
    assert_eq!(b.delta_content(), None);
    assert!(b.is_finished());
}

#[test]
fn cloudflare_envelope_outcomes() {
    let ok = cf_chat_outcome(
        CfResponse { result: Some(CfChatResult { response: "Paris.".into() }), success: true, errors: vec![] },
        "@cf/meta/llama-3.1-8b-instruct",
    )
    .unwrap();
    assert_eq!(ok.content(), Some("Paris."));
    assert_eq!(ok.model, "@cf/meta/llama-3.1-8b-instruct");
    let err = cf_chat_outcome(
        CfResponse {
            result: None,
            success: false,
            errors: vec![CfError { message: "bad model".into() }, CfError { message: "quota".into() }],
        },
        "m",
    )
    .unwrap_err();
    assert!(matches!(err, BaochuanError::Api { status: 200, ref message } if message == "bad model; quota"));
    let empty = cf_chat_outcome(CfResponse { result: None, success: true, errors: vec![] }, "m").unwrap_err();
    assert_eq!(empty.to_string(), "API error (HTTP 200): empty result from Cloudflare");
}

#[test]
fn cloudflare_urls_request_stream_and_models() {
    let p = CloudflareProvider::new("acct123", "token123").with_base_url("http://h/client/v4");
    assert_eq!(
        p.run_url("@cf/meta/llama-3.1-8b-instruct"),
        "http://h/client/v4/accounts/acct123/ai/run/@cf/meta/llama-3.1-8b-instruct"
    );
    assert_eq!(p.models_url(), "http://h/client/v4/accounts/acct123/ai/models/search");
    let req = ChatRequestBuilder::new("m").message(ChatMessage::system("s")).message(ChatMessage::user("u")).build().unwrap();
    let body = to_cf_request(&req, true);
    assert_eq!(body.messages[0].role, "system");
    assert_eq!(body.messages[1].content, "u");
    assert!(body.stream);
    let mut st = CfStreamState::new();
    let c = st.on_parsed(Ok(CfStreamChunkData { response: Some("Par".into()) }), "m").unwrap();
    assert_eq!(c.id, "cf-chunk-1");
    assert_eq!(c.delta_content(), Some("Par"));
    let e = st.on_parsed(Err("eof".into()), "m").unwrap_err();
    assert_eq!(e.to_string(), "Stream error: failed to parse CF chunk: eof");
    let models = models_from_cf(vec![CfModel {
        id: "@cf/meta/llama-3.1-8b-instruct".into(),
        description: Some("Llama 3.1 8B".into()),
        task: Some(CfModelTask { name: "Text Generation".into() }),
    }]);
    assert_eq!(models[0].display_name.as_deref(), Some("Llama 3.1 8B"));
    assert_eq!(models[0].owned_by.as_deref(), Some("Text Generation"));
}

#[test]
fn model_listings() {
    let o = models_from_ollama(vec![
        OllamaModelEntry {
            name: "llama3.2:latest".into(),
            details: Some(OllamaModelDetails {
                family: Some("llama".into()),
                parameter_size: Some("3.2B".into()),
                quantization_level: Some("Q4_K_M".into()),
            }),
        },
        OllamaModelEntry { name: "mistral:latest".into(), details: None },
    ]);
    assert_eq!(o[0].display_name.as_deref(), Some("3.2B · Q4_K_M"));
    assert_eq!(o[0].owned_by.as_deref(), Some("llama"));
    assert_eq!(o[1].id, "mistral:latest");
    let g = models_from_gemini(vec![GeminiModelEntry {
        name: "models/gemini-1.5-flash".into(),
        display_name: Some("Gemini 1.5 Flash".into()),
        input_token_limit: Some(1000000),
    }]);
    assert_eq!(g[0].id, "gemini-1.5-flash");
    assert_eq!(g[0].owned_by.as_deref(), Some("google"));
    let a = models_from_anthropic(vec![AnthropicModelEntry { id: "opus".into(), display_name: None }]);
    assert_eq!(a[0].owned_by.as_deref(), Some("anthropic"));
    let l = models_from_lmstudio(vec![LmsModel {
        id: "qwen".into(),
        publisher: Some("lmstudio-community".into()),
        arch: Some("qwen2".into()),
        quantization: None,
        max_context_length: Some(32768),
    }]);
    assert_eq!(l[0].display_name.as_deref(), Some("qwen2"));
    let r = models_from_openrouter(vec![OpenRouterModel { id: "x/y".into(), name: Some("Y".into()), context_length: Some(8) }]);
    assert_eq!(r[0].display_name.as_deref(), Some("Y"));
    let list = models_from_openai_list(OpenAIModelList {
        data: vec![OpenAIModelEntry { id: "llama".into(), owned_by: Some("llamacpp".into()) }],
    });
    assert_eq!(list[0].id, "llama");
    assert_eq!(list[0].owned_by.as_deref(), Some("llamacpp"));
    let m: ModelInfo = OpenAIModelEntry { id: "moonshot-v1-8k".into(), owned_by: None }.into();
    assert_eq!(m.id, "moonshot-v1-8k");
    assert_eq!(ModelInfo::new("x").id, "x");
}

#[test]
fn anthropic_tool_calls_round_trip() {
    let resp = AnthropicResponse {
        id: "msg_1".to_string(),
        model: "opus-4-6".to_string(),
        content: vec![
            AnthropicContent {
                content_type: "text".to_string(),
                text: Some("I will check the weather.".to_string()),
                id: None,
                name: None,
                input: None,
            },
            AnthropicContent {
                content_type: "tool_use".to_string(),
                text: None,
                id: Some("toolu_01".to_string()),
                name: Some("get_weather".to_string()),
                input: None,
            },
        ],
        stop_reason: None,
        usage: AnthropicUsage { input_tokens: 1, output_tokens: 1 },
    };
    let assistant = from_anthropic_response(resp).choices.remove(0).message;
    let turn = to_anthropic_message(&assistant);
    assert_eq!(turn.role, "assistant");
    match &turn.content {
        AnthropicMessageContent::Parts(blocks) => match &blocks[1] {
            AnthropicContentBlock::ToolUse { id, name, input } => {
                assert_eq!((id.as_str(), name.as_str()), ("toolu_01", "get_weather"));
                assert_eq!(input, &Some(serde_json::from_str::<serde_json::Value>("{}").unwrap()));
            }
            other => panic!("unexpected block {:?}", other),
        },
        other => panic!("unexpected content {:?}", other),
    }
    let answer = to_anthropic_message(&ChatMessage::tool_result("toolu_01", "Sunny, 22C"));
    match &answer.content {
        AnthropicMessageContent::Parts(blocks) => {
            assert!(matches!(&blocks[0], AnthropicContentBlock::ToolResult { tool_use_id, .. } if tool_use_id == "toolu_01"))
        }
        other => panic!("unexpected content {:?}", other),
    }
}

#[test]
fn gemini_function_calls_round_trip() {
    let resp = GeminiResponse {
        candidates: vec![GeminiCandidate {
            content: GeminiResponseContent {
                parts: vec![GeminiResponsePart {
                    text: None,
                    function_call: Some(GeminiFunctionCallPart {
                        name: "get_weather".into(),
                        args: "{\"location\":\"Paris\"}".into(),
                    }),
                }],
            },
            finish_reason: None,
            index: Some(0),
        }],
        usage_metadata: None,
    };
    let assistant = from_gemini_response(resp, "gemini-1.5-flash").choices.remove(0).message;
    let call_id = assistant.tool_calls.as_ref().unwrap()[0].id.clone();
    assert_eq!(call_id, "get_weather");
    let turn = to_gemini_content(&assistant);
    assert_eq!(turn.role, "model");
    match &turn.parts[0] {
        GeminiPart::FunctionCall { name, args } => {
            assert_eq!(name, "get_weather");
            assert_eq!(args, &Some(serde_json::from_str::<serde_json::Value>("{\"location\":\"Paris\"}").unwrap()));
        }
        other => panic!("unexpected part {:?}", other),
    }
    let answer = to_gemini_content(&ChatMessage::tool_result(call_id, "Sunny"));
    match &answer.parts[0] {
        GeminiPart::FunctionResponse { name, result } => {
            assert_eq!(name, "get_weather");
            assert_eq!(result, "Sunny");
        }
        other => panic!("unexpected part {:?}", other),
    }
}

#[test]
fn image_mime_from_lowercased_urls() {
    assert_eq!(image_mime_for_lowercase_url("https://x/a.png"), "image/png");
    assert_eq!(image_mime_for_lowercase_url("https://x/a.PNG"), "image/jpeg");
    assert_eq!(image_mime_for_lowercase_url("https://x/a.gif.png"), "image/png");
    assert_eq!(image_mime_for_lowercase_url("https://x/a.webp"), "image/webp");
    assert_eq!(image_mime_for_lowercase_url(""), "image/jpeg");
}

#[test]
fn tool_arguments_go_out_as_json_values() {
    let mut m = ChatMessage::assistant("");
    m.tool_calls = Some(vec![
        ToolCall {
            id: "c1".into(),
            call_type: "function".into(),
            function: FunctionCall { name: "f".into(), arguments: "{\"a\": [1, 2]}".into() },
        },
        ToolCall {
            id: "c2".into(),
            call_type: "function".into(),
            function: FunctionCall { name: "g".into(), arguments: "not json".into() },
        },
    ]);
    let turn = to_anthropic_message(&m);
    match &turn.content {
        AnthropicMessageContent::Parts(blocks) => {
            assert_eq!(blocks.len(), 2);
            match (&blocks[0], &blocks[1]) {
                (
                    AnthropicContentBlock::ToolUse { input: a, .. },
                    AnthropicContentBlock::ToolUse { input: b, .. },
                ) => {
                    assert_eq!(a, &Some(serde_json::from_str::<serde_json::Value>("{\"a\":[1,2]}").unwrap()));
                    assert!(b.is_none());
                }
                other => panic!("unexpected blocks {:?}", other),
            }
        }
        other => panic!("unexpected content {:?}", other),
    }
    let g = to_gemini_content(&m);
    match &g.parts[1] {
        GeminiPart::FunctionCall { name, args } => {
            assert_eq!(name, "g");
            assert!(args.is_none());
        }
        other => panic!("unexpected part {:?}", other),
    }
}
