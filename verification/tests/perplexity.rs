use baochuan::providers::perplexity::{
    extract_citations, extract_output_text, from_agent_response, map_sonar_model, models_from_perplexity,
    responses_event_of,
    to_agent_body, PerplexityAgentResponse, PerplexityModel, PerplexityOutputItem, PerplexityOutputPart,
    PerplexitySearchResult, PerplexityUsage, ResponsesEvent, ResponsesStreamState,
};
use baochuan::providers::sse::{StreamDecoder, StreamFormat, StreamFrame};
use baochuan::providers::PerplexityProvider;
use baochuan::{ChatMessage, ChatRequestBuilder};

fn search(urls: &[&str]) -> PerplexityOutputItem {
    PerplexityOutputItem {
        item_type: Some("search_results".to_string()),
        content: None,
        results: Some(urls.iter().map(|u| PerplexitySearchResult { url: Some(u.to_string()) }).collect()),
    }
}

fn message(texts: &[(&str, &str)]) -> PerplexityOutputItem {
    PerplexityOutputItem {
        item_type: Some("message".to_string()),
        content: Some(
            texts
                .iter()
                .map(|(ty, t)| PerplexityOutputPart { part_type: Some(ty.to_string()), text: Some(t.to_string()) })
                .collect(),
        ),
        results: None,
    }
}

#[test]
fn maps_sonar_slugs_to_presets() {
    let req = ChatRequestBuilder::new("sonar-pro")
        .message(ChatMessage::system("Be concise."))
        .message(ChatMessage::user("News?"))
        .max_tokens(256)
        .build()
        .unwrap();

    let body = to_agent_body(&req, false);
    assert_eq!(body.preset.as_deref(), Some("low"));
    assert!(body.model.is_none());
    assert_eq!(body.max_output_tokens, Some(256));
    assert_eq!(body.instructions.as_deref(), Some("Be concise."));
    assert_eq!(body.tools[0], "web_search");
    assert_eq!(body.input[0].role, "user");
    assert_eq!(body.input[0].content, "News?");
}

#[test]
fn passes_through_qualified_models() {
    let req = ChatRequestBuilder::new("perplexity/sonar").message(ChatMessage::user("Hello")).build().unwrap();
    let body = to_agent_body(&req, true);
    assert_eq!(body.model.as_deref(), Some("perplexity/sonar"));
    assert!(body.preset.is_none());
    assert!(body.stream);
}

#[test]
fn extracts_text_and_citations_from_agent_output() {
    let resp = PerplexityAgentResponse {
        id: "resp_1".into(),
        model: Some("openai/gpt-5.6-sol".into()),
        output: vec![
            search(&["https://example.com/a", "https://example.com/b"]),
            message(&[("output_text", "Paris is the capital.")]),
        ],
        usage: Some(PerplexityUsage { input_tokens: Some(10), output_tokens: Some(8), total_tokens: Some(18) }),
    };

    let chat = from_agent_response(resp);
    assert_eq!(chat.content(), Some("Paris is the capital."));
    assert_eq!(
        chat.citations,
        Some(vec!["https://example.com/a".to_string(), "https://example.com/b".to_string()])
    );
    assert_eq!(chat.usage.unwrap().total_tokens, 18);
}

#[test]
fn sonar_model_mapping() {
    assert_eq!(map_sonar_model("sonar"), ("preset", Some("fast")));
    assert_eq!(map_sonar_model("sonar-reasoning-pro"), ("preset", Some("medium")));
    assert_eq!(map_sonar_model("sonar-deep-research"), ("preset", Some("high")));
    assert_eq!(map_sonar_model("xhigh"), ("preset", Some("xhigh")));
    assert_eq!(map_sonar_model("perplexity/sonar"), ("model", None));
}

#[test]
fn agent_body_joins_instructions_and_prefers_completion_limit() {
    let req = ChatRequestBuilder::new("fast")
        .message(ChatMessage::system("A"))
        .message(ChatMessage::system(""))
        .message(ChatMessage::user("q"))
        .message(ChatMessage::system("B"))
        .message(ChatMessage::assistant("r"))
        .max_tokens(10)
        .max_completion_tokens(20)
        .build()
        .unwrap();
    let body = to_agent_body(&req, false);
    assert_eq!(body.instructions.as_deref(), Some("A\nB"));
    assert_eq!(body.input.len(), 2);
    assert_eq!(body.input[1].role, "assistant");
    assert_eq!(body.input[1].item_type, "message");
    assert_eq!(body.max_output_tokens, Some(20));
    assert_eq!(body.preset.as_deref(), Some("fast"));
    assert!(!body.stream);
}

#[test]
fn citations_are_deduplicated_and_skip_empty_urls() {
    let output = vec![
        search(&["https://a", "", "https://b"]),
        message(&[("output_text", "x")]),
        search(&["https://b", "https://c", "https://a"]),
    ];
    let c = extract_citations(&output).unwrap();
    assert_eq!(c, vec!["https://a", "https://b", "https://c"]);
    assert_eq!(extract_citations(&vec![message(&[("output_text", "x")])]), None);
}

#[test]
fn output_text_reads_only_output_text_of_messages() {
    let output = vec![
        message(&[("output_text", "Hello"), ("reasoning", "hidden")]),
        search(&["https://a"]),
        PerplexityOutputItem { item_type: None, content: message(&[("output_text", "no")]).content, results: None },
        message(&[("output_text", ", world")]),
    ];
    assert_eq!(extract_output_text(&output), "Hello, world");
}

#[test]
fn usage_total_defaults_to_sum() {
    let resp = PerplexityAgentResponse {
        id: "r".into(),
        model: None,
        output: vec![],
        usage: Some(PerplexityUsage { input_tokens: Some(7), output_tokens: None, total_tokens: None }),
    };
    let chat = from_agent_response(resp);
    let u = chat.usage.unwrap();
    assert_eq!((u.prompt_tokens, u.completion_tokens, u.total_tokens), (7, 0, 7));
    assert_eq!(chat.model, "");
    assert!(chat.citations.is_none());
    assert_eq!(chat.choices[0].finish_reason.as_deref(), Some("stop"));
}

#[test]
fn responses_stream_produces_text_and_final_chunks() {
    let mut d = StreamDecoder::new(StreamFormat::NamedEventsUntilDone);
    let frames = d.feed(
        "event: response.output_text.delta\ndata: {\"type\":\"response.output_text.delta\",\"delta\":\"Par\"}\n\ndata: {\"type\":\"response.output_text.delta\",\"delta\":\"is.\"}\n\nevent: response.completed\ndata: {\"type\":\"response.completed\",\"id\":\"resp_1\"}\n\ndata: [DONE]\n"
        .as_bytes(),
    );
    assert_eq!(frames.len(), 3);
    let mut st = ResponsesStreamState::new();
    let ev = |id: Option<&str>, ty: &str, delta: Option<&str>| ResponsesEvent {
        id: id.map(|s| s.to_string()),
        response_id: None,
        event_type: Some(ty.to_string()),
        delta: delta.map(|s| s.to_string()),
    };
    let c1 = st.on_frame(&frames[0].event, Some(ev(None, "response.output_text.delta", Some("Par"))), "sonar").unwrap();
    assert_eq!(c1.id, "agent-chunk-1");
    assert_eq!(c1.delta_content(), Some("Par"));
    assert_eq!(c1.model, "sonar");
    let c2 = st.on_frame(&frames[1].event, Some(ev(None, "response.output_text.delta", Some("is."))), "sonar").unwrap();
    assert_eq!(c2.id, "agent-chunk-2");
    assert!(st.on_frame(&None, Some(ev(None, "response.output_text.delta", Some(""))), "sonar").is_none());
    assert!(st.on_frame(&None, None, "sonar").is_none());
    let c3 = st.on_frame(&frames[2].event, Some(ev(Some("resp_1"), "response.completed", None)), "sonar").unwrap();
    assert_eq!(c3.id, "resp_1");
    assert!(c3.is_finished());
    assert_eq!(c3.delta_content(), None);
    let c4 = st.on_frame(&Some(String::new()), Some(ev(None, "response.output_text.delta", Some("!"))), "sonar").unwrap();
    assert_eq!(c4.id, "resp_1");
    assert_eq!(st.chunk_index, 3);
}

#[test]
fn perplexity_urls_and_models() {
    let p = PerplexityProvider::new("ppl-key").with_base_url("http://h/v1/");
    assert_eq!(p.agent_url(), "http://h/v1/agent");
    assert_eq!(PerplexityProvider::new("k").agent_url(), "https://api.perplexity.ai/v1/agent");
    let m = models_from_perplexity(vec![PerplexityModel {
        id: "llama-3.1-sonar-small-128k-online".to_string(),
        owned_by: Some("perplexity".to_string()),
        context_length: Some(127072),
    }]);
    assert_eq!(m[0].id, "llama-3.1-sonar-small-128k-online");
    assert_eq!(m[0].context_length, Some(127072));
    assert!(m[0].display_name.is_none());
}

#[test]
fn responses_payload_fields() {
    let v: serde_json::Value =
        serde_json::from_str("{\"type\":\"response.completed\",\"response\":{\"id\":\"resp_9\"},\"delta\":3}").unwrap();
    let e = responses_event_of(&v);
    assert_eq!(e.id, None);
    assert_eq!(e.response_id.as_deref(), Some("resp_9"));
    assert_eq!(e.event_type.as_deref(), Some("response.completed"));
    assert_eq!(e.delta, None);
    let v: serde_json::Value = serde_json::from_str("{\"id\":\"r1\",\"delta\":\"Par\"}").unwrap();
    let e = responses_event_of(&v);
    assert_eq!(e.id.as_deref(), Some("r1"));
    assert_eq!(e.delta.as_deref(), Some("Par"));
    assert_eq!(e.response_id, None);
}

#[test]
fn responses_frames_are_read_as_json() {
    let mut d = StreamDecoder::new(StreamFormat::NamedEventsUntilDone);
    let frames = d.feed(
        "event: response.output_text.delta\ndata: {\"delta\":\"Bon\"}\n\ndata: not json\n\nevent: response.completed\ndata: null\n\ndata: {\"type\":\"response.done\",\"response\":{\"id\":\"resp_7\"}}\n\n"
            .as_bytes(),
    );
    assert_eq!(frames.len(), 4);
    let mut st = ResponsesStreamState::new();
    let c1 = st.on_data_frame(&frames[0], "sonar-pro").unwrap();
    assert_eq!(c1.id, "agent-chunk-1");
    assert_eq!(c1.delta_content(), Some("Bon"));
    assert_eq!(c1.model, "sonar-pro");
    assert!(st.on_data_frame(&frames[1], "sonar-pro").is_none());
    assert_eq!(st.chunk_index, 1);
    let c2 = st.on_data_frame(&frames[2], "sonar-pro").unwrap();
    assert!(c2.is_finished());
    assert_eq!(c2.id, "");
    let c3 = st.on_data_frame(&frames[3], "sonar-pro").unwrap();
    assert!(c3.is_finished());
    assert_eq!(c3.id, "resp_7");
    assert_eq!(st.response_id, "resp_7");
    let frame = StreamFrame { event: None, data: "{\"type\":\"response.output_text.delta\",\"delta\":\"!\"}".to_string() };
    let c4 = st.on_data_frame(&frame, "sonar-pro").unwrap();
    assert_eq!(c4.id, "resp_7");
    assert_eq!(c4.delta_content(), Some("!"));
    assert_eq!(st.chunk_index, 2);
}
