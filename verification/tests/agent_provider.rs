use baochuan::agent::{agent_event_of_frame, agent_event_result, AgentOutputContent, AgentOutputItem, AgentUsage};
use baochuan::providers::sse::{StreamDecoder, StreamFormat, StreamFrame};
use baochuan::providers::HermesAgentProvider;
use baochuan::{AgentInput, AgentInputItem, AgentInputContent, AgentResponse, AgentRunRequestBuilder, BaochuanError};

#[test]
fn test_agent_run_request_builder() {
    let req = AgentRunRequestBuilder::new("hermes-agent", "What files are here?")
        .instructions("You are a coding assistant.")
        .previous_response_id("resp_previous")
        .conversation("baochuan")
        .store(true)
        .build()
        .unwrap();

    assert_eq!(req.model, "hermes-agent");
    assert!(matches!(req.input, AgentInput::Text(ref text) if text == "What files are here?"));
    assert_eq!(req.instructions.as_deref(), Some("You are a coding assistant."));
    assert_eq!(req.previous_response_id.as_deref(), Some("resp_previous"));
    assert_eq!(req.conversation.as_deref(), Some("baochuan"));
    assert_eq!(req.store, Some(true));
    assert!(!req.stream);
}

#[test]
fn test_agent_run_request_requires_input() {
    let err = AgentRunRequestBuilder::new("hermes-agent", "").build().unwrap_err();
    assert!(err.to_string().contains("input"));
}

#[test]
fn test_hermes_agent_provider_name() {
    assert_eq!(HermesAgentProvider::new("key").name(), "hermes-agent");
}

#[test]
fn agent_builder_rejects_blank_text() {
    let err = AgentRunRequestBuilder::new("hermes-agent", "  \n\t ").build().unwrap_err();
    assert_eq!(err.to_string(), "Invalid request: input must not be empty");
}

#[test]
fn agent_builder_rejects_empty_items() {
    let err = AgentRunRequestBuilder::new("hermes-agent", AgentInput::Items(Vec::new()))
        .build()
        .unwrap_err();
    assert!(matches!(err, BaochuanError::InvalidRequest(ref m) if m == "input must not be empty"));
}

#[test]
fn agent_builder_default_requires_model() {
    let err = AgentRunRequestBuilder::default().build().unwrap_err();
    assert!(matches!(err, BaochuanError::InvalidRequest(ref m) if m == "model must be specified"));
}

#[test]
fn agent_builder_accepts_items_and_stream() {
    let items = vec![AgentInputItem {
        role: "user".to_string(),
        content: AgentInputContent::Text("hi".to_string()),
    }];
    let req = AgentRunRequestBuilder::new(String::from("m"), AgentInput::Items(items))
        .stream(true)
        .build()
        .unwrap();
    assert!(req.stream);
    assert!(matches!(req.input, AgentInput::Items(ref v) if v.len() == 1));
    assert_eq!(req.store, None);
}

#[test]
fn agent_input_is_empty_checks_trimmed_text() {
    assert!(AgentInput::Text("   ".to_string()).is_empty());
    assert!(!AgentInput::Text(" x ".to_string()).is_empty());
    assert!(AgentInput::from(String::new()).is_empty());
}

#[test]
fn agent_response_output_text_concatenates_output_text_blocks() {
    let block = |t: &str, ty: &str| AgentOutputContent { content_type: ty.to_string(), text: Some(t.to_string()) };
    let item = |blocks: Option<Vec<AgentOutputContent>>| AgentOutputItem {
        item_type: "message".to_string(),
        role: Some("assistant".to_string()),
        name: None,
        arguments: None,
        call_id: None,
        output: None,
        content: blocks,
    };
    let resp = AgentResponse {
        id: "resp_abc123".to_string(),
        object: Some("response".to_string()),
        status: "completed".to_string(),
        model: Some("hermes-agent".to_string()),
        output: vec![
            item(Some(vec![block("README.md ", "output_text"), block("ignored", "refusal")])),
            item(None),
            item(Some(vec![block("src/ tests/", "output_text")])),
        ],
        usage: Some(AgentUsage { input_tokens: 50, output_tokens: 12, total_tokens: 62 }),
    };
    assert_eq!(resp.output_text(), "README.md src/ tests/");
    assert_eq!(resp.usage.unwrap().total_tokens, 62);
}

#[test]
fn hermes_urls_and_auth() {
    let p = HermesAgentProvider::new("test-api-key").with_base_url("http://127.0.0.1:1234/v1//");
    assert_eq!(p.responses_url(), "http://127.0.0.1:1234/v1/responses");
    assert_eq!(p.bearer_token(), Some("test-api-key"));
    assert_eq!(HermesAgentProvider::new("").bearer_token(), None);
    assert_eq!(HermesAgentProvider::no_key().bearer_token(), None);
    assert_eq!(HermesAgentProvider::no_key().responses_url(), "http://127.0.0.1:8642/v1/responses");
}

#[test]
fn agent_event_stream_frames_stop_for_good_at_done() {
    let mut d = StreamDecoder::new(StreamFormat::AgentEvents);
    let frames = d.feed(
        "event: response.created\ndata: {\"id\":\"resp_abc123\",\"type\":\"response.created\"}\n\nevent: hermes.tool.progress\ndata: {\"tool\":\"terminal\",\"status\":\"started\"}\n\nevent: response.output_text.delta\ndata: {\"delta\":\"README.md\"}\n\nevent: response.completed\ndata: {\"response\":{\"id\":\"resp_abc123\",\"status\":\"completed\"}}\n\ndata: [DONE]\ndata: {\"late\":true}\n"
        .as_bytes(),
    );
    let names: Vec<&str> = frames.iter().map(|f| f.event.as_deref().unwrap()).collect();
    assert_eq!(
        names,
        vec!["response.created", "hermes.tool.progress", "response.output_text.delta", "response.completed"]
    );
    assert_eq!(frames[2].data, "{\"delta\":\"README.md\"}");
    assert!(d.feed(b"data: {\"more\":1}\n").is_empty());
}

#[test]
fn agent_event_result_wraps_payload_or_reports_error() {
    let value = serde_json::from_str::<serde_json::Value>("{\"delta\":\"README.md\"}").unwrap();
    let ev = agent_event_result(Some("response.output_text.delta".to_string()), Ok(value)).unwrap();
    assert_eq!(ev.event.as_deref(), Some("response.output_text.delta"));
    assert_eq!(ev.output_text_delta(), Some("README.md"));
    let other = serde_json::from_str::<serde_json::Value>("{\"delta\":3}").unwrap();
    assert_eq!(agent_event_result(None, Ok(other)).unwrap().output_text_delta(), None);
    let err = agent_event_result(None, Err("EOF while parsing".to_string())).unwrap_err();
    assert_eq!(err.to_string(), "Stream error: failed to parse agent event: EOF while parsing");
}

#[test]
fn agent_frames_are_read_as_json_events() {
    let mut d = StreamDecoder::new(StreamFormat::AgentEvents);
    let frames = d.feed(b"event: response.output_text.delta\ndata: {\"delta\":\"Hi\"}\n\ndata: {oops\n\n");
    assert_eq!(frames.len(), 2);
    let ev = agent_event_of_frame(frames[0].clone()).unwrap();
    assert_eq!(ev.event.as_deref(), Some("response.output_text.delta"));
    assert_eq!(ev.output_text_delta(), Some("Hi"));
    let expected = serde_json::from_str::<serde_json::Value>("{oops").unwrap_err().to_string();
    let err = agent_event_of_frame(frames[1].clone()).unwrap_err();
    assert!(matches!(&err, BaochuanError::Stream(_)));
    assert_eq!(err.to_string(), format!("Stream error: failed to parse agent event: {}", expected));
    let plain = agent_event_of_frame(StreamFrame { event: None, data: "[1, 2]".to_string() }).unwrap();
    assert_eq!(plain.event, None);
    assert_eq!(plain.data, serde_json::from_str::<serde_json::Value>("[1,2]").unwrap());
}
