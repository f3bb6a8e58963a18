use baochuan::providers::sse::{StreamDecoder, StreamFormat};

fn datas(frames: &[baochuan::providers::sse::StreamFrame]) -> Vec<String> {
    frames.iter().map(|f| f.data.clone()).collect()
}

#[test]
fn openai_frames_stop_at_done_within_a_chunk() {
    let mut d = StreamDecoder::new(StreamFormat::OpenAi);
    let frames = d.feed(b"data: {\"a\":1}\n\ndata: [DONE]\ndata: {\"b\":2}\n");
    assert_eq!(datas(&frames), vec!["{\"a\":1}"]);
    assert!(d.feed(b"data: {\"c\":3}\n").is_empty());
}

#[test]
fn done_ends_the_stream_or_the_chunk() {
    for format in [
        StreamFormat::OpenAi,
        StreamFormat::NamedEventsUntilDone,
        StreamFormat::DataUntilDoneInChunk,
        StreamFormat::AgentEvents,
    ] {
        let for_good = format == StreamFormat::OpenAi || format == StreamFormat::AgentEvents;
        let mut d = StreamDecoder::new(format);
        let first = d.feed(
            "data: {\"id\":\"t1\",\"model\":\"m\",\"choices\":[{\"index\":0,\"delta\":{\"content\":\"A\"},\"finish_reason\":null}]}\ndata: [DONE]\n"
                .as_bytes(),
        );
        let second = d.feed(
            "data: {\"id\":\"t1\",\"model\":\"m\",\"choices\":[{\"index\":0,\"delta\":{\"content\":\"B\"},\"finish_reason\":null}]}\n"
                .as_bytes(),
        );
        assert_eq!(first.len(), 1);
        assert!(first[0].data.contains("\"A\""));
        if for_good {
            assert!(second.is_empty());
        } else {
            assert_eq!(second.len(), 1);
            assert!(second[0].data.contains("\"B\""));
        }
    }
    let mut d = StreamDecoder::new(StreamFormat::DataOnly);
    d.feed(b"data: [DONE]\n");
    assert_eq!(datas(&d.feed(b"data: B\n")), vec!["B"]);
}

#[test]
fn byte_chunks_on_char_boundaries_do_not_change_the_frames() {
    let text = "data: \u{e9}t\u{e9}\n\ndata: \u{1f6a2} ok\ndata: end\n";
    let bytes = text.as_bytes();
    let mut whole = StreamDecoder::new(StreamFormat::OpenAi);
    let all = whole.feed(bytes);
    let mut cut = 0;
    let mut pieces = StreamDecoder::new(StreamFormat::OpenAi);
    let mut got = Vec::new();
    while cut < bytes.len() {
        let mut end = (cut + 3).min(bytes.len());
        while !text.is_char_boundary(end) {
            end += 1;
        }
        got.extend(pieces.feed(&bytes[cut..end]));
        cut = end;
    }
    assert_eq!(datas(&all), datas(&got));
    assert_eq!(datas(&got), vec!["\u{e9}t\u{e9}", "\u{1f6a2} ok", "end"]);
}

#[test]
fn partial_lines_wait_for_the_next_chunk() {
    let mut d = StreamDecoder::new(StreamFormat::OpenAi);
    assert!(d.feed(b"data: {\"con").is_empty());
    let frames = d.feed(b"tent\":\"Par\"}\n");
    assert_eq!(datas(&frames), vec!["{\"content\":\"Par\"}"]);
}

#[test]
fn non_ascii_payloads_and_ndjson_lines() {
    let mut d = StreamDecoder::new(StreamFormat::Ndjson);
    let frames = d.feed("{\"x\":\"é\"}\n".as_bytes());
    assert_eq!(datas(&frames), vec!["{\"x\":\"é\"}"]);
    let frames = d.feed_text("  {\"y\":1}  \n\n");
    assert_eq!(datas(&frames), vec!["{\"y\":1}"]);
}

#[test]
fn named_events_attach_to_their_payloads() {
    let mut d = StreamDecoder::new(StreamFormat::NamedEvents);
    let frames = d.feed(b"event: message_start\ndata: {}\n\ndata: {\"x\":1}\n: comment\n");
    assert_eq!(frames[0].event.as_deref(), Some("message_start"));
    assert_eq!(frames[1].event, None);
    assert_eq!(frames.len(), 2);
}

#[test]
fn data_only_streams_have_no_done_marker() {
    let mut d = StreamDecoder::new(StreamFormat::DataOnly);
    let frames = d.feed(b"data: [DONE]\ndata: x\nevent: ignored\n");
    assert_eq!(datas(&frames), vec!["[DONE]", "x"]);
}

#[test]
fn chunk_boundaries_do_not_change_the_frames() {
    let text = "event: a\ndata: 1\n\ndata: 2\nevent: b\ndata: 3\n";
    let mut whole = StreamDecoder::new(StreamFormat::NamedEvents);
    let all = whole.feed(text.as_bytes());
    let mut pieces = StreamDecoder::new(StreamFormat::NamedEvents);
    let mut got = Vec::new();
    for b in text.as_bytes().chunks(3) {
        got.extend(pieces.feed(b));
    }
    assert_eq!(datas(&all), datas(&got));
    let ev: Vec<Option<String>> = got.iter().map(|f| f.event.clone()).collect();
    assert_eq!(ev, vec![Some("a".to_string()), None, Some("b".to_string())]);
}
