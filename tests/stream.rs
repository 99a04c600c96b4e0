use gpt_client::error::GptError;
use gpt_client::models::{Choice, Delta, GptResponse};
use gpt_client::stream::{fragment_of, StreamDecoder};

fn delta_response(content: Option<&str>) -> GptResponse {
    GptResponse {
        id: None,
        choices: vec![Choice {
            message: None,
            delta: Some(Delta { content: content.map(|c| c.to_string()), role: None }),
            finish_reason: None,
            index: 0,
        }],
    }
}

#[test]
fn terminator_split_across_chunks() {
    let mut d = StreamDecoder::new();
    let first = d.push_chunk(b"data: {\"a\":1}\n");
    assert!(first.is_empty());
    let second = d.push_chunk(b"\ndata: {\"b\"");
    assert_eq!(second, vec!["{\"a\":1}".to_string()]);
    let third = d.push_chunk(b":2}\n\n");
    assert_eq!(third, vec!["{\"b\":2}".to_string()]);
    assert!(!d.is_done());
}

#[test]
fn two_frames_in_order() {
    let mut d = StreamDecoder::new();
    let out = d.push_chunk(b"data: Hello\n\ndata:  world\n\n");
    assert_eq!(out, vec!["Hello".to_string(), " world".to_string()]);
    let frags: Vec<_> = vec![delta_response(Some("Hello")), delta_response(Some(" world"))]
        .into_iter()
        .map(|r| fragment_of(Ok(r)))
        .collect();
    assert_eq!(frags, vec![Some(Ok("Hello".to_string())), Some(Ok(" world".to_string()))]);
}

#[test]
fn empty_delta_gives_nothing() {
    assert_eq!(fragment_of(Ok(delta_response(Some("")))), None);
    assert_eq!(fragment_of(Ok(delta_response(None))), None);
    assert_eq!(fragment_of(Ok(GptResponse { id: None, choices: vec![] })), None);
    let no_delta = Choice { message: None, delta: None, finish_reason: Some("stop".to_string()), index: 0 };
    assert_eq!(fragment_of(Ok(GptResponse { id: None, choices: vec![no_delta] })), None);
}

#[test]
fn malformed_frame_then_good_frame() {
    let mut d = StreamDecoder::new();
    let payloads = d.push_chunk(b"data: {not json\n\ndata: {\"choices\":[]}\n\n");
    assert_eq!(payloads.len(), 2);
    let bad = serde_json::from_str::<serde_json::Value>(&payloads[0]).map_err(|e| e.to_string());
    let detail = bad.clone().unwrap_err();
    assert_eq!(
        fragment_of(bad.map(|_| delta_response(None))),
        Some(Err(GptError::ParseError(detail)))
    );
    assert!(serde_json::from_str::<serde_json::Value>(&payloads[1]).is_ok());
    assert_eq!(fragment_of(Ok(delta_response(Some("next")))), Some(Ok("next".to_string())));
}

#[test]
fn done_marker_ends_the_stream() {
    let mut d = StreamDecoder::new();
    let out = d.push_chunk(b"data: a\n\ndata: [DONE]\n\ndata: b\n\n");
    assert_eq!(out, vec!["a".to_string()]);
    assert!(d.is_done());
    assert!(d.push_chunk(b"data: c\n\n").is_empty());
    assert_eq!(d.fail("late".to_string()), None);
}

#[test]
fn frames_without_data_prefix_are_ignored() {
    let mut d = StreamDecoder::new();
    let out = d.push_chunk(b": keep-alive\n\nevent: x\n\ndata: y\n\n");
    assert_eq!(out, vec!["y".to_string()]);
}

#[test]
fn invalid_utf8_chunk_is_dropped() {
    let mut d = StreamDecoder::new();
    assert!(d.push_chunk(b"data: a").is_empty());
    assert!(d.push_chunk(&[0xff, b'\n', b'\n']).is_empty());
    assert_eq!(d.push_chunk(b"b\n\n"), vec!["ab".to_string()]);
}

#[test]
fn multibyte_text_is_kept() {
    let mut d = StreamDecoder::new();
    assert_eq!(d.push_chunk("data: héllo ✓\n\n".as_bytes()), vec!["héllo ✓".to_string()]);
}

#[test]
fn transport_failure_is_reported_once() {
    let mut d = StreamDecoder::new();
    assert_eq!(d.fail("reset".to_string()), Some(GptError::RequestError("reset".to_string())));
    assert!(d.is_done());
    assert_eq!(d.fail("again".to_string()), None);
    assert!(d.push_chunk(b"data: x\n\n").is_empty());
}
