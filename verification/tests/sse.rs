use just_llm_client::sse::{parse_event, split_event, ParsedEvent, SseDecoder};
use just_llm_client::transport::TransportError;

#[test]
fn split_event_finds_first_separator() {
    assert_eq!(split_event(b"data: a\n\ndata: b\n\n"), Some((7, 9)));
    assert_eq!(split_event(b"data: a\r\n\r\nrest"), Some((7, 11)));
    assert_eq!(split_event(b"data: a\n"), None);
    assert_eq!(split_event(b""), None);
}

#[test]
fn parse_event_reads_data_lines() {
    assert_eq!(parse_event(b"data: {\"a\":1}"), Ok(ParsedEvent::Payload("{\"a\":1}".to_owned())));
    assert_eq!(parse_event(b"data: [DONE]"), Ok(ParsedEvent::Done));
    assert_eq!(parse_event(b"   \n"), Ok(ParsedEvent::Skip));
    assert_eq!(parse_event(b": keep-alive"), Ok(ParsedEvent::Skip));
    assert_eq!(parse_event(b"event: ping"), Ok(ParsedEvent::Skip));
    assert_eq!(
        parse_event(b"data: one\r\ndata:two\r\nid: 3"),
        Ok(ParsedEvent::Payload("one\ntwo".to_owned()))
    );
    assert!(matches!(parse_event(&[0xff, 0xfe]), Err(TransportError::Utf8(_))));
}

#[test]
fn decoder_handles_split_chunks_and_done() {
    let mut d = SseDecoder::new();
    let (p, e) = d.push(b"data: {\"x\":1}\n");
    assert!(p.is_empty() && e.is_none());
    let (p, e) = d.push(b"\ndata: {\"x\":2}\n\ndata: [DO");
    assert_eq!(p, vec!["{\"x\":1}".to_owned(), "{\"x\":2}".to_owned()]);
    assert!(e.is_none());
    let (p, e) = d.push(b"NE]\n\ndata: {\"x\":3}\n\n");
    assert!(p.is_empty() && e.is_none());
    let (p, _) = d.push(b"data: {\"x\":4}\n\n");
    assert!(p.is_empty());
    assert_eq!(d.finish(), None);
}

#[test]
fn decoder_flushes_a_trailing_event_and_reports_bad_utf8() {
    let mut d = SseDecoder::new();
    let (p, _) = d.push(b"data: {\"y\":1}");
    assert!(p.is_empty());
    assert_eq!(d.finish(), Some(Ok("{\"y\":1}".to_owned())));
    assert_eq!(d.finish(), None);

    let mut bad = SseDecoder::new();
    let (p, e) = bad.push(&[b'd', b'a', 0xff, b'\n', b'\n', b'x']);
    assert!(p.is_empty());
    assert!(matches!(e, Some(TransportError::Utf8(_))));
    let (p, e) = bad.push(b"data: later\n\n");
    assert!(p.is_empty() && e.is_none());
}

#[test]
fn feeding_in_pieces_matches_feeding_at_once() {
    let stream: &[u8] = b"data: {\"a\":1}\r\n\r\n: ping\n\ndata: {\"b\":2}\ndata: {\"c\":3}\n\ndata: [DONE]\n\ndata: {\"z\":0}\n\n";
    let mut whole = SseDecoder::new();
    let (all, err) = whole.push(stream);
    assert!(err.is_none());
    for cut in 0..stream.len() {
        let mut d = SseDecoder::new();
        let (mut first, _) = d.push(&stream[..cut]);
        let (second, _) = d.push(&stream[cut..]);
        first.extend(second);
        assert_eq!(first, all, "cut at {cut}");
    }
    assert_eq!(all, vec!["{\"a\":1}".to_owned(), "{\"b\":2}\n{\"c\":3}".to_owned()]);
}
