use lingxi_llm_client::framing::sse::{SseFrameSplitter, MAX_EVENT_BYTES};
use lingxi_llm_client::protocol::LlmError;

fn text(frames: Vec<Vec<u8>>) -> Vec<String> {
    frames
        .into_iter()
        .map(|f| String::from_utf8(f).unwrap())
        .collect()
}

#[test]
fn cr_and_mixed_endings_work_at_every_chunk_boundary() {
    let bytes = b"data: one\r\rdata: two\r\n\r\ndata: three\n\r";
    for split in 0..=bytes.len() {
        let mut s = SseFrameSplitter::new();
        let mut frames = s.push(&bytes[..split]).unwrap();
        frames.extend(s.push(&bytes[split..]).unwrap());
        assert_eq!(text(frames), vec!["one", "two", "three"], "split {split}");
        assert!(s.finish().unwrap().is_none());
    }
}

#[test]
fn a_data_field_without_a_colon_is_an_empty_data_line() {
    let mut s = SseFrameSplitter::new();
    assert_eq!(text(s.push(b"data\n\n").unwrap()), vec![""]);
}

#[test]
fn one_event_per_blank_line() {
    let mut s = SseFrameSplitter::new();
    assert_eq!(
        text(s.push(b"data: one\n\ndata: two\n\n").unwrap()),
        vec!["one", "two"]
    );
}

#[test]
fn an_event_split_across_chunks_is_held_until_it_is_whole() {
    let mut s = SseFrameSplitter::new();
    assert!(
        s.push(b"data: par").unwrap().is_empty(),
        "nothing is emitted yet"
    );
    assert_eq!(text(s.push(b"tial\n\n").unwrap()), vec!["partial"]);
}

#[test]
fn several_data_lines_join_with_newlines() {
    let mut s = SseFrameSplitter::new();
    assert_eq!(text(s.push(b"data: a\ndata: b\n\n").unwrap()), vec!["a\nb"]);
}

#[test]
fn other_fields_and_comments_are_not_frames() {
    let mut s = SseFrameSplitter::new();
    assert!(s
        .push(b": keep-alive\nevent: ping\nid: 7\nretry: 100\n\n")
        .unwrap()
        .is_empty());
}

#[test]
fn crlf_and_mixed_endings_both_terminate() {
    let mut s = SseFrameSplitter::new();
    assert_eq!(
        text(s.push(b"data: one\r\n\r\ndata: two\n\n").unwrap()),
        vec!["one", "two"]
    );
}

#[test]
fn a_stream_that_ends_without_a_blank_line_still_yields_its_last_event() {
    let mut s = SseFrameSplitter::new();
    assert!(s.push(b"data: last").unwrap().is_empty());
    assert_eq!(
        String::from_utf8(s.finish().unwrap().unwrap()).unwrap(),
        "last"
    );
}

#[test]
fn an_unfinished_event_over_eight_mib_is_rejected() {
    let mut s = SseFrameSplitter::new();
    let chunk = vec![b'a'; MAX_EVENT_BYTES + 1];
    let err = s.push(&chunk).unwrap_err();
    assert!(
        matches!(err, LlmError::StreamInterrupted { message } if message.contains("SSE event") && message.contains("limit"))
    );
    assert!(s.buffered() <= MAX_EVENT_BYTES);
}

#[test]
fn many_small_events_in_one_large_chunk_do_not_hit_the_limit() {
    let mut s = SseFrameSplitter::new();
    let event = [b"data: ".as_slice(), &vec![b'x'; 1024], b"\n\n"].concat();
    let count = MAX_EVENT_BYTES / event.len() + 1;
    let chunk = event.repeat(count);
    assert!(chunk.len() > MAX_EVENT_BYTES);
    assert_eq!(s.push(&chunk).unwrap().len(), count);
    assert_eq!(s.buffered(), 0);
}

#[test]
fn one_space_behind_the_colon_is_no_data() {
    let mut s = SseFrameSplitter::new();
    assert_eq!(
        text(s.push(b"data:bare\n\ndata:  two\n\n").unwrap()),
        vec!["bare", " two"]
    );
}

#[test]
fn a_batch_keeps_the_frames_before_an_overlong_event() {
    let mut s = SseFrameSplitter::new();
    let mut chunk = b"data: kept\n\n".to_vec();
    chunk.extend(vec![b'a'; MAX_EVENT_BYTES + 1]);
    let (frames, error) = s.push_batch(&chunk);
    assert_eq!(text(frames), vec!["kept"]);
    assert!(matches!(error, Some(LlmError::StreamInterrupted { .. })));
}
