use lingxi_llm_client::framing::eventstream::{
    crc32, EventStreamSplitter, MAX_FRAME_BYTES, PRELUDE_BYTES,
};
use lingxi_llm_client::protocol::LlmError;

const VALUE_TYPE_STRING: u8 = 7;

/// Builds one frame the way the provider does, so a test can feed real bytes.
fn frame(headers: &[(&str, &str)], payload: &[u8]) -> Vec<u8> {
    let mut h = Vec::new();
    for (name, value) in headers {
        h.push(name.len() as u8);
        h.extend_from_slice(name.as_bytes());
        h.push(VALUE_TYPE_STRING);
        h.extend_from_slice(&(value.len() as u16).to_be_bytes());
        h.extend_from_slice(value.as_bytes());
    }
    let total = (PRELUDE_BYTES + h.len() + payload.len() + 4) as u32;
    let mut out = Vec::new();
    out.extend_from_slice(&total.to_be_bytes());
    out.extend_from_slice(&(h.len() as u32).to_be_bytes());
    out.extend_from_slice(&crc32(&out[0..8]).to_be_bytes());
    out.extend_from_slice(&h);
    out.extend_from_slice(payload);
    let crc = crc32(&out);
    out.extend_from_slice(&crc.to_be_bytes());
    out
}

#[test]
fn the_crc_matches_the_standard() {
    assert_eq!(crc32(b"123456789"), 0xCBF4_3926);
}

#[test]
fn a_frame_round_trips_with_its_headers_and_payload() {
    let mut s = EventStreamSplitter::new();
    let got = s
        .feed(&frame(&[(":message-type", "event")], b"{\"a\":1}"))
        .unwrap();
    assert_eq!(got.len(), 1);
    assert_eq!(got[0].header(":message-type"), Some("event"));
    assert_eq!(got[0].payload, b"{\"a\":1}");
    s.finish().unwrap();
}

#[test]
fn a_frame_split_across_chunks_is_held_until_it_is_whole() {
    let bytes = frame(&[(":message-type", "event")], b"payload");
    let mut s = EventStreamSplitter::new();
    assert!(s.feed(&bytes[..10]).unwrap().is_empty());
    assert!(s.feed(&bytes[10..20]).unwrap().is_empty());
    assert_eq!(s.feed(&bytes[20..]).unwrap().len(), 1);
}

#[test]
fn a_fabricated_length_is_refused_before_anything_is_buffered_for_it() {
    let mut s = EventStreamSplitter::new();
    // A huge length with a prelude CRC that does not match it.
    let mut bytes = vec![0xFF, 0xFF, 0xFF, 0xFF, 0, 0, 0, 0];
    bytes.extend_from_slice(&0u32.to_be_bytes());
    let err = s.feed(&bytes).unwrap_err();
    assert!(
        matches!(err, LlmError::StreamInterrupted { ref message } if message.contains("prelude CRC")),
        "checking the prelude CRC first is what stops a bad length making \
         this buffer gigabytes: {err:?}"
    );
}

#[test]
fn a_corrupted_payload_fails_the_message_crc() {
    let mut bytes = frame(&[(":message-type", "event")], b"payload");
    let last = bytes.len() - 6;
    bytes[last] ^= 0xFF;
    let err = EventStreamSplitter::new().feed(&bytes).unwrap_err();
    assert!(
        matches!(err, LlmError::StreamInterrupted { ref message } if message.contains("message CRC"))
    );
}

#[test]
fn a_stream_that_stops_mid_frame_is_an_interruption_not_a_clean_end() {
    let bytes = frame(&[(":message-type", "event")], b"payload");
    let mut s = EventStreamSplitter::new();
    s.feed(&bytes[..bytes.len() - 3]).unwrap();
    assert!(s.finish().is_err());
}

#[test]
fn a_frame_over_the_limit_is_refused_though_its_prelude_is_whole() {
    let total = (MAX_FRAME_BYTES as u32 + 1).to_be_bytes();
    let mut bytes = total.to_vec();
    bytes.extend_from_slice(&0u32.to_be_bytes());
    let crc = crc32(&bytes);
    bytes.extend_from_slice(&crc.to_be_bytes());
    let err = EventStreamSplitter::new().feed(&bytes).unwrap_err();
    assert!(matches!(err, LlmError::StreamInterrupted { .. }));
}

#[test]
fn frames_come_out_alike_at_every_chunk_boundary() {
    let mut bytes = frame(&[("a", "1")], b"one");
    bytes.extend(frame(&[("b", "2"), ("c", "3")], b""));
    for split in 0..=bytes.len() {
        let mut s = EventStreamSplitter::new();
        let mut got = s.feed(&bytes[..split]).unwrap();
        got.extend(s.feed(&bytes[split..]).unwrap());
        assert_eq!(got.len(), 2, "split {split}");
        assert_eq!(got[0].payload, b"one");
        assert_eq!(got[1].header("c"), Some("3"));
        assert_eq!(got[1].header("a"), None);
    }
}
