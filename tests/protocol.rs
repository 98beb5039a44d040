use tweet_cache::protocol::{decode_count, step, ConnAction, ConnEvent, ConnState};
use tweet_cache::record::{encode_record, frame_record, ingest, Record};
use tweet_cache::cache::BoundedCache;

#[test]
fn decode_count_reads_big_endian() {
    assert_eq!(decode_count(&[0, 0, 0, 10]), Some(10));
    assert_eq!(decode_count(&[0, 0, 1, 244]), Some(500));
    assert_eq!(decode_count(&[0x12, 0x34, 0x56, 0x78]), Some(0x1234_5678));
    assert_eq!(decode_count(&[0xff, 0xff, 0xff, 0xff]), Some(-1));
    assert_eq!(decode_count(&[0x80, 0, 0, 0]), Some(i32::MIN));
    assert_eq!(decode_count(&[0x7f, 0xff, 0xff, 0xff]), Some(i32::MAX));
    assert_eq!(decode_count(&[0, 0, 0, 3, 9]), Some(3));
}

#[test]
fn decode_count_needs_four_bytes() {
    assert_eq!(decode_count(&[]), None);
    assert_eq!(decode_count(&[0, 0, 1]), None);
}

#[test]
fn connection_walks_through_its_states() {
    let (s, a) = step(ConnState::AwaitingCount, ConnEvent::CountBytes(vec![0, 0, 0, 5]));
    assert_eq!(s, ConnState::Dispatching);
    assert!(matches!(a, ConnAction::Submit(5)));
    let (s, a) = step(s, ConnEvent::Submitted);
    assert_eq!(s, ConnState::Streaming);
    assert!(matches!(a, ConnAction::AwaitChunk));
    let (s, a) = step(s, ConnEvent::Chunk("[a,b]".to_string()));
    assert_eq!(s, ConnState::Streaming);
    match a {
        ConnAction::Write(c) => assert_eq!(c, "[a,b]"),
        _ => panic!("expected a write"),
    }
    let (s, a) = step(s, ConnEvent::ReplyClosed);
    assert_eq!(s, ConnState::Closed);
    assert!(matches!(a, ConnAction::Close));
}

#[test]
fn connection_closes_on_short_count_or_failures() {
    let (s, a) = step(ConnState::AwaitingCount, ConnEvent::CountBytes(vec![0, 1]));
    assert_eq!(s, ConnState::Closed);
    assert!(matches!(a, ConnAction::Close));
    let (s, _) = step(ConnState::Dispatching, ConnEvent::DispatcherGone);
    assert_eq!(s, ConnState::Closed);
    let (s, _) = step(ConnState::Streaming, ConnEvent::IoFailed);
    assert_eq!(s, ConnState::Closed);
    let (s, _) = step(ConnState::AwaitingCount, ConnEvent::IoFailed);
    assert_eq!(s, ConnState::Closed);
    let (s, a) = step(ConnState::Closed, ConnEvent::Chunk("x".to_string()));
    assert_eq!(s, ConnState::Closed);
    assert!(matches!(a, ConnAction::Close));
}

#[test]
fn frame_record_lays_out_fields() {
    assert_eq!(frame_record(0, "\"\""), "{\"id\":0,\"text\":\"\"}");
    assert_eq!(frame_record(1234567890123, "\"x\""), "{\"id\":1234567890123,\"text\":\"x\"}");
    assert_eq!(frame_record(10, "\"\""), "{\"id\":10,\"text\":\"\"}");
    assert_eq!(frame_record(9, "\"\""), "{\"id\":9,\"text\":\"\"}");
}

#[test]
fn encode_record_quotes_and_escapes_text() {
    let r = Record { id: 42, text: "say \"hi\"\n".to_string() };
    assert_eq!(encode_record(&r), r#"{"id":42,"text":"say \"hi\"\n"}"#);
    let r = Record { id: u64::MAX, text: String::new() };
    assert_eq!(encode_record(&r), r#"{"id":18446744073709551615,"text":""}"#);
    let r = Record { id: 7, text: "a\\b\t\u{1}\u{1f}\u{8}\u{c}\r/é".to_string() };
    assert_eq!(encode_record(&r), r#"{"id":7,"text":"a\\b\t\u0001\u001f\b\f\r/é"}"#);
}

#[test]
fn ingest_pushes_encoded_record() {
    let mut cache = BoundedCache::new();
    ingest(&mut cache, &Record { id: 1, text: "a".to_string() });
    ingest(&mut cache, &Record { id: 2, text: "b".to_string() });
    assert_eq!(cache.len(), 2);
    assert_eq!(
        tweet_cache::snapshot::respond(&cache, 10),
        r#"[{"id":1,"text":"a"},{"id":2,"text":"b"}]"#
    );
}
