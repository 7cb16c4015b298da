use payloadgen::http::put;
use payloadgen::upload;
use payloadgen::upload_reply;
use payloadgen::BoundedSink;
use payloadgen::ConsumeOutcome;
use payloadgen::DEFAULT_BYTE_CAP;

#[test]
fn upload_500_bytes_within_default_cap() {
    let chunks = vec![vec![1u8; 500]];
    let outcome = BoundedSink::consume(&chunks, None, DEFAULT_BYTE_CAP);
    assert_eq!(outcome, ConsumeOutcome::Complete(500));
    let (status, body) = upload(&chunks, None, DEFAULT_BYTE_CAP);
    assert_eq!(status, 201);
    assert_eq!(body, "500");
}

#[test]
fn upload_empty_body_completes_with_zero() {
    let chunks: Vec<Vec<u8>> = Vec::new();
    let outcome = BoundedSink::consume(&chunks, None, DEFAULT_BYTE_CAP);
    assert_eq!(outcome, ConsumeOutcome::Complete(0));
    let (status, body) = upload(&chunks, None, DEFAULT_BYTE_CAP);
    assert_eq!(status, 201);
    assert_eq!(body, "0");
}

#[test]
fn upload_exactly_at_cap_completes() {
    let chunks = vec![vec![0u8; 600], vec![0u8; 400]];
    let outcome = BoundedSink::consume(&chunks, None, 1000);
    assert_eq!(outcome, ConsumeOutcome::Complete(1000));
    let (status, body) = upload(&chunks, None, 1000);
    assert_eq!(status, 201);
    assert_eq!(body, "1000");
}

#[test]
fn upload_beyond_cap_is_truncated_at_cap() {
    let chunks = vec![vec![0u8; 1500]];
    let outcome = BoundedSink::consume(&chunks, None, 1000);
    assert_eq!(outcome, ConsumeOutcome::Truncated(1000));
    let (status, body) = upload(&chunks, None, 1000);
    assert_eq!(status, 400);
    // the body carries the cap, not the upload's length
    assert_eq!(body, "1000");
}

#[test]
fn upload_one_byte_past_cap_is_truncated() {
    let chunks = vec![vec![0u8; 1000], vec![0u8; 1]];
    let outcome = BoundedSink::consume(&chunks, None, 1000);
    assert_eq!(outcome, ConsumeOutcome::Truncated(1000));
}

#[test]
fn upload_beyond_cap_ignores_later_failure() {
    // the cap is reached first, so the mid-stream failure is never observed
    let chunks = vec![vec![0u8; 700], vec![0u8; 700]];
    let outcome = BoundedSink::consume(&chunks, Some(String::from("connection reset")), 1000);
    assert_eq!(outcome, ConsumeOutcome::Truncated(1000));
}

#[test]
fn mid_upload_reset_is_a_failure() {
    let chunks = vec![vec![0u8; 100]];
    let detail = String::from("connection reset");
    let outcome = BoundedSink::consume(&chunks, Some(detail.clone()), DEFAULT_BYTE_CAP);
    assert_eq!(outcome, ConsumeOutcome::Failed(detail.clone()));
    let (status, body) = upload(&chunks, Some(detail), DEFAULT_BYTE_CAP);
    assert_eq!(status, 500);
    assert_eq!(body, "connection reset");
}

#[test]
fn put_and_post_replies_are_identical() {
    let chunks = vec![vec![3u8; 250], vec![4u8; 250]];
    let post_reply = upload(&chunks, None, DEFAULT_BYTE_CAP);
    let put_reply = put(&chunks, None, DEFAULT_BYTE_CAP);
    assert_eq!(post_reply, put_reply);
    let over = vec![vec![0u8; 2000]];
    let post_reply = upload(&over, None, 1000);
    let put_reply = put(&over, None, 1000);
    assert_eq!(post_reply, put_reply);
}

#[test]
fn reply_for_each_outcome_variant() {
    let (status, body) = upload_reply(ConsumeOutcome::Complete(42));
    assert_eq!((status, body.as_str()), (201, "42"));
    let (status, body) = upload_reply(ConsumeOutcome::Truncated(1073741824));
    assert_eq!((status, body.as_str()), (400, "1073741824"));
    let (status, body) = upload_reply(ConsumeOutcome::Failed(String::from("broken pipe")));
    assert_eq!((status, body.as_str()), (500, "broken pipe"));
}

#[test]
fn default_cap_is_one_gibibyte() {
    assert_eq!(DEFAULT_BYTE_CAP, 1 << 30);
}

#[test]
fn sink_state_machine_stops_at_the_cap() {
    let mut sink = BoundedSink::new(10);
    assert!(sink.accept(4));
    assert!(sink.accept(6));
    // the next chunk crosses the cap: pulling must stop
    assert!(!sink.accept(1));
    assert_eq!(sink.finish(), ConsumeOutcome::Truncated(10));
}

#[test]
fn sink_state_machine_completes_on_clean_end() {
    let mut sink = BoundedSink::new(10);
    assert!(sink.accept(4));
    assert!(sink.accept(6));
    assert_eq!(sink.finish(), ConsumeOutcome::Complete(10));
}
