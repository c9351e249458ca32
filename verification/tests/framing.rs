//! Frame-level behavior: byte stuffing, resynchronization after oversized
//! runs, and multiple frames per chunk.
use hdcomm::accum::{Accumulator, FeedOutcome};
use hdcomm::frame::{encode_frame, frame, into_vec, FRAME_DELIMITER};
use hdcomm::message::{Message, Payload};
use hdcomm::rpc;
use hdcomm::MAX_FRAME_LENGTH;

fn ping_req(id: u16) -> Message {
    Message {
        payload: Payload::RPC(rpc::Message { id, payload: rpc::Payload::PingReq(()) }),
    }
}

fn ping_rep(id: u16, time_ms: u32) -> Message {
    Message {
        payload: Payload::RPC(rpc::Message {
            id,
            payload: rpc::Payload::PingRep(rpc::PingRepBody { time_ms }),
        }),
    }
}

#[test]
fn frame_escapes_delimiter_and_escape_bytes() {
    // Serialized ping request with id 0x0100: [0, 0, 1, 0]. The zeros and
    // the one must be escaped, and the frame ends with the delimiter.
    let bytes = encode_frame(&ping_req(0x0100));
    assert_eq!(bytes, vec![1, 2, 1, 2, 1, 3, 1, 2, 0]);
}

#[test]
fn frame_writes_into_caller_buffer() {
    let m = ping_req(7);
    let mut buf = vec![0xAA, 0xBB];
    let n = frame(&m, &mut buf);
    assert_eq!(buf, encode_frame(&m));
    assert_eq!(n, buf.len());
    assert!(n <= MAX_FRAME_LENGTH);
}

#[test]
fn into_vec_appends_after_existing_bytes() {
    let m = ping_req(7);
    let mut buf = vec![0x42];
    into_vec(&m, &mut buf);
    let mut expected = vec![0x42];
    expected.extend_from_slice(&encode_frame(&m));
    assert_eq!(buf, expected);
}

#[test]
fn accumulator_decodes_one_frame() {
    let m = ping_rep(5, 99);
    let bytes = encode_frame(&m);
    let mut acc = Accumulator::new();
    match acc.feed(&bytes) {
        FeedOutcome::Success { message, consumed } => {
            assert_eq!(message, m);
            assert_eq!(consumed, bytes.len());
        }
        other => panic!("expected success, got {:?}", other),
    }
}

#[test]
fn accumulator_joins_partial_chunks() {
    let m = ping_rep(1000, 123);
    let bytes = encode_frame(&m);
    let (a, b) = bytes.split_at(3);
    let mut acc = Accumulator::new();
    assert_eq!(acc.feed(a), FeedOutcome::Consumed);
    match acc.feed(b) {
        FeedOutcome::Success { message, consumed } => {
            assert_eq!(message, m);
            assert_eq!(consumed, b.len());
        }
        other => panic!("expected success, got {:?}", other),
    }
}

#[test]
fn accumulator_resynchronizes_after_overflow() {
    // A valid frame, then an oversized run of non-delimiter bytes, then a
    // valid frame: overflow, then clean success, with no leakage.
    let m1 = ping_rep(1, 11);
    let m2 = ping_rep(2, 22);
    let mut acc = Accumulator::new();

    match acc.feed(&encode_frame(&m1)) {
        FeedOutcome::Success { message, .. } => assert_eq!(message, m1),
        other => panic!("expected success, got {:?}", other),
    }

    let garbage = vec![0x55u8; MAX_FRAME_LENGTH + 1];
    match acc.feed(&garbage) {
        FeedOutcome::Overflow { consumed } => assert_eq!(consumed, garbage.len()),
        other => panic!("expected overflow, got {:?}", other),
    }

    match acc.feed(&encode_frame(&m2)) {
        FeedOutcome::Success { message, .. } => assert_eq!(message, m2),
        other => panic!("expected success, got {:?}", other),
    }
}

#[test]
fn accumulator_overflows_on_oversized_run_in_steps() {
    // The oversized run may also arrive in small pieces; the overflow is
    // reported once the buffer cannot grow further.
    let mut acc = Accumulator::new();
    let piece = vec![0x11u8; 100];
    let mut fed = 0usize;
    let mut overflowed = false;
    while fed <= MAX_FRAME_LENGTH + 100 {
        match acc.feed(&piece) {
            FeedOutcome::Consumed => {}
            FeedOutcome::Overflow { consumed } => {
                assert_eq!(consumed, piece.len());
                overflowed = true;
                break;
            }
            other => panic!("unexpected outcome {:?}", other),
        }
        fed += piece.len();
    }
    assert!(overflowed);
    // After the overflow the stream is clean again.
    let m = ping_rep(3, 33);
    match acc.feed(&encode_frame(&m)) {
        FeedOutcome::Success { message, .. } => assert_eq!(message, m),
        other => panic!("expected success, got {:?}", other),
    }
}

#[test]
fn accumulator_yields_two_messages_from_one_chunk() {
    // Two complete back-to-back frames in one chunk: the first outcome
    // carries the first message, the leftover bytes hold the second frame.
    let m1 = ping_rep(1, 101);
    let m2 = ping_rep(2, 202);
    let mut chunk = encode_frame(&m1);
    chunk.extend_from_slice(&encode_frame(&m2));

    let mut acc = Accumulator::new();
    let leftover = match acc.feed(&chunk) {
        FeedOutcome::Success { message, consumed } => {
            assert_eq!(message, m1);
            &chunk[consumed..]
        }
        other => panic!("expected success, got {:?}", other),
    };
    match acc.feed(leftover) {
        FeedOutcome::Success { message, consumed } => {
            assert_eq!(message, m2);
            assert_eq!(consumed, leftover.len());
        }
        other => panic!("expected success, got {:?}", other),
    }
}

#[test]
fn accumulator_reports_deserialization_error() {
    // A delimited frame that does not parse as a message.
    let mut acc = Accumulator::new();
    match acc.feed(&[0x55, 0x66, FRAME_DELIMITER]) {
        FeedOutcome::DeserializationError { consumed } => assert_eq!(consumed, 3),
        other => panic!("expected deserialization error, got {:?}", other),
    }
    // The buffer was cleared: a valid frame decodes afterwards.
    let m = ping_rep(9, 90);
    match acc.feed(&encode_frame(&m)) {
        FeedOutcome::Success { message, .. } => assert_eq!(message, m),
        other => panic!("expected success, got {:?}", other),
    }
}

#[test]
fn accumulator_reset_discards_partial_frame() {
    let m = ping_rep(4, 44);
    let bytes = encode_frame(&m);
    let mut acc = Accumulator::new();
    assert_eq!(acc.feed(&bytes[..3]), FeedOutcome::Consumed);
    acc.reset();
    // Without the discarded prefix the remainder is not a valid frame.
    match acc.feed(&bytes[3..]) {
        FeedOutcome::DeserializationError { .. } => {}
        other => panic!("expected deserialization error, got {:?}", other),
    }
    // A full frame afterwards is fine.
    match acc.feed(&bytes) {
        FeedOutcome::Success { message, .. } => assert_eq!(message, m),
        other => panic!("expected success, got {:?}", other),
    }
}
