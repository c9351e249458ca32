//! Host-side codec over a pending-bytes buffer.
use hdcomm::codec::{offset_from, Codec};
use hdcomm::error::CodecError;
use hdcomm::frame::encode_frame;
use hdcomm::message::{Message, Payload};
use hdcomm::rpc;
use hdcomm::MAX_FRAME_LENGTH;

fn ping_rep(id: u16, time_ms: u32) -> Message {
    Message {
        payload: Payload::RPC(rpc::Message {
            id,
            payload: rpc::Payload::PingRep(rpc::PingRepBody { time_ms }),
        }),
    }
}

#[test]
fn offset_from_measures_distance() {
    assert_eq!(offset_from(10, 3), 7);
    assert_eq!(offset_from(4, 4), 0);
}

#[test]
fn codec_encode_then_decode() {
    let codec = Codec::default();
    let m = ping_rep(21, 2121);
    let mut wire = Vec::new();
    assert_eq!(codec.encode(&m, &mut wire), Ok(()));
    assert_eq!(wire, encode_frame(&m));

    let mut decoder = Codec::default();
    assert_eq!(decoder.decode(&mut wire), Ok(Some(m)));
    assert!(wire.is_empty());
}

#[test]
fn codec_encode_appends() {
    let codec = Codec::default();
    let m1 = ping_rep(1, 10);
    let m2 = ping_rep(2, 20);
    let mut wire = Vec::new();
    assert_eq!(codec.encode(&m1, &mut wire), Ok(()));
    assert_eq!(codec.encode(&m2, &mut wire), Ok(()));

    let mut decoder = Codec::default();
    assert_eq!(decoder.decode(&mut wire), Ok(Some(m1)));
    assert_eq!(decoder.decode(&mut wire), Ok(Some(m2)));
    assert!(wire.is_empty());
}

#[test]
fn codec_buffers_partial_frames() {
    let codec = Codec::default();
    let m = ping_rep(3, 30);
    let mut wire = Vec::new();
    assert_eq!(codec.encode(&m, &mut wire), Ok(()));
    let tail = wire.split_off(4);

    let mut decoder = Codec::default();
    // The first piece is absorbed; more bytes are needed.
    assert_eq!(decoder.decode(&mut wire), Ok(None));
    assert!(wire.is_empty());
    wire.extend_from_slice(&tail);
    assert_eq!(decoder.decode(&mut wire), Ok(Some(m)));
}

#[test]
fn codec_surfaces_overflow_as_recoverable() {
    let mut decoder = Codec::default();
    let mut wire = vec![0x77u8; MAX_FRAME_LENGTH + 1];
    assert_eq!(decoder.decode(&mut wire), Err(CodecError::FrameOverflow));
    assert!(wire.is_empty());

    // The stream recovers: the next frame decodes.
    let m = ping_rep(4, 40);
    let codec = Codec::default();
    assert_eq!(codec.encode(&m, &mut wire), Ok(()));
    assert_eq!(decoder.decode(&mut wire), Ok(Some(m)));
}

#[test]
fn codec_surfaces_deserialization_as_recoverable() {
    let mut decoder = Codec::default();
    let mut wire = vec![0x41, 0x42, 0x43, 0x00];
    assert_eq!(decoder.decode(&mut wire), Err(CodecError::Deserialization));
    assert!(wire.is_empty());

    let m = ping_rep(5, 50);
    let codec = Codec::default();
    assert_eq!(codec.encode(&m, &mut wire), Ok(()));
    assert_eq!(decoder.decode(&mut wire), Ok(Some(m)));
}

#[test]
fn codec_leaves_second_frame_for_next_call() {
    let codec = Codec::default();
    let m1 = ping_rep(6, 60);
    let m2 = ping_rep(7, 70);
    let mut wire = Vec::new();
    assert_eq!(codec.encode(&m1, &mut wire), Ok(()));
    let first_len = wire.len();
    assert_eq!(codec.encode(&m2, &mut wire), Ok(()));
    let second = wire[first_len..].to_vec();

    let mut decoder = Codec::default();
    assert_eq!(decoder.decode(&mut wire), Ok(Some(m1)));
    assert_eq!(wire, second);
}
