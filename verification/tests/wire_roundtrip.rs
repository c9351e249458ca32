//! Round trip of the binary layout for every payload variant in the catalog.
use hdcomm::message::{Message, Payload};
use hdcomm::rpc;
use hdcomm::stream;
use hdcomm::wire::{decode_message, encode_message};

fn rpc_message(id: u16, payload: rpc::Payload) -> Message {
    Message {
        payload: Payload::RPC(rpc::Message { id, payload }),
    }
}

fn assert_round_trip(m: Message) {
    let bytes = encode_message(&m);
    assert_eq!(decode_message(&bytes), Some(m));
}

fn sample_scurve_params() -> rpc::SCurveParameters {
    rpc::SCurveParameters {
        time_intervals: rpc::SCurveTimeIntervals {
            t_j1: f64::to_bits(0.05),
            t_j2: f64::to_bits(0.07),
            t_a: f64::to_bits(0.5),
            t_v: f64::to_bits(1.25),
            t_d: f64::to_bits(0.75),
        },
        j_max: f64::to_bits(1600.0),
        j_min: f64::to_bits(-1600.0),
        a_lim_a: f64::to_bits(800.0),
        a_lim_d: f64::to_bits(-800.0),
        v_lim: f64::to_bits(780.5),
        conditions: rpc::SCurveStartConditions {
            q0: f64::to_bits(0.0),
            q1: f64::to_bits(10000.0),
            v0: f64::to_bits(0.0),
            v1: f64::to_bits(0.0),
        },
    }
}

fn sample_pid_params(seed: f32) -> rpc::PidParams {
    rpc::PidParams {
        kp: f32::to_bits(seed),
        ki: f32::to_bits(seed + 0.25),
        kd: f32::to_bits(seed + 0.5),
        p_limit: f32::to_bits(100.0),
        i_limit: f32::to_bits(50.0),
        d_limit: f32::to_bits(25.0),
        output_limit: f32::to_bits(1.0),
    }
}

#[test]
fn round_trip_ping_req() {
    assert_round_trip(rpc_message(1, rpc::Payload::PingReq(())));
}

#[test]
fn round_trip_ping_rep() {
    assert_round_trip(rpc_message(
        2,
        rpc::Payload::PingRep(rpc::PingRepBody { time_ms: 123_456_789 }),
    ));
}

#[test]
fn round_trip_move_req() {
    assert_round_trip(rpc_message(
        3,
        rpc::Payload::MoveReq(rpc::MoveReqBody {
            params: sample_scurve_params(),
            ratio: f32::to_bits(0.98),
            ref_left: true,
            steering: f32::to_bits(-0.5),
            steering_setup_ms: 1000,
            reverse: false,
        }),
    ));
}

#[test]
fn round_trip_move_rep() {
    assert_round_trip(rpc_message(4, rpc::Payload::MoveRep(rpc::MoveRepBody::Busy)));
    assert_round_trip(rpc_message(5, rpc::Payload::MoveRep(rpc::MoveRepBody::Accepted)));
}

#[test]
fn round_trip_move_status_req() {
    assert_round_trip(rpc_message(6, rpc::Payload::MoveStatusReq(())));
}

#[test]
fn round_trip_move_status_rep() {
    assert_round_trip(rpc_message(
        7,
        rpc::Payload::MoveStatusRep(rpc::MoveStatusRepBody::Executing {
            elapsed: f32::to_bits(0.5),
            remaining: f32::to_bits(1.75),
        }),
    ));
    assert_round_trip(rpc_message(
        8,
        rpc::Payload::MoveStatusRep(rpc::MoveStatusRepBody::NoCommand),
    ));
}

#[test]
fn round_trip_move_cancel() {
    assert_round_trip(rpc_message(9, rpc::Payload::MoveCancelReq(())));
    assert_round_trip(rpc_message(10, rpc::Payload::MoveCancelRep(())));
}

#[test]
fn round_trip_pid_param_update_req() {
    assert_round_trip(rpc_message(
        11,
        rpc::Payload::PidParamUpdateReq(rpc::PidParamUpdateReqBody {
            params: [sample_pid_params(1.0), sample_pid_params(2.0)],
            update_interval_ms: 20,
        }),
    ));
}

#[test]
fn round_trip_pid_param_update_rep() {
    assert_round_trip(rpc_message(
        12,
        rpc::Payload::PidParamUpdateRep(rpc::PidParamUpdateRepBody::Updated),
    ));
    assert_round_trip(rpc_message(
        13,
        rpc::Payload::PidParamUpdateRep(rpc::PidParamUpdateRepBody::Busy),
    ));
}

#[test]
fn round_trip_raw_teleop_req() {
    assert_round_trip(rpc_message(
        14,
        rpc::Payload::RawTeleOpReq(rpc::RawTeleOpReqBody {
            steering: Some(f32::to_bits(-1.0)),
            wheel_l: None,
            wheel_r: Some(f32::to_bits(0.25)),
        }),
    ));
}

#[test]
fn round_trip_raw_teleop_rep() {
    assert_round_trip(rpc_message(
        15,
        rpc::Payload::RawTeleOpRep(rpc::RawTeleOpRepBody::Applied),
    ));
    assert_round_trip(rpc_message(
        16,
        rpc::Payload::RawTeleOpRep(rpc::RawTeleOpRepBody::Busy),
    ));
}

#[test]
fn round_trip_identifier_boundaries() {
    assert_round_trip(rpc_message(0, rpc::Payload::PingReq(())));
    assert_round_trip(rpc_message(u16::MAX, rpc::Payload::PingReq(())));
}

#[test]
fn round_trip_stream_ahrs() {
    assert_round_trip(Message {
        payload: Payload::Stream(stream::Message {
            payload: stream::Payload::Ahrs(stream::AhrsBody {
                acc: [-1, 0, 32767],
                gyro: [-32768, 12, -13],
                mag: [500, -501, 502],
                time_ms: 4_294_967_295,
            }),
        }),
    });
}

#[test]
fn ping_rep_exact_bytes() {
    // Message tag 0 (RPC), id 0x1122 little-endian, payload tag 1 (ping
    // reply), time 0x01020304 little-endian.
    let m = rpc_message(0x1122, rpc::Payload::PingRep(rpc::PingRepBody { time_ms: 0x01020304 }));
    assert_eq!(encode_message(&m), vec![0, 0x22, 0x11, 1, 4, 3, 2, 1]);
}

#[test]
fn decode_rejects_unknown_tags() {
    assert_eq!(decode_message(&vec![7]), None);
    assert_eq!(decode_message(&vec![0, 1, 0, 99]), None);
    assert_eq!(decode_message(&vec![1, 9]), None);
}

#[test]
fn decode_rejects_truncated_and_trailing() {
    let m = rpc_message(2, rpc::Payload::PingRep(rpc::PingRepBody { time_ms: 77 }));
    let mut bytes = encode_message(&m);
    let last = bytes.pop().unwrap();
    assert_eq!(decode_message(&bytes), None);
    bytes.push(last);
    bytes.push(0);
    assert_eq!(decode_message(&bytes), None);
}

#[test]
fn decode_rejects_invalid_bool_byte() {
    // A move reply whose variant byte is neither 0 nor 1.
    assert_eq!(decode_message(&vec![0, 1, 0, 3, 2]), None);
}
