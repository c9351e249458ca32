//! Compact, deterministic binary serialization of `Message` values.
//!
//! The wire layout is a tagged union: one tag byte selects the traffic class
//! (RPC or stream), an RPC message carries its 16-bit identifier followed by
//! a tag byte selecting the payload variant, and every body is a fixed
//! layout of little-endian scalar fields. `Option` fields are a presence
//! byte optionally followed by the value; `bool` fields are one byte that
//! must be `0` or `1`.
//!
//! Each serializer has the shape `spec_ser_*: T -> Seq<u8>`; each parser has
//! the shape `spec_parse_*: Seq<u8> -> Option<(T, Seq<u8>)>`, returning the
//! parsed value and the unconsumed remainder. The executable encoder and
//! decoder are proved equal to these functions, and parsing a serialization
//! is proved to give the original value back (see `lemma_parse_ser_message`).
use crate::message::Message;
use crate::message::Payload;
use crate::MAX_MESSAGE_LENGTH;
use crate::rpc;
use crate::stream;
use vstd::prelude::*;

verus! {

// ---------------------------------------------------------------------------
// Primitive scalars
// ---------------------------------------------------------------------------

pub open spec fn spec_ser_u8(v: u8) -> Seq<u8> {
    seq![v]
}

pub open spec fn spec_parse_u8(s: Seq<u8>) -> Option<(u8, Seq<u8>)> {
    if s.len() >= 1 {
        Some((s[0], s.skip(1)))
    } else {
        None
    }
}

/// The 16-bit value whose little-endian bytes are `lo`, `hi`.
pub open spec fn combine16(lo: u8, hi: u8) -> u16 {
    (lo as u16 | ((hi as u16) << 8)) as u16
}

pub open spec fn spec_ser_u16(v: u16) -> Seq<u8> {
    seq![(v & 0xff) as u8, ((v >> 8) & 0xff) as u8]
}

pub open spec fn spec_parse_u16(s: Seq<u8>) -> Option<(u16, Seq<u8>)> {
    if s.len() >= 2 {
        Some((combine16(s[0], s[1]), s.skip(2)))
    } else {
        None
    }
}

/// The 32-bit value whose little-endian bytes are `b0` through `b3`.
pub open spec fn combine32(b0: u8, b1: u8, b2: u8, b3: u8) -> u32 {
    (b0 as u32 | ((b1 as u32) << 8) | ((b2 as u32) << 16) | ((b3 as u32) << 24)) as u32
}

pub open spec fn spec_ser_u32(v: u32) -> Seq<u8> {
    seq![
        (v & 0xff) as u8,
        ((v >> 8) & 0xff) as u8,
        ((v >> 16) & 0xff) as u8,
        ((v >> 24) & 0xff) as u8,
    ]
}

pub open spec fn spec_parse_u32(s: Seq<u8>) -> Option<(u32, Seq<u8>)> {
    if s.len() >= 4 {
        Some((combine32(s[0], s[1], s[2], s[3]), s.skip(4)))
    } else {
        None
    }
}

/// The 64-bit value whose little-endian halves are `lo`, `hi`.
pub open spec fn combine64(lo: u32, hi: u32) -> u64 {
    (lo as u64 | ((hi as u64) << 32)) as u64
}

pub open spec fn spec_ser_u64(v: u64) -> Seq<u8> {
    spec_ser_u32((v & 0xffff_ffff) as u32) + spec_ser_u32(((v >> 32) & 0xffff_ffff) as u32)
}

pub open spec fn spec_parse_u64(s: Seq<u8>) -> Option<(u64, Seq<u8>)> {
    match spec_parse_u32(s) {
        None => None,
        Some((lo, s1)) => match spec_parse_u32(s1) {
            None => None,
            Some((hi, s2)) => Some((combine64(lo, hi), s2)),
        },
    }
}

/// Signed 16-bit values travel as their two's-complement 16-bit pattern.
pub open spec fn u16_of_i16(v: i16) -> u16 {
    if v >= 0 {
        v as u16
    } else {
        (v + 0x10000) as u16
    }
}

pub open spec fn i16_of_u16(v: u16) -> i16 {
    if v < 0x8000 {
        v as i16
    } else {
        (v - 0x10000) as i16
    }
}

pub open spec fn spec_ser_i16(v: i16) -> Seq<u8> {
    spec_ser_u16(u16_of_i16(v))
}

pub open spec fn spec_parse_i16(s: Seq<u8>) -> Option<(i16, Seq<u8>)> {
    match spec_parse_u16(s) {
        None => None,
        Some((v, s1)) => Some((i16_of_u16(v), s1)),
    }
}

pub open spec fn spec_ser_bool(v: bool) -> Seq<u8> {
    seq![if v { 1u8 } else { 0u8 }]
}

pub open spec fn spec_parse_bool(s: Seq<u8>) -> Option<(bool, Seq<u8>)> {
    match spec_parse_u8(s) {
        None => None,
        Some((b, s1)) => {
            if b == 0 {
                Some((false, s1))
            } else if b == 1 {
                Some((true, s1))
            } else {
                None
            }
        },
    }
}

/// An optional 32-bit value: a presence byte, then the value if present.
pub open spec fn spec_ser_opt_u32(v: Option<u32>) -> Seq<u8> {
    match v {
        None => seq![0u8],
        Some(x) => seq![1u8] + spec_ser_u32(x),
    }
}

pub open spec fn spec_parse_opt_u32(s: Seq<u8>) -> Option<(Option<u32>, Seq<u8>)> {
    match spec_parse_u8(s) {
        None => None,
        Some((b, s1)) => {
            if b == 0 {
                Some((None, s1))
            } else if b == 1 {
                match spec_parse_u32(s1) {
                    None => None,
                    Some((x, s2)) => Some((Some(x), s2)),
                }
            } else {
                None
            }
        },
    }
}

// ---------------------------------------------------------------------------
// Round trips for the primitive scalars
// ---------------------------------------------------------------------------

pub proof fn lemma_parse_ser_u8(v: u8, rest: Seq<u8>)
    ensures
        spec_parse_u8(spec_ser_u8(v) + rest) == Some((v, rest)),
{
    let s = spec_ser_u8(v) + rest;
    assert(s[0] == v);
    assert(s.skip(1) =~= rest);
}

pub proof fn lemma_parse_ser_u16(v: u16, rest: Seq<u8>)
    ensures
        spec_parse_u16(spec_ser_u16(v) + rest) == Some((v, rest)),
{
    let s = spec_ser_u16(v) + rest;
    assert(s[0] == (v & 0xff) as u8);
    assert(s[1] == ((v >> 8) & 0xff) as u8);
    assert(combine16((v & 0xff) as u8, ((v >> 8) & 0xff) as u8) == v) by (bit_vector);
    assert(s.skip(2) =~= rest);
}

pub proof fn lemma_parse_ser_u32(v: u32, rest: Seq<u8>)
    ensures
        spec_parse_u32(spec_ser_u32(v) + rest) == Some((v, rest)),
{
    let s = spec_ser_u32(v) + rest;
    assert(s[0] == (v & 0xff) as u8);
    assert(s[1] == ((v >> 8) & 0xff) as u8);
    assert(s[2] == ((v >> 16) & 0xff) as u8);
    assert(s[3] == ((v >> 24) & 0xff) as u8);
    assert(combine32(
        (v & 0xff) as u8,
        ((v >> 8) & 0xff) as u8,
        ((v >> 16) & 0xff) as u8,
        ((v >> 24) & 0xff) as u8,
    ) == v) by (bit_vector);
    assert(s.skip(4) =~= rest);
}

pub proof fn lemma_parse_ser_u64(v: u64, rest: Seq<u8>)
    ensures
        spec_parse_u64(spec_ser_u64(v) + rest) == Some((v, rest)),
{
    let lo = (v & 0xffff_ffff) as u32;
    let hi = ((v >> 32) & 0xffff_ffff) as u32;
    let s = spec_ser_u64(v) + rest;
    assert(s =~= spec_ser_u32(lo) + (spec_ser_u32(hi) + rest));
    lemma_parse_ser_u32(lo, spec_ser_u32(hi) + rest);
    lemma_parse_ser_u32(hi, rest);
    assert(combine64((v & 0xffff_ffff) as u32, ((v >> 32) & 0xffff_ffff) as u32) == v)
        by (bit_vector);
}

pub proof fn lemma_parse_ser_i16(v: i16, rest: Seq<u8>)
    ensures
        spec_parse_i16(spec_ser_i16(v) + rest) == Some((v, rest)),
{
    lemma_parse_ser_u16(u16_of_i16(v), rest);
    assert(i16_of_u16(u16_of_i16(v)) == v);
}

pub proof fn lemma_parse_ser_bool(v: bool, rest: Seq<u8>)
    ensures
        spec_parse_bool(spec_ser_bool(v) + rest) == Some((v, rest)),
{
    lemma_parse_ser_u8(if v { 1u8 } else { 0u8 }, rest);
}

pub proof fn lemma_parse_ser_opt_u32(v: Option<u32>, rest: Seq<u8>)
    ensures
        spec_parse_opt_u32(spec_ser_opt_u32(v) + rest) == Some((v, rest)),
{
    match v {
        None => {
            lemma_parse_ser_u8(0, rest);
        },
        Some(x) => {
            let s = spec_ser_opt_u32(v) + rest;
            assert(s =~= spec_ser_u8(1) + (spec_ser_u32(x) + rest));
            lemma_parse_ser_u8(1, spec_ser_u32(x) + rest);
            lemma_parse_ser_u32(x, rest);
        },
    }
}

// ---------------------------------------------------------------------------
// RPC bodies
// ---------------------------------------------------------------------------

pub open spec fn spec_ser_ping_rep(v: rpc::PingRepBody) -> Seq<u8> {
    spec_ser_u32(v.time_ms)
}

pub open spec fn spec_parse_ping_rep(s: Seq<u8>) -> Option<(rpc::PingRepBody, Seq<u8>)> {
    match spec_parse_u32(s) {
        None => None,
        Some((time_ms, s1)) => Some((rpc::PingRepBody { time_ms }, s1)),
    }
}

pub open spec fn spec_ser_time_intervals(v: rpc::SCurveTimeIntervals) -> Seq<u8> {
    spec_ser_u64(v.t_j1) + spec_ser_u64(v.t_j2) + spec_ser_u64(v.t_a) + spec_ser_u64(v.t_v)
        + spec_ser_u64(v.t_d)
}

pub open spec fn spec_parse_time_intervals(s: Seq<u8>) -> Option<
    (rpc::SCurveTimeIntervals, Seq<u8>),
> {
    match spec_parse_u64(s) {
        None => None,
        Some((t_j1, s)) => match spec_parse_u64(s) {
            None => None,
            Some((t_j2, s)) => match spec_parse_u64(s) {
                None => None,
                Some((t_a, s)) => match spec_parse_u64(s) {
                    None => None,
                    Some((t_v, s)) => match spec_parse_u64(s) {
                        None => None,
                        Some((t_d, s)) => Some(
                            (rpc::SCurveTimeIntervals { t_j1, t_j2, t_a, t_v, t_d }, s),
                        ),
                    },
                },
            },
        },
    }
}

pub open spec fn spec_ser_start_conditions(v: rpc::SCurveStartConditions) -> Seq<u8> {
    spec_ser_u64(v.q0) + spec_ser_u64(v.q1) + spec_ser_u64(v.v0) + spec_ser_u64(v.v1)
}

pub open spec fn spec_parse_start_conditions(s: Seq<u8>) -> Option<
    (rpc::SCurveStartConditions, Seq<u8>),
> {
    match spec_parse_u64(s) {
        None => None,
        Some((q0, s)) => match spec_parse_u64(s) {
            None => None,
            Some((q1, s)) => match spec_parse_u64(s) {
                None => None,
                Some((v0, s)) => match spec_parse_u64(s) {
                    None => None,
                    Some((v1, s)) => Some((rpc::SCurveStartConditions { q0, q1, v0, v1 }, s)),
                },
            },
        },
    }
}

pub open spec fn spec_ser_scurve_params(v: rpc::SCurveParameters) -> Seq<u8> {
    spec_ser_time_intervals(v.time_intervals) + spec_ser_u64(v.j_max) + spec_ser_u64(v.j_min)
        + spec_ser_u64(v.a_lim_a) + spec_ser_u64(v.a_lim_d) + spec_ser_u64(v.v_lim)
        + spec_ser_start_conditions(v.conditions)
}

pub open spec fn spec_parse_scurve_params(s: Seq<u8>) -> Option<
    (rpc::SCurveParameters, Seq<u8>),
> {
    match spec_parse_time_intervals(s) {
        None => None,
        Some((time_intervals, s)) => match spec_parse_u64(s) {
            None => None,
            Some((j_max, s)) => match spec_parse_u64(s) {
                None => None,
                Some((j_min, s)) => match spec_parse_u64(s) {
                    None => None,
                    Some((a_lim_a, s)) => match spec_parse_u64(s) {
                        None => None,
                        Some((a_lim_d, s)) => match spec_parse_u64(s) {
                            None => None,
                            Some((v_lim, s)) => match spec_parse_start_conditions(s) {
                                None => None,
                                Some((conditions, s)) => Some(
                                    (
                                        rpc::SCurveParameters {
                                            time_intervals,
                                            j_max,
                                            j_min,
                                            a_lim_a,
                                            a_lim_d,
                                            v_lim,
                                            conditions,
                                        },
                                        s,
                                    ),
                                ),
                            },
                        },
                    },
                },
            },
        },
    }
}

pub open spec fn spec_ser_move_req(v: rpc::MoveReqBody) -> Seq<u8> {
    spec_ser_scurve_params(v.params) + spec_ser_u32(v.ratio) + spec_ser_bool(v.ref_left)
        + spec_ser_u32(v.steering) + spec_ser_u16(v.steering_setup_ms) + spec_ser_bool(v.reverse)
}

pub open spec fn spec_parse_move_req(s: Seq<u8>) -> Option<(rpc::MoveReqBody, Seq<u8>)> {
    match spec_parse_scurve_params(s) {
        None => None,
        Some((params, s)) => match spec_parse_u32(s) {
            None => None,
            Some((ratio, s)) => match spec_parse_bool(s) {
                None => None,
                Some((ref_left, s)) => match spec_parse_u32(s) {
                    None => None,
                    Some((steering, s)) => match spec_parse_u16(s) {
                        None => None,
                        Some((steering_setup_ms, s)) => match spec_parse_bool(s) {
                            None => None,
                            Some((reverse, s)) => Some(
                                (
                                    rpc::MoveReqBody {
                                        params,
                                        ratio,
                                        ref_left,
                                        steering,
                                        steering_setup_ms,
                                        reverse,
                                    },
                                    s,
                                ),
                            ),
                        },
                    },
                },
            },
        },
    }
}

pub open spec fn spec_ser_move_rep(v: rpc::MoveRepBody) -> Seq<u8> {
    match v {
        rpc::MoveRepBody::Busy => seq![0u8],
        rpc::MoveRepBody::Accepted => seq![1u8],
    }
}

pub open spec fn spec_parse_move_rep(s: Seq<u8>) -> Option<(rpc::MoveRepBody, Seq<u8>)> {
    match spec_parse_u8(s) {
        None => None,
        Some((b, s1)) => {
            if b == 0 {
                Some((rpc::MoveRepBody::Busy, s1))
            } else if b == 1 {
                Some((rpc::MoveRepBody::Accepted, s1))
            } else {
                None
            }
        },
    }
}

pub open spec fn spec_ser_move_status_rep(v: rpc::MoveStatusRepBody) -> Seq<u8> {
    match v {
        rpc::MoveStatusRepBody::Executing { elapsed, remaining } => seq![0u8]
            + spec_ser_u32(elapsed) + spec_ser_u32(remaining),
        rpc::MoveStatusRepBody::NoCommand => seq![1u8],
    }
}

pub open spec fn spec_parse_move_status_rep(s: Seq<u8>) -> Option<
    (rpc::MoveStatusRepBody, Seq<u8>),
> {
    match spec_parse_u8(s) {
        None => None,
        Some((b, s1)) => {
            if b == 0 {
                match spec_parse_u32(s1) {
                    None => None,
                    Some((elapsed, s2)) => match spec_parse_u32(s2) {
                        None => None,
                        Some((remaining, s3)) => Some(
                            (rpc::MoveStatusRepBody::Executing { elapsed, remaining }, s3),
                        ),
                    },
                }
            } else if b == 1 {
                Some((rpc::MoveStatusRepBody::NoCommand, s1))
            } else {
                None
            }
        },
    }
}

pub open spec fn spec_ser_pid_params(v: rpc::PidParams) -> Seq<u8> {
    spec_ser_u32(v.kp) + spec_ser_u32(v.ki) + spec_ser_u32(v.kd) + spec_ser_u32(v.p_limit)
        + spec_ser_u32(v.i_limit) + spec_ser_u32(v.d_limit) + spec_ser_u32(v.output_limit)
}

pub open spec fn spec_parse_pid_params(s: Seq<u8>) -> Option<(rpc::PidParams, Seq<u8>)> {
    match spec_parse_u32(s) {
        None => None,
        Some((kp, s)) => match spec_parse_u32(s) {
            None => None,
            Some((ki, s)) => match spec_parse_u32(s) {
                None => None,
                Some((kd, s)) => match spec_parse_u32(s) {
                    None => None,
                    Some((p_limit, s)) => match spec_parse_u32(s) {
                        None => None,
                        Some((i_limit, s)) => match spec_parse_u32(s) {
                            None => None,
                            Some((d_limit, s)) => match spec_parse_u32(s) {
                                None => None,
                                Some((output_limit, s)) => Some(
                                    (
                                        rpc::PidParams {
                                            kp,
                                            ki,
                                            kd,
                                            p_limit,
                                            i_limit,
                                            d_limit,
                                            output_limit,
                                        },
                                        s,
                                    ),
                                ),
                            },
                        },
                    },
                },
            },
        },
    }
}

pub open spec fn spec_ser_pid_update_req(v: rpc::PidParamUpdateReqBody) -> Seq<u8> {
    spec_ser_pid_params(v.params[0]) + spec_ser_pid_params(v.params[1])
        + spec_ser_u16(v.update_interval_ms)
}

pub open spec fn spec_parse_pid_update_req(s: Seq<u8>) -> Option<
    (rpc::PidParamUpdateReqBody, Seq<u8>),
> {
    match spec_parse_pid_params(s) {
        None => None,
        Some((left, s)) => match spec_parse_pid_params(s) {
            None => None,
            Some((right, s)) => match spec_parse_u16(s) {
                None => None,
                Some((update_interval_ms, s)) => Some(
                    (
                        rpc::PidParamUpdateReqBody {
                            params: [left, right],
                            update_interval_ms,
                        },
                        s,
                    ),
                ),
            },
        },
    }
}

pub open spec fn spec_ser_pid_update_rep(v: rpc::PidParamUpdateRepBody) -> Seq<u8> {
    match v {
        rpc::PidParamUpdateRepBody::Updated => seq![0u8],
        rpc::PidParamUpdateRepBody::Busy => seq![1u8],
    }
}

pub open spec fn spec_parse_pid_update_rep(s: Seq<u8>) -> Option<
    (rpc::PidParamUpdateRepBody, Seq<u8>),
> {
    match spec_parse_u8(s) {
        None => None,
        Some((b, s1)) => {
            if b == 0 {
                Some((rpc::PidParamUpdateRepBody::Updated, s1))
            } else if b == 1 {
                Some((rpc::PidParamUpdateRepBody::Busy, s1))
            } else {
                None
            }
        },
    }
}

pub open spec fn spec_ser_raw_teleop_req(v: rpc::RawTeleOpReqBody) -> Seq<u8> {
    spec_ser_opt_u32(v.steering) + spec_ser_opt_u32(v.wheel_l) + spec_ser_opt_u32(v.wheel_r)
}

pub open spec fn spec_parse_raw_teleop_req(s: Seq<u8>) -> Option<
    (rpc::RawTeleOpReqBody, Seq<u8>),
> {
    match spec_parse_opt_u32(s) {
        None => None,
        Some((steering, s)) => match spec_parse_opt_u32(s) {
            None => None,
            Some((wheel_l, s)) => match spec_parse_opt_u32(s) {
                None => None,
                Some((wheel_r, s)) => Some(
                    (rpc::RawTeleOpReqBody { steering, wheel_l, wheel_r }, s),
                ),
            },
        },
    }
}

pub open spec fn spec_ser_raw_teleop_rep(v: rpc::RawTeleOpRepBody) -> Seq<u8> {
    match v {
        rpc::RawTeleOpRepBody::Applied => seq![0u8],
        rpc::RawTeleOpRepBody::Busy => seq![1u8],
    }
}

pub open spec fn spec_parse_raw_teleop_rep(s: Seq<u8>) -> Option<
    (rpc::RawTeleOpRepBody, Seq<u8>),
> {
    match spec_parse_u8(s) {
        None => None,
        Some((b, s1)) => {
            if b == 0 {
                Some((rpc::RawTeleOpRepBody::Applied, s1))
            } else if b == 1 {
                Some((rpc::RawTeleOpRepBody::Busy, s1))
            } else {
                None
            }
        },
    }
}

// ---------------------------------------------------------------------------
// RPC and stream payloads, top-level messages
// ---------------------------------------------------------------------------

pub open spec fn spec_ser_rpc_payload(p: rpc::Payload) -> Seq<u8> {
    match p {
        rpc::Payload::PingReq(_) => seq![0u8],
        rpc::Payload::PingRep(b) => seq![1u8] + spec_ser_ping_rep(b),
        rpc::Payload::MoveReq(b) => seq![2u8] + spec_ser_move_req(b),
        rpc::Payload::MoveRep(b) => seq![3u8] + spec_ser_move_rep(b),
        rpc::Payload::MoveStatusReq(_) => seq![4u8],
        rpc::Payload::MoveStatusRep(b) => seq![5u8] + spec_ser_move_status_rep(b),
        rpc::Payload::MoveCancelReq(_) => seq![6u8],
        rpc::Payload::MoveCancelRep(_) => seq![7u8],
        rpc::Payload::PidParamUpdateReq(b) => seq![8u8] + spec_ser_pid_update_req(b),
        rpc::Payload::PidParamUpdateRep(b) => seq![9u8] + spec_ser_pid_update_rep(b),
        rpc::Payload::RawTeleOpReq(b) => seq![10u8] + spec_ser_raw_teleop_req(b),
        rpc::Payload::RawTeleOpRep(b) => seq![11u8] + spec_ser_raw_teleop_rep(b),
    }
}

pub open spec fn spec_parse_rpc_payload(s: Seq<u8>) -> Option<(rpc::Payload, Seq<u8>)> {
    match spec_parse_u8(s) {
        None => None,
        Some((tag, s1)) => {
            if tag == 0 {
                Some((rpc::Payload::PingReq(()), s1))
            } else if tag == 1 {
                match spec_parse_ping_rep(s1) {
                    None => None,
                    Some((b, s2)) => Some((rpc::Payload::PingRep(b), s2)),
                }
            } else if tag == 2 {
                match spec_parse_move_req(s1) {
                    None => None,
                    Some((b, s2)) => Some((rpc::Payload::MoveReq(b), s2)),
                }
            } else if tag == 3 {
                match spec_parse_move_rep(s1) {
                    None => None,
                    Some((b, s2)) => Some((rpc::Payload::MoveRep(b), s2)),
                }
            } else if tag == 4 {
                Some((rpc::Payload::MoveStatusReq(()), s1))
            } else if tag == 5 {
                match spec_parse_move_status_rep(s1) {
                    None => None,
                    Some((b, s2)) => Some((rpc::Payload::MoveStatusRep(b), s2)),
                }
            } else if tag == 6 {
                Some((rpc::Payload::MoveCancelReq(()), s1))
            } else if tag == 7 {
                Some((rpc::Payload::MoveCancelRep(()), s1))
            } else if tag == 8 {
                match spec_parse_pid_update_req(s1) {
                    None => None,
                    Some((b, s2)) => Some((rpc::Payload::PidParamUpdateReq(b), s2)),
                }
            } else if tag == 9 {
                match spec_parse_pid_update_rep(s1) {
                    None => None,
                    Some((b, s2)) => Some((rpc::Payload::PidParamUpdateRep(b), s2)),
                }
            } else if tag == 10 {
                match spec_parse_raw_teleop_req(s1) {
                    None => None,
                    Some((b, s2)) => Some((rpc::Payload::RawTeleOpReq(b), s2)),
                }
            } else if tag == 11 {
                match spec_parse_raw_teleop_rep(s1) {
                    None => None,
                    Some((b, s2)) => Some((rpc::Payload::RawTeleOpRep(b), s2)),
                }
            } else {
                None
            }
        },
    }
}

pub open spec fn spec_ser_rpc_message(m: rpc::Message) -> Seq<u8> {
    spec_ser_u16(m.id) + spec_ser_rpc_payload(m.payload)
}

pub open spec fn spec_parse_rpc_message(s: Seq<u8>) -> Option<(rpc::Message, Seq<u8>)> {
    match spec_parse_u16(s) {
        None => None,
        Some((id, s1)) => match spec_parse_rpc_payload(s1) {
            None => None,
            Some((payload, s2)) => Some((rpc::Message { id, payload }, s2)),
        },
    }
}

pub open spec fn spec_ser_ahrs(v: stream::AhrsBody) -> Seq<u8> {
    spec_ser_i16(v.acc[0]) + spec_ser_i16(v.acc[1]) + spec_ser_i16(v.acc[2])
        + spec_ser_i16(v.gyro[0]) + spec_ser_i16(v.gyro[1]) + spec_ser_i16(v.gyro[2])
        + spec_ser_i16(v.mag[0]) + spec_ser_i16(v.mag[1]) + spec_ser_i16(v.mag[2])
        + spec_ser_u32(v.time_ms)
}

pub open spec fn spec_parse_ahrs(s: Seq<u8>) -> Option<(stream::AhrsBody, Seq<u8>)> {
    match spec_parse_i16(s) {
        None => None,
        Some((ax, s)) => match spec_parse_i16(s) {
            None => None,
            Some((ay, s)) => match spec_parse_i16(s) {
                None => None,
                Some((az, s)) => match spec_parse_i16(s) {
                    None => None,
                    Some((gx, s)) => match spec_parse_i16(s) {
                        None => None,
                        Some((gy, s)) => match spec_parse_i16(s) {
                            None => None,
                            Some((gz, s)) => match spec_parse_i16(s) {
                                None => None,
                                Some((mx, s)) => match spec_parse_i16(s) {
                                    None => None,
                                    Some((my, s)) => match spec_parse_i16(s) {
                                        None => None,
                                        Some((mz, s)) => match spec_parse_u32(s) {
                                            None => None,
                                            Some((time_ms, s)) => Some(
                                                (
                                                    stream::AhrsBody {
                                                        acc: [ax, ay, az],
                                                        gyro: [gx, gy, gz],
                                                        mag: [mx, my, mz],
                                                        time_ms,
                                                    },
                                                    s,
                                                ),
                                            ),
                                        },
                                    },
                                },
                            },
                        },
                    },
                },
            },
        },
    }
}

pub open spec fn spec_ser_stream_payload(p: stream::Payload) -> Seq<u8> {
    match p {
        stream::Payload::Ahrs(b) => seq![0u8] + spec_ser_ahrs(b),
    }
}

pub open spec fn spec_parse_stream_payload(s: Seq<u8>) -> Option<(stream::Payload, Seq<u8>)> {
    match spec_parse_u8(s) {
        None => None,
        Some((tag, s1)) => {
            if tag == 0 {
                match spec_parse_ahrs(s1) {
                    None => None,
                    Some((b, s2)) => Some((stream::Payload::Ahrs(b), s2)),
                }
            } else {
                None
            }
        },
    }
}

pub open spec fn spec_ser_stream_message(m: stream::Message) -> Seq<u8> {
    spec_ser_stream_payload(m.payload)
}

pub open spec fn spec_parse_stream_message(s: Seq<u8>) -> Option<(stream::Message, Seq<u8>)> {
    match spec_parse_stream_payload(s) {
        None => None,
        Some((payload, s1)) => Some((stream::Message { payload }, s1)),
    }
}

pub open spec fn spec_ser_message(m: Message) -> Seq<u8> {
    match m.payload {
        Payload::RPC(r) => seq![0u8] + spec_ser_rpc_message(r),
        Payload::Stream(t) => seq![1u8] + spec_ser_stream_message(t),
    }
}

pub open spec fn spec_parse_message(s: Seq<u8>) -> Option<(Message, Seq<u8>)> {
    match spec_parse_u8(s) {
        None => None,
        Some((tag, s1)) => {
            if tag == 0 {
                match spec_parse_rpc_message(s1) {
                    None => None,
                    Some((r, s2)) => Some((Message { payload: Payload::RPC(r) }, s2)),
                }
            } else if tag == 1 {
                match spec_parse_stream_message(s1) {
                    None => None,
                    Some((t, s2)) => Some((Message { payload: Payload::Stream(t) }, s2)),
                }
            } else {
                None
            }
        },
    }
}

/// One frame's decoded content is exactly one serialized message: trailing
/// bytes after the message are a deserialization error.
pub open spec fn spec_decode(s: Seq<u8>) -> Option<Message> {
    match spec_parse_message(s) {
        None => None,
        Some((m, rest)) => if rest.len() == 0 {
            Some(m)
        } else {
            None
        },
    }
}

// ---------------------------------------------------------------------------
// Round trips for the bodies and messages
// ---------------------------------------------------------------------------

/// Concatenation of byte sequences is associative. Stated once so that the
/// round-trip proofs can re-group a serialized prefix without expanding it.
pub proof fn lemma_add_assoc(a: Seq<u8>, b: Seq<u8>, c: Seq<u8>)
    ensures
        a + b + c == a + (b + c),
{
    assert(a + b + c =~= a + (b + c));
}

pub proof fn lemma_parse_ser_ping_rep(v: rpc::PingRepBody, rest: Seq<u8>)
    ensures
        spec_parse_ping_rep(spec_ser_ping_rep(v) + rest) == Some((v, rest)),
{
    lemma_parse_ser_u32(v.time_ms, rest);
}

pub proof fn lemma_parse_ser_time_intervals(v: rpc::SCurveTimeIntervals, rest: Seq<u8>)
    ensures
        spec_parse_time_intervals(spec_ser_time_intervals(v) + rest) == Some((v, rest)),
{
    let s4 = spec_ser_u64(v.t_d) + rest;
    let s3 = spec_ser_u64(v.t_v) + s4;
    let s2 = spec_ser_u64(v.t_a) + s3;
    let s1 = spec_ser_u64(v.t_j2) + s2;
    assert(spec_ser_time_intervals(v) + rest =~= spec_ser_u64(v.t_j1) + s1);
    lemma_parse_ser_u64(v.t_j1, s1);
    lemma_parse_ser_u64(v.t_j2, s2);
    lemma_parse_ser_u64(v.t_a, s3);
    lemma_parse_ser_u64(v.t_v, s4);
    lemma_parse_ser_u64(v.t_d, rest);
}

pub proof fn lemma_parse_ser_start_conditions(v: rpc::SCurveStartConditions, rest: Seq<u8>)
    ensures
        spec_parse_start_conditions(spec_ser_start_conditions(v) + rest) == Some((v, rest)),
{
    let s3 = spec_ser_u64(v.v1) + rest;
    let s2 = spec_ser_u64(v.v0) + s3;
    let s1 = spec_ser_u64(v.q1) + s2;
    assert(spec_ser_start_conditions(v) + rest =~= spec_ser_u64(v.q0) + s1);
    lemma_parse_ser_u64(v.q0, s1);
    lemma_parse_ser_u64(v.q1, s2);
    lemma_parse_ser_u64(v.v0, s3);
    lemma_parse_ser_u64(v.v1, rest);
}

pub proof fn lemma_parse_ser_scurve_params(v: rpc::SCurveParameters, rest: Seq<u8>)
    ensures
        spec_parse_scurve_params(spec_ser_scurve_params(v) + rest) == Some((v, rest)),
{
    let s6 = spec_ser_start_conditions(v.conditions) + rest;
    let s5 = spec_ser_u64(v.v_lim) + s6;
    let s4 = spec_ser_u64(v.a_lim_d) + s5;
    let s3 = spec_ser_u64(v.a_lim_a) + s4;
    let s2 = spec_ser_u64(v.j_min) + s3;
    let s1 = spec_ser_u64(v.j_max) + s2;
    assert(spec_ser_scurve_params(v) + rest =~= spec_ser_time_intervals(v.time_intervals) + s1);
    lemma_parse_ser_time_intervals(v.time_intervals, s1);
    lemma_parse_ser_u64(v.j_max, s2);
    lemma_parse_ser_u64(v.j_min, s3);
    lemma_parse_ser_u64(v.a_lim_a, s4);
    lemma_parse_ser_u64(v.a_lim_d, s5);
    lemma_parse_ser_u64(v.v_lim, s6);
    lemma_parse_ser_start_conditions(v.conditions, rest);
}

pub proof fn lemma_parse_ser_move_req(v: rpc::MoveReqBody, rest: Seq<u8>)
    ensures
        spec_parse_move_req(spec_ser_move_req(v) + rest) == Some((v, rest)),
{
    let p = spec_ser_scurve_params(v.params);
    let r = spec_ser_u32(v.ratio);
    let rl = spec_ser_bool(v.ref_left);
    let st = spec_ser_u32(v.steering);
    let su = spec_ser_u16(v.steering_setup_ms);
    let rv = spec_ser_bool(v.reverse);
    let s5 = rv + rest;
    let s4 = su + s5;
    let s3 = st + s4;
    let s2 = rl + s3;
    let s1 = r + s2;
    lemma_add_assoc(p + r + rl + st + su, rv, rest);
    lemma_add_assoc(p + r + rl + st, su, s5);
    lemma_add_assoc(p + r + rl, st, s4);
    lemma_add_assoc(p + r, rl, s3);
    lemma_add_assoc(p, r, s2);
    assert(spec_ser_move_req(v) + rest == p + s1);
    lemma_parse_ser_scurve_params(v.params, s1);
    lemma_parse_ser_u32(v.ratio, s2);
    lemma_parse_ser_bool(v.ref_left, s3);
    lemma_parse_ser_u32(v.steering, s4);
    lemma_parse_ser_u16(v.steering_setup_ms, s5);
    lemma_parse_ser_bool(v.reverse, rest);
}

pub proof fn lemma_parse_ser_move_rep(v: rpc::MoveRepBody, rest: Seq<u8>)
    ensures
        spec_parse_move_rep(spec_ser_move_rep(v) + rest) == Some((v, rest)),
{
    match v {
        rpc::MoveRepBody::Busy => lemma_parse_ser_u8(0, rest),
        rpc::MoveRepBody::Accepted => lemma_parse_ser_u8(1, rest),
    }
}

pub proof fn lemma_parse_ser_move_status_rep(v: rpc::MoveStatusRepBody, rest: Seq<u8>)
    ensures
        spec_parse_move_status_rep(spec_ser_move_status_rep(v) + rest) == Some((v, rest)),
{
    match v {
        rpc::MoveStatusRepBody::Executing { elapsed, remaining } => {
            let s2 = spec_ser_u32(remaining) + rest;
            let s1 = spec_ser_u32(elapsed) + s2;
            assert(spec_ser_move_status_rep(v) + rest =~= spec_ser_u8(0) + s1);
            lemma_parse_ser_u8(0, s1);
            lemma_parse_ser_u32(elapsed, s2);
            lemma_parse_ser_u32(remaining, rest);
        },
        rpc::MoveStatusRepBody::NoCommand => {
            lemma_parse_ser_u8(1, rest);
        },
    }
}

pub proof fn lemma_parse_ser_pid_params(v: rpc::PidParams, rest: Seq<u8>)
    ensures
        spec_parse_pid_params(spec_ser_pid_params(v) + rest) == Some((v, rest)),
{
    let s6 = spec_ser_u32(v.output_limit) + rest;
    let s5 = spec_ser_u32(v.d_limit) + s6;
    let s4 = spec_ser_u32(v.i_limit) + s5;
    let s3 = spec_ser_u32(v.p_limit) + s4;
    let s2 = spec_ser_u32(v.kd) + s3;
    let s1 = spec_ser_u32(v.ki) + s2;
    assert(spec_ser_pid_params(v) + rest =~= spec_ser_u32(v.kp) + s1);
    lemma_parse_ser_u32(v.kp, s1);
    lemma_parse_ser_u32(v.ki, s2);
    lemma_parse_ser_u32(v.kd, s3);
    lemma_parse_ser_u32(v.p_limit, s4);
    lemma_parse_ser_u32(v.i_limit, s5);
    lemma_parse_ser_u32(v.d_limit, s6);
    lemma_parse_ser_u32(v.output_limit, rest);
}

#[verifier::rlimit(50)]
pub proof fn lemma_parse_ser_pid_update_req(v: rpc::PidParamUpdateReqBody, rest: Seq<u8>)
    ensures
        spec_parse_pid_update_req(spec_ser_pid_update_req(v) + rest) == Some((v, rest)),
{
    let p0 = spec_ser_pid_params(v.params[0]);
    let p1 = spec_ser_pid_params(v.params[1]);
    let u = spec_ser_u16(v.update_interval_ms);
    let s2 = u + rest;
    let s1 = p1 + s2;
    lemma_add_assoc(p0 + p1, u, rest);
    lemma_add_assoc(p0, p1, s2);
    assert(spec_ser_pid_update_req(v) + rest == p0 + s1);
    lemma_parse_ser_pid_params(v.params[0], s1);
    lemma_parse_ser_pid_params(v.params[1], s2);
    lemma_parse_ser_u16(v.update_interval_ms, rest);
    assert([v.params[0], v.params[1]] =~= v.params);
}

pub proof fn lemma_parse_ser_pid_update_rep(v: rpc::PidParamUpdateRepBody, rest: Seq<u8>)
    ensures
        spec_parse_pid_update_rep(spec_ser_pid_update_rep(v) + rest) == Some((v, rest)),
{
    match v {
        rpc::PidParamUpdateRepBody::Updated => lemma_parse_ser_u8(0, rest),
        rpc::PidParamUpdateRepBody::Busy => lemma_parse_ser_u8(1, rest),
    }
}

pub proof fn lemma_parse_ser_raw_teleop_req(v: rpc::RawTeleOpReqBody, rest: Seq<u8>)
    ensures
        spec_parse_raw_teleop_req(spec_ser_raw_teleop_req(v) + rest) == Some((v, rest)),
{
    let s2 = spec_ser_opt_u32(v.wheel_r) + rest;
    let s1 = spec_ser_opt_u32(v.wheel_l) + s2;
    assert(spec_ser_raw_teleop_req(v) + rest =~= spec_ser_opt_u32(v.steering) + s1);
    lemma_parse_ser_opt_u32(v.steering, s1);
    lemma_parse_ser_opt_u32(v.wheel_l, s2);
    lemma_parse_ser_opt_u32(v.wheel_r, rest);
}

pub proof fn lemma_parse_ser_raw_teleop_rep(v: rpc::RawTeleOpRepBody, rest: Seq<u8>)
    ensures
        spec_parse_raw_teleop_rep(spec_ser_raw_teleop_rep(v) + rest) == Some((v, rest)),
{
    match v {
        rpc::RawTeleOpRepBody::Applied => lemma_parse_ser_u8(0, rest),
        rpc::RawTeleOpRepBody::Busy => lemma_parse_ser_u8(1, rest),
    }
}

proof fn lemma_parse_ser_rpc_payload_move_req(b: rpc::MoveReqBody, rest: Seq<u8>)
    ensures
        spec_parse_rpc_payload(spec_ser_rpc_payload(rpc::Payload::MoveReq(b)) + rest) == Some(
            (rpc::Payload::MoveReq(b), rest),
        ),
{
    let p = rpc::Payload::MoveReq(b);
    let s1 = spec_ser_move_req(b) + rest;
    lemma_add_assoc(spec_ser_u8(2), spec_ser_move_req(b), rest);
    assert(spec_ser_rpc_payload(p) + rest == spec_ser_u8(2) + s1);
    lemma_parse_ser_u8(2, s1);
    lemma_parse_ser_move_req(b, rest);
}

proof fn lemma_parse_ser_rpc_payload_pid_update_req(b: rpc::PidParamUpdateReqBody, rest: Seq<u8>)
    ensures
        spec_parse_rpc_payload(spec_ser_rpc_payload(rpc::Payload::PidParamUpdateReq(b)) + rest)
            == Some((rpc::Payload::PidParamUpdateReq(b), rest)),
{
    let p = rpc::Payload::PidParamUpdateReq(b);
    let s1 = spec_ser_pid_update_req(b) + rest;
    lemma_add_assoc(spec_ser_u8(8), spec_ser_pid_update_req(b), rest);
    assert(spec_ser_rpc_payload(p) + rest == spec_ser_u8(8) + s1);
    lemma_parse_ser_u8(8, s1);
    lemma_parse_ser_pid_update_req(b, rest);
}

proof fn lemma_parse_ser_rpc_payload_raw_teleop_req(b: rpc::RawTeleOpReqBody, rest: Seq<u8>)
    ensures
        spec_parse_rpc_payload(spec_ser_rpc_payload(rpc::Payload::RawTeleOpReq(b)) + rest)
            == Some((rpc::Payload::RawTeleOpReq(b), rest)),
{
    let p = rpc::Payload::RawTeleOpReq(b);
    let s1 = spec_ser_raw_teleop_req(b) + rest;
    lemma_add_assoc(spec_ser_u8(10), spec_ser_raw_teleop_req(b), rest);
    assert(spec_ser_rpc_payload(p) + rest == spec_ser_u8(10) + s1);
    lemma_parse_ser_u8(10, s1);
    lemma_parse_ser_raw_teleop_req(b, rest);
}

proof fn lemma_parse_ser_rpc_payload_move_status_rep(b: rpc::MoveStatusRepBody, rest: Seq<u8>)
    ensures
        spec_parse_rpc_payload(spec_ser_rpc_payload(rpc::Payload::MoveStatusRep(b)) + rest)
            == Some((rpc::Payload::MoveStatusRep(b), rest)),
{
    let p = rpc::Payload::MoveStatusRep(b);
    let s1 = spec_ser_move_status_rep(b) + rest;
    lemma_add_assoc(spec_ser_u8(5), spec_ser_move_status_rep(b), rest);
    assert(spec_ser_rpc_payload(p) + rest == spec_ser_u8(5) + s1);
    lemma_parse_ser_u8(5, s1);
    lemma_parse_ser_move_status_rep(b, rest);
}

#[verifier::rlimit(50)]
#[verifier::spinoff_prover]
pub proof fn lemma_parse_ser_rpc_payload(p: rpc::Payload, rest: Seq<u8>)
    ensures
        spec_parse_rpc_payload(spec_ser_rpc_payload(p) + rest) == Some((p, rest)),
{
    match p {
        rpc::Payload::PingReq(_) => {
            assert(spec_ser_rpc_payload(p) + rest == spec_ser_u8(0) + rest);
            lemma_parse_ser_u8(0, rest);
        },
        rpc::Payload::PingRep(b) => {
            let s1 = spec_ser_ping_rep(b) + rest;
            lemma_add_assoc(spec_ser_u8(1), spec_ser_ping_rep(b), rest);
            assert(spec_ser_rpc_payload(p) + rest == spec_ser_u8(1) + s1);
            lemma_parse_ser_u8(1, s1);
            lemma_parse_ser_ping_rep(b, rest);
        },
        rpc::Payload::MoveReq(b) => {
            lemma_parse_ser_rpc_payload_move_req(b, rest);
        },
        rpc::Payload::MoveRep(b) => {
            let s1 = spec_ser_move_rep(b) + rest;
            lemma_add_assoc(spec_ser_u8(3), spec_ser_move_rep(b), rest);
            assert(spec_ser_rpc_payload(p) + rest == spec_ser_u8(3) + s1);
            lemma_parse_ser_u8(3, s1);
            lemma_parse_ser_move_rep(b, rest);
        },
        rpc::Payload::MoveStatusReq(_) => {
            assert(spec_ser_rpc_payload(p) + rest == spec_ser_u8(4) + rest);
            lemma_parse_ser_u8(4, rest);
        },
        rpc::Payload::MoveStatusRep(b) => {
            lemma_parse_ser_rpc_payload_move_status_rep(b, rest);
        },
        rpc::Payload::MoveCancelReq(_) => {
            assert(spec_ser_rpc_payload(p) + rest == spec_ser_u8(6) + rest);
            lemma_parse_ser_u8(6, rest);
        },
        rpc::Payload::MoveCancelRep(_) => {
            assert(spec_ser_rpc_payload(p) + rest == spec_ser_u8(7) + rest);
            lemma_parse_ser_u8(7, rest);
        },
        rpc::Payload::PidParamUpdateReq(b) => {
            lemma_parse_ser_rpc_payload_pid_update_req(b, rest);
        },
        rpc::Payload::PidParamUpdateRep(b) => {
            let s1 = spec_ser_pid_update_rep(b) + rest;
            lemma_add_assoc(spec_ser_u8(9), spec_ser_pid_update_rep(b), rest);
            assert(spec_ser_rpc_payload(p) + rest == spec_ser_u8(9) + s1);
            lemma_parse_ser_u8(9, s1);
            lemma_parse_ser_pid_update_rep(b, rest);
        },
        rpc::Payload::RawTeleOpReq(b) => {
            lemma_parse_ser_rpc_payload_raw_teleop_req(b, rest);
        },
        rpc::Payload::RawTeleOpRep(b) => {
            let s1 = spec_ser_raw_teleop_rep(b) + rest;
            lemma_add_assoc(spec_ser_u8(11), spec_ser_raw_teleop_rep(b), rest);
            assert(spec_ser_rpc_payload(p) + rest == spec_ser_u8(11) + s1);
            lemma_parse_ser_u8(11, s1);
            lemma_parse_ser_raw_teleop_rep(b, rest);
        },
    }
}

pub proof fn lemma_parse_ser_rpc_message(m: rpc::Message, rest: Seq<u8>)
    ensures
        spec_parse_rpc_message(spec_ser_rpc_message(m) + rest) == Some((m, rest)),
{
    let s1 = spec_ser_rpc_payload(m.payload) + rest;
    assert(spec_ser_rpc_message(m) + rest =~= spec_ser_u16(m.id) + s1);
    lemma_parse_ser_u16(m.id, s1);
    lemma_parse_ser_rpc_payload(m.payload, rest);
}

#[verifier::rlimit(50)]
pub proof fn lemma_parse_ser_ahrs(v: stream::AhrsBody, rest: Seq<u8>)
    ensures
        spec_parse_ahrs(spec_ser_ahrs(v) + rest) == Some((v, rest)),
{
    let a0 = spec_ser_i16(v.acc[0]);
    let a1 = spec_ser_i16(v.acc[1]);
    let a2 = spec_ser_i16(v.acc[2]);
    let g0 = spec_ser_i16(v.gyro[0]);
    let g1 = spec_ser_i16(v.gyro[1]);
    let g2 = spec_ser_i16(v.gyro[2]);
    let m0 = spec_ser_i16(v.mag[0]);
    let m1 = spec_ser_i16(v.mag[1]);
    let m2 = spec_ser_i16(v.mag[2]);
    let t = spec_ser_u32(v.time_ms);
    let s9 = t + rest;
    let s8 = m2 + s9;
    let s7 = m1 + s8;
    let s6 = m0 + s7;
    let s5 = g2 + s6;
    let s4 = g1 + s5;
    let s3 = g0 + s4;
    let s2 = a2 + s3;
    let s1 = a1 + s2;
    lemma_add_assoc(a0 + a1 + a2 + g0 + g1 + g2 + m0 + m1 + m2, t, rest);
    lemma_add_assoc(a0 + a1 + a2 + g0 + g1 + g2 + m0 + m1, m2, s9);
    lemma_add_assoc(a0 + a1 + a2 + g0 + g1 + g2 + m0, m1, s8);
    lemma_add_assoc(a0 + a1 + a2 + g0 + g1 + g2, m0, s7);
    lemma_add_assoc(a0 + a1 + a2 + g0 + g1, g2, s6);
    lemma_add_assoc(a0 + a1 + a2 + g0, g1, s5);
    lemma_add_assoc(a0 + a1 + a2, g0, s4);
    lemma_add_assoc(a0 + a1, a2, s3);
    lemma_add_assoc(a0, a1, s2);
    assert(spec_ser_ahrs(v) + rest == a0 + s1);
    lemma_parse_ser_i16(v.acc[0], s1);
    lemma_parse_ser_i16(v.acc[1], s2);
    lemma_parse_ser_i16(v.acc[2], s3);
    lemma_parse_ser_i16(v.gyro[0], s4);
    lemma_parse_ser_i16(v.gyro[1], s5);
    lemma_parse_ser_i16(v.gyro[2], s6);
    lemma_parse_ser_i16(v.mag[0], s7);
    lemma_parse_ser_i16(v.mag[1], s8);
    lemma_parse_ser_i16(v.mag[2], s9);
    lemma_parse_ser_u32(v.time_ms, rest);
    assert([v.acc[0], v.acc[1], v.acc[2]] =~= v.acc);
    assert([v.gyro[0], v.gyro[1], v.gyro[2]] =~= v.gyro);
    assert([v.mag[0], v.mag[1], v.mag[2]] =~= v.mag);
}

pub proof fn lemma_parse_ser_stream_payload(p: stream::Payload, rest: Seq<u8>)
    ensures
        spec_parse_stream_payload(spec_ser_stream_payload(p) + rest) == Some((p, rest)),
{
    match p {
        stream::Payload::Ahrs(b) => {
            let s1 = spec_ser_ahrs(b) + rest;
            lemma_add_assoc(spec_ser_u8(0), spec_ser_ahrs(b), rest);
            assert(spec_ser_stream_payload(p) + rest == spec_ser_u8(0) + s1);
            lemma_parse_ser_u8(0, s1);
            lemma_parse_ser_ahrs(b, rest);
        },
    }
}

pub proof fn lemma_parse_ser_stream_message(m: stream::Message, rest: Seq<u8>)
    ensures
        spec_parse_stream_message(spec_ser_stream_message(m) + rest) == Some((m, rest)),
{
    lemma_parse_ser_stream_payload(m.payload, rest);
}

pub proof fn lemma_parse_ser_message(m: Message, rest: Seq<u8>)
    ensures
        spec_parse_message(spec_ser_message(m) + rest) == Some((m, rest)),
{
    match m.payload {
        Payload::RPC(r) => {
            let s1 = spec_ser_rpc_message(r) + rest;
            lemma_add_assoc(spec_ser_u8(0), spec_ser_rpc_message(r), rest);
            assert(spec_ser_message(m) + rest == spec_ser_u8(0) + s1);
            lemma_parse_ser_u8(0, s1);
            lemma_parse_ser_rpc_message(r, rest);
        },
        Payload::Stream(t) => {
            let s1 = spec_ser_stream_message(t) + rest;
            lemma_add_assoc(spec_ser_u8(1), spec_ser_stream_message(t), rest);
            assert(spec_ser_message(m) + rest == spec_ser_u8(1) + s1);
            lemma_parse_ser_u8(1, s1);
            lemma_parse_ser_stream_message(t, rest);
        },
    }
}

/// Round trip of the binary layout: decoding a serialized message gives the
/// original message back, for every member of the payload catalog.
pub proof fn lemma_decode_ser_message(m: Message)
    ensures
        spec_decode(spec_ser_message(m)) == Some(m),
{
    assert(spec_ser_message(m) =~= spec_ser_message(m) + Seq::<u8>::empty());
    lemma_parse_ser_message(m, Seq::<u8>::empty());
}

// ---------------------------------------------------------------------------
// Serialized sizes
// ---------------------------------------------------------------------------

proof fn lemma_ser_scurve_params_len(v: rpc::SCurveParameters)
    ensures
        spec_ser_scurve_params(v).len() == 112,
{
}

proof fn lemma_ser_rpc_payload_len(p: rpc::Payload)
    ensures
        spec_ser_rpc_payload(p).len() <= 125,
{
    match p {
        rpc::Payload::MoveReq(b) => {
            lemma_ser_scurve_params_len(b.params);
        },
        rpc::Payload::RawTeleOpReq(b) => {
            assert(spec_ser_opt_u32(b.steering).len() <= 5);
            assert(spec_ser_opt_u32(b.wheel_l).len() <= 5);
            assert(spec_ser_opt_u32(b.wheel_r).len() <= 5);
        },
        _ => {},
    }
}

/// Every member of the payload catalog is bounded in size by construction:
/// its serialized form never exceeds the compile-time maximum message
/// length, so encoding for transmission always succeeds.
pub proof fn lemma_ser_message_bounded(m: Message)
    ensures
        spec_ser_message(m).len() <= MAX_MESSAGE_LENGTH,
{
    match m.payload {
        Payload::RPC(r) => {
            lemma_ser_rpc_payload_len(r.payload);
        },
        Payload::Stream(t) => {},
    }
}

// ---------------------------------------------------------------------------
// Executable encoder
// ---------------------------------------------------------------------------

fn write_u8(v: u8, out: &mut Vec<u8>)
    ensures
        final(out)@ == old(out)@ + spec_ser_u8(v),
{
    out.push(v);
    assert(out@ =~= old(out)@ + spec_ser_u8(v));
}

fn write_u16(v: u16, out: &mut Vec<u8>)
    ensures
        final(out)@ == old(out)@ + spec_ser_u16(v),
{
    out.push((v & 0xff) as u8);
    out.push(((v >> 8) & 0xff) as u8);
    assert(out@ =~= old(out)@ + spec_ser_u16(v));
}

fn write_u32(v: u32, out: &mut Vec<u8>)
    ensures
        final(out)@ == old(out)@ + spec_ser_u32(v),
{
    out.push((v & 0xff) as u8);
    out.push(((v >> 8) & 0xff) as u8);
    out.push(((v >> 16) & 0xff) as u8);
    out.push(((v >> 24) & 0xff) as u8);
    assert(out@ =~= old(out)@ + spec_ser_u32(v));
}

fn write_u64(v: u64, out: &mut Vec<u8>)
    ensures
        final(out)@ == old(out)@ + spec_ser_u64(v),
{
    write_u32((v & 0xffff_ffff) as u32, out);
    write_u32(((v >> 32) & 0xffff_ffff) as u32, out);
    proof {
        lemma_add_assoc(
            old(out)@,
            spec_ser_u32((v & 0xffff_ffff) as u32),
            spec_ser_u32(((v >> 32) & 0xffff_ffff) as u32),
        );
    }
}

fn write_i16(v: i16, out: &mut Vec<u8>)
    ensures
        final(out)@ == old(out)@ + spec_ser_i16(v),
{
    let pattern: u16 = if v >= 0 {
        v as u16
    } else {
        ((v as i32) + 0x10000) as u16
    };
    assert(pattern == u16_of_i16(v));
    write_u16(pattern, out);
}

fn write_bool(v: bool, out: &mut Vec<u8>)
    ensures
        final(out)@ == old(out)@ + spec_ser_bool(v),
{
    out.push(if v { 1u8 } else { 0u8 });
    assert(out@ =~= old(out)@ + spec_ser_bool(v));
}

fn write_opt_u32(v: &Option<u32>, out: &mut Vec<u8>)
    ensures
        final(out)@ == old(out)@ + spec_ser_opt_u32(*v),
{
    match v {
        None => {
            write_u8(0, out);
        },
        Some(x) => {
            write_u8(1, out);
            write_u32(*x, out);
            proof {
                lemma_add_assoc(old(out)@, spec_ser_u8(1), spec_ser_u32(*x));
            }
        },
    }
}

fn write_ping_rep(v: &rpc::PingRepBody, out: &mut Vec<u8>)
    ensures
        final(out)@ == old(out)@ + spec_ser_ping_rep(*v),
{
    write_u32(v.time_ms, out);
}

fn write_time_intervals(v: &rpc::SCurveTimeIntervals, out: &mut Vec<u8>)
    ensures
        final(out)@ == old(out)@ + spec_ser_time_intervals(*v),
{
    let ghost o = old(out)@;
    let ghost f1 = spec_ser_u64(v.t_j1);
    let ghost f2 = spec_ser_u64(v.t_j2);
    let ghost f3 = spec_ser_u64(v.t_a);
    let ghost f4 = spec_ser_u64(v.t_v);
    let ghost f5 = spec_ser_u64(v.t_d);
    write_u64(v.t_j1, out);
    write_u64(v.t_j2, out);
    proof {
        lemma_add_assoc(o, f1, f2);
    }
    write_u64(v.t_a, out);
    proof {
        lemma_add_assoc(o, f1 + f2, f3);
    }
    write_u64(v.t_v, out);
    proof {
        lemma_add_assoc(o, f1 + f2 + f3, f4);
    }
    write_u64(v.t_d, out);
    proof {
        lemma_add_assoc(o, f1 + f2 + f3 + f4, f5);
    }
}

fn write_start_conditions(v: &rpc::SCurveStartConditions, out: &mut Vec<u8>)
    ensures
        final(out)@ == old(out)@ + spec_ser_start_conditions(*v),
{
    let ghost o = old(out)@;
    let ghost f1 = spec_ser_u64(v.q0);
    let ghost f2 = spec_ser_u64(v.q1);
    let ghost f3 = spec_ser_u64(v.v0);
    let ghost f4 = spec_ser_u64(v.v1);
    write_u64(v.q0, out);
    write_u64(v.q1, out);
    proof {
        lemma_add_assoc(o, f1, f2);
    }
    write_u64(v.v0, out);
    proof {
        lemma_add_assoc(o, f1 + f2, f3);
    }
    write_u64(v.v1, out);
    proof {
        lemma_add_assoc(o, f1 + f2 + f3, f4);
    }
}

fn write_scurve_params(v: &rpc::SCurveParameters, out: &mut Vec<u8>)
    ensures
        final(out)@ == old(out)@ + spec_ser_scurve_params(*v),
{
    let ghost o = old(out)@;
    let ghost f1 = spec_ser_time_intervals(v.time_intervals);
    let ghost f2 = spec_ser_u64(v.j_max);
    let ghost f3 = spec_ser_u64(v.j_min);
    let ghost f4 = spec_ser_u64(v.a_lim_a);
    let ghost f5 = spec_ser_u64(v.a_lim_d);
    let ghost f6 = spec_ser_u64(v.v_lim);
    let ghost f7 = spec_ser_start_conditions(v.conditions);
    write_time_intervals(&v.time_intervals, out);
    write_u64(v.j_max, out);
    proof {
        lemma_add_assoc(o, f1, f2);
    }
    write_u64(v.j_min, out);
    proof {
        lemma_add_assoc(o, f1 + f2, f3);
    }
    write_u64(v.a_lim_a, out);
    proof {
        lemma_add_assoc(o, f1 + f2 + f3, f4);
    }
    write_u64(v.a_lim_d, out);
    proof {
        lemma_add_assoc(o, f1 + f2 + f3 + f4, f5);
    }
    write_u64(v.v_lim, out);
    proof {
        lemma_add_assoc(o, f1 + f2 + f3 + f4 + f5, f6);
    }
    write_start_conditions(&v.conditions, out);
    proof {
        lemma_add_assoc(o, f1 + f2 + f3 + f4 + f5 + f6, f7);
    }
}

fn write_move_req(v: &rpc::MoveReqBody, out: &mut Vec<u8>)
    ensures
        final(out)@ == old(out)@ + spec_ser_move_req(*v),
{
    let ghost o = old(out)@;
    let ghost f1 = spec_ser_scurve_params(v.params);
    let ghost f2 = spec_ser_u32(v.ratio);
    let ghost f3 = spec_ser_bool(v.ref_left);
    let ghost f4 = spec_ser_u32(v.steering);
    let ghost f5 = spec_ser_u16(v.steering_setup_ms);
    let ghost f6 = spec_ser_bool(v.reverse);
    write_scurve_params(&v.params, out);
    write_u32(v.ratio, out);
    proof {
        lemma_add_assoc(o, f1, f2);
    }
    write_bool(v.ref_left, out);
    proof {
        lemma_add_assoc(o, f1 + f2, f3);
    }
    write_u32(v.steering, out);
    proof {
        lemma_add_assoc(o, f1 + f2 + f3, f4);
    }
    write_u16(v.steering_setup_ms, out);
    proof {
        lemma_add_assoc(o, f1 + f2 + f3 + f4, f5);
    }
    write_bool(v.reverse, out);
    proof {
        lemma_add_assoc(o, f1 + f2 + f3 + f4 + f5, f6);
    }
}

fn write_move_rep(v: &rpc::MoveRepBody, out: &mut Vec<u8>)
    ensures
        final(out)@ == old(out)@ + spec_ser_move_rep(*v),
{
    match v {
        rpc::MoveRepBody::Busy => write_u8(0, out),
        rpc::MoveRepBody::Accepted => write_u8(1, out),
    }
}

fn write_move_status_rep(v: &rpc::MoveStatusRepBody, out: &mut Vec<u8>)
    ensures
        final(out)@ == old(out)@ + spec_ser_move_status_rep(*v),
{
    match v {
        rpc::MoveStatusRepBody::Executing { elapsed, remaining } => {
            write_u8(0, out);
            write_u32(*elapsed, out);
            proof {
                lemma_add_assoc(old(out)@, spec_ser_u8(0), spec_ser_u32(*elapsed));
            }
            write_u32(*remaining, out);
            proof {
                lemma_add_assoc(
                    old(out)@,
                    spec_ser_u8(0) + spec_ser_u32(*elapsed),
                    spec_ser_u32(*remaining),
                );
            }
        },
        rpc::MoveStatusRepBody::NoCommand => write_u8(1, out),
    }
}

fn write_pid_params(v: &rpc::PidParams, out: &mut Vec<u8>)
    ensures
        final(out)@ == old(out)@ + spec_ser_pid_params(*v),
{
    let ghost o = old(out)@;
    let ghost f1 = spec_ser_u32(v.kp);
    let ghost f2 = spec_ser_u32(v.ki);
    let ghost f3 = spec_ser_u32(v.kd);
    let ghost f4 = spec_ser_u32(v.p_limit);
    let ghost f5 = spec_ser_u32(v.i_limit);
    let ghost f6 = spec_ser_u32(v.d_limit);
    let ghost f7 = spec_ser_u32(v.output_limit);
    write_u32(v.kp, out);
    write_u32(v.ki, out);
    proof {
        lemma_add_assoc(o, f1, f2);
    }
    write_u32(v.kd, out);
    proof {
        lemma_add_assoc(o, f1 + f2, f3);
    }
    write_u32(v.p_limit, out);
    proof {
        lemma_add_assoc(o, f1 + f2 + f3, f4);
    }
    write_u32(v.i_limit, out);
    proof {
        lemma_add_assoc(o, f1 + f2 + f3 + f4, f5);
    }
    write_u32(v.d_limit, out);
    proof {
        lemma_add_assoc(o, f1 + f2 + f3 + f4 + f5, f6);
    }
    write_u32(v.output_limit, out);
    proof {
        lemma_add_assoc(o, f1 + f2 + f3 + f4 + f5 + f6, f7);
    }
}

fn write_pid_update_req(v: &rpc::PidParamUpdateReqBody, out: &mut Vec<u8>)
    ensures
        final(out)@ == old(out)@ + spec_ser_pid_update_req(*v),
{
    let ghost o = old(out)@;
    let ghost f1 = spec_ser_pid_params(v.params[0]);
    let ghost f2 = spec_ser_pid_params(v.params[1]);
    let ghost f3 = spec_ser_u16(v.update_interval_ms);
    write_pid_params(&v.params[0], out);
    write_pid_params(&v.params[1], out);
    proof {
        lemma_add_assoc(o, f1, f2);
    }
    write_u16(v.update_interval_ms, out);
    proof {
        lemma_add_assoc(o, f1 + f2, f3);
    }
}

fn write_pid_update_rep(v: &rpc::PidParamUpdateRepBody, out: &mut Vec<u8>)
    ensures
        final(out)@ == old(out)@ + spec_ser_pid_update_rep(*v),
{
    match v {
        rpc::PidParamUpdateRepBody::Updated => write_u8(0, out),
        rpc::PidParamUpdateRepBody::Busy => write_u8(1, out),
    }
}

fn write_raw_teleop_req(v: &rpc::RawTeleOpReqBody, out: &mut Vec<u8>)
    ensures
        final(out)@ == old(out)@ + spec_ser_raw_teleop_req(*v),
{
    let ghost o = old(out)@;
    let ghost f1 = spec_ser_opt_u32(v.steering);
    let ghost f2 = spec_ser_opt_u32(v.wheel_l);
    let ghost f3 = spec_ser_opt_u32(v.wheel_r);
    write_opt_u32(&v.steering, out);
    write_opt_u32(&v.wheel_l, out);
    proof {
        lemma_add_assoc(o, f1, f2);
    }
    write_opt_u32(&v.wheel_r, out);
    proof {
        lemma_add_assoc(o, f1 + f2, f3);
    }
}

fn write_raw_teleop_rep(v: &rpc::RawTeleOpRepBody, out: &mut Vec<u8>)
    ensures
        final(out)@ == old(out)@ + spec_ser_raw_teleop_rep(*v),
{
    match v {
        rpc::RawTeleOpRepBody::Applied => write_u8(0, out),
        rpc::RawTeleOpRepBody::Busy => write_u8(1, out),
    }
}

fn write_rpc_payload(p: &rpc::Payload, out: &mut Vec<u8>)
    ensures
        final(out)@ == old(out)@ + spec_ser_rpc_payload(*p),
{
    match p {
        rpc::Payload::PingReq(_) => write_u8(0, out),
        rpc::Payload::PingRep(b) => {
            write_u8(1, out);
            write_ping_rep(b, out);
            proof {
                lemma_add_assoc(old(out)@, spec_ser_u8(1), spec_ser_ping_rep(*b));
            }
        },
        rpc::Payload::MoveReq(b) => {
            write_u8(2, out);
            write_move_req(b, out);
            proof {
                lemma_add_assoc(old(out)@, spec_ser_u8(2), spec_ser_move_req(*b));
            }
        },
        rpc::Payload::MoveRep(b) => {
            write_u8(3, out);
            write_move_rep(b, out);
            proof {
                lemma_add_assoc(old(out)@, spec_ser_u8(3), spec_ser_move_rep(*b));
            }
        },
        rpc::Payload::MoveStatusReq(_) => write_u8(4, out),
        rpc::Payload::MoveStatusRep(b) => {
            write_u8(5, out);
            write_move_status_rep(b, out);
            proof {
                lemma_add_assoc(old(out)@, spec_ser_u8(5), spec_ser_move_status_rep(*b));
            }
        },
        rpc::Payload::MoveCancelReq(_) => write_u8(6, out),
        rpc::Payload::MoveCancelRep(_) => write_u8(7, out),
        rpc::Payload::PidParamUpdateReq(b) => {
            write_u8(8, out);
            write_pid_update_req(b, out);
            proof {
                lemma_add_assoc(old(out)@, spec_ser_u8(8), spec_ser_pid_update_req(*b));
            }
        },
        rpc::Payload::PidParamUpdateRep(b) => {
            write_u8(9, out);
            write_pid_update_rep(b, out);
            proof {
                lemma_add_assoc(old(out)@, spec_ser_u8(9), spec_ser_pid_update_rep(*b));
            }
        },
        rpc::Payload::RawTeleOpReq(b) => {
            write_u8(10, out);
            write_raw_teleop_req(b, out);
            proof {
                lemma_add_assoc(old(out)@, spec_ser_u8(10), spec_ser_raw_teleop_req(*b));
            }
        },
        rpc::Payload::RawTeleOpRep(b) => {
            write_u8(11, out);
            write_raw_teleop_rep(b, out);
            proof {
                lemma_add_assoc(old(out)@, spec_ser_u8(11), spec_ser_raw_teleop_rep(*b));
            }
        },
    }
}

fn write_rpc_message(m: &rpc::Message, out: &mut Vec<u8>)
    ensures
        final(out)@ == old(out)@ + spec_ser_rpc_message(*m),
{
    write_u16(m.id, out);
    write_rpc_payload(&m.payload, out);
    proof {
        lemma_add_assoc(old(out)@, spec_ser_u16(m.id), spec_ser_rpc_payload(m.payload));
    }
}

fn write_ahrs(v: &stream::AhrsBody, out: &mut Vec<u8>)
    ensures
        final(out)@ == old(out)@ + spec_ser_ahrs(*v),
{
    let ghost o = old(out)@;
    let ghost f1 = spec_ser_i16(v.acc[0]);
    let ghost f2 = spec_ser_i16(v.acc[1]);
    let ghost f3 = spec_ser_i16(v.acc[2]);
    let ghost f4 = spec_ser_i16(v.gyro[0]);
    let ghost f5 = spec_ser_i16(v.gyro[1]);
    let ghost f6 = spec_ser_i16(v.gyro[2]);
    let ghost f7 = spec_ser_i16(v.mag[0]);
    let ghost f8 = spec_ser_i16(v.mag[1]);
    let ghost f9 = spec_ser_i16(v.mag[2]);
    let ghost f10 = spec_ser_u32(v.time_ms);
    write_i16(v.acc[0], out);
    write_i16(v.acc[1], out);
    proof {
        lemma_add_assoc(o, f1, f2);
    }
    write_i16(v.acc[2], out);
    proof {
        lemma_add_assoc(o, f1 + f2, f3);
    }
    write_i16(v.gyro[0], out);
    proof {
        lemma_add_assoc(o, f1 + f2 + f3, f4);
    }
    write_i16(v.gyro[1], out);
    proof {
        lemma_add_assoc(o, f1 + f2 + f3 + f4, f5);
    }
    write_i16(v.gyro[2], out);
    proof {
        lemma_add_assoc(o, f1 + f2 + f3 + f4 + f5, f6);
    }
    write_i16(v.mag[0], out);
    proof {
        lemma_add_assoc(o, f1 + f2 + f3 + f4 + f5 + f6, f7);
    }
    write_i16(v.mag[1], out);
    proof {
        lemma_add_assoc(o, f1 + f2 + f3 + f4 + f5 + f6 + f7, f8);
    }
    write_i16(v.mag[2], out);
    proof {
        lemma_add_assoc(o, f1 + f2 + f3 + f4 + f5 + f6 + f7 + f8, f9);
    }
    write_u32(v.time_ms, out);
    proof {
        lemma_add_assoc(o, f1 + f2 + f3 + f4 + f5 + f6 + f7 + f8 + f9, f10);
    }
}

fn write_stream_payload(p: &stream::Payload, out: &mut Vec<u8>)
    ensures
        final(out)@ == old(out)@ + spec_ser_stream_payload(*p),
{
    match p {
        stream::Payload::Ahrs(b) => {
            write_u8(0, out);
            write_ahrs(b, out);
            proof {
                lemma_add_assoc(old(out)@, spec_ser_u8(0), spec_ser_ahrs(*b));
            }
        },
    }
}

fn write_message(m: &Message, out: &mut Vec<u8>)
    ensures
        final(out)@ == old(out)@ + spec_ser_message(*m),
{
    match &m.payload {
        Payload::RPC(r) => {
            write_u8(0, out);
            write_rpc_message(r, out);
            proof {
                lemma_add_assoc(old(out)@, spec_ser_u8(0), spec_ser_rpc_message(*r));
            }
        },
        Payload::Stream(t) => {
            write_u8(1, out);
            write_stream_payload(&t.payload, out);
            proof {
                lemma_add_assoc(old(out)@, spec_ser_u8(1), spec_ser_stream_message(*t));
            }
        },
    }
}

/// Serialize one message to its compact binary form (without framing).
pub fn encode_message(m: &Message) -> (r: Vec<u8>)
    ensures
        r@ == spec_ser_message(*m),
{
    let mut out: Vec<u8> = Vec::new();
    write_message(m, &mut out);
    proof {
        assert(out@ =~= spec_ser_message(*m));
    }
    out
}

// ---------------------------------------------------------------------------
// Executable decoder
//
// Each parser consumes from `buf` starting at `pos` and returns the parsed
// value with the position just past it, exactly as the corresponding
// specification parser does on `buf@.skip(pos)`.
// ---------------------------------------------------------------------------

fn parse_u8(buf: &Vec<u8>, pos: usize) -> (r: Option<(u8, usize)>)
    requires
        pos <= buf.len(),
    ensures
        ({
            let s = buf@.skip(pos as int);
            match r {
                Some(p) => p.1 <= buf@.len() && spec_parse_u8(s) == Some(
                    (p.0, buf@.skip(p.1 as int)),
                ),
                None => spec_parse_u8(s) is None,
            }
        }),
{
    if buf.len() - pos >= 1 {
        let v = buf[pos];
        proof {
            let s = buf@.skip(pos as int);
            assert(s[0] == buf@[pos as int]);
            assert(s.skip(1) =~= buf@.skip(pos as int + 1));
        }
        Some((v, pos + 1))
    } else {
        None
    }
}

fn parse_u16(buf: &Vec<u8>, pos: usize) -> (r: Option<(u16, usize)>)
    requires
        pos <= buf.len(),
    ensures
        ({
            let s = buf@.skip(pos as int);
            match r {
                Some(p) => p.1 <= buf@.len() && spec_parse_u16(s) == Some(
                    (p.0, buf@.skip(p.1 as int)),
                ),
                None => spec_parse_u16(s) is None,
            }
        }),
{
    if buf.len() - pos >= 2 {
        let lo = buf[pos];
        let hi = buf[pos + 1];
        let v = lo as u16 | ((hi as u16) << 8);
        proof {
            let s = buf@.skip(pos as int);
            assert(s[0] == buf@[pos as int]);
            assert(s[1] == buf@[pos as int + 1]);
            assert(s.skip(2) =~= buf@.skip(pos as int + 2));
        }
        Some((v, pos + 2))
    } else {
        None
    }
}

fn parse_u32(buf: &Vec<u8>, pos: usize) -> (r: Option<(u32, usize)>)
    requires
        pos <= buf.len(),
    ensures
        ({
            let s = buf@.skip(pos as int);
            match r {
                Some(p) => p.1 <= buf@.len() && spec_parse_u32(s) == Some(
                    (p.0, buf@.skip(p.1 as int)),
                ),
                None => spec_parse_u32(s) is None,
            }
        }),
{
    if buf.len() - pos >= 4 {
        let b0 = buf[pos];
        let b1 = buf[pos + 1];
        let b2 = buf[pos + 2];
        let b3 = buf[pos + 3];
        let v = b0 as u32 | ((b1 as u32) << 8) | ((b2 as u32) << 16) | ((b3 as u32) << 24);
        proof {
            let s = buf@.skip(pos as int);
            assert(s[0] == buf@[pos as int]);
            assert(s[1] == buf@[pos as int + 1]);
            assert(s[2] == buf@[pos as int + 2]);
            assert(s[3] == buf@[pos as int + 3]);
            assert(s.skip(4) =~= buf@.skip(pos as int + 4));
        }
        Some((v, pos + 4))
    } else {
        None
    }
}

fn parse_u64(buf: &Vec<u8>, pos: usize) -> (r: Option<(u64, usize)>)
    requires
        pos <= buf.len(),
    ensures
        ({
            let s = buf@.skip(pos as int);
            match r {
                Some(p) => p.1 <= buf@.len() && spec_parse_u64(s) == Some(
                    (p.0, buf@.skip(p.1 as int)),
                ),
                None => spec_parse_u64(s) is None,
            }
        }),
{
    match parse_u32(buf, pos) {
        None => None,
        Some((lo, p1)) => match parse_u32(buf, p1) {
            None => None,
            Some((hi, p2)) => Some((lo as u64 | ((hi as u64) << 32), p2)),
        },
    }
}

fn parse_i16(buf: &Vec<u8>, pos: usize) -> (r: Option<(i16, usize)>)
    requires
        pos <= buf.len(),
    ensures
        ({
            let s = buf@.skip(pos as int);
            match r {
                Some(p) => p.1 <= buf@.len() && spec_parse_i16(s) == Some(
                    (p.0, buf@.skip(p.1 as int)),
                ),
                None => spec_parse_i16(s) is None,
            }
        }),
{
    match parse_u16(buf, pos) {
        None => None,
        Some((v, p1)) => {
            let x: i16 = if v < 0x8000 {
                v as i16
            } else {
                ((v as i32) - 0x10000) as i16
            };
            assert(x == i16_of_u16(v));
            Some((x, p1))
        },
    }
}

fn parse_bool(buf: &Vec<u8>, pos: usize) -> (r: Option<(bool, usize)>)
    requires
        pos <= buf.len(),
    ensures
        ({
            let s = buf@.skip(pos as int);
            match r {
                Some(p) => p.1 <= buf@.len() && spec_parse_bool(s) == Some(
                    (p.0, buf@.skip(p.1 as int)),
                ),
                None => spec_parse_bool(s) is None,
            }
        }),
{
    match parse_u8(buf, pos) {
        None => None,
        Some((b, p1)) => {
            if b == 0 {
                Some((false, p1))
            } else if b == 1 {
                Some((true, p1))
            } else {
                None
            }
        },
    }
}

fn parse_opt_u32(buf: &Vec<u8>, pos: usize) -> (r: Option<(Option<u32>, usize)>)
    requires
        pos <= buf.len(),
    ensures
        ({
            let s = buf@.skip(pos as int);
            match r {
                Some(p) => p.1 <= buf@.len() && spec_parse_opt_u32(s) == Some(
                    (p.0, buf@.skip(p.1 as int)),
                ),
                None => spec_parse_opt_u32(s) is None,
            }
        }),
{
    match parse_u8(buf, pos) {
        None => None,
        Some((b, p1)) => {
            if b == 0 {
                Some((None, p1))
            } else if b == 1 {
                match parse_u32(buf, p1) {
                    None => None,
                    Some((x, p2)) => Some((Some(x), p2)),
                }
            } else {
                None
            }
        },
    }
}

fn parse_ping_rep(buf: &Vec<u8>, pos: usize) -> (r: Option<(rpc::PingRepBody, usize)>)
    requires
        pos <= buf.len(),
    ensures
        ({
            let s = buf@.skip(pos as int);
            match r {
                Some(p) => p.1 <= buf@.len() && spec_parse_ping_rep(s) == Some(
                    (p.0, buf@.skip(p.1 as int)),
                ),
                None => spec_parse_ping_rep(s) is None,
            }
        }),
{
    match parse_u32(buf, pos) {
        None => None,
        Some((time_ms, p1)) => Some((rpc::PingRepBody { time_ms }, p1)),
    }
}

fn parse_time_intervals(buf: &Vec<u8>, pos: usize) -> (r: Option<
    (rpc::SCurveTimeIntervals, usize),
>)
    requires
        pos <= buf.len(),
    ensures
        ({
            let s = buf@.skip(pos as int);
            match r {
                Some(p) => p.1 <= buf@.len() && spec_parse_time_intervals(s) == Some(
                    (p.0, buf@.skip(p.1 as int)),
                ),
                None => spec_parse_time_intervals(s) is None,
            }
        }),
{
    match parse_u64(buf, pos) {
        None => None,
        Some((t_j1, p1)) => match parse_u64(buf, p1) {
            None => None,
            Some((t_j2, p2)) => match parse_u64(buf, p2) {
                None => None,
                Some((t_a, p3)) => match parse_u64(buf, p3) {
                    None => None,
                    Some((t_v, p4)) => match parse_u64(buf, p4) {
                        None => None,
                        Some((t_d, p5)) => Some(
                            (rpc::SCurveTimeIntervals { t_j1, t_j2, t_a, t_v, t_d }, p5),
                        ),
                    },
                },
            },
        },
    }
}

fn parse_start_conditions(buf: &Vec<u8>, pos: usize) -> (r: Option<
    (rpc::SCurveStartConditions, usize),
>)
    requires
        pos <= buf.len(),
    ensures
        ({
            let s = buf@.skip(pos as int);
            match r {
                Some(p) => p.1 <= buf@.len() && spec_parse_start_conditions(s) == Some(
                    (p.0, buf@.skip(p.1 as int)),
                ),
                None => spec_parse_start_conditions(s) is None,
            }
        }),
{
    match parse_u64(buf, pos) {
        None => None,
        Some((q0, p1)) => match parse_u64(buf, p1) {
            None => None,
            Some((q1, p2)) => match parse_u64(buf, p2) {
                None => None,
                Some((v0, p3)) => match parse_u64(buf, p3) {
                    None => None,
                    Some((v1, p4)) => Some((rpc::SCurveStartConditions { q0, q1, v0, v1 }, p4)),
                },
            },
        },
    }
}

fn parse_scurve_params(buf: &Vec<u8>, pos: usize) -> (r: Option<(rpc::SCurveParameters, usize)>)
    requires
        pos <= buf.len(),
    ensures
        ({
            let s = buf@.skip(pos as int);
            match r {
                Some(p) => p.1 <= buf@.len() && spec_parse_scurve_params(s) == Some(
                    (p.0, buf@.skip(p.1 as int)),
                ),
                None => spec_parse_scurve_params(s) is None,
            }
        }),
{
    match parse_time_intervals(buf, pos) {
        None => None,
        Some((time_intervals, p1)) => match parse_u64(buf, p1) {
            None => None,
            Some((j_max, p2)) => match parse_u64(buf, p2) {
                None => None,
                Some((j_min, p3)) => match parse_u64(buf, p3) {
                    None => None,
                    Some((a_lim_a, p4)) => match parse_u64(buf, p4) {
                        None => None,
                        Some((a_lim_d, p5)) => match parse_u64(buf, p5) {
                            None => None,
                            Some((v_lim, p6)) => match parse_start_conditions(buf, p6) {
                                None => None,
                                Some((conditions, p7)) => Some(
                                    (
                                        rpc::SCurveParameters {
                                            time_intervals,
                                            j_max,
                                            j_min,
                                            a_lim_a,
                                            a_lim_d,
                                            v_lim,
                                            conditions,
                                        },
                                        p7,
                                    ),
                                ),
                            },
                        },
                    },
                },
            },
        },
    }
}

fn parse_move_req(buf: &Vec<u8>, pos: usize) -> (r: Option<(rpc::MoveReqBody, usize)>)
    requires
        pos <= buf.len(),
    ensures
        ({
            let s = buf@.skip(pos as int);
            match r {
                Some(p) => p.1 <= buf@.len() && spec_parse_move_req(s) == Some(
                    (p.0, buf@.skip(p.1 as int)),
                ),
                None => spec_parse_move_req(s) is None,
            }
        }),
{
    match parse_scurve_params(buf, pos) {
        None => None,
        Some((params, p1)) => match parse_u32(buf, p1) {
            None => None,
            Some((ratio, p2)) => match parse_bool(buf, p2) {
                None => None,
                Some((ref_left, p3)) => match parse_u32(buf, p3) {
                    None => None,
                    Some((steering, p4)) => match parse_u16(buf, p4) {
                        None => None,
                        Some((steering_setup_ms, p5)) => match parse_bool(buf, p5) {
                            None => None,
                            Some((reverse, p6)) => Some(
                                (
                                    rpc::MoveReqBody {
                                        params,
                                        ratio,
                                        ref_left,
                                        steering,
                                        steering_setup_ms,
                                        reverse,
                                    },
                                    p6,
                                ),
                            ),
                        },
                    },
                },
            },
        },
    }
}

fn parse_move_rep(buf: &Vec<u8>, pos: usize) -> (r: Option<(rpc::MoveRepBody, usize)>)
    requires
        pos <= buf.len(),
    ensures
        ({
            let s = buf@.skip(pos as int);
            match r {
                Some(p) => p.1 <= buf@.len() && spec_parse_move_rep(s) == Some(
                    (p.0, buf@.skip(p.1 as int)),
                ),
                None => spec_parse_move_rep(s) is None,
            }
        }),
{
    match parse_u8(buf, pos) {
        None => None,
        Some((b, p1)) => {
            if b == 0 {
                Some((rpc::MoveRepBody::Busy, p1))
            } else if b == 1 {
                Some((rpc::MoveRepBody::Accepted, p1))
            } else {
                None
            }
        },
    }
}

fn parse_move_status_rep(buf: &Vec<u8>, pos: usize) -> (r: Option<(rpc::MoveStatusRepBody, usize)>)
    requires
        pos <= buf.len(),
    ensures
        ({
            let s = buf@.skip(pos as int);
            match r {
                Some(p) => p.1 <= buf@.len() && spec_parse_move_status_rep(s) == Some(
                    (p.0, buf@.skip(p.1 as int)),
                ),
                None => spec_parse_move_status_rep(s) is None,
            }
        }),
{
    match parse_u8(buf, pos) {
        None => None,
        Some((b, p1)) => {
            if b == 0 {
                match parse_u32(buf, p1) {
                    None => None,
                    Some((elapsed, p2)) => match parse_u32(buf, p2) {
                        None => None,
                        Some((remaining, p3)) => Some(
                            (rpc::MoveStatusRepBody::Executing { elapsed, remaining }, p3),
                        ),
                    },
                }
            } else if b == 1 {
                Some((rpc::MoveStatusRepBody::NoCommand, p1))
            } else {
                None
            }
        },
    }
}

fn parse_pid_params(buf: &Vec<u8>, pos: usize) -> (r: Option<(rpc::PidParams, usize)>)
    requires
        pos <= buf.len(),
    ensures
        ({
            let s = buf@.skip(pos as int);
            match r {
                Some(p) => p.1 <= buf@.len() && spec_parse_pid_params(s) == Some(
                    (p.0, buf@.skip(p.1 as int)),
                ),
                None => spec_parse_pid_params(s) is None,
            }
        }),
{
    match parse_u32(buf, pos) {
        None => None,
        Some((kp, p1)) => match parse_u32(buf, p1) {
            None => None,
            Some((ki, p2)) => match parse_u32(buf, p2) {
                None => None,
                Some((kd, p3)) => match parse_u32(buf, p3) {
                    None => None,
                    Some((p_limit, p4)) => match parse_u32(buf, p4) {
                        None => None,
                        Some((i_limit, p5)) => match parse_u32(buf, p5) {
                            None => None,
                            Some((d_limit, p6)) => match parse_u32(buf, p6) {
                                None => None,
                                Some((output_limit, p7)) => Some(
                                    (
                                        rpc::PidParams {
                                            kp,
                                            ki,
                                            kd,
                                            p_limit,
                                            i_limit,
                                            d_limit,
                                            output_limit,
                                        },
                                        p7,
                                    ),
                                ),
                            },
                        },
                    },
                },
            },
        },
    }
}

fn parse_pid_update_req(buf: &Vec<u8>, pos: usize) -> (r: Option<
    (rpc::PidParamUpdateReqBody, usize),
>)
    requires
        pos <= buf.len(),
    ensures
        ({
            let s = buf@.skip(pos as int);
            match r {
                Some(p) => p.1 <= buf@.len() && spec_parse_pid_update_req(s) == Some(
                    (p.0, buf@.skip(p.1 as int)),
                ),
                None => spec_parse_pid_update_req(s) is None,
            }
        }),
{
    match parse_pid_params(buf, pos) {
        None => None,
        Some((left, p1)) => match parse_pid_params(buf, p1) {
            None => None,
            Some((right, p2)) => match parse_u16(buf, p2) {
                None => None,
                Some((update_interval_ms, p3)) => Some(
                    (rpc::PidParamUpdateReqBody { params: [left, right], update_interval_ms }, p3),
                ),
            },
        },
    }
}

fn parse_pid_update_rep(buf: &Vec<u8>, pos: usize) -> (r: Option<
    (rpc::PidParamUpdateRepBody, usize),
>)
    requires
        pos <= buf.len(),
    ensures
        ({
            let s = buf@.skip(pos as int);
            match r {
                Some(p) => p.1 <= buf@.len() && spec_parse_pid_update_rep(s) == Some(
                    (p.0, buf@.skip(p.1 as int)),
                ),
                None => spec_parse_pid_update_rep(s) is None,
            }
        }),
{
    match parse_u8(buf, pos) {
        None => None,
        Some((b, p1)) => {
            if b == 0 {
                Some((rpc::PidParamUpdateRepBody::Updated, p1))
            } else if b == 1 {
                Some((rpc::PidParamUpdateRepBody::Busy, p1))
            } else {
                None
            }
        },
    }
}

fn parse_raw_teleop_req(buf: &Vec<u8>, pos: usize) -> (r: Option<(rpc::RawTeleOpReqBody, usize)>)
    requires
        pos <= buf.len(),
    ensures
        ({
            let s = buf@.skip(pos as int);
            match r {
                Some(p) => p.1 <= buf@.len() && spec_parse_raw_teleop_req(s) == Some(
                    (p.0, buf@.skip(p.1 as int)),
                ),
                None => spec_parse_raw_teleop_req(s) is None,
            }
        }),
{
    match parse_opt_u32(buf, pos) {
        None => None,
        Some((steering, p1)) => match parse_opt_u32(buf, p1) {
            None => None,
            Some((wheel_l, p2)) => match parse_opt_u32(buf, p2) {
                None => None,
                Some((wheel_r, p3)) => Some(
                    (rpc::RawTeleOpReqBody { steering, wheel_l, wheel_r }, p3),
                ),
            },
        },
    }
}

fn parse_raw_teleop_rep(buf: &Vec<u8>, pos: usize) -> (r: Option<(rpc::RawTeleOpRepBody, usize)>)
    requires
        pos <= buf.len(),
    ensures
        ({
            let s = buf@.skip(pos as int);
            match r {
                Some(p) => p.1 <= buf@.len() && spec_parse_raw_teleop_rep(s) == Some(
                    (p.0, buf@.skip(p.1 as int)),
                ),
                None => spec_parse_raw_teleop_rep(s) is None,
            }
        }),
{
    match parse_u8(buf, pos) {
        None => None,
        Some((b, p1)) => {
            if b == 0 {
                Some((rpc::RawTeleOpRepBody::Applied, p1))
            } else if b == 1 {
                Some((rpc::RawTeleOpRepBody::Busy, p1))
            } else {
                None
            }
        },
    }
}

fn parse_rpc_payload(buf: &Vec<u8>, pos: usize) -> (r: Option<(rpc::Payload, usize)>)
    requires
        pos <= buf.len(),
    ensures
        ({
            let s = buf@.skip(pos as int);
            match r {
                Some(p) => p.1 <= buf@.len() && spec_parse_rpc_payload(s) == Some(
                    (p.0, buf@.skip(p.1 as int)),
                ),
                None => spec_parse_rpc_payload(s) is None,
            }
        }),
{
    match parse_u8(buf, pos) {
        None => None,
        Some((tag, p1)) => {
            if tag == 0 {
                Some((rpc::Payload::PingReq(()), p1))
            } else if tag == 1 {
                match parse_ping_rep(buf, p1) {
                    None => None,
                    Some((b, p2)) => Some((rpc::Payload::PingRep(b), p2)),
                }
            } else if tag == 2 {
                match parse_move_req(buf, p1) {
                    None => None,
                    Some((b, p2)) => Some((rpc::Payload::MoveReq(b), p2)),
                }
            } else if tag == 3 {
                match parse_move_rep(buf, p1) {
                    None => None,
                    Some((b, p2)) => Some((rpc::Payload::MoveRep(b), p2)),
                }
            } else if tag == 4 {
                Some((rpc::Payload::MoveStatusReq(()), p1))
            } else if tag == 5 {
                match parse_move_status_rep(buf, p1) {
                    None => None,
                    Some((b, p2)) => Some((rpc::Payload::MoveStatusRep(b), p2)),
                }
            } else if tag == 6 {
                Some((rpc::Payload::MoveCancelReq(()), p1))
            } else if tag == 7 {
                Some((rpc::Payload::MoveCancelRep(()), p1))
            } else if tag == 8 {
                match parse_pid_update_req(buf, p1) {
                    None => None,
                    Some((b, p2)) => Some((rpc::Payload::PidParamUpdateReq(b), p2)),
                }
            } else if tag == 9 {
                match parse_pid_update_rep(buf, p1) {
                    None => None,
                    Some((b, p2)) => Some((rpc::Payload::PidParamUpdateRep(b), p2)),
                }
            } else if tag == 10 {
                match parse_raw_teleop_req(buf, p1) {
                    None => None,
                    Some((b, p2)) => Some((rpc::Payload::RawTeleOpReq(b), p2)),
                }
            } else if tag == 11 {
                match parse_raw_teleop_rep(buf, p1) {
                    None => None,
                    Some((b, p2)) => Some((rpc::Payload::RawTeleOpRep(b), p2)),
                }
            } else {
                None
            }
        },
    }
}

fn parse_rpc_message(buf: &Vec<u8>, pos: usize) -> (r: Option<(rpc::Message, usize)>)
    requires
        pos <= buf.len(),
    ensures
        ({
            let s = buf@.skip(pos as int);
            match r {
                Some(p) => p.1 <= buf@.len() && spec_parse_rpc_message(s) == Some(
                    (p.0, buf@.skip(p.1 as int)),
                ),
                None => spec_parse_rpc_message(s) is None,
            }
        }),
{
    match parse_u16(buf, pos) {
        None => None,
        Some((id, p1)) => match parse_rpc_payload(buf, p1) {
            None => None,
            Some((payload, p2)) => Some((rpc::Message { id, payload }, p2)),
        },
    }
}

fn parse_ahrs(buf: &Vec<u8>, pos: usize) -> (r: Option<(stream::AhrsBody, usize)>)
    requires
        pos <= buf.len(),
    ensures
        ({
            let s = buf@.skip(pos as int);
            match r {
                Some(p) => p.1 <= buf@.len() && spec_parse_ahrs(s) == Some(
                    (p.0, buf@.skip(p.1 as int)),
                ),
                None => spec_parse_ahrs(s) is None,
            }
        }),
{
    match parse_i16(buf, pos) {
        None => None,
        Some((ax, p1)) => match parse_i16(buf, p1) {
            None => None,
            Some((ay, p2)) => match parse_i16(buf, p2) {
                None => None,
                Some((az, p3)) => match parse_i16(buf, p3) {
                    None => None,
                    Some((gx, p4)) => match parse_i16(buf, p4) {
                        None => None,
                        Some((gy, p5)) => match parse_i16(buf, p5) {
                            None => None,
                            Some((gz, p6)) => match parse_i16(buf, p6) {
                                None => None,
                                Some((mx, p7)) => match parse_i16(buf, p7) {
                                    None => None,
                                    Some((my, p8)) => match parse_i16(buf, p8) {
                                        None => None,
                                        Some((mz, p9)) => match parse_u32(buf, p9) {
                                            None => None,
                                            Some((time_ms, p10)) => Some(
                                                (
                                                    stream::AhrsBody {
                                                        acc: [ax, ay, az],
                                                        gyro: [gx, gy, gz],
                                                        mag: [mx, my, mz],
                                                        time_ms,
                                                    },
                                                    p10,
                                                ),
                                            ),
                                        },
                                    },
                                },
                            },
                        },
                    },
                },
            },
        },
    }
}

fn parse_stream_payload(buf: &Vec<u8>, pos: usize) -> (r: Option<(stream::Payload, usize)>)
    requires
        pos <= buf.len(),
    ensures
        ({
            let s = buf@.skip(pos as int);
            match r {
                Some(p) => p.1 <= buf@.len() && spec_parse_stream_payload(s) == Some(
                    (p.0, buf@.skip(p.1 as int)),
                ),
                None => spec_parse_stream_payload(s) is None,
            }
        }),
{
    match parse_u8(buf, pos) {
        None => None,
        Some((tag, p1)) => {
            if tag == 0 {
                match parse_ahrs(buf, p1) {
                    None => None,
                    Some((b, p2)) => Some((stream::Payload::Ahrs(b), p2)),
                }
            } else {
                None
            }
        },
    }
}

fn parse_message(buf: &Vec<u8>, pos: usize) -> (r: Option<(Message, usize)>)
    requires
        pos <= buf.len(),
    ensures
        ({
            let s = buf@.skip(pos as int);
            match r {
                Some(p) => p.1 <= buf@.len() && spec_parse_message(s) == Some(
                    (p.0, buf@.skip(p.1 as int)),
                ),
                None => spec_parse_message(s) is None,
            }
        }),
{
    match parse_u8(buf, pos) {
        None => None,
        Some((tag, p1)) => {
            if tag == 0 {
                match parse_rpc_message(buf, p1) {
                    None => None,
                    Some((r0, p2)) => Some((Message { payload: Payload::RPC(r0) }, p2)),
                }
            } else if tag == 1 {
                match parse_stream_payload(buf, p1) {
                    None => None,
                    Some((payload, p2)) => Some(
                        (Message { payload: Payload::Stream(stream::Message { payload }) }, p2),
                    ),
                }
            } else {
                None
            }
        },
    }
}

/// Deserialize one frame's decoded content. The content must hold exactly
/// one serialized message; trailing bytes are a deserialization error.
pub fn decode_message(buf: &Vec<u8>) -> (r: Option<Message>)
    ensures
        r == spec_decode(buf@),
{
    proof {
        assert(buf@.skip(0) =~= buf@);
    }
    match parse_message(buf, 0) {
        None => None,
        Some((m, end)) => {
            if end == buf.len() {
                Some(m)
            } else {
                None
            }
        },
    }
}

} // verus!
