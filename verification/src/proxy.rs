//! RPC client-side logic.
//!
//! A proxy call (1) draws the next identifier from a wrapping counter,
//! (2) registers a waiter for it — before the request is transmitted, so a
//! fast reply always finds its waiter — (3) sends the request message built
//! here, and (4) classifies the payload its waiter resolves with: the reply
//! variant expected for the request kind yields the reply body, any other
//! variant is a protocol-contract violation reported as a bad response.
//!
//! The transmission itself and the waiting are the runtime's work; this
//! module decides identifiers, messages, registration outcomes and reply
//! classification, one function per step.
use crate::error::RPCError;
use crate::message;
use crate::router::WaiterTable;
use crate::rpc;
use vstd::prelude::*;

verus! {

/// Wrapping successor of an RPC identifier: the space wraps modulo 2^16.
pub open spec fn spec_next_id(id: u16) -> u16 {
    if id == u16::MAX {
        0
    } else {
        (id + 1) as u16
    }
}

/// Generator of RPC correlation identifiers.
///
/// Identifiers advance by wrapping increment; a value is reused only after
/// 2^16 further calls, and registration (not generation) is what detects a
/// still-outstanding identifier.
pub struct IdGenerator {
    last: u16,
}

impl IdGenerator {
    /// The most recently generated identifier.
    pub closed spec fn last_id(self) -> u16 {
        self.last
    }

    /// A fresh generator. Its first identifier is 1.
    pub fn new() -> (r: Self)
        ensures
            r.last_id() == 0,
    {
        IdGenerator { last: 0 }
    }

    /// Generate the identifier for the next call.
    pub fn gen_id(&mut self) -> (id: u16)
        ensures
            id == spec_next_id(old(self).last_id()),
            final(self).last_id() == id,
    {
        self.last = if self.last == u16::MAX {
            0
        } else {
            self.last + 1
        };
        self.last
    }
}

/// Register the waiter of a call before its request is transmitted.
///
/// Registration fails — and the call aborts — exactly when an unresolved
/// waiter already occupies the identifier, which means the identifier
/// space is saturated with outstanding calls; `stale` is the caller's
/// judgment that the present occupant was abandoned (see
/// [`WaiterTable::register`]).
pub fn register_call_waiter<W>(
    table: &mut WaiterTable<W>,
    id: u16,
    waiter: W,
    stale: bool,
) -> (r: Result<(), RPCError>)
    ensures
        r is Ok <==> (!old(table)@.contains_key(id) || stale),
        match r {
            Ok(_) => final(table)@ == old(table)@.insert(id, waiter),
            Err(e) => e == RPCError::TooManyInFlight && final(table)@ == old(table)@,
        },
{
    match table.register(id, waiter, stale) {
        Ok(_) => Ok(()),
        Err(_abandoned) => Err(RPCError::TooManyInFlight),
    }
}

/// The request message of one ping call.
pub fn ping_request(id: u16, body: rpc::PingReqBody) -> (m: message::Message)
    ensures
        m == (message::Message {
            payload: message::Payload::RPC(
                rpc::Message { id, payload: rpc::Payload::PingReq(body) },
            ),
        }),
{
    message::Message {
        payload: message::Payload::RPC(rpc::Message { id, payload: rpc::Payload::PingReq(body) }),
    }
}

/// Classify the resolved payload of a ping call.
pub fn ping_reply(payload: rpc::Payload) -> (r: Result<rpc::PingRepBody, RPCError>)
    ensures
        match payload {
            rpc::Payload::PingRep(b) => r == Ok::<rpc::PingRepBody, RPCError>(b),
            _ => r == Err::<rpc::PingRepBody, RPCError>(RPCError::BadResponse),
        },
{
    match payload {
        rpc::Payload::PingRep(b) => Ok(b),
        _ => Err(RPCError::BadResponse),
    }
}

/// The request message of one move call.
pub fn move_cmd_request(id: u16, body: rpc::MoveReqBody) -> (m: message::Message)
    ensures
        m == (message::Message {
            payload: message::Payload::RPC(
                rpc::Message { id, payload: rpc::Payload::MoveReq(body) },
            ),
        }),
{
    message::Message {
        payload: message::Payload::RPC(rpc::Message { id, payload: rpc::Payload::MoveReq(body) }),
    }
}

/// Classify the resolved payload of a move call.
pub fn move_cmd_reply(payload: rpc::Payload) -> (r: Result<rpc::MoveRepBody, RPCError>)
    ensures
        match payload {
            rpc::Payload::MoveRep(b) => r == Ok::<rpc::MoveRepBody, RPCError>(b),
            _ => r == Err::<rpc::MoveRepBody, RPCError>(RPCError::BadResponse),
        },
{
    match payload {
        rpc::Payload::MoveRep(b) => Ok(b),
        _ => Err(RPCError::BadResponse),
    }
}

/// The request message of one move-status call.
pub fn move_status_request(id: u16, body: rpc::MoveStatusReqBody) -> (m: message::Message)
    ensures
        m == (message::Message {
            payload: message::Payload::RPC(
                rpc::Message { id, payload: rpc::Payload::MoveStatusReq(body) },
            ),
        }),
{
    message::Message {
        payload: message::Payload::RPC(
            rpc::Message { id, payload: rpc::Payload::MoveStatusReq(body) },
        ),
    }
}

/// Classify the resolved payload of a move-status call.
pub fn move_status_reply(payload: rpc::Payload) -> (r: Result<rpc::MoveStatusRepBody, RPCError>)
    ensures
        match payload {
            rpc::Payload::MoveStatusRep(b) => r == Ok::<rpc::MoveStatusRepBody, RPCError>(b),
            _ => r == Err::<rpc::MoveStatusRepBody, RPCError>(RPCError::BadResponse),
        },
{
    match payload {
        rpc::Payload::MoveStatusRep(b) => Ok(b),
        _ => Err(RPCError::BadResponse),
    }
}

/// The request message of one move-cancel call.
pub fn move_cancel_request(id: u16, body: rpc::MoveCancelReqBody) -> (m: message::Message)
    ensures
        m == (message::Message {
            payload: message::Payload::RPC(
                rpc::Message { id, payload: rpc::Payload::MoveCancelReq(body) },
            ),
        }),
{
    message::Message {
        payload: message::Payload::RPC(
            rpc::Message { id, payload: rpc::Payload::MoveCancelReq(body) },
        ),
    }
}

/// Classify the resolved payload of a move-cancel call.
pub fn move_cancel_reply(payload: rpc::Payload) -> (r: Result<rpc::MoveCancelRepBody, RPCError>)
    ensures
        match payload {
            rpc::Payload::MoveCancelRep(b) => r == Ok::<rpc::MoveCancelRepBody, RPCError>(b),
            _ => r == Err::<rpc::MoveCancelRepBody, RPCError>(RPCError::BadResponse),
        },
{
    match payload {
        rpc::Payload::MoveCancelRep(b) => Ok(b),
        _ => Err(RPCError::BadResponse),
    }
}

/// The request message of one PID-parameter-update call.
pub fn pid_param_update_request(id: u16, body: rpc::PidParamUpdateReqBody) -> (m:
    message::Message)
    ensures
        m == (message::Message {
            payload: message::Payload::RPC(
                rpc::Message { id, payload: rpc::Payload::PidParamUpdateReq(body) },
            ),
        }),
{
    message::Message {
        payload: message::Payload::RPC(
            rpc::Message { id, payload: rpc::Payload::PidParamUpdateReq(body) },
        ),
    }
}

/// Classify the resolved payload of a PID-parameter-update call.
pub fn pid_param_update_reply(payload: rpc::Payload) -> (r: Result<
    rpc::PidParamUpdateRepBody,
    RPCError,
>)
    ensures
        match payload {
            rpc::Payload::PidParamUpdateRep(b) => r == Ok::<rpc::PidParamUpdateRepBody, RPCError>(
                b,
            ),
            _ => r == Err::<rpc::PidParamUpdateRepBody, RPCError>(RPCError::BadResponse),
        },
{
    match payload {
        rpc::Payload::PidParamUpdateRep(b) => Ok(b),
        _ => Err(RPCError::BadResponse),
    }
}

/// The request message of one raw-teleop call.
pub fn raw_teleop_request(id: u16, body: rpc::RawTeleOpReqBody) -> (m: message::Message)
    ensures
        m == (message::Message {
            payload: message::Payload::RPC(
                rpc::Message { id, payload: rpc::Payload::RawTeleOpReq(body) },
            ),
        }),
{
    message::Message {
        payload: message::Payload::RPC(
            rpc::Message { id, payload: rpc::Payload::RawTeleOpReq(body) },
        ),
    }
}

/// Classify the resolved payload of a raw-teleop call.
pub fn raw_teleop_reply(payload: rpc::Payload) -> (r: Result<rpc::RawTeleOpRepBody, RPCError>)
    ensures
        match payload {
            rpc::Payload::RawTeleOpRep(b) => r == Ok::<rpc::RawTeleOpRepBody, RPCError>(b),
            _ => r == Err::<rpc::RawTeleOpRepBody, RPCError>(RPCError::BadResponse),
        },
{
    match payload {
        rpc::Payload::RawTeleOpRep(b) => Ok(b),
        _ => Err(RPCError::BadResponse),
    }
}

} // verus!