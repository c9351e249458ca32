//! Host/device communication protocol engine: a self-delimiting frame codec,
//! a bounded-memory accumulator that recovers messages from a raw byte
//! stream, and the host-side router/proxy logic that correlates RPC replies
//! with their callers and fans out telemetry to subscribers.
use vstd::prelude::*;

pub mod accum;
pub mod codec;
pub mod error;
pub mod fanout;
pub mod frame;
pub mod message;
pub mod proxy;
pub mod router;
pub mod rpc;
pub mod stream;
pub mod wire;

verus! {

/// The maximum length of a serialized `Message` in terms of bytes.
///
/// Both ends of the link must agree on this constant: a frame whose decoded
/// size would exceed it is treated as an overflow by the receiver.
pub const MAX_MESSAGE_LENGTH: usize = 256;

/// The maximum length in bytes of one frame on the wire: byte stuffing at
/// most doubles the serialized message, and the delimiter adds one byte.
pub const MAX_FRAME_LENGTH: usize = 2 * MAX_MESSAGE_LENGTH + 1;

} // verus!
