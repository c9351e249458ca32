//! Host-side error definitions.
//!
//! The taxonomy separates recoverable conditions from fatal ones. Framing
//! overflow and deserialization failures are handled by clearing buffered
//! state and resynchronizing; they never tear the connection down. An I/O
//! failure of the underlying transport is fatal to the connection instance
//! and lives with the transport code, outside this crate's codec: the codec
//! itself can only report the two recoverable conditions.
use vstd::prelude::*;

verus! {

/// Errors reported while recovering `Message`s from a framed byte stream.
///
/// Both variants are recoverable: the offending buffered bytes have been
/// discarded and the stream resynchronizes at the next delimiter.
#[derive(Clone, Copy, Debug, PartialEq, Eq)]
pub enum CodecError {
    /// The receive frame buffer overflowed before a delimiter was seen.
    FrameOverflow,
    /// A delimited frame did not deserialize as a valid `Message`.
    Deserialization,
}

/// Errors surfaced to the caller of one RPC. They concern only that call:
/// other in-flight calls and the stream subscriptions are unaffected.
#[derive(Clone, Copy, Debug, PartialEq, Eq)]
pub enum RPCError {
    /// The waiter was dropped without resolution: the remote disconnected
    /// or the router loop exited.
    Disconnected,
    /// No waiter slot was free for the identifier: the identifier space is
    /// saturated with unresolved calls. Recoverable by retrying later.
    TooManyInFlight,
    /// A reply arrived under the call's identifier but its payload variant
    /// did not match the expected reply shape for the request that was
    /// sent: a protocol-contract mismatch between the two ends.
    BadResponse,
    /// A codec-level failure was surfaced to this call.
    Codec(CodecError),
}

} // verus!