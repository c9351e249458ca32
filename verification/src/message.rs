//! Definitions for messages exchanged between the host and device.
use crate::rpc;
use crate::stream;
use vstd::prelude::*;

verus! {

/// `Message` represents a single exchanged message.
#[derive(Clone, Copy, Debug, PartialEq, Eq)]
pub struct Message {
    /// Message payload.
    pub payload: Payload,
}

/// `Payload` represents the message content.
///
/// Every message belongs to exactly one of the two traffic classes, and the
/// class is determined solely by this tag.
#[derive(Clone, Copy, Debug, PartialEq, Eq)]
pub enum Payload {
    /// Message is an RPC message.
    RPC(rpc::Message),
    /// Message is a stream message.
    Stream(stream::Message),
}

} // verus!
