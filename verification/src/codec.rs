//! Host-side codec: whole `Message` values over a raw byte buffer.
//!
//! `Codec` adapts the [`Accumulator`](crate::accum::Accumulator) and the
//! frame encoder to a pending-bytes buffer as a bidirectional byte-stream
//! transport fills it: `decode` consumes buffered received bytes and yields
//! at most one message per call, `encode` appends one message's frame to an
//! outgoing buffer. Framing-level failures are surfaced as recoverable
//! [`CodecError`] values after the offending bytes have been discarded.
use crate::accum::Accumulator;
use crate::accum::FeedOutcome;
use crate::accum::{spec_feed_buffer, spec_feed_outcome};
use crate::error::CodecError;
use crate::frame;
use crate::message::Message;
use vstd::prelude::*;

verus! {

/// Returns the byte distance between `p2` & `p1`, evaluated as
/// `p2` - `p1`. `p2` must not precede `p1`.
pub fn offset_from(p2: usize, p1: usize) -> (r: usize)
    requires
        p1 <= p2,
    ensures
        r == p2 - p1,
{
    p2 - p1
}

/// Remove the first `n` bytes of `src`, keeping the rest in order.
fn drain_prefix(src: &mut Vec<u8>, n: usize)
    requires
        n <= old(src)@.len(),
    ensures
        final(src)@ == old(src)@.skip(n as int),
{
    let count = offset_from(src.len(), n);
    let mut rest: Vec<u8> = Vec::with_capacity(count);
    let mut i: usize = n;
    while i < src.len()
        invariant
            n <= i <= src@.len(),
            src@ == old(src)@,
            rest@ == src@.subrange(n as int, i as int),
        decreases src@.len() - i,
    {
        let b = src[i];
        rest.push(b);
        proof {
            assert(rest@ =~= src@.subrange(n as int, i as int + 1));
        }
        i = i + 1;
    }
    proof {
        assert(rest@ =~= old(src)@.skip(n as int));
    }
    *src = rest;
}

/// A codec that carries all transmitted data over the byte stream in the
/// form of framed messages.
///
/// On transmitting, a message is serialized and framed in full; encoding is
/// total over the payload catalog. On receiving, frames are recovered and
/// deserialized through the accumulator. If the receive buffer fills before
/// a delimiter arrives, the buffered data is dropped; if a frame fails to
/// deserialize, the buffered data is dropped. Both are recoverable.
pub struct Codec {
    decoder: Accumulator,
}

impl View for Codec {
    type V = Seq<u8>;

    closed spec fn view(&self) -> Seq<u8> {
        self.decoder@
    }
}

impl Codec {
    /// The partial-frame buffer stays within bounds.
    pub closed spec fn wf(self) -> bool {
        self.decoder.wf()
    }

    /// Append the frame of one message to the outgoing byte buffer.
    ///
    /// Every message of the payload catalog is bounded in size by
    /// construction, so encoding always succeeds.
    pub fn encode(&self, item: &Message, dst: &mut Vec<u8>) -> (r: Result<(), CodecError>)
        ensures
            r is Ok,
            final(dst)@ == old(dst)@ + frame::spec_frame(*item),
    {
        frame::into_vec(item, dst);
        Ok(())
    }

    /// Consume buffered received bytes and decode at most one message.
    ///
    /// `Ok(None)` means all of `src` was absorbed as a partial frame and
    /// more bytes are needed. After any other result the consumed prefix
    /// has been removed from `src` and the call can be repeated on the
    /// remainder.
    pub fn decode(&mut self, src: &mut Vec<u8>) -> (r: Result<Option<Message>, CodecError>)
        requires
            old(self).wf(),
        ensures
            final(self).wf(),
            final(self)@ == spec_feed_buffer(old(self)@, old(src)@),
            match spec_feed_outcome(old(self)@, old(src)@) {
                FeedOutcome::Consumed => {
                    &&& r == Ok::<Option<Message>, CodecError>(None)
                    &&& final(src)@ == Seq::<u8>::empty()
                },
                FeedOutcome::Success { message, consumed } => {
                    &&& r == Ok::<Option<Message>, CodecError>(Some(message))
                    &&& final(src)@ == old(src)@.skip(consumed as int)
                },
                FeedOutcome::Overflow { consumed } => {
                    &&& r == Err::<Option<Message>, CodecError>(CodecError::FrameOverflow)
                    &&& final(src)@ == old(src)@.skip(consumed as int)
                },
                FeedOutcome::DeserializationError { consumed } => {
                    &&& r == Err::<Option<Message>, CodecError>(CodecError::Deserialization)
                    &&& final(src)@ == old(src)@.skip(consumed as int)
                },
            },
    {
        let outcome = self.decoder.feed(src.as_slice());
        match outcome {
            FeedOutcome::Consumed => {
                src.clear();
                Ok(None)
            },
            FeedOutcome::Success { message, consumed } => {
                drain_prefix(src, consumed);
                Ok(Some(message))
            },
            FeedOutcome::Overflow { consumed } => {
                drain_prefix(src, consumed);
                Err(CodecError::FrameOverflow)
            },
            FeedOutcome::DeserializationError { consumed } => {
                drain_prefix(src, consumed);
                Err(CodecError::Deserialization)
            },
        }
    }
}

impl Default for Codec {
    /// A codec with an empty receive buffer.
    fn default() -> (r: Self)
        ensures
            r@ == Seq::<u8>::empty(),
            r.wf(),
    {
        Codec { decoder: Accumulator::new() }
    }
}

} // verus!