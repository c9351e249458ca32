//! Bounded-memory recovery of messages from a chunked byte stream.
//!
//! The `Accumulator` consumes byte chunks of arbitrary size and alignment
//! and yields decoded messages frame by frame. Between calls it keeps only
//! the bytes of the current partial frame, never more than
//! `MAX_FRAME_LENGTH` of them, so it runs in fixed memory.
//!
//! One call consumes bytes up to and including the first delimiter in the
//! chunk (or the whole chunk when it holds none); bytes after the delimiter
//! are left to the caller to feed again. When the buffer would outgrow its
//! capacity the buffered bytes and the offending run up to the delimiter
//! (or chunk end) are discarded and scanning resumes at the following byte:
//! framing resynchronizes instead of tearing the connection down.
use crate::frame;
use crate::frame::FRAME_DELIMITER;
use crate::message::Message;
use crate::MAX_FRAME_LENGTH;
use vstd::prelude::*;

verus! {

/// Result of feeding one chunk to an [`Accumulator`].
///
/// Every variant but `Consumed` reports how many leading bytes of the chunk
/// were consumed; the caller continues by feeding the rest of the chunk.
#[derive(Clone, Copy, Debug, PartialEq, Eq)]
pub enum FeedOutcome {
    /// No complete frame yet; the whole chunk was absorbed.
    Consumed,
    /// A complete frame was consumed and decoded.
    Success { message: Message, consumed: usize },
    /// The buffer would have overflowed before a delimiter was seen. The
    /// buffered bytes and the consumed part of the chunk were discarded.
    Overflow { consumed: usize },
    /// A frame was delimited correctly but did not decode as a message.
    /// The buffered bytes and the consumed part of the chunk were discarded.
    DeserializationError { consumed: usize },
}

/// Index of the first delimiter byte, if any.
pub open spec fn spec_find_delimiter(s: Seq<u8>) -> Option<int>
    decreases s.len(),
{
    if s.len() == 0 {
        None
    } else if s[0] == FRAME_DELIMITER {
        Some(0)
    } else {
        match spec_find_delimiter(s.skip(1)) {
            None => None,
            Some(i) => Some(i + 1),
        }
    }
}

/// What the first delimiter index means: the byte there is the delimiter
/// and no earlier byte is.
pub proof fn lemma_find_delimiter_properties(s: Seq<u8>)
    ensures
        match spec_find_delimiter(s) {
            Some(i) => 0 <= i < s.len() && s[i] == FRAME_DELIMITER && forall|j: int|
                0 <= j < i ==> s[j] != FRAME_DELIMITER,
            None => forall|j: int| 0 <= j < s.len() ==> s[j] != FRAME_DELIMITER,
        },
    decreases s.len(),
{
    if s.len() != 0 && s[0] != FRAME_DELIMITER {
        lemma_find_delimiter_properties(s.skip(1));
        match spec_find_delimiter(s.skip(1)) {
            None => {
                assert forall|j: int| 0 <= j < s.len() implies s[j] != FRAME_DELIMITER by {
                    if j > 0 {
                        assert(s[j] == s.skip(1)[j - 1]);
                    }
                }
            },
            Some(i) => {
                assert(s[i + 1] == s.skip(1)[i]);
                assert forall|j: int| 0 <= j < i + 1 implies s[j] != FRAME_DELIMITER by {
                    if j > 0 {
                        assert(s[j] == s.skip(1)[j - 1]);
                    }
                }
            },
        }
    }
}

/// A sequence without delimiter bytes has no first delimiter.
pub proof fn lemma_find_delimiter_none(s: Seq<u8>)
    requires
        forall|j: int| 0 <= j < s.len() ==> s[j] != FRAME_DELIMITER,
    ensures
        spec_find_delimiter(s) is None,
    decreases s.len(),
{
    if s.len() != 0 {
        assert forall|j: int| 0 <= j < s.skip(1).len() implies s.skip(1)[j]
            != FRAME_DELIMITER by {
            assert(s.skip(1)[j] == s[j + 1]);
        }
        lemma_find_delimiter_none(s.skip(1));
    }
}

/// The first delimiter is at `i` when the byte there is a delimiter and no
/// earlier byte is.
pub proof fn lemma_find_delimiter_at(s: Seq<u8>, i: int)
    requires
        0 <= i < s.len(),
        s[i] == FRAME_DELIMITER,
        forall|j: int| 0 <= j < i ==> s[j] != FRAME_DELIMITER,
    ensures
        spec_find_delimiter(s) == Some(i),
    decreases i,
{
    if i > 0 {
        assert forall|j: int| 0 <= j < i - 1 implies s.skip(1)[j] != FRAME_DELIMITER by {
            assert(s.skip(1)[j] == s[j + 1]);
        }
        assert(s.skip(1)[i - 1] == s[i]);
        lemma_find_delimiter_at(s.skip(1), i - 1);
    }
}

/// The outcome of feeding `chunk` to an accumulator buffering `buf`.
pub open spec fn spec_feed_outcome(buf: Seq<u8>, chunk: Seq<u8>) -> FeedOutcome {
    if chunk.len() == 0 {
        FeedOutcome::Consumed
    } else {
        match spec_find_delimiter(chunk) {
            None => {
                if buf.len() + chunk.len() > MAX_FRAME_LENGTH {
                    FeedOutcome::Overflow { consumed: chunk.len() as usize }
                } else {
                    FeedOutcome::Consumed
                }
            },
            Some(n) => {
                if buf.len() + n + 1 > MAX_FRAME_LENGTH {
                    FeedOutcome::Overflow { consumed: (n + 1) as usize }
                } else {
                    match frame::spec_decode_frame_content(buf + chunk.take(n)) {
                        Some(m) => FeedOutcome::Success {
                            message: m,
                            consumed: (n + 1) as usize,
                        },
                        None => FeedOutcome::DeserializationError { consumed: (n + 1) as usize },
                    }
                }
            },
        }
    }
}

/// The bytes an accumulator buffering `buf` keeps after being fed `chunk`.
pub open spec fn spec_feed_buffer(buf: Seq<u8>, chunk: Seq<u8>) -> Seq<u8> {
    if chunk.len() == 0 {
        buf
    } else {
        match spec_find_delimiter(chunk) {
            None => {
                if buf.len() + chunk.len() > MAX_FRAME_LENGTH {
                    Seq::empty()
                } else {
                    buf + chunk
                }
            },
            Some(n) => Seq::empty(),
        }
    }
}

/// Feeding one whole encoded frame to an empty accumulator consumes the
/// frame exactly and decodes it back to its message, whatever the message.
pub proof fn lemma_feed_frame(m: Message)
    ensures
        spec_feed_outcome(Seq::<u8>::empty(), frame::spec_frame(m)) == (FeedOutcome::Success {
            message: m,
            consumed: frame::spec_frame(m).len() as usize,
        }),
        spec_feed_buffer(Seq::<u8>::empty(), frame::spec_frame(m)) == Seq::<u8>::empty(),
        frame::spec_frame(m).len() <= MAX_FRAME_LENGTH,
{
    let ser = crate::wire::spec_ser_message(m);
    let st = frame::spec_stuff(ser);
    let f = frame::spec_frame(m);
    frame::lemma_stuff_no_delimiter(ser);
    frame::lemma_stuff_len(ser);
    crate::wire::lemma_ser_message_bounded(m);
    assert(f[st.len() as int] == FRAME_DELIMITER);
    assert forall|j: int| 0 <= j < st.len() implies f[j] != FRAME_DELIMITER by {
        assert(f[j] == st[j]);
    }
    lemma_find_delimiter_at(f, st.len() as int);
    assert(Seq::<u8>::empty() + f.take(st.len() as int) =~= st);
    frame::lemma_decode_frame_content(m);
}

/// Resynchronization: an oversized run of non-delimiter bytes yields one
/// `Overflow` outcome that discards the run entirely, and the next frame
/// then decodes cleanly — none of the oversized bytes leak into it.
pub proof fn lemma_resynchronization(garbage: Seq<u8>, m: Message)
    requires
        garbage.len() > MAX_FRAME_LENGTH,
        forall|j: int| 0 <= j < garbage.len() ==> garbage[j] != FRAME_DELIMITER,
    ensures
        spec_feed_outcome(Seq::<u8>::empty(), garbage) == (FeedOutcome::Overflow {
            consumed: garbage.len() as usize,
        }),
        spec_feed_buffer(Seq::<u8>::empty(), garbage) == Seq::<u8>::empty(),
        spec_feed_outcome(Seq::<u8>::empty(), frame::spec_frame(m)) == (FeedOutcome::Success {
            message: m,
            consumed: frame::spec_frame(m).len() as usize,
        }),
{
    lemma_find_delimiter_none(garbage);
    lemma_feed_frame(m);
}

/// Multi-frame chunk: a chunk holding two complete back-to-back frames
/// yields the first message with its frame consumed exactly, the leftover
/// bytes are precisely the second frame, and feeding them yields the second
/// message.
pub proof fn lemma_multi_frame_chunk(m1: Message, m2: Message)
    ensures
        ({
            let chunk = frame::spec_frame(m1) + frame::spec_frame(m2);
            let n1 = frame::spec_frame(m1).len();
            &&& spec_feed_outcome(Seq::<u8>::empty(), chunk) == (FeedOutcome::Success {
                message: m1,
                consumed: n1 as usize,
            })
            &&& spec_feed_buffer(Seq::<u8>::empty(), chunk) == Seq::<u8>::empty()
            &&& chunk.skip(n1 as int) == frame::spec_frame(m2)
            &&& spec_feed_outcome(Seq::<u8>::empty(), frame::spec_frame(m2))
                == (FeedOutcome::Success {
                message: m2,
                consumed: frame::spec_frame(m2).len() as usize,
            })
        }),
{
    let ser1 = crate::wire::spec_ser_message(m1);
    let st1 = frame::spec_stuff(ser1);
    let f1 = frame::spec_frame(m1);
    let f2 = frame::spec_frame(m2);
    let chunk = f1 + f2;
    frame::lemma_stuff_no_delimiter(ser1);
    frame::lemma_stuff_len(ser1);
    crate::wire::lemma_ser_message_bounded(m1);
    assert(chunk[st1.len() as int] == f1[st1.len() as int]);
    assert(f1[st1.len() as int] == FRAME_DELIMITER);
    assert forall|j: int| 0 <= j < st1.len() implies chunk[j] != FRAME_DELIMITER by {
        assert(chunk[j] == f1[j]);
        assert(f1[j] == st1[j]);
    }
    lemma_find_delimiter_at(chunk, st1.len() as int);
    assert(Seq::<u8>::empty() + chunk.take(st1.len() as int) =~= st1);
    frame::lemma_decode_frame_content(m1);
    assert(chunk.skip(f1.len() as int) =~= f2);
    lemma_feed_frame(m2);
}

/// An accumulator that consumes message data and returns deserialized
/// `Message`s, keeping at most one partial frame buffered.
pub struct Accumulator {
    buf: Vec<u8>,
}

impl View for Accumulator {
    type V = Seq<u8>;

    closed spec fn view(&self) -> Seq<u8> {
        self.buf@
    }
}

impl Accumulator {
    /// The buffer never outgrows the maximum frame length and never holds a
    /// delimiter byte.
    pub open spec fn wf(self) -> bool {
        &&& self@.len() <= MAX_FRAME_LENGTH
        &&& forall|i: int| 0 <= i < self@.len() ==> self@[i] != FRAME_DELIMITER
    }

    /// Create a new accumulator. Its buffer is allocated once, at the
    /// fixed capacity it will never outgrow.
    pub fn new() -> (r: Self)
        ensures
            r@ == Seq::<u8>::empty(),
            r.wf(),
    {
        Accumulator { buf: Vec::with_capacity(MAX_FRAME_LENGTH) }
    }

    /// Reset the accumulator, discarding all buffered partial-frame state.
    pub fn reset(&mut self)
        ensures
            final(self)@ == Seq::<u8>::empty(),
            final(self).wf(),
    {
        self.buf.clear();
    }

    /// Feed a chunk of bytes to the accumulator.
    ///
    /// Consumes bytes up to and including the first delimiter of the chunk
    /// (all of it when it holds none) and reports what they amounted to.
    /// After an outcome with a `consumed` count the caller continues with
    /// `chunk[consumed..]`.
    pub fn feed(&mut self, chunk: &[u8]) -> (r: FeedOutcome)
        requires
            old(self).wf(),
        ensures
            final(self).wf(),
            r == spec_feed_outcome(old(self)@, chunk@),
            final(self)@ == spec_feed_buffer(old(self)@, chunk@),
            match r {
                FeedOutcome::Consumed => true,
                FeedOutcome::Success { message, consumed } => 0 < consumed <= chunk@.len(),
                FeedOutcome::Overflow { consumed } => 0 < consumed <= chunk@.len(),
                FeedOutcome::DeserializationError { consumed } => 0 < consumed
                    <= chunk@.len(),
            },
    {
        if chunk.len() == 0 {
            return FeedOutcome::Consumed;
        }
        match find_delimiter(chunk) {
            None => {
                proof {
                    lemma_find_delimiter_properties(chunk@);
                }
                if chunk.len() > MAX_FRAME_LENGTH - self.buf.len() {
                    self.buf.clear();
                    FeedOutcome::Overflow { consumed: chunk.len() }
                } else {
                    self.append_prefix(chunk, chunk.len());
                    FeedOutcome::Consumed
                }
            },
            Some(n) => {
                proof {
                    lemma_find_delimiter_properties(chunk@);
                }
                if n + 1 > MAX_FRAME_LENGTH - self.buf.len() {
                    self.buf.clear();
                    FeedOutcome::Overflow { consumed: n + 1 }
                } else {
                    self.append_prefix(chunk, n);
                    let decoded = frame::decode_frame_content(&self.buf);
                    self.buf.clear();
                    match decoded {
                        Some(message) => FeedOutcome::Success { message, consumed: n + 1 },
                        None => FeedOutcome::DeserializationError { consumed: n + 1 },
                    }
                }
            },
        }
    }

    /// Append the first `n` bytes of `chunk` to the buffer.
    fn append_prefix(&mut self, chunk: &[u8], n: usize)
        requires
            n <= chunk@.len(),
        ensures
            final(self).buf@ == old(self).buf@ + chunk@.take(n as int),
    {
        let mut j: usize = 0;
        proof {
            assert(old(self).buf@ + chunk@.take(0) =~= old(self).buf@);
        }
        while j < n
            invariant
                j <= n <= chunk@.len(),
                self.buf@ == old(self).buf@ + chunk@.take(j as int),
            decreases n - j,
        {
            self.buf.push(chunk[j]);
            proof {
                assert(old(self).buf@ + chunk@.take(j as int + 1) =~= self.buf@);
            }
            j = j + 1;
        }
    }
}

/// Find the first delimiter byte in a chunk.
fn find_delimiter(chunk: &[u8]) -> (r: Option<usize>)
    ensures
        match r {
            Some(i) => spec_find_delimiter(chunk@) == Some(i as int),
            None => spec_find_delimiter(chunk@) is None,
        },
{
    let mut i: usize = 0;
    proof {
        assert(chunk@.skip(0) =~= chunk@);
    }
    while i < chunk.len()
        invariant
            i <= chunk@.len(),
            spec_find_delimiter(chunk@) == match spec_find_delimiter(
                chunk@.skip(i as int),
            ) {
                None => None::<int>,
                Some(k) => Some(k + i),
            },
        decreases chunk@.len() - i,
    {
        let ghost s = chunk@.skip(i as int);
        proof {
            assert(s[0] == chunk@[i as int]);
            assert(s.skip(1) =~= chunk@.skip(i as int + 1));
        }
        if chunk[i] == FRAME_DELIMITER {
            return Some(i);
        }
        i = i + 1;
    }
    proof {
        assert(chunk@.skip(chunk@.len() as int).len() == 0);
    }
    None
}

} // verus!