//! Self-delimiting frames over a raw byte stream.
//!
//! A frame is the byte-stuffed serialization of one message, terminated by a
//! reserved delimiter byte. Inside frame content the delimiter never
//! appears: a content byte equal to the delimiter or to the escape byte is
//! replaced by a two-byte escape sequence. A receiver that has lost its
//! place therefore only needs to scan forward to the next delimiter byte to
//! resynchronize.
use crate::message::Message;
use crate::wire;
use crate::MAX_FRAME_LENGTH;
use crate::MAX_MESSAGE_LENGTH;
use vstd::prelude::*;

verus! {

/// Reserved sentinel byte that terminates every frame.
pub const FRAME_DELIMITER: u8 = 0;

/// Escape byte introducing a two-byte escape sequence inside frame content.
pub const FRAME_ESCAPE: u8 = 1;

/// Second byte of the escape sequence standing for the delimiter byte.
pub const ESCAPED_DELIMITER: u8 = 2;

/// Second byte of the escape sequence standing for the escape byte.
pub const ESCAPED_ESCAPE: u8 = 3;

/// Byte stuffing of one content byte.
pub open spec fn spec_stuff_byte(b: u8) -> Seq<u8> {
    if b == FRAME_DELIMITER {
        seq![FRAME_ESCAPE, ESCAPED_DELIMITER]
    } else if b == FRAME_ESCAPE {
        seq![FRAME_ESCAPE, ESCAPED_ESCAPE]
    } else {
        seq![b]
    }
}

/// Byte stuffing of frame content: every delimiter and escape byte is
/// replaced by its escape sequence.
pub open spec fn spec_stuff(s: Seq<u8>) -> Seq<u8>
    decreases s.len(),
{
    if s.len() == 0 {
        Seq::empty()
    } else {
        spec_stuff_byte(s[0]) + spec_stuff(s.skip(1))
    }
}

/// Inverse of byte stuffing. `None` when the input holds a bare delimiter,
/// a dangling escape byte, or an unknown escape sequence.
pub open spec fn spec_unstuff(s: Seq<u8>) -> Option<Seq<u8>>
    decreases s.len(),
{
    if s.len() == 0 {
        Some(Seq::empty())
    } else if s[0] == FRAME_ESCAPE {
        if s.len() >= 2 && (s[1] == ESCAPED_DELIMITER || s[1] == ESCAPED_ESCAPE) {
            match spec_unstuff(s.skip(2)) {
                None => None,
                Some(t) => Some(
                    seq![if s[1] == ESCAPED_DELIMITER {
                        FRAME_DELIMITER
                    } else {
                        FRAME_ESCAPE
                    }] + t,
                ),
            }
        } else {
            None
        }
    } else if s[0] == FRAME_DELIMITER {
        None
    } else {
        match spec_unstuff(s.skip(1)) {
            None => None,
            Some(t) => Some(seq![s[0]] + t),
        }
    }
}

/// The framed encoding of one message: stuffed serialization, then the
/// delimiter.
pub open spec fn spec_frame(m: Message) -> Seq<u8> {
    spec_stuff(wire::spec_ser_message(m)) + seq![FRAME_DELIMITER]
}

// ---------------------------------------------------------------------------
// Properties of stuffing
// ---------------------------------------------------------------------------

/// Stuffed content never contains the delimiter byte.
pub proof fn lemma_stuff_no_delimiter(s: Seq<u8>)
    ensures
        forall|i: int| 0 <= i < spec_stuff(s).len() ==> spec_stuff(s)[i] != FRAME_DELIMITER,
    decreases s.len(),
{
    if s.len() != 0 {
        lemma_stuff_no_delimiter(s.skip(1));
        assert forall|i: int| 0 <= i < spec_stuff(s).len() implies spec_stuff(s)[i]
            != FRAME_DELIMITER by {
            let head = spec_stuff_byte(s[0]);
            if i < head.len() {
                assert(spec_stuff(s)[i] == head[i]);
            } else {
                assert(spec_stuff(s)[i] == spec_stuff(s.skip(1))[i - head.len()]);
            }
        }
    }
}

/// Stuffing at most doubles the length of the content.
pub proof fn lemma_stuff_len(s: Seq<u8>)
    ensures
        s.len() <= spec_stuff(s).len() <= 2 * s.len(),
    decreases s.len(),
{
    if s.len() != 0 {
        lemma_stuff_len(s.skip(1));
    }
}

/// Stuffing distributes over concatenation.
pub proof fn lemma_stuff_append(a: Seq<u8>, b: Seq<u8>)
    ensures
        spec_stuff(a + b) == spec_stuff(a) + spec_stuff(b),
    decreases a.len(),
{
    if a.len() == 0 {
        assert(a + b =~= b);
        assert(spec_stuff(a) + spec_stuff(b) =~= spec_stuff(b));
    } else {
        assert((a + b)[0] == a[0]);
        assert((a + b).skip(1) =~= a.skip(1) + b);
        lemma_stuff_append(a.skip(1), b);
        assert(spec_stuff(a + b) =~= spec_stuff(a) + spec_stuff(b));
    }
}

/// Unstuffing recovers exactly the content that was stuffed.
pub proof fn lemma_unstuff_stuff(s: Seq<u8>)
    ensures
        spec_unstuff(spec_stuff(s)) == Some(s),
    decreases s.len(),
{
    if s.len() != 0 {
        let head = spec_stuff_byte(s[0]);
        let tail = spec_stuff(s.skip(1));
        let t = head + tail;
        lemma_unstuff_stuff(s.skip(1));
        if s[0] == FRAME_DELIMITER || s[0] == FRAME_ESCAPE {
            assert(t[0] == FRAME_ESCAPE);
            assert(t[1] == head[1]);
            assert(t.skip(2) =~= tail);
            assert(seq![s[0]] + s.skip(1) =~= s);
        } else {
            assert(t[0] == s[0]);
            assert(t.skip(1) =~= tail);
            assert(seq![s[0]] + s.skip(1) =~= s);
        }
    }
}

// ---------------------------------------------------------------------------
// Executable framing
// ---------------------------------------------------------------------------

/// Append the stuffed form of `input` to `out`.
fn write_stuffed(input: &Vec<u8>, out: &mut Vec<u8>)
    ensures
        final(out)@ == old(out)@ + spec_stuff(input@),
{
    let mut i: usize = 0;
    while i < input.len()
        invariant
            i <= input.len(),
            out@ == old(out)@ + spec_stuff(input@.take(i as int)),
        decreases input.len() - i,
    {
        let b = input[i];
        if b == FRAME_DELIMITER {
            out.push(FRAME_ESCAPE);
            out.push(ESCAPED_DELIMITER);
        } else if b == FRAME_ESCAPE {
            out.push(FRAME_ESCAPE);
            out.push(ESCAPED_ESCAPE);
        } else {
            out.push(b);
        }
        proof {
            let prefix = input@.take(i as int);
            let single = seq![input@[i as int]];
            assert(input@.take(i as int + 1) =~= prefix + single);
            lemma_stuff_append(prefix, single);
            assert(single.skip(1) =~= Seq::<u8>::empty());
            assert(spec_stuff(Seq::<u8>::empty()) =~= Seq::<u8>::empty());
            assert(spec_stuff(single) == spec_stuff_byte(single[0]) + spec_stuff(single.skip(1)));
            assert(spec_stuff(single) =~= spec_stuff_byte(input@[i as int]));
            assert(out@ =~= old(out)@ + spec_stuff(input@.take(i as int + 1)));
        }
        i = i + 1;
    }
    proof {
        assert(input@.take(input@.len() as int) =~= input@);
    }
}

/// Serializes a `Message` and appends its framed version to an existing
/// byte vector.
pub fn into_vec(message: &Message, result: &mut Vec<u8>)
    ensures
        final(result)@ == old(result)@ + spec_frame(*message),
{
    let encoded = wire::encode_message(message);
    write_stuffed(&encoded, result);
    result.push(FRAME_DELIMITER);
    proof {
        assert(result@ =~= old(result)@ + spec_frame(*message));
    }
}

/// Serializes a `Message` and writes its framed version to a caller-provided
/// buffer, replacing the buffer's previous content. Returns the number of
/// bytes written.
///
/// Framing is total over the payload catalog: the frame never exceeds
/// `MAX_FRAME_LENGTH` bytes, so a buffer of that capacity always suffices.
pub fn frame(message: &Message, buf: &mut Vec<u8>) -> (n: usize)
    ensures
        final(buf)@ == spec_frame(*message),
        n == final(buf)@.len(),
        n <= MAX_FRAME_LENGTH,
{
    buf.clear();
    into_vec(message, buf);
    proof {
        assert(buf@ =~= spec_frame(*message));
        wire::lemma_ser_message_bounded(*message);
        lemma_stuff_len(wire::spec_ser_message(*message));
    }
    buf.len()
}

/// Encode one message as a fresh framed byte vector.
pub fn encode_frame(message: &Message) -> (r: Vec<u8>)
    ensures
        r@ == spec_frame(*message),
        r@.len() <= MAX_FRAME_LENGTH,
{
    let mut out: Vec<u8> = Vec::new();
    into_vec(message, &mut out);
    proof {
        assert(out@ =~= spec_frame(*message));
        wire::lemma_ser_message_bounded(*message);
        lemma_stuff_len(wire::spec_ser_message(*message));
    }
    out
}

/// Recover frame content from its stuffed form.
fn unstuff(input: &Vec<u8>) -> (r: Option<Vec<u8>>)
    ensures
        match r {
            Some(v) => spec_unstuff(input@) == Some(v@),
            None => spec_unstuff(input@) is None,
        },
{
    let mut out: Vec<u8> = Vec::new();
    let mut pos: usize = 0;
    proof {
        assert(input@.skip(0) =~= input@);
        match spec_unstuff(input@) {
            Some(t) => {
                assert(Seq::<u8>::empty() + t =~= t);
            },
            None => {},
        }
    }
    while pos < input.len()
        invariant
            pos <= input.len(),
            match spec_unstuff(input@.skip(pos as int)) {
                Some(t) => spec_unstuff(input@) == Some(out@ + t),
                None => spec_unstuff(input@) is None,
            },
        decreases input.len() - pos,
    {
        let b = input[pos];
        let ghost s = input@.skip(pos as int);
        proof {
            assert(s[0] == input@[pos as int]);
        }
        if b == FRAME_ESCAPE {
            if pos + 1 < input.len() {
                let e = input[pos + 1];
                proof {
                    assert(s[1] == input@[pos as int + 1]);
                    assert(s.skip(2) =~= input@.skip(pos as int + 2));
                }
                let decoded: u8 = if e == ESCAPED_DELIMITER {
                    FRAME_DELIMITER
                } else if e == ESCAPED_ESCAPE {
                    FRAME_ESCAPE
                } else {
                    return None;
                };
                let ghost out0 = out@;
                out.push(decoded);
                proof {
                    match spec_unstuff(input@.skip(pos as int + 2)) {
                        Some(t) => {
                            assert(out@ + t =~= out0 + (seq![decoded] + t));
                        },
                        None => {},
                    }
                }
                pos = pos + 2;
            } else {
                return None;
            }
        } else if b == FRAME_DELIMITER {
            return None;
        } else {
            proof {
                assert(s.skip(1) =~= input@.skip(pos as int + 1));
            }
            let ghost out0 = out@;
            out.push(b);
            proof {
                match spec_unstuff(input@.skip(pos as int + 1)) {
                    Some(t) => {
                        assert(out@ + t =~= out0 + (seq![b] + t));
                    },
                    None => {},
                }
            }
            pos = pos + 1;
        }
    }
    proof {
        assert(input@.skip(input@.len() as int) =~= Seq::<u8>::empty());
        assert(out@ + Seq::<u8>::empty() =~= out@);
    }
    Some(out)
}

/// Decode the content of one frame (the bytes before its delimiter):
/// unstuff it and deserialize the resulting message.
pub fn decode_frame_content(content: &Vec<u8>) -> (r: Option<Message>)
    ensures
        r == spec_decode_frame_content(content@),
{
    match unstuff(content) {
        None => None,
        Some(raw) => wire::decode_message(&raw),
    }
}

/// What one frame's content (the bytes before its delimiter) decodes to.
pub open spec fn spec_decode_frame_content(content: Seq<u8>) -> Option<Message> {
    match spec_unstuff(content) {
        None => None,
        Some(raw) => wire::spec_decode(raw),
    }
}

/// Frame round trip: the content of an encoded frame decodes to the
/// original message, for every message of the catalog.
pub proof fn lemma_decode_frame_content(m: Message)
    ensures
        spec_decode_frame_content(spec_stuff(wire::spec_ser_message(m))) == Some(m),
{
    lemma_unstuff_stuff(wire::spec_ser_message(m));
    wire::lemma_decode_ser_message(m);
}

} // verus!