//! Framing messages in a byte stream: the codec takes whole messages off the front of a buffer of
//! received bytes, and appends the bytes of outgoing messages to a buffer.
use crate::errors::{io_error_kind_class, DecodeError, DecodeErrorKind, IoErrorClass};
use crate::message::{spec_as_value, spec_decode, spec_round_trips, Message, SpecMessage};
use crate::msgpack::msgpack_encoding;
use bytes::BytesMut;

use vstd::prelude::*;

verus! {

#[verifier::external_type_specification]
#[verifier::external_body]
pub struct ExBytesMut(BytesMut);

/// The bytes that a `BytesMut` buffer holds.
pub uninterp spec fn buffer_contents(b: BytesMut) -> Seq<u8>;

/// Borrows the bytes of the buffer (`BytesMut` dereferences to them).
#[verifier::external_body]
fn buffer_bytes(b: &BytesMut) -> (r: &[u8])
    ensures
        r@ == buffer_contents(*b),
{
    &b[..]
}

/// Calls `BytesMut::split_to`, which removes the first `at` bytes from the buffer (and panics
/// where there are fewer), and drops them.
#[verifier::external_body]
fn buffer_split_to(b: &mut BytesMut, at: usize)
    requires
        at <= buffer_contents(*old(b)).len(),
    ensures
        buffer_contents(*final(b)) == buffer_contents(*old(b)).skip(at as int),
{
    let _ = b.split_to(at);
}

/// Calls `BytesMut::extend_from_slice`, which appends the bytes of `data` to the buffer.
#[verifier::external_body]
fn buffer_extend(b: &mut BytesMut, data: &[u8])
    ensures
        buffer_contents(*final(b)) == buffer_contents(*old(b)) + data@,
{
    b.extend_from_slice(data)
}

/// What the codec takes off the front of a buffer.
pub enum SpecFrame {
    /// A whole message.
    Message(SpecMessage),
    /// Nothing yet: the bytes end before a whole message.
    Incomplete,
    /// Reading the bytes failed.
    Failed,
}

/// What decoding a buffer gives, and how many bytes it takes off the front: values that are not
/// messages are skipped, up to the first message; if the bytes run out first, nothing is taken,
/// not even the values skipped; a read that fails takes the bytes read so far.
pub open spec fn spec_codec_decode(bytes: Seq<u8>) -> (SpecFrame, nat)
    decreases bytes.len(),
{
    let (r, n) = spec_decode(bytes);
    match r {
        Ok(m) => (SpecFrame::Message(m), n),
        Err(DecodeErrorKind::Truncated) => (SpecFrame::Incomplete, 0),
        Err(DecodeErrorKind::UnknownIo) => (SpecFrame::Failed, n),
        Err(DecodeErrorKind::Invalid) => if 0 < n <= bytes.len() {
            let (rest, k) = spec_codec_decode(bytes.skip(n as int));
            match rest {
                SpecFrame::Incomplete => (SpecFrame::Incomplete, 0),
                _ => (rest, n + k),
            }
        } else {
            (SpecFrame::Incomplete, 0)
        },
    }
}

/// The bytes of several pieces, one after the other.
pub open spec fn concat(pieces: Seq<Seq<u8>>) -> Seq<u8>
    decreases pieces.len(),
{
    if pieces.len() == 0 {
        Seq::<u8>::empty()
    } else {
        pieces[0] + concat(pieces.drop_first())
    }
}

/// Values that are not messages, in front of what the codec would take next, are skipped: the
/// codec gives what follows them, and takes them too, unless what follows is incomplete, in which
/// case it takes nothing.
pub proof fn lemma_codec_skips_invalid_values(junk: Seq<Seq<u8>>, tail: Seq<u8>)
    requires
        forall|i: int, rest: Seq<u8>|
            0 <= i < junk.len() ==> #[trigger] spec_decode(junk[i] + rest) == (
                Err::<SpecMessage, DecodeErrorKind>(DecodeErrorKind::Invalid),
                junk[i].len(),
            ),
        forall|i: int| 0 <= i < junk.len() ==> (#[trigger] junk[i]).len() > 0,
    ensures
        spec_codec_decode(concat(junk) + tail) == (match spec_codec_decode(tail).0 {
            SpecFrame::Incomplete => (SpecFrame::Incomplete, 0nat),
            frame => (frame, concat(junk).len() + spec_codec_decode(tail).1),
        }),
    decreases junk.len(),
{
    if junk.len() == 0 {
        assert(concat(junk) + tail =~= tail);
        let (frame, k) = spec_codec_decode(tail);
        if frame is Incomplete {
            lemma_incomplete_takes_nothing(tail);
        }
    } else {
        let first = junk[0];
        let rest = junk.drop_first();
        assert forall|i: int, r: Seq<u8>| 0 <= i < rest.len() implies #[trigger] spec_decode(
            rest[i] + r,
        ) == (Err::<SpecMessage, DecodeErrorKind>(DecodeErrorKind::Invalid), rest[i].len()) by {
            assert(rest[i] == junk[i + 1]);
        }
        assert forall|i: int| 0 <= i < rest.len() implies (#[trigger] rest[i]).len() > 0 by {
            assert(rest[i] == junk[i + 1]);
        }
        lemma_codec_skips_invalid_values(rest, tail);
        let whole = concat(junk) + tail;
        assert(whole =~= first + (concat(rest) + tail));
        assert(spec_decode(first + (concat(rest) + tail)) == (
            Err::<SpecMessage, DecodeErrorKind>(DecodeErrorKind::Invalid),
            first.len(),
        ));
        assert(whole.skip(first.len() as int) =~= concat(rest) + tail);
    }
}

/// When the codec gives nothing, it takes nothing.
pub proof fn lemma_incomplete_takes_nothing(bytes: Seq<u8>)
    ensures
        spec_codec_decode(bytes).0 is Incomplete ==> spec_codec_decode(bytes).1 == 0,
    decreases bytes.len(),
{
    let (r, n) = spec_decode(bytes);
    if r == Err::<SpecMessage, DecodeErrorKind>(DecodeErrorKind::Invalid) && 0 < n <= bytes.len() {
        lemma_incomplete_takes_nothing(bytes.skip(n as int));
    }
}

/// The codec that frames `MessagePack-RPC` messages in a byte stream.
pub struct Codec;

impl Codec {
    /// Takes the first message off the front of `src`.
    ///
    /// Values that are not valid messages are skipped. Where the bytes end before a whole
    /// message, nothing is taken and the result is `None`; where reading fails (a value nested too
    /// deeply), the error, of a kind other than `UnexpectedEof` and `Other`, is
    /// returned and the bytes read so far are taken.
    pub fn decode(&mut self, src: &mut BytesMut) -> (r: Result<Option<Message>, std::io::Error>)
        ensures
            buffer_contents(*final(src)) == buffer_contents(*old(src)).skip(
                spec_codec_decode(buffer_contents(*old(src))).1 as int,
            ),
            match spec_codec_decode(buffer_contents(*old(src))).0 {
                SpecFrame::Message(m) => r matches Ok(Some(msg)) && msg@ == m,
                SpecFrame::Incomplete => r matches Ok(None),
                SpecFrame::Failed => r is Err,
            },
            r matches Err(e) ==> io_error_kind_class(e) == IoErrorClass::Else,
    {
        let bytes = buffer_bytes(src);
        let ghost all = bytes@;
        let len = bytes.len();
        let mut position: usize = 0;
        assert(all.skip(0) =~= all);
        let result: Result<Option<Message>, std::io::Error>;
        loop
            invariant_except_break
                all == bytes@,
                all == buffer_contents(*old(src)),
                *src == *old(src),
                len == bytes@.len(),
                position <= bytes@.len(),
                spec_codec_decode(all).0 == spec_codec_decode(all.skip(position as int)).0,
                spec_codec_decode(all.skip(position as int)).0 is Incomplete
                    ==> spec_codec_decode(all).1 == 0,
                !(spec_codec_decode(all.skip(position as int)).0 is Incomplete)
                    ==> spec_codec_decode(all).1 == position + spec_codec_decode(
                    all.skip(position as int),
                ).1,
            ensures
                position <= bytes@.len(),
                spec_codec_decode(all).1 == position,
                match spec_codec_decode(all).0 {
                    SpecFrame::Message(m) => result matches Ok(Some(msg)) && msg@ == m,
                    SpecFrame::Incomplete => false,
                    SpecFrame::Failed => result is Err,
                },
                result matches Err(e) ==> io_error_kind_class(e) == IoErrorClass::Else,
            decreases bytes@.len() - position,
        {
            let (_, rest) = bytes.split_at(position);
            assert(rest@ == all.skip(position as int));
            let (outcome, n) = Message::decode(rest);
            assert(n <= bytes@.len() - position);
            match outcome {
                Ok(message) => {
                    position = position + n;
                    result = Ok(Some(message));
                    break ;
                },
                Err(DecodeError::Truncated) => {
                    return Ok(None);
                },
                Err(DecodeError::Invalid) => {
                    assert(all.skip(position as int).skip(n as int) =~= all.skip(
                        (position + n) as int,
                    ));
                    position = position + n;
                },
                Err(DecodeError::UnknownIo(e)) => {
                    position = position + n;
                    result = Err(e);
                    break ;
                },
            }
        }
        buffer_split_to(src, position);
        result
    }

    /// Appends the bytes of `msg` to `buf`.
    ///
    /// Decoding them from a buffer gives the message back, whatever follows them, and takes
    /// exactly them; where only a strict prefix of them has arrived, decoding takes nothing.
    pub fn encode(&mut self, msg: Message, buf: &mut BytesMut) -> (r: Result<(), std::io::Error>)
        ensures
            r is Ok,
            buffer_contents(*final(buf)) == buffer_contents(*old(buf)) + msgpack_encoding(
                spec_as_value(msg@),
            ),
            spec_round_trips(msg@) ==> forall|rest: Seq<u8>| #[trigger]
                spec_codec_decode(msgpack_encoding(spec_as_value(msg@)) + rest) == (
                    SpecFrame::Message(msg@),
                    msgpack_encoding(spec_as_value(msg@)).len(),
                ),
            spec_round_trips(msg@) ==> forall|k: int|
                0 <= k < msgpack_encoding(spec_as_value(msg@)).len() ==> #[trigger]
                    spec_codec_decode(msgpack_encoding(spec_as_value(msg@)).take(k)) == (
                    SpecFrame::Incomplete,
                    0nat,
                ),
    {
        let packed = msg.pack();
        match packed {
            Ok(bytes) => {
                proof {
                    if spec_round_trips(msg@) {
                        assert forall|rest: Seq<u8>| #[trigger]
                            spec_codec_decode(bytes@ + rest) == (
                                SpecFrame::Message(msg@),
                                bytes@.len(),
                            ) by {
                            assert(spec_decode(bytes@ + rest) == (
                                Ok::<SpecMessage, DecodeErrorKind>(msg@),
                                bytes@.len(),
                            ));
                        }
                        assert forall|k: int| 0 <= k < bytes@.len() implies #[trigger]
                            spec_codec_decode(bytes@.take(k)) == (SpecFrame::Incomplete, 0nat) by {
                            assert(spec_decode(bytes@.take(k)).0 == Err::<
                                SpecMessage,
                                DecodeErrorKind,
                            >(DecodeErrorKind::Truncated));
                        }
                    }
                }
                buffer_extend(buf, bytes.as_slice());
                Ok(())
            },
            Err(e) => Err(e),
        }
    }
}

} // verus!
