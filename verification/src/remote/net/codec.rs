//! Frames: a payload behind its length.
//!
//! A frame is the length of its payload as four bytes, most significant
//! first, followed by the payload. Frames follow one another on a stream
//! without gaps, so that a reader that holds the start of a frame knows how
//! much more to wait for.
use vstd::prelude::*;

verus! {

/// Why a frame cannot be written or read.
#[derive(Clone, Copy, Debug, PartialEq, Eq, Structural)]
pub enum CodecErr {
    /// The payload is longer than the codec allows.
    FrameTooLarge,
}

/// The number of bytes that announce the length of a payload.
pub const LENGTH_FIELD_LEN: usize = 4;

/// The largest payload of a codec that was not told otherwise: 8 MiB.
pub const DEFAULT_MAX_FRAME_LEN: u32 = 8388608;

/// The four bytes that announce a payload of `len` bytes.
pub open spec fn length_prefix(len: nat) -> Seq<u8> {
    seq![
        ((len / 16777216) % 256) as u8,
        ((len / 65536) % 256) as u8,
        ((len / 256) % 256) as u8,
        (len % 256) as u8,
    ]
}

/// The length that the first four bytes of `bytes` announce.
pub open spec fn announced_len(bytes: Seq<u8>) -> nat
    recommends
        bytes.len() >= 4,
{
    (bytes[0] as nat) * 16777216 + (bytes[1] as nat) * 65536 + (bytes[2] as nat) * 256 + (
    bytes[3] as nat)
}

/// The frame that carries `payload`.
pub open spec fn frame_of(payload: Seq<u8>) -> Seq<u8> {
    length_prefix(payload.len()) + payload
}

/// What a reader makes of the bytes it holds.
pub enum Decoded {
    /// The bytes do not hold a whole frame yet.
    Partial,
    /// The first frame's payload; the bytes behind the frame stay.
    Frame(Vec<u8>),
}

/// What decoding makes of `buffer` with payloads of up to `max` bytes:
/// the payload of the first frame and the bytes behind it, nothing where
/// the frame is not complete, an error where it announces too much.
pub open spec fn decoded(buffer: Seq<u8>, max: nat) -> Result<Option<(Seq<u8>, Seq<u8>)>, CodecErr> {
    if buffer.len() < 4 {
        Ok(None)
    } else if announced_len(buffer) > max {
        Err(CodecErr::FrameTooLarge)
    } else if buffer.len() < 4 + announced_len(buffer) {
        Ok(None)
    } else {
        Ok(
            Some(
                (
                    buffer.subrange(4, 4 + announced_len(buffer) as int),
                    buffer.subrange(4 + announced_len(buffer) as int, buffer.len() as int),
                ),
            ),
        )
    }
}

/// The codec of a connection.
#[derive(Clone, Copy, Debug, PartialEq, Eq, Structural)]
pub struct NetworkCodec {
    pub max_frame_len: u32,
}

impl Default for NetworkCodec {
    fn default() -> (codec: NetworkCodec)
        ensures
            codec.max_frame_len == DEFAULT_MAX_FRAME_LEN,
    {
        NetworkCodec { max_frame_len: DEFAULT_MAX_FRAME_LEN }
    }
}

impl NetworkCodec {
    pub fn new(max_frame_len: u32) -> (codec: NetworkCodec)
        ensures
            codec.max_frame_len == max_frame_len,
    {
        NetworkCodec { max_frame_len }
    }

    /// Appends the frame of `payload` to `dst`. A payload that is too long
    /// is refused and `dst` stays as it is.
    pub fn encode(&self, payload: &Vec<u8>, dst: &mut Vec<u8>) -> (r: Result<(), CodecErr>)
        ensures
            payload@.len() <= self.max_frame_len ==> r.is_ok() && final(dst)@ == old(dst)@
                + frame_of(payload@),
            payload@.len() > self.max_frame_len ==> r == Err::<(), CodecErr>(
                CodecErr::FrameTooLarge,
            ) && final(dst)@ == old(dst)@,
    {
        if payload.len() > self.max_frame_len as usize {
            return Err(CodecErr::FrameTooLarge);
        }
        let len: u32 = payload.len() as u32;
        let b0: u8 = (len >> 24) as u8;
        let b1: u8 = ((len >> 16) & 0xff) as u8;
        let b2: u8 = ((len >> 8) & 0xff) as u8;
        let b3: u8 = (len & 0xff) as u8;
        proof {
            assert(len >> 24 == len / 16777216) by (bit_vector);
            assert((len >> 16) & 0xff == (len / 65536) % 256) by (bit_vector);
            assert((len >> 8) & 0xff == (len / 256) % 256) by (bit_vector);
            assert(len & 0xff == len % 256) by (bit_vector);
            assert(len / 16777216 < 256) by (bit_vector);
        }
        let ghost start = dst@;
        dst.push(b0);
        dst.push(b1);
        dst.push(b2);
        dst.push(b3);
        assert(dst@ == start + length_prefix(payload@.len()));
        let mut i: usize = 0;
        while i < payload.len()
            invariant
                i <= payload.len(),
                dst@ == start + length_prefix(payload@.len()) + payload@.take(i as int),
            decreases payload.len() - i,
        {
            dst.push(payload[i]);
            proof {
                assert(payload@.take(i as int + 1) == payload@.take(i as int).push(
                    payload@[i as int],
                ));
            }
            i += 1;
        }
        proof {
            assert(payload@.take(i as int) == payload@);
            assert(dst@ == start + frame_of(payload@));
        }
        Ok(())
    }

    /// Takes the first frame out of `src`, if it is complete, and leaves
    /// what follows it. One call yields one frame at most.
    pub fn decode(&self, src: &mut Vec<u8>) -> (r: Result<Decoded, CodecErr>)
        ensures
            match decoded(old(src)@, self.max_frame_len as nat) {
                Ok(Some((payload, rest))) => r matches Ok(Decoded::Frame(p)) && p@ == payload
                    && final(src)@ == rest,
                Ok(None) => r matches Ok(Decoded::Partial) && final(src)@ == old(src)@,
                Err(e) => r == Err::<Decoded, CodecErr>(e) && final(src)@ == old(src)@,
            },
    {
        if src.len() < 4 {
            return Ok(Decoded::Partial);
        }
        let b0: u32 = src[0] as u32;
        let b1: u32 = src[1] as u32;
        let b2: u32 = src[2] as u32;
        let b3: u32 = src[3] as u32;
        let len: u32 = b0 * 16777216 + b1 * 65536 + b2 * 256 + b3;
        if len > self.max_frame_len {
            return Err(CodecErr::FrameTooLarge);
        }
        if src.len() - 4 < len as usize {
            return Ok(Decoded::Partial);
        }
        let end: usize = 4 + len as usize;
        let mut rest = src.split_off(end);
        let mut payload = src.split_off(4);
        std::mem::swap(src, &mut rest);
        Ok(Decoded::Frame(payload))
    }
}

/// A frame is read back as it was written: decoding what encoding produced,
/// whatever follows it on the stream, yields the payload and leaves what
/// follows.
pub proof fn frame_round_trip(payload: Seq<u8>, rest: Seq<u8>, max: nat)
    requires
        payload.len() <= max,
        max <= u32::MAX,
    ensures
        decoded(frame_of(payload) + rest, max) == Ok::<Option<(Seq<u8>, Seq<u8>)>, CodecErr>(
            Some((payload, rest)),
        ),
{
    let buffer = frame_of(payload) + rest;
    let len = payload.len();
    assert(buffer[0] == length_prefix(len)[0]);
    assert(buffer[1] == length_prefix(len)[1]);
    assert(buffer[2] == length_prefix(len)[2]);
    assert(buffer[3] == length_prefix(len)[3]);
    assert(announced_len(buffer) == len) by {
        lemma_prefix_announces(len);
    }
    assert(buffer.subrange(4, 4 + len as int) =~= payload);
    assert(buffer.subrange(4 + len as int, buffer.len() as int) =~= rest);
}

/// The four bytes written for a length spell that length.
proof fn lemma_prefix_announces(len: nat)
    requires
        len <= u32::MAX,
    ensures
        announced_len(length_prefix(len)) == len,
{
    let a = len / 16777216;
    let b = (len / 65536) % 256;
    let c = (len / 256) % 256;
    let d = len % 256;
    assert(a < 256 && a * 16777216 + b * 65536 + c * 256 + d == len) by (nonlinear_arith)
        requires
            len <= 0xffff_ffff,
            a == len / 16777216,
            b == (len / 65536) % 256,
            c == (len / 256) % 256,
            d == len % 256,
    ;
    assert(a % 256 == a);
}

/// A stream that ends inside a frame yields nothing until the rest comes.
pub proof fn partial_frame_waits(payload: Seq<u8>, cut: int, max: nat)
    requires
        payload.len() <= max,
        max <= u32::MAX,
        0 <= cut < frame_of(payload).len(),
    ensures
        decoded(frame_of(payload).take(cut), max) == Ok::<Option<(Seq<u8>, Seq<u8>)>, CodecErr>(
            None,
        ),
{
    let buffer = frame_of(payload).take(cut);
    if cut >= 4 {
        let len = payload.len();
        assert(buffer[0] == length_prefix(len)[0]);
        assert(buffer[1] == length_prefix(len)[1]);
        assert(buffer[2] == length_prefix(len)[2]);
        assert(buffer[3] == length_prefix(len)[3]);
        lemma_prefix_announces(len);
    }
}

} // verus!
