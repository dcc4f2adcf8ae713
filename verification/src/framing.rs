//! Length-delimited framing of the control channel.
//!
//! Every message travels as one frame: a four-byte big-endian length followed
//! by that many bytes of payload. The work is done by tokio-util's
//! `LengthDelimitedCodec` in its default configuration; this module states
//! what that codec does and builds a verified frame buffer on top of it.

use vstd::prelude::*;

verus! {

/// The largest payload the default `LengthDelimitedCodec` accepts (8 MiB).
pub const MAX_FRAME_LEN: usize = 8388608;

/// Number of bytes in the length prefix.
pub const HEADER_LEN: usize = 4;

/// Declares `std::io::Error`, the error type of tokio-util's codec; nothing
/// inside it is read.
#[verifier::external_type_specification]
#[verifier::external_body]
pub struct ExIoError(std::io::Error);

/// The four big-endian bytes that encode `n`.
pub open spec fn length_prefix(n: nat) -> Seq<u8> {
    seq![
        ((n / 0x100_0000) % 0x100) as u8,
        ((n / 0x1_0000) % 0x100) as u8,
        ((n / 0x100) % 0x100) as u8,
        (n % 0x100) as u8,
    ]
}

/// The number that the first four bytes of `b` encode, big-endian.
pub open spec fn prefix_value(b: Seq<u8>) -> nat
    recommends
        b.len() >= 4,
{
    (b[0] as nat) * 0x100_0000 + (b[1] as nat) * 0x1_0000 + (b[2] as nat) * 0x100 + (b[3] as nat)
}

/// The bytes of one frame that carries `payload`.
pub open spec fn frame_of(payload: Seq<u8>) -> Seq<u8> {
    length_prefix(payload.len()) + payload
}

/// What a buffer of received bytes holds at its front.
pub enum FrameSplit {
    /// Not yet a whole frame: more bytes are needed.
    Short,
    /// The length prefix announces more than `MAX_FRAME_LEN` bytes.
    Oversized,
    /// A whole frame, its payload, and the bytes after it.
    Whole { payload: Seq<u8>, rest: Seq<u8> },
}

/// How the default codec splits `buf`.
pub open spec fn split_frame(buf: Seq<u8>) -> FrameSplit {
    if buf.len() < HEADER_LEN {
        FrameSplit::Short
    } else if prefix_value(buf) > MAX_FRAME_LEN {
        FrameSplit::Oversized
    } else if buf.len() < HEADER_LEN + prefix_value(buf) {
        FrameSplit::Short
    } else {
        let end = HEADER_LEN + prefix_value(buf);
        FrameSplit::Whole {
            payload: buf.subrange(HEADER_LEN as int, end as int),
            rest: buf.subrange(end as int, buf.len() as int),
        }
    }
}

/// Calls `Encoder::<&[u8]>::encode` of a fresh `tokio_util::codec::LengthDelimitedCodec`
/// on an empty buffer. tokio-util's source shows that the default codec refuses a
/// payload longer than 8 MiB and otherwise writes the length as four big-endian
/// bytes followed by the payload; that is what the contract claims.
#[verifier::external_body]
fn codec_encode(payload: &[u8]) -> (res: Result<Vec<u8>, std::io::Error>)
    ensures
        res is Err <==> payload@.len() > MAX_FRAME_LEN,
        res matches Ok(bytes) ==> bytes@ == frame_of(payload@),
{
    let mut codec = tokio_util::codec::LengthDelimitedCodec::new();
    let mut dst = bytes::BytesMut::new();
    match tokio_util::codec::Encoder::<&[u8]>::encode(&mut codec, payload, &mut dst) {
        Ok(()) => Ok(dst.to_vec()),
        Err(e) => Err(e),
    }
}

/// Calls `Decoder::decode` of a fresh `tokio_util::codec::LengthDelimitedCodec` on a
/// copy of `buf`, and hands back the frame and what is left of the copy. tokio-util's
/// source shows that the default codec waits for four header bytes, fails when the
/// announced length exceeds 8 MiB, waits for the whole payload, and then splits it off
/// the front; the contract claims exactly that (`split_frame`).
#[verifier::external_body]
fn codec_decode(buf: &[u8]) -> (res: Result<Option<(Vec<u8>, Vec<u8>)>, std::io::Error>)
    ensures
        match split_frame(buf@) {
            FrameSplit::Short => res matches Ok(None),
            FrameSplit::Oversized => res is Err,
            FrameSplit::Whole { payload, rest } => res matches Ok(Some((f, r))) && f@ == payload
                && r@ == rest,
        },
{
    let mut codec = tokio_util::codec::LengthDelimitedCodec::new();
    let mut src = bytes::BytesMut::from(buf);
    match tokio_util::codec::Decoder::decode(&mut codec, &mut src) {
        Ok(Some(frame)) => Ok(Some((frame.to_vec(), src.to_vec()))),
        Ok(None) => Ok(None),
        Err(e) => Err(e),
    }
}

/// Why a frame could not be produced.
#[derive(Debug, Clone, Copy, PartialEq, Eq, Structural)]
pub enum FrameError {
    /// The payload, or the length announced by a received prefix, exceeds `MAX_FRAME_LEN`.
    TooLarge,
    /// The buffer already failed once; like tokio-util's `Framed`, it yields nothing more.
    Closed,
}

/// Frames `payload` for sending.
pub fn encode_frame(payload: &[u8]) -> (res: Result<Vec<u8>, FrameError>)
    ensures
        match res {
            Ok(bytes) => payload@.len() <= MAX_FRAME_LEN && bytes@ == frame_of(payload@),
            Err(e) => payload@.len() > MAX_FRAME_LEN && e == FrameError::TooLarge,
        },
{
    match codec_encode(payload) {
        Ok(bytes) => Ok(bytes),
        Err(_) => Err(FrameError::TooLarge),
    }
}

/// Received bytes waiting to be cut into frames.
///
/// It plays the part of tokio-util's `Framed` on the reading side: bytes are
/// appended as they arrive and whole frames are taken off the front; after a
/// framing error it yields nothing more.
pub struct FrameBuffer {
    pending: Vec<u8>,
    closed: bool,
}

impl FrameBuffer {
    /// The bytes received and not yet taken as frames.
    pub closed spec fn pending(&self) -> Seq<u8> {
        self.pending@
    }

    /// Whether a framing error has ended the stream.
    pub closed spec fn is_closed(&self) -> bool {
        self.closed
    }

    /// An empty, open buffer.
    pub fn new() -> (buf: FrameBuffer)
        ensures
            buf.pending() == Seq::<u8>::empty(),
            !buf.is_closed(),
    {
        FrameBuffer { pending: Vec::new(), closed: false }
    }

    /// Appends received bytes.
    pub fn push_bytes(&mut self, data: &[u8])
        ensures
            final(self).pending() == old(self).pending() + data@,
            final(self).is_closed() == old(self).is_closed(),
    {
        self.pending.extend_from_slice(data);
        assert(self.pending@ =~= old(self).pending@ + data@);
    }

    /// Whether received bytes are waiting that form no whole frame yet.
    pub fn has_pending(&self) -> (r: bool)
        ensures
            r == (self.pending().len() > 0),
    {
        self.pending.len() > 0
    }

    /// Takes the next whole frame off the front, if there is one.
    pub fn next_frame(&mut self) -> (res: Result<Option<Vec<u8>>, FrameError>)
        ensures
            old(self).is_closed() ==> res == Err::<Option<Vec<u8>>, FrameError>(FrameError::Closed)
                && final(self).pending() == old(self).pending() && final(self).is_closed(),
            !old(self).is_closed() ==> match split_frame(old(self).pending()) {
                FrameSplit::Short => res == Ok::<Option<Vec<u8>>, FrameError>(None)
                    && final(self).pending() == old(self).pending() && !final(self).is_closed(),
                FrameSplit::Oversized => res == Err::<Option<Vec<u8>>, FrameError>(FrameError::TooLarge)
                    && final(self).pending() == old(self).pending() && final(self).is_closed(),
                FrameSplit::Whole { payload, rest } => res matches Ok(Some(f)) && f@ == payload
                    && final(self).pending() == rest && !final(self).is_closed(),
            },
    {
        if self.closed {
            return Err(FrameError::Closed);
        }
        match codec_decode(self.pending.as_slice()) {
            Ok(Some((frame, rest))) => {
                self.pending = rest;
                Ok(Some(frame))
            },
            Ok(None) => Ok(None),
            Err(_) => {
                self.closed = true;
                Err(FrameError::TooLarge)
            },
        }
    }
}

/// The four prefix bytes of a frame give back the length they encode.
proof fn lemma_prefix_roundtrip(n: nat)
    requires
        n < 0x1_0000_0000,
    ensures
        prefix_value(length_prefix(n)) == n,
{
    let a = (n / 0x100_0000) % 0x100;
    let b = (n / 0x1_0000) % 0x100;
    let c = (n / 0x100) % 0x100;
    let d = n % 0x100;
    assert(a * 0x100_0000 + b * 0x1_0000 + c * 0x100 + d == n) by (nonlinear_arith)
        requires
            n < 0x1_0000_0000,
            a == (n / 0x100_0000) % 0x100,
            b == (n / 0x1_0000) % 0x100,
            c == (n / 0x100) % 0x100,
            d == n % 0x100,
    ;
}

/// What one side frames, the other side reads back: a buffer that starts with
/// the frame of `payload` yields exactly `payload`, and keeps the bytes after it.
pub proof fn lemma_frame_roundtrip(payload: Seq<u8>, rest: Seq<u8>)
    requires
        payload.len() <= MAX_FRAME_LEN,
    ensures
        split_frame(frame_of(payload) + rest) == (FrameSplit::Whole { payload, rest }),
{
    let buf = frame_of(payload) + rest;
    lemma_prefix_roundtrip(payload.len());
    assert(buf.subrange(0, 4) =~= length_prefix(payload.len()));
    assert(prefix_value(buf) == prefix_value(length_prefix(payload.len())));
    assert(buf.subrange(4, 4 + payload.len() as int) =~= payload);
    assert(buf.subrange(4 + payload.len() as int, buf.len() as int) =~= rest);
}

/// A frame that has arrived only in part is waited for: no frame and no error
/// come out of a proper prefix of it.
pub proof fn lemma_partial_frame_waits(payload: Seq<u8>, k: int)
    requires
        payload.len() <= MAX_FRAME_LEN,
        0 <= k < frame_of(payload).len(),
    ensures
        split_frame(frame_of(payload).subrange(0, k)) == FrameSplit::Short,
{
    let part = frame_of(payload).subrange(0, k);
    if k >= 4 {
        lemma_prefix_roundtrip(payload.len());
        assert(part.subrange(0, 4) =~= length_prefix(payload.len()));
        assert(prefix_value(part) == prefix_value(length_prefix(payload.len())));
    }
}

} // verus!
