//! The wire protocol: control bytes, the operand transform, and frames.
//!
//! Every sealed message travels as `[nonce:12][len:1][ciphertext+tag:len][00 00 00 00]`;
//! the broker's challenge frame puts `[deviceId:1][opByte:1]` in front. The
//! length byte, not the terminator, decides where a frame ends, so zero runs
//! inside ciphertext never cut a frame short, and each message carries its own
//! fresh nonce.

use vstd::prelude::*;

use crate::crypto::NONCE_LEN;

verus! {

/// Sent by the device to open a verification.
pub const CHALLENGE_REQUESTED: u8 = 80;

/// Sent by the device once it has taken the challenge frame.
pub const CHALLENGE_ACCEPTED: u8 = 82;

/// Sent by the broker when the response matched.
pub const CHALLENGE_APPROVED: u8 = 65;

/// Sent by the broker when the response did not match.
pub const CHALLENGE_REJECTED: u8 = 83;

/// Sent by the device, as its first byte, to abort a pending verification.
pub const CHALLENGE_CANCELLED: u8 = 127;

/// `x * op (mod 256)`.
pub open spec fn transform_spec(op: u8, x: u8) -> u8 {
    ((x as int * op as int) % 256) as u8
}

/// The byte-wise transform applied to a whole payload.
pub open spec fn transformed(op: u8, s: Seq<u8>) -> Seq<u8> {
    Seq::new(s.len(), |i: int| transform_spec(op, s[i]))
}

/// The operation a device must apply to each payload byte: wrapping multiplication.
pub fn transform(op: u8, x: u8) -> (r: u8)
    ensures
        r == transform_spec(op, x),
        r as int == (x as int * op as int) % 256,
{
    x.wrapping_mul(op)
}

/// The answer expected for a payload under a given operand.
pub struct Response {
    pub data: Vec<u8>,
}

impl Response {
    pub fn new(data: &[u8], op: u8) -> (r: Response)
        ensures
            r.data@ == transformed(op, data@),
    {
        let mut out: Vec<u8> = Vec::new();
        let mut i: usize = 0;
        while i < data.len()
            invariant
                i <= data@.len(),
                out@ == transformed(op, data@.subrange(0, i as int)),
            decreases data@.len() - i,
        {
            out.push(transform(op, data[i]));
            i = i + 1;
            assert(out@ =~= transformed(op, data@.subrange(0, i as int)));
        }
        assert(data@.subrange(0, data@.len() as int) =~= data@);
        Response { data: out }
    }
}

/// Length of the frame terminator.
pub const TERMINATOR_LEN: usize = 4;

/// Bytes before the ciphertext in a sealed frame: the nonce and one length byte.
pub const SEALED_HEADER_LEN: usize = 13;

/// Bytes before the sealed part of a challenge frame: device id and operand.
pub const CHALLENGE_PREFIX_LEN: usize = 2;

/// Largest ciphertext-with-tag a frame can carry: its length travels in one byte.
pub const MAX_SEALED_LEN: usize = 255;

/// Four zero bytes closing every frame.
pub open spec fn terminator() -> Seq<u8> {
    seq![0u8, 0u8, 0u8, 0u8]
}

/// A sealed message on the wire: the nonce, the length of what follows in one
/// byte, the ciphertext with its tag, and the terminator.
pub open spec fn sealed_frame(nonce: Seq<u8>, sealed: Seq<u8>) -> Seq<u8> {
    nonce + seq![sealed.len() as u8] + sealed + terminator()
}

/// The frame the broker sends: device id, operand, then a sealed message.
pub open spec fn challenge_frame(id: u8, op: u8, nonce: Seq<u8>, sealed: Seq<u8>) -> Seq<u8> {
    seq![id, op] + sealed_frame(nonce, sealed)
}

/// How far a buffer that starts a frame after `prefix` bytes has come.
#[derive(PartialEq, Eq, Structural, Clone, Copy, Debug)]
pub enum FrameProgress {
    /// More bytes are needed.
    Incomplete,
    /// The buffer holds exactly one well-formed frame.
    Complete,
    /// Bytes beyond the declared length, or a wrong terminator.
    Malformed,
}

/// Total length of the frame whose header the buffer holds.
pub open spec fn declared_len(buf: Seq<u8>, prefix: int) -> int {
    prefix + SEALED_HEADER_LEN + buf[prefix + NONCE_LEN] as int + TERMINATOR_LEN
}

pub open spec fn frame_progress_spec(buf: Seq<u8>, prefix: int) -> FrameProgress {
    if buf.len() < prefix + SEALED_HEADER_LEN {
        FrameProgress::Incomplete
    } else if buf.len() < declared_len(buf, prefix) {
        FrameProgress::Incomplete
    } else if buf.len() > declared_len(buf, prefix) {
        FrameProgress::Malformed
    } else if buf.subrange(buf.len() - TERMINATOR_LEN, buf.len() as int) == terminator() {
        FrameProgress::Complete
    } else {
        FrameProgress::Malformed
    }
}

/// The nonce and the ciphertext-with-tag of a complete frame.
pub open spec fn frame_parts(buf: Seq<u8>, prefix: int) -> (Seq<u8>, Seq<u8>) {
    (
        buf.subrange(prefix, prefix + NONCE_LEN),
        buf.subrange(prefix + SEALED_HEADER_LEN, buf.len() - TERMINATOR_LEN),
    )
}

/// Appends `src` to `out`.
pub fn append_bytes(out: &mut Vec<u8>, src: &[u8])
    ensures
        final(out)@ == old(out)@ + src@,
{
    let mut i: usize = 0;
    while i < src.len()
        invariant
            i <= src@.len(),
            out@ == old(out)@ + src@.subrange(0, i as int),
        decreases src@.len() - i,
    {
        out.push(src[i]);
        i = i + 1;
        assert(out@ =~= old(out)@ + src@.subrange(0, i as int));
    }
    assert(src@.subrange(0, src@.len() as int) =~= src@);
}

/// The bytes of `src` from `from` up to `to`.
pub fn copy_range(src: &[u8], from: usize, to: usize) -> (r: Vec<u8>)
    requires
        from <= to <= src@.len(),
    ensures
        r@ == src@.subrange(from as int, to as int),
{
    let mut out: Vec<u8> = Vec::new();
    let mut i: usize = from;
    while i < to
        invariant
            from <= i <= to <= src@.len(),
            out@ == src@.subrange(from as int, i as int),
        decreases to - i,
    {
        out.push(src[i]);
        i = i + 1;
        assert(out@ =~= src@.subrange(from as int, i as int));
    }
    out
}

/// Appends a sealed frame for `nonce` and `sealed` to `out`.
pub fn encode_sealed(out: &mut Vec<u8>, nonce: &[u8], sealed: &[u8])
    requires
        nonce@.len() == NONCE_LEN,
        sealed@.len() <= MAX_SEALED_LEN,
    ensures
        final(out)@ == old(out)@ + sealed_frame(nonce@, sealed@),
{
    append_bytes(out, nonce);
    out.push(sealed.len() as u8);
    append_bytes(out, sealed);
    let mut k: usize = 0;
    while k < TERMINATOR_LEN
        invariant
            k <= TERMINATOR_LEN,
            out@ == old(out)@ + nonce@ + seq![sealed@.len() as u8] + sealed@ + terminator().subrange(0, k as int),
        decreases TERMINATOR_LEN - k,
    {
        out.push(0u8);
        k = k + 1;
        assert(terminator().subrange(0, k as int) =~= terminator().subrange(0, k - 1) + seq![0u8]);
    }
    assert(terminator().subrange(0, 4) =~= terminator());
    assert(old(out)@ + sealed_frame(nonce@, sealed@) =~= old(out)@ + nonce@ + seq![sealed@.len() as u8] + sealed@ + terminator());
}

/// Where reading a frame stands, for a buffer whose frame begins after
/// `prefix` bytes. The declared length, not the terminator, ends the frame,
/// so zero bytes inside the ciphertext cannot cut it short.
pub fn frame_progress(buf: &[u8], prefix: usize) -> (r: FrameProgress)
    requires
        prefix <= CHALLENGE_PREFIX_LEN,
    ensures
        r == frame_progress_spec(buf@, prefix as int),
{
    let n = buf.len();
    if n < prefix + SEALED_HEADER_LEN {
        return FrameProgress::Incomplete;
    }
    let total = prefix + SEALED_HEADER_LEN + buf[prefix + NONCE_LEN] as usize + TERMINATOR_LEN;
    if n < total {
        FrameProgress::Incomplete
    } else if n > total {
        FrameProgress::Malformed
    } else if buf[n - 4] == 0 && buf[n - 3] == 0 && buf[n - 2] == 0 && buf[n - 1] == 0 {
        assert(buf@.subrange(n - TERMINATOR_LEN, n as int) =~= terminator());
        FrameProgress::Complete
    } else {
        assert(buf@.subrange(n - TERMINATOR_LEN, n as int)[0] == buf@[n - 4]);
        assert(buf@.subrange(n - TERMINATOR_LEN, n as int)[1] == buf@[n - 3]);
        assert(buf@.subrange(n - TERMINATOR_LEN, n as int)[2] == buf@[n - 2]);
        assert(buf@.subrange(n - TERMINATOR_LEN, n as int)[3] == buf@[n - 1]);
        FrameProgress::Malformed
    }
}

/// The nonce and ciphertext-with-tag of a frame that begins after `prefix`
/// bytes, or `None` when the buffer is not exactly one well-formed frame.
pub fn decode_sealed(buf: &[u8], prefix: usize) -> (r: Option<(Vec<u8>, Vec<u8>)>)
    requires
        prefix <= CHALLENGE_PREFIX_LEN,
    ensures
        r is Some <==> frame_progress_spec(buf@, prefix as int) == FrameProgress::Complete,
        r matches Some(p) ==> (p.0@, p.1@) == frame_parts(buf@, prefix as int),
{
    match frame_progress(buf, prefix) {
        FrameProgress::Complete => {
            let nonce = copy_range(buf, prefix, prefix + NONCE_LEN);
            let sealed = copy_range(buf, prefix + SEALED_HEADER_LEN, buf.len() - TERMINATOR_LEN);
            Some((nonce, sealed))
        },
        _ => None,
    }
}

/// The frame decoder undoes the encoder: a sealed frame after any prefix of
/// the expected length is complete, and gives back its nonce and ciphertext.
pub proof fn lemma_sealed_frame_round_trip(prefix: Seq<u8>, nonce: Seq<u8>, sealed: Seq<u8>)
    requires
        prefix.len() <= CHALLENGE_PREFIX_LEN,
        nonce.len() == NONCE_LEN,
        sealed.len() <= MAX_SEALED_LEN,
    ensures
        frame_progress_spec(prefix + sealed_frame(nonce, sealed), prefix.len() as int)
            == FrameProgress::Complete,
        frame_parts(prefix + sealed_frame(nonce, sealed), prefix.len() as int) == (nonce, sealed),
{
    let buf = prefix + sealed_frame(nonce, sealed);
    let p = prefix.len() as int;
    assert(buf[p + NONCE_LEN] == sealed.len() as u8);
    assert(buf.len() == declared_len(buf, p));
    assert(buf.subrange(buf.len() - TERMINATOR_LEN, buf.len() as int) =~= terminator());
    assert(buf.subrange(p, p + NONCE_LEN) =~= nonce);
    assert(buf.subrange(p + SEALED_HEADER_LEN, buf.len() - TERMINATOR_LEN) =~= sealed);
}

} // verus!
