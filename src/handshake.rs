//! The challenge-response handshake: building and sealing a challenge,
//! checking the device's answer, and the device's own side of it.

use vstd::prelude::*;

use crate::crypto::{
    aead_open, aead_seal, open, opt_bytes, random_bytes, seal, KEY_LEN, NONCE_LEN, TAG_LEN,
};
use crate::protocol::{
    challenge_frame, copy_range, decode_sealed, encode_sealed, frame_parts, frame_progress_spec,
    sealed_frame, transformed, FrameProgress, Response, CHALLENGE_PREFIX_LEN, MAX_SEALED_LEN,
    SEALED_HEADER_LEN, TERMINATOR_LEN,
};

verus! {

/// Number of secret payload bytes in a challenge.
pub const PAYLOAD_LEN: usize = 4;

/// Random bytes drawn per challenge: the operand, then the payload.
pub const SEED_LEN: usize = 5;

/// Length of a challenge frame: id, operand, nonce, length byte, the sealed
/// payload with its tag, and the terminator.
pub const CHALLENGE_FRAME_LEN: usize = CHALLENGE_PREFIX_LEN + SEALED_HEADER_LEN + PAYLOAD_LEN
    + TAG_LEN + TERMINATOR_LEN;

/// The plaintext carried by a frame that begins after `prefix` bytes: nothing
/// when the buffer is not exactly one well-formed frame or does not
/// authenticate under `key` and the frame's nonce.
pub open spec fn open_frame_spec(key: Seq<u8>, frame: Seq<u8>, prefix: int) -> Option<Seq<u8>> {
    if frame_progress_spec(frame, prefix) == FrameProgress::Complete {
        aead_open(key, frame_parts(frame, prefix).0, frame_parts(frame, prefix).1)
    } else {
        None
    }
}

/// Decodes and decrypts a frame that begins after `prefix` bytes. Whatever
/// plaintext was sealed under `key` and framed comes back unchanged.
pub fn open_frame(key: &[u8], frame: &[u8], prefix: usize) -> (r: Option<Vec<u8>>)
    requires
        key@.len() == KEY_LEN,
        prefix <= CHALLENGE_PREFIX_LEN,
    ensures
        opt_bytes(r) == open_frame_spec(key@, frame@, prefix as int),
        r matches Some(p) ==> p@.len() + TAG_LEN <= MAX_SEALED_LEN,
        forall|n: Seq<u8>, p: Seq<u8>|
            n.len() == NONCE_LEN && aead_seal(key@, n, p).len() <= MAX_SEALED_LEN && prefix
                <= frame@.len() && frame@.subrange(prefix as int, frame@.len() as int)
                == #[trigger] sealed_frame(n, aead_seal(key@, n, p)) ==> opt_bytes(r) == Some(p),
{
    assert forall|n: Seq<u8>, p: Seq<u8>|
        n.len() == NONCE_LEN && aead_seal(key@, n, p).len() <= MAX_SEALED_LEN && prefix
            <= frame@.len() && frame@.subrange(prefix as int, frame@.len() as int)
            == #[trigger] sealed_frame(n, aead_seal(key@, n, p)) implies frame_progress_spec(
        frame@,
        prefix as int,
    ) == FrameProgress::Complete && frame_parts(frame@, prefix as int) == (
        n,
        aead_seal(key@, n, p),
    ) by {
        let pre = frame@.subrange(0, prefix as int);
        assert(pre + sealed_frame(n, aead_seal(key@, n, p)) =~= frame@);
        crate::protocol::lemma_sealed_frame_round_trip(pre, n, aead_seal(key@, n, p));
    }
    match decode_sealed(frame, prefix) {
        Some((nonce, sealed)) => open(key, nonce.as_slice(), sealed.as_slice()),
        None => None,
    }
}

/// The pre-shared key both ends hold: the ASCII text `0123456789abcdef` twice.
pub open spec fn default_key_spec() -> Seq<u8> {
    seq![
        48u8, 49, 50, 51, 52, 53, 54, 55, 56, 57, 97, 98, 99, 100, 101, 102,
        48, 49, 50, 51, 52, 53, 54, 55, 56, 57, 97, 98, 99, 100, 101, 102,
    ]
}

pub fn default_key() -> (r: Vec<u8>)
    ensures
        r@ == default_key_spec(),
        r@.len() == KEY_LEN,
{
    let r: Vec<u8> = vec![
        48u8, 49, 50, 51, 52, 53, 54, 55, 56, 57, 97, 98, 99, 100, 101, 102,
        48, 49, 50, 51, 52, 53, 54, 55, 56, 57, 97, 98, 99, 100, 101, 102,
    ];
    assert(r@ =~= default_key_spec());
    r
}

/// One challenge: the device it is meant for, the operand, the secret payload,
/// the nonce it is sealed under, the key, and the answer it expects.
pub struct Challenge {
    pub id: u8,
    pub op: u8,
    pub payload: Vec<u8>,
    pub nonce: Vec<u8>,
    pub key: Vec<u8>,
    pub response: Response,
}

/// A response frame that proves knowledge of the key: one complete sealed
/// frame that opens, under the key and the nonce it carries, to `expected`.
pub open spec fn response_ok(key: Seq<u8>, expected: Seq<u8>, frame: Seq<u8>) -> bool {
    open_frame_spec(key, frame, 0) == Some(expected)
}

impl Challenge {
    pub open spec fn wf(&self) -> bool {
        &&& self.payload@.len() == PAYLOAD_LEN
        &&& self.nonce@.len() == NONCE_LEN
        &&& self.key@.len() == KEY_LEN
        &&& self.response.data@ == transformed(self.op, self.payload@)
    }

    /// The frame that carries this challenge to the device.
    pub open spec fn frame_spec(&self) -> Seq<u8> {
        challenge_frame(
            self.id,
            self.op,
            self.nonce@,
            aead_seal(self.key@, self.nonce@, self.payload@),
        )
    }

    /// The challenge for device `id` whose operand is `seed[0]` and whose
    /// payload is the rest of `seed`, to be sealed under `nonce`.
    pub fn with_seed(id: u8, key: &[u8], seed: &[u8], nonce: &[u8]) -> (r: Challenge)
        requires
            key@.len() == KEY_LEN,
            seed@.len() == SEED_LEN,
            nonce@.len() == NONCE_LEN,
        ensures
            r.wf(),
            r.id == id,
            r.op == seed@[0],
            r.payload@ == seed@.subrange(1, SEED_LEN as int),
            r.nonce@ == nonce@,
            r.key@ == key@,
    {
        let op = seed[0];
        let payload = copy_range(seed, 1, SEED_LEN);
        let response = Response::new(payload.as_slice(), op);
        Challenge {
            id,
            op,
            payload,
            nonce: copy_range(nonce, 0, nonce.len()),
            key: copy_range(key, 0, key.len()),
            response,
        }
    }

    /// A challenge for device `id` with a fresh random operand, payload and
    /// nonce; `None` when the system generator fails.
    pub fn generate(id: u8, key: &[u8]) -> (r: Option<Challenge>)
        requires
            key@.len() == KEY_LEN,
        ensures
            r matches Some(c) ==> c.wf() && c.id == id && c.key@ == key@,
    {
        let seed = match random_bytes(SEED_LEN) {
            Some(s) => s,
            None => return None,
        };
        let nonce = match random_bytes(NONCE_LEN) {
            Some(n) => n,
            None => return None,
        };
        Some(Challenge::with_seed(id, key, seed.as_slice(), nonce.as_slice()))
    }

    /// The frame sent to the device: id, operand, then the payload sealed
    /// under the challenge's nonce, framed.
    pub fn write_to_buf(&self) -> (r: Vec<u8>)
        requires
            self.wf(),
        ensures
            r@ == self.frame_spec(),
            aead_seal(self.key@, self.nonce@, self.payload@).len() == PAYLOAD_LEN + TAG_LEN,
            r@.len() == CHALLENGE_FRAME_LEN,
    {
        let sealed = seal(self.key.as_slice(), self.nonce.as_slice(), self.payload.as_slice()).unwrap();
        let mut buf: Vec<u8> = Vec::new();
        buf.push(self.id);
        buf.push(self.op);
        encode_sealed(&mut buf, self.nonce.as_slice(), sealed.as_slice());
        assert(buf@ =~= self.frame_spec());
        buf
    }

    /// Whether the device's decrypted answer is exactly the expected one,
    /// length included.
    pub fn verify(&self, got: &[u8]) -> (r: bool)
        ensures
            r == (got@ == self.response.data@),
    {
        if got.len() != self.response.data.len() {
            return false;
        }
        let mut i: usize = 0;
        while i < got.len()
            invariant
                i <= got@.len(),
                got@.len() == self.response.data@.len(),
                forall|j: int| 0 <= j < i ==> got@[j] == self.response.data@[j],
            decreases got@.len() - i,
        {
            if got[i] != self.response.data[i] {
                assert(got@[i as int] != self.response.data@[i as int]);
                assert(got@ != self.response.data@);
                return false;
            }
            i = i + 1;
        }
        assert(got@ =~= self.response.data@);
        true
    }

    /// Whether a response frame from the device answers this challenge.
    pub fn check_response(&self, frame: &[u8]) -> (r: bool)
        requires
            self.wf(),
        ensures
            r == response_ok(self.key@, self.response.data@, frame@),
            forall|n: Seq<u8>, s: Seq<u8>|
                n.len() == NONCE_LEN && s.len() <= MAX_SEALED_LEN && s == aead_seal(
                    self.key@,
                    n,
                    self.response.data@,
                ) && frame@ == #[trigger] sealed_frame(n, s) ==> r,
    {
        proof {
            assert forall|n: Seq<u8>, sq: Seq<u8>|
                n.len() == NONCE_LEN && sq.len() <= MAX_SEALED_LEN && sq == aead_seal(
                    self.key@,
                    n,
                    self.response.data@,
                ) && frame@ == #[trigger] sealed_frame(n, sq) implies frame@.subrange(
                0,
                frame@.len() as int,
            ) == sealed_frame(n, aead_seal(self.key@, n, self.response.data@)) by {
                assert(frame@.subrange(0, frame@.len() as int) =~= frame@);
            }
        }
        match open_frame(self.key.as_slice(), frame, 0) {
            Some(plain) => self.verify(plain.as_slice()),
            None => false,
        }
    }
}

/// What the device sends back for a challenge frame, sealing its answer
/// under `nonce`: nothing when the frame is malformed or does not open.
pub open spec fn answer_spec(key: Seq<u8>, frame: Seq<u8>, nonce: Seq<u8>) -> Option<Seq<u8>> {
    match open_frame_spec(key, frame, CHALLENGE_PREFIX_LEN as int) {
        Some(p) => Some(sealed_frame(nonce, aead_seal(key, nonce, transformed(frame[1], p)))),
        None => None,
    }
}

/// The device's side of the handshake: open the challenge, apply the
/// operand to each payload byte, seal the answer under `nonce`, and frame it.
pub fn answer_challenge(key: &[u8], frame: &[u8], nonce: &[u8]) -> (r: Option<Vec<u8>>)
    requires
        key@.len() == KEY_LEN,
        nonce@.len() == NONCE_LEN,
    ensures
        opt_bytes(r) == answer_spec(key@, frame@, nonce@),
        forall|id: u8, op: u8, n: Seq<u8>, p: Seq<u8>|
            n.len() == NONCE_LEN && aead_seal(key@, n, p).len() <= MAX_SEALED_LEN && frame@
                == #[trigger] challenge_frame(id, op, n, aead_seal(key@, n, p)) ==> opt_bytes(r)
                == Some(sealed_frame(nonce@, aead_seal(key@, nonce@, transformed(op, p)))),
{
    assert forall|id: u8, op: u8, n: Seq<u8>, p: Seq<u8>|
        n.len() == NONCE_LEN && aead_seal(key@, n, p).len() <= MAX_SEALED_LEN && frame@
            == #[trigger] challenge_frame(id, op, n, aead_seal(key@, n, p)) implies frame@.subrange(
        CHALLENGE_PREFIX_LEN as int,
        frame@.len() as int,
    ) == sealed_frame(n, aead_seal(key@, n, p)) && frame@[1] == op by {
        assert(frame@.subrange(CHALLENGE_PREFIX_LEN as int, frame@.len() as int) =~= sealed_frame(
            n,
            aead_seal(key@, n, p),
        ));
    }
    let plain = match open_frame(key, frame, CHALLENGE_PREFIX_LEN) {
        Some(p) => p,
        None => return None,
    };
    let op = frame[1];
    let answer = Response::new(plain.as_slice(), op);
    let sealed_answer = seal(key, nonce, answer.data.as_slice()).unwrap();
    let mut out: Vec<u8> = Vec::new();
    encode_sealed(&mut out, nonce, sealed_answer.as_slice());
    assert(out@ =~= sealed_frame(nonce@, sealed_answer@));
    Some(out)
}

/// The device's reply to a challenge frame, sealed under a fresh random
/// nonce; `None` when the frame does not open or the generator fails.
pub fn device_reply(key: &[u8], frame: &[u8]) -> (r: Option<Vec<u8>>)
    requires
        key@.len() == KEY_LEN,
    ensures
        r matches Some(v) ==> exists|n: Seq<u8>|
            n.len() == NONCE_LEN && answer_spec(key@, frame@, n) == Some(v@),
{
    let nonce = match random_bytes(NONCE_LEN) {
        Some(n) => n,
        None => return None,
    };
    let r = answer_challenge(key, frame, nonce.as_slice());
    assert(r matches Some(v) ==> answer_spec(key@, frame@, nonce@) == Some(v@));
    r
}

} // verus!
