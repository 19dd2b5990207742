//! Authenticated encryption and randomness, through ring.

use vstd::prelude::*;

use ring::aead::{Aad, LessSafeKey, Nonce, UnboundKey, AES_256_GCM};
use ring::rand::{SecureRandom, SystemRandom};

verus! {

/// Length of an AES-256-GCM key.
pub const KEY_LEN: usize = 32;

/// Length of an AES-GCM nonce.
pub const NONCE_LEN: usize = 12;

/// Length of the authentication tag appended to every sealed message.
pub const TAG_LEN: usize = 16;

/// Largest plaintext this library ever seals (far below the cipher's own limit).
pub const MAX_PLAIN_LEN: usize = 4096;

/// What AES-256-GCM sealing (empty additional data) makes of a plaintext:
/// the ciphertext with its tag appended.
pub uninterp spec fn aead_seal(key: Seq<u8>, nonce: Seq<u8>, plain: Seq<u8>) -> Seq<u8>;

/// What AES-256-GCM opening (empty additional data) makes of ciphertext and tag:
/// the plaintext, or nothing when the tag does not authenticate.
pub uninterp spec fn aead_open(key: Seq<u8>, nonce: Seq<u8>, sealed: Seq<u8>) -> Option<Seq<u8>>;

/// The contents of an optional byte vector.
pub open spec fn opt_bytes(r: Option<Vec<u8>>) -> Option<Seq<u8>> {
    match r {
        Some(v) => Some(v@),
        None => None,
    }
}

/// Relies on ring's `LessSafeKey::seal_in_place_append_tag` with `AES_256_GCM`
/// and `Aad::empty()`: the plaintext is encrypted and a 16-byte tag appended;
/// with a 32-byte key and a 12-byte nonce it fails only past ring's input limit.
#[verifier::external_body]
pub(crate) fn seal(key: &[u8], nonce: &[u8], plain: &[u8]) -> (r: Option<Vec<u8>>)
    requires
        key@.len() == KEY_LEN,
        nonce@.len() == NONCE_LEN,
    ensures
        r matches Some(c) ==> c@ == aead_seal(key@, nonce@, plain@),
        r matches Some(c) ==> c@.len() == plain@.len() + TAG_LEN,
        plain@.len() <= MAX_PLAIN_LEN ==> r is Some,
{
    let unbound = match UnboundKey::new(&AES_256_GCM, key) {
        Ok(k) => k,
        Err(_) => return None,
    };
    let nonce = match Nonce::try_assume_unique_for_key(nonce) {
        Ok(n) => n,
        Err(_) => return None,
    };
    let mut data = plain.to_vec();
    match LessSafeKey::new(unbound).seal_in_place_append_tag(nonce, Aad::empty(), &mut data) {
        Ok(()) => Some(data),
        Err(_) => None,
    }
}

/// Relies on ring's `LessSafeKey::open_in_place` with `AES_256_GCM` and
/// `Aad::empty()`: it authenticates ciphertext and tag and returns the
/// plaintext; what was sealed under the same key and nonce opens to the
/// plaintext that was sealed.
#[verifier::external_body]
pub(crate) fn open(key: &[u8], nonce: &[u8], sealed: &[u8]) -> (r: Option<Vec<u8>>)
    requires
        key@.len() == KEY_LEN,
        nonce@.len() == NONCE_LEN,
    ensures
        opt_bytes(r) == aead_open(key@, nonce@, sealed@),
        r matches Some(p) ==> p@.len() + TAG_LEN == sealed@.len(),
        forall|p: Seq<u8>|
            sealed@ == #[trigger] aead_seal(key@, nonce@, p) ==> opt_bytes(r) == Some(p),
{
    let unbound = match UnboundKey::new(&AES_256_GCM, key) {
        Ok(k) => k,
        Err(_) => return None,
    };
    let nonce = match Nonce::try_assume_unique_for_key(nonce) {
        Ok(n) => n,
        Err(_) => return None,
    };
    let mut data = sealed.to_vec();
    match LessSafeKey::new(unbound).open_in_place(nonce, Aad::empty(), &mut data) {
        Ok(plain) => Some(plain.to_vec()),
        Err(_) => None,
    }
}

/// Relies on ring's `SystemRandom::fill`: on success every byte of the buffer
/// has been drawn from the operating system's generator.
#[verifier::external_body]
pub(crate) fn random_bytes(len: usize) -> (r: Option<Vec<u8>>)
    ensures
        r matches Some(v) ==> v@.len() == len,
{
    let mut buf = vec![0u8; len];
    match SystemRandom::new().fill(&mut buf) {
        Ok(()) => Some(buf),
        Err(_) => None,
    }
}

} // verus!
