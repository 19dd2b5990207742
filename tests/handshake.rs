use except::broker::{Action, Handler, HandlerError, Outcome, Phase, WaitEvent};
use except::crypto::NONCE_LEN;
use except::handshake::{answer_challenge, default_key, open_frame, Challenge, CHALLENGE_FRAME_LEN};
use except::protocol::{
    decode_sealed, encode_sealed, CHALLENGE_ACCEPTED, CHALLENGE_APPROVED, CHALLENGE_CANCELLED,
    CHALLENGE_PREFIX_LEN, CHALLENGE_REJECTED, CHALLENGE_REQUESTED,
};
use except::session::VerificationSession;

const SEED: [u8; 5] = [7, 2, 3, 5, 7];
const BROKER_NONCE: [u8; NONCE_LEN] = [1; NONCE_LEN];
const DEVICE_NONCE: [u8; NONCE_LEN] = [2; NONCE_LEN];

fn handler_at_accept(id: u8) -> (Handler, Vec<u8>) {
    let key = default_key();
    let mut h = Handler::new(&key);
    assert!(matches!(h.on_request(CHALLENGE_REQUESTED), Action::SignalConnected));
    let frame = match h.begin(id, &SEED, &BROKER_NONCE) {
        Action::SendChallenge(f) => f,
        _ => panic!("expected a challenge frame"),
    };
    (h, frame)
}

#[test]
fn challenge_frame_hides_payload() {
    let key = default_key();
    let c = Challenge::with_seed(9, &key, &SEED, &BROKER_NONCE);
    assert_eq!(c.op, 7);
    assert_eq!(c.payload, vec![2, 3, 5, 7]);
    assert_eq!(c.response.data, vec![14, 21, 35, 49]);
    let frame = c.write_to_buf();
    assert_eq!(frame[0], 9);
    assert_eq!(frame[1], 7);
    assert_eq!(&frame[2..2 + NONCE_LEN], &BROKER_NONCE);
    // payload of 4 bytes plus a 16-byte tag
    assert_eq!(frame[2 + NONCE_LEN], 20);
    assert_eq!(frame.len(), 2 + NONCE_LEN + 1 + 20 + 4);
    let (_, sealed) = decode_sealed(&frame, CHALLENGE_PREFIX_LEN).unwrap();
    assert_ne!(&sealed[..4], &[2, 3, 5, 7]);
}

#[test]
fn happy_path_verifies() {
    let key = default_key();
    let (mut h, frame) = handler_at_accept(42);
    assert_eq!(frame[0], 42);
    let answer = answer_challenge(&key, &frame, &DEVICE_NONCE).unwrap();
    assert!(matches!(h.on_accept(CHALLENGE_ACCEPTED), Action::ReadMore));
    // deliver the answer in two pieces
    let (a, b) = answer.split_at(10);
    assert!(matches!(h.on_response(a), Action::ReadMore));
    let action = h.on_response(b);
    match action {
        Action::Reply { byte, verified } => {
            assert_eq!(byte, CHALLENGE_APPROVED);
            assert!(verified);
        }
        _ => panic!("expected a verdict"),
    }
    assert_eq!(h.phase, Phase::Done);
    let mut s = VerificationSession::new();
    s.record(Outcome::Verified(true));
    assert!(s.verify_status());
}

#[test]
fn device_answer_is_the_transformed_payload() {
    let key = default_key();
    let c = Challenge::with_seed(1, &key, &SEED, &BROKER_NONCE);
    let answer = answer_challenge(&key, &c.write_to_buf(), &DEVICE_NONCE).unwrap();
    let (nonce, sealed) = decode_sealed(&answer, 0).unwrap();
    assert_eq!(nonce, DEVICE_NONCE.to_vec());
    assert_eq!(sealed.len(), 4 + 16);
    assert!(c.check_response(&answer));
    // the same bytes re-framed under another nonce no longer open
    let mut moved = vec![];
    encode_sealed(&mut moved, &[3; NONCE_LEN], &sealed);
    assert!(!c.check_response(&moved));
}

#[test]
fn wrong_response_is_rejected() {
    let key = default_key();
    let (mut h, _frame) = handler_at_accept(5);
    // a device that answers with the operand 8 instead of 7
    let other = Challenge::with_seed(5, &key, &[8, 2, 3, 5, 7], &BROKER_NONCE);
    let wrong = answer_challenge(&key, &other.write_to_buf(), &DEVICE_NONCE).unwrap();
    h.on_accept(CHALLENGE_ACCEPTED);
    match h.on_response(&wrong) {
        Action::Reply { byte, verified } => {
            assert_eq!(byte, CHALLENGE_REJECTED);
            assert!(!verified);
        }
        _ => panic!("expected a verdict"),
    }
    let mut s = VerificationSession::new();
    s.record(Outcome::Verified(true));
    s.record(Outcome::Verified(false));
    assert!(!s.verify_status());
}

#[test]
fn tampered_response_is_rejected() {
    let key = default_key();
    let (mut h, frame) = handler_at_accept(5);
    let mut answer = answer_challenge(&key, &frame, &DEVICE_NONCE).unwrap();
    answer[NONCE_LEN + 2] ^= 0x01;
    h.on_accept(CHALLENGE_ACCEPTED);
    match h.on_response(&answer) {
        Action::Reply { byte, verified } => {
            assert_eq!(byte, CHALLENGE_REJECTED);
            assert!(!verified);
        }
        _ => panic!("expected a verdict"),
    }
}

#[test]
fn device_refuses_tampered_challenge() {
    let key = default_key();
    let (_, mut frame) = handler_at_accept(5);
    frame[2 + NONCE_LEN + 1] ^= 0x80;
    assert!(answer_challenge(&key, &frame, &DEVICE_NONCE).is_none());
    assert!(answer_challenge(&key, &frame[..10], &DEVICE_NONCE).is_none());
}

#[test]
fn challenge_not_accepted_fails() {
    let (mut h, _) = handler_at_accept(5);
    match h.on_accept(0) {
        Action::Finish(o) => assert_eq!(o, Outcome::Failed(HandlerError::Rejected)),
        _ => panic!("expected the handler to stop"),
    }
    assert_eq!(h.phase, Phase::Done);
}

#[test]
fn overlong_response_is_malformed() {
    let key = default_key();
    let (mut h, frame) = handler_at_accept(5);
    let mut answer = answer_challenge(&key, &frame, &DEVICE_NONCE).unwrap();
    answer.push(0);
    h.on_accept(CHALLENGE_ACCEPTED);
    match h.on_response(&answer) {
        Action::Finish(o) => assert_eq!(o, Outcome::Failed(HandlerError::MalformedFrame)),
        _ => panic!("expected the handler to stop"),
    }
}

#[test]
fn cancellation_clears_verified() {
    let key = default_key();
    let mut h = Handler::new(&key);
    match h.on_request(CHALLENGE_CANCELLED) {
        Action::Finish(o) => {
            assert_eq!(o, Outcome::Cancelled);
            let mut s = VerificationSession::new();
            s.record(Outcome::Verified(true));
            s.record(o);
            assert!(!s.verify_status());
        }
        _ => panic!("expected the handler to stop"),
    }
    assert!(h.challenge.is_none());
    assert_eq!(h.phase, Phase::Done);
}

#[test]
fn unknown_first_byte_is_invalid() {
    let mut h = Handler::new(&default_key());
    match h.on_request(1) {
        Action::Finish(o) => assert_eq!(o, Outcome::Failed(HandlerError::InvalidRequest)),
        _ => panic!("expected the handler to stop"),
    }
}

#[test]
fn handoff_timeout_fails_alone() {
    let mut h = Handler::new(&default_key());
    h.on_request(CHALLENGE_REQUESTED);
    match h.on_wait(WaitEvent::TimedOut) {
        Action::Finish(o) => {
            assert_eq!(o, Outcome::Failed(HandlerError::Timeout));
            let mut s = VerificationSession::new();
            s.start_verify(3, &Ok(()));
            let before = s;
            s.record(o);
            assert_eq!(s, before);
        }
        _ => panic!("expected the handler to stop"),
    }
}

#[test]
fn stray_bytes_while_waiting_fail() {
    let mut h = Handler::new(&default_key());
    h.on_request(CHALLENGE_REQUESTED);
    match h.on_wait(WaitEvent::StrayBytes) {
        Action::Finish(o) => assert_eq!(o, Outcome::Failed(HandlerError::OutOfOrder)),
        _ => panic!("expected the handler to stop"),
    }
}

#[test]
fn device_id_starts_random_challenge() {
    let key = default_key();
    let mut h = Handler::new(&key);
    h.on_request(CHALLENGE_REQUESTED);
    match h.on_wait(WaitEvent::DeviceId(77)) {
        Action::SendChallenge(frame) => {
            assert_eq!(frame[0], 77);
            assert_eq!(h.phase, Phase::AwaitAccept);
            let c = h.challenge.as_ref().unwrap();
            assert_eq!(c.id, 77);
            let answer = answer_challenge(&key, &frame, &DEVICE_NONCE).unwrap();
            assert!(c.check_response(&answer));
        }
        _ => panic!("expected a challenge frame"),
    }
}

#[test]
fn closed_stream_is_connection_error() {
    let (mut h, _) = handler_at_accept(5);
    match h.on_closed() {
        Action::Finish(o) => assert_eq!(o, Outcome::Failed(HandlerError::Connection)),
        _ => panic!("expected the handler to stop"),
    }
}

#[test]
fn generated_challenges_use_fresh_nonces() {
    let key = default_key();
    let a = Challenge::generate(1, &key).unwrap();
    let b = Challenge::generate(1, &key).unwrap();
    assert_eq!(a.nonce.len(), NONCE_LEN);
    assert_eq!(a.payload.len(), 4);
    assert_ne!(a.nonce, b.nonce);
}

#[test]
fn verify_needs_exact_length() {
    let c = Challenge::with_seed(1, &default_key(), &SEED, &BROKER_NONCE);
    assert!(c.verify(&[14, 21, 35, 49]));
    assert!(!c.verify(&[14, 21, 35]));
    assert!(!c.verify(&[14, 21, 35, 49, 0]));
    assert!(!c.verify(&[14, 21, 35, 48]));
}

#[test]
fn challenge_frame_opens_to_its_payload() {
    let key = default_key();
    let c = Challenge::with_seed(3, &key, &[200, 0, 0, 0, 0], &BROKER_NONCE);
    let frame = c.write_to_buf();
    assert_eq!(frame.len(), CHALLENGE_FRAME_LEN);
    assert_eq!(CHALLENGE_FRAME_LEN, 39);
    assert_eq!(open_frame(&key, &frame, CHALLENGE_PREFIX_LEN), Some(vec![0, 0, 0, 0]));
    let c = Challenge::with_seed(3, &key, &SEED, &BROKER_NONCE);
    let frame = c.write_to_buf();
    assert_eq!(open_frame(&key, &frame, CHALLENGE_PREFIX_LEN), Some(vec![2, 3, 5, 7]));
    // the wrong prefix length, or another key, gives nothing
    assert_eq!(open_frame(&key, &frame, 0), None);
    let other_key = vec![7u8; 32];
    assert_eq!(open_frame(&other_key, &frame, CHALLENGE_PREFIX_LEN), None);
}
