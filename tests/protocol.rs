use except::crypto::NONCE_LEN;
use except::protocol::{
    decode_sealed, encode_sealed, frame_progress, transform, FrameProgress, Response,
    CHALLENGE_PREFIX_LEN,
};

#[test]
fn transform_is_wrapping_multiplication_everywhere() {
    for op in 0..=255u8 {
        for x in 0..=255u8 {
            assert_eq!(transform(op, x) as u32, (x as u32 * op as u32) % 256);
        }
    }
}

#[test]
fn transform_exact_values() {
    assert_eq!(transform(7, 2), 14);
    assert_eq!(transform(16, 16), 0);
    assert_eq!(transform(255, 255), 1);
    assert_eq!(transform(0, 200), 0);
}

#[test]
fn transform_twice_is_not_identity() {
    // applying the transform twice is in general not the identity
    assert_eq!(transform(3, transform(3, 5)), 45);
    assert_ne!(transform(3, transform(3, 5)), 5);
}

#[test]
fn response_applies_operand_to_each_byte() {
    let r = Response::new(&[2, 3, 5, 7], 7);
    assert_eq!(r.data, vec![14, 21, 35, 49]);
    let empty = Response::new(&[], 9);
    assert!(empty.data.is_empty());
}

#[test]
fn sealed_frame_layout() {
    let nonce = [9u8; NONCE_LEN];
    let sealed = [1u8, 2, 3];
    let mut out = vec![0xAA];
    encode_sealed(&mut out, &nonce, &sealed);
    let mut expected = vec![0xAA];
    expected.extend_from_slice(&nonce);
    expected.push(3);
    expected.extend_from_slice(&sealed);
    expected.extend_from_slice(&[0, 0, 0, 0]);
    assert_eq!(out, expected);
}

#[test]
fn frame_round_trip_with_zero_runs_inside() {
    let nonce = [0u8; NONCE_LEN];
    // a run of zeros in the ciphertext would look like a terminator
    let sealed = [5u8, 0, 0, 0, 0, 0, 6, 0, 0, 0, 0];
    let mut frame = vec![4u8, 7u8];
    encode_sealed(&mut frame, &nonce, &sealed);
    assert_eq!(frame_progress(&frame, CHALLENGE_PREFIX_LEN), FrameProgress::Complete);
    let (n, s) = decode_sealed(&frame, CHALLENGE_PREFIX_LEN).unwrap();
    assert_eq!(n, nonce.to_vec());
    assert_eq!(s, sealed.to_vec());
}

#[test]
fn frame_progress_incomplete_and_malformed() {
    let nonce = [3u8; NONCE_LEN];
    let sealed = [8u8; 20];
    let mut frame = vec![];
    encode_sealed(&mut frame, &nonce, &sealed);
    assert_eq!(frame_progress(&[], 0), FrameProgress::Incomplete);
    assert_eq!(frame_progress(&frame[..5], 0), FrameProgress::Incomplete);
    assert_eq!(frame_progress(&frame[..frame.len() - 1], 0), FrameProgress::Incomplete);
    assert_eq!(frame_progress(&frame, 0), FrameProgress::Complete);
    let mut longer = frame.clone();
    longer.push(0);
    assert_eq!(frame_progress(&longer, 0), FrameProgress::Malformed);
    assert!(decode_sealed(&longer, 0).is_none());
    let mut bad_end = frame.clone();
    let last = bad_end.len() - 1;
    bad_end[last] = 1;
    assert_eq!(frame_progress(&bad_end, 0), FrameProgress::Malformed);
    assert!(decode_sealed(&bad_end, 0).is_none());
}

#[test]
fn empty_sealed_part_round_trips() {
    let nonce = [1u8; NONCE_LEN];
    let mut frame = vec![];
    encode_sealed(&mut frame, &nonce, &[]);
    assert_eq!(frame.len(), NONCE_LEN + 1 + 4);
    let (n, s) = decode_sealed(&frame, 0).unwrap();
    assert_eq!(n, nonce.to_vec());
    assert!(s.is_empty());
}
