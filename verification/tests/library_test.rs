use chacha20poly1305::aead::{Aead, KeyInit};
use generic_ec::{curves::Secp256k1, Point, Scalar};
use hkdf::Hkdf;
use ot_in_rust::crypto::{
    decrypt_payload, derive_symmetric_key, encrypt_payload, frame_payload, seal_payload, split_payload,
    KEY_DERIVATION_INFO, NONCE_LEN, TAG_LEN,
};
use ot_in_rust::{CiphertextPair, EcPoint, OtError, ReceiverKeys, SecretScalar, SenderSetup};
use rand::rngs::OsRng;
use sha2::Sha256;

fn scalar_bytes(n: u8) -> Vec<u8> {
    let mut b = vec![0u8; 32];
    b[31] = n;
    b
}

fn generic_point(n: u8) -> Point<Secp256k1> {
    Point::<Secp256k1>::generator() * Scalar::<Secp256k1>::from_be_bytes(scalar_bytes(n)).unwrap()
}

#[test]
fn split_payload_refuses_short_input() {
    assert_eq!(split_payload(&[0u8; 11]).err(), Some(OtError::PayloadTooShort));
    assert_eq!(split_payload(&[]).err(), Some(OtError::PayloadTooShort));
}

#[test]
fn split_payload_separates_nonce() {
    let payload: Vec<u8> = (0u8..20).collect();
    let (nonce, sealed) = split_payload(&payload).unwrap();
    assert_eq!(nonce, &payload[..12]);
    assert_eq!(sealed, &payload[12..]);
    let (nonce, sealed) = split_payload(&payload[..12]).unwrap();
    assert_eq!(nonce.len(), 12);
    assert!(sealed.is_empty());
}

#[test]
fn frame_then_split_gives_back_parts() {
    let nonce = [7u8; 12];
    let framed = frame_payload(&nonce, vec![1, 2, 3]);
    assert_eq!(framed, vec![7, 7, 7, 7, 7, 7, 7, 7, 7, 7, 7, 7, 1, 2, 3]);
    let (n, s) = split_payload(&framed).unwrap();
    assert_eq!(n, &nonce[..]);
    assert_eq!(s, &[1u8, 2, 3][..]);
}

#[test]
fn payload_roundtrip_and_length() {
    let key = [42u8; 32];
    let payload = encrypt_payload(&key, b"hello").unwrap();
    assert_eq!(payload.len(), NONCE_LEN + 5 + TAG_LEN);
    assert_ne!(&payload[12..17], b"hello");
    assert_eq!(decrypt_payload(&key, &payload), Ok(b"hello".to_vec()));
    let empty = encrypt_payload(&key, b"").unwrap();
    assert_eq!(empty.len(), 28);
    assert_eq!(decrypt_payload(&key, &empty), Ok(Vec::new()));
}

#[test]
fn payload_under_other_key_is_refused() {
    let payload = encrypt_payload(&[1u8; 32], b"secret").unwrap();
    assert_eq!(decrypt_payload(&[2u8; 32], &payload), Err(OtError::InvalidMacTag));
}

#[test]
fn payload_truncated_tag_is_refused() {
    let key = [3u8; 32];
    let payload = encrypt_payload(&key, b"abc").unwrap();
    assert_eq!(decrypt_payload(&key, &payload[..20]), Err(OtError::InvalidMacTag));
    assert_eq!(decrypt_payload(&key, &payload[..11]), Err(OtError::PayloadTooShort));
}

#[test]
fn payload_nonce_is_fresh() {
    let key = [9u8; 32];
    let a = encrypt_payload(&key, b"same").unwrap();
    let b = encrypt_payload(&key, b"same").unwrap();
    assert_ne!(a[..12], b[..12]);
    assert_ne!(a[12..], b[12..]);
}

#[test]
fn symmetric_key_is_hkdf_of_compressed_point() {
    let p = generic_point(5);
    let point = EcPoint::from_bytes(p.to_bytes(true).as_bytes()).unwrap();
    let key = derive_symmetric_key(&point).unwrap();
    let mut expected = [0u8; 32];
    Hkdf::<Sha256>::new(None, p.to_bytes(true).as_bytes())
        .expand(KEY_DERIVATION_INFO.as_bytes(), &mut expected)
        .unwrap();
    assert_eq!(key, expected);
    let other = EcPoint::from_bytes(generic_point(6).to_bytes(true).as_bytes()).unwrap();
    assert_ne!(derive_symmetric_key(&other).unwrap(), key);
}

#[test]
fn point_from_bytes_normalizes_and_refuses() {
    let p = generic_point(11);
    let from_uncompressed = EcPoint::from_bytes(p.to_bytes(false).as_bytes()).unwrap();
    assert_eq!(from_uncompressed.to_bytes(), p.to_bytes(true).as_bytes().to_vec());
    assert_eq!(from_uncompressed.to_bytes().len(), 33);
    let mut bad = p.to_bytes(true).as_bytes().to_vec();
    bad[0] = 0x07;
    assert_eq!(EcPoint::from_bytes(&bad).err(), Some(OtError::InvalidPoint));
    assert_eq!(EcPoint::from_bytes(&[1, 2, 3]).err(), Some(OtError::InvalidPoint));
}

#[test]
fn point_identity_detection() {
    let zero = EcPoint::from_bytes(Point::<Secp256k1>::zero().to_bytes(true).as_bytes()).unwrap();
    assert!(zero.is_identity());
    let g = EcPoint::from_bytes(generic_point(1).to_bytes(true).as_bytes()).unwrap();
    assert!(!g.is_identity());
}

#[test]
fn point_arithmetic_matches_generic_ec() {
    let s3 = SecretScalar::from_be_bytes(&scalar_bytes(3)).unwrap();
    let s4 = SecretScalar::from_be_bytes(&scalar_bytes(4)).unwrap();
    let p3 = EcPoint::mul_base(&s3);
    assert_eq!(p3.to_bytes(), generic_point(3).to_bytes(true).as_bytes().to_vec());
    let p12 = p3.mul(&s4);
    assert_eq!(p12.to_bytes(), generic_point(12).to_bytes(true).as_bytes().to_vec());
    // x * (c * G) == c * (x * G)
    assert_eq!(EcPoint::mul_base(&s4).mul(&s3).to_bytes(), p12.to_bytes());
    let p9 = p12.sub(&p3);
    assert_eq!(p9.to_bytes(), generic_point(9).to_bytes(true).as_bytes().to_vec());
    // C - (C - X) == X
    assert_eq!(p12.sub(&p9).to_bytes(), p3.to_bytes());
}

#[test]
fn scalar_from_be_bytes_bounds() {
    assert!(SecretScalar::from_be_bytes(&scalar_bytes(1)).is_some());
    assert!(SecretScalar::from_be_bytes(&[7u8]).is_some());
    assert!(SecretScalar::from_be_bytes(&[0xffu8; 32]).is_none());
    assert!(SecretScalar::from_be_bytes(&[1u8; 33]).is_none());
}

#[test]
fn honest_parameter_is_never_identity() {
    let mut rng = OsRng;
    let sender = SenderSetup::new(&mut rng);
    assert!(!sender.public_c.is_identity());
    assert!(ReceiverKeys::new(&mut rng, true, sender.public_c).is_ok());
}

#[test]
fn fixed_secrets_receiver_gets_chosen_message() {
    for choice in [false, true] {
        let c = SecretScalar::from_be_bytes(&scalar_bytes(5)).unwrap();
        let x = SecretScalar::from_be_bytes(&scalar_bytes(7)).unwrap();
        let sender = SenderSetup::from_secret(c);
        assert_eq!(sender.public_c.to_bytes(), generic_point(5).to_bytes(true).as_bytes().to_vec());
        let (receiver, pk0) = ReceiverKeys::from_secret(x, choice, sender.public_c).unwrap();
        let expected_pk0 = if choice { generic_point(5) - generic_point(7) } else { generic_point(7) };
        assert_eq!(pk0.to_bytes(), expected_pk0.to_bytes(true).as_bytes().to_vec());
        let pair = sender.transition(pk0).unwrap().transmit(b"zero", b"one").unwrap();
        assert_eq!(pair.c0.len(), 12 + 4 + 16);
        assert_eq!(pair.c1.len(), 12 + 3 + 16);
        let out = receiver.decrypt(pair).unwrap();
        assert_eq!(out, if choice { b"one".to_vec() } else { b"zero".to_vec() });
    }
}

#[test]
fn unchosen_payload_does_not_open() {
    let mut rng = OsRng;
    let sender = SenderSetup::new(&mut rng);
    let (receiver, pk0) = ReceiverKeys::new(&mut rng, false, sender.public_c).unwrap();
    let pair = sender.transition(pk0).unwrap().transmit(b"m0", b"m1").unwrap();
    // Swap the payloads: the receiver now holds only the other message's ciphertext.
    let swapped = CiphertextPair { c0: pair.c1, c1: pair.c0 };
    assert_eq!(receiver.decrypt(swapped), Err(OtError::InvalidMacTag));
}

#[test]
fn impostor_receiver_is_refused() {
    let mut rng = OsRng;
    let sender = SenderSetup::new(&mut rng);
    let (_receiver1, pk0) = ReceiverKeys::new(&mut rng, false, sender.public_c).unwrap();
    let (receiver2, _) = ReceiverKeys::new(&mut rng, false, sender.public_c).unwrap();
    let pair = sender.transition(pk0).unwrap().transmit(b"SecretA", b"SecretB").unwrap();
    assert_eq!(receiver2.decrypt(pair), Err(OtError::InvalidMacTag));
}

#[test]
fn receiver_refuses_identity_parameter_from_fixed_secret() {
    let zero = EcPoint::from_bytes(&[0u8; 33]).unwrap();
    let x = SecretScalar::from_be_bytes(&scalar_bytes(2)).unwrap();
    assert_eq!(ReceiverKeys::from_secret(x, true, zero).err(), Some(OtError::IdentityPointNotAllowed));
}

#[test]
fn error_messages() {
    assert_eq!(OtError::InvalidPoint.message(), "Invalid elliptic curve point encountered");
    assert_eq!(OtError::DecryptionFailed.message(), "Symmetric payload decryption failed");
    assert_eq!(OtError::PayloadTooShort.message(), "Ciphertext payload is shorter than its nonce");
    assert_eq!(OtError::InvalidMacTag.message(), "Ciphertext authentication tag is invalid");
}

#[test]
fn identity_constructor_matches_generic_ec() {
    let id = EcPoint::identity();
    assert!(id.is_identity());
    assert_eq!(id.to_bytes(), vec![0u8; 33]);
    assert_eq!(id.to_bytes(), Point::<Secp256k1>::zero().to_bytes(true).as_bytes().to_vec());
    assert!(EcPoint::from_bytes(&[]).unwrap().is_identity());
    assert_eq!(SenderSetup::new(&mut OsRng).transition(id).err(), Some(OtError::IdentityPointNotAllowed));
}

#[test]
fn payload_without_room_for_tag_is_refused() {
    for len in 12..28 {
        let payload = vec![0u8; len];
        assert_eq!(decrypt_payload(&[0u8; 32], &payload), Err(OtError::InvalidMacTag));
    }
}

#[test]
fn transmitted_payload_lengths() {
    let mut rng = OsRng;
    let sender = SenderSetup::new(&mut rng);
    let (_receiver, pk0) = ReceiverKeys::new(&mut rng, false, sender.public_c).unwrap();
    let pair = sender.transition(pk0).unwrap().transmit(b"abcdefgh", b"").unwrap();
    assert_eq!(pair.c0.len(), NONCE_LEN + 8 + TAG_LEN);
    assert_eq!(pair.c1.len(), NONCE_LEN + TAG_LEN);
}

#[test]
fn seal_payload_uses_given_nonce() {
    let key = [5u8; 32];
    let nonce = [9u8; 12];
    let payload = seal_payload(&key, &nonce, b"message").unwrap();
    let cipher = chacha20poly1305::ChaCha20Poly1305::new(&chacha20poly1305::Key::from(key));
    let expected = cipher.encrypt(&chacha20poly1305::Nonce::from(nonce), &b"message"[..]).unwrap();
    assert_eq!(&payload[..12], &nonce[..]);
    assert_eq!(&payload[12..], &expected[..]);
    assert_eq!(decrypt_payload(&key, &payload), Ok(b"message".to_vec()));
}
