use std::collections::HashSet;

use signed_events::signature::{
    as_base64, fixed_bytes, from_base64, from_base64_u64, DecodeError, InvalidKeyMaterial, KeyPair,
    PublicKey, Signature,
};

/// The private key of the first test of RFC 8032, section 7.1.
const SEED: [u8; 32] = [
    0x9d, 0x61, 0xb1, 0x9d, 0xef, 0xfd, 0x5a, 0x60, 0xba, 0x84, 0x4a, 0xf4, 0x92, 0xec, 0x2c, 0xc4,
    0x44, 0x49, 0xc5, 0x69, 0x7b, 0x32, 0x69, 0x19, 0x70, 0x3b, 0xac, 0x03, 0x1c, 0xae, 0x7f, 0x60,
];

/// The public key that belongs to `SEED`.
const PUBLIC: [u8; 32] = [
    0xd7, 0x5a, 0x98, 0x01, 0x82, 0xb1, 0x0a, 0xb7, 0xd5, 0x4b, 0xfe, 0xd3, 0xc9, 0x64, 0x07, 0x3a,
    0x0e, 0xe1, 0x72, 0xf3, 0xda, 0xa6, 0x23, 0x25, 0xaf, 0x02, 0x1a, 0x68, 0xf7, 0x07, 0x51, 0x1a,
];

/// The signature of `SEED` over the empty message.
const SIGNATURE_OF_EMPTY: [u8; 64] = [
    0xe5, 0x56, 0x43, 0x00, 0xc3, 0x60, 0xac, 0x72, 0x90, 0x86, 0xe2, 0xcc, 0x80, 0x6e, 0x82, 0x8a,
    0x84, 0x87, 0x7f, 0x1e, 0xb8, 0xe5, 0xd9, 0x74, 0xd8, 0x73, 0xe0, 0x65, 0x22, 0x49, 0x01, 0x55,
    0x5f, 0xb8, 0x82, 0x15, 0x90, 0xa3, 0x3b, 0xac, 0xc6, 0x1e, 0x39, 0x70, 0x1c, 0xf9, 0xb4, 0x6b,
    0xd2, 0x5b, 0xf5, 0xf0, 0x59, 0x5b, 0xbe, 0x24, 0x65, 0x51, 0x41, 0x43, 0x8e, 0x7a, 0x10, 0x0b,
];

/// A PKCS#8 v2 document that holds the given seed and public key.
fn pkcs8(seed: &[u8; 32], public: &[u8; 32]) -> Vec<u8> {
    let mut doc = vec![
        0x30, 0x51, 0x02, 0x01, 0x01, 0x30, 0x05, 0x06, 0x03, 0x2b, 0x65, 0x70, 0x04, 0x22, 0x04,
        0x20,
    ];
    doc.extend_from_slice(seed);
    doc.extend_from_slice(&[0x81, 0x21, 0x00]);
    doc.extend_from_slice(public);
    doc
}

fn known_pair() -> KeyPair {
    match KeyPair::from_pkcs8(&pkcs8(&SEED, &PUBLIC)) {
        Ok(pair) => pair,
        Err(InvalidKeyMaterial) => panic!("the document is a valid key"),
    }
}

fn fresh_pair() -> KeyPair {
    match KeyPair::new() {
        Some(pair) => pair,
        None => panic!("the system's random source works"),
    }
}

#[test]
fn imported_key_has_the_public_key_of_its_seed() {
    assert_eq!(known_pair().pubkey(), PublicKey(PUBLIC));
}

#[test]
fn imported_key_signs_as_the_standard_says() {
    assert_eq!(known_pair().sign(b""), Signature(SIGNATURE_OF_EMPTY));
}

#[test]
fn known_signature_verifies() {
    assert!(Signature(SIGNATURE_OF_EMPTY).verify(&PUBLIC, b""));
}

#[test]
fn known_signature_fails_for_another_message() {
    assert!(!Signature(SIGNATURE_OF_EMPTY).verify(&PUBLIC, b"x"));
}

#[test]
fn import_rejects_an_empty_document() {
    assert!(matches!(KeyPair::from_pkcs8(&[]), Err(InvalidKeyMaterial)));
}

#[test]
fn import_rejects_garbage() {
    let garbage = [0x42u8; 83];
    assert!(matches!(KeyPair::from_pkcs8(&garbage), Err(InvalidKeyMaterial)));
}

#[test]
fn import_rejects_a_truncated_document() {
    let doc = pkcs8(&SEED, &PUBLIC);
    assert!(matches!(KeyPair::from_pkcs8(&doc[..doc.len() - 1]), Err(InvalidKeyMaterial)));
}

#[test]
fn import_rejects_a_public_key_that_does_not_belong_to_the_seed() {
    let mut other = PUBLIC;
    other[0] ^= 1;
    assert!(matches!(KeyPair::from_pkcs8(&pkcs8(&SEED, &other)), Err(InvalidKeyMaterial)));
}

#[test]
fn import_rejects_a_bare_seed() {
    assert!(matches!(KeyPair::from_pkcs8(&SEED), Err(InvalidKeyMaterial)));
}

#[test]
fn same_document_gives_the_same_key() {
    let doc = pkcs8(&SEED, &PUBLIC);
    let a = KeyPair::from_pkcs8(&doc).ok().map(|pair| pair.pubkey());
    let b = KeyPair::from_pkcs8(&doc).ok().map(|pair| pair.pubkey());
    assert_eq!(a, Some(PublicKey(PUBLIC)));
    assert_eq!(a, b);
}

#[test]
fn sign_then_verify_succeeds() {
    let pair = fresh_pair();
    let messages: [&[u8]; 4] = [b"", b"a", b"hello, ledger", &[0u8; 1000]];
    for msg in messages {
        let sig = pair.sign(msg);
        assert!(sig.verify(pair.pubkey().as_ref(), msg));
    }
}

#[test]
fn signing_is_deterministic() {
    let pair = fresh_pair();
    assert_eq!(pair.sign(b"same message"), pair.sign(b"same message"));
    assert_ne!(pair.sign(b"same message"), pair.sign(b"other message"));
}

#[test]
fn fresh_pairs_differ() {
    assert_ne!(fresh_pair().pubkey(), fresh_pair().pubkey());
}

#[test]
fn verify_fails_under_another_key() {
    let k1 = fresh_pair();
    let k2 = fresh_pair();
    let msg = b"who signed this?";
    assert!(!k1.sign(msg).verify(k2.pubkey().as_ref(), msg));
    assert!(!k2.sign(msg).verify(k1.pubkey().as_ref(), msg));
}

#[test]
fn verify_fails_for_another_message() {
    let pair = fresh_pair();
    let sig = pair.sign(b"pay 10");
    assert!(!sig.verify(pair.pubkey().as_ref(), b"pay 11"));
    assert!(!sig.verify(pair.pubkey().as_ref(), b""));
}

#[test]
fn verify_fails_for_every_flipped_bit() {
    let pair = known_pair();
    let msg = b"tamper with me";
    let sig = pair.sign(msg);
    assert!(sig.verify(&PUBLIC, msg));
    for byte in 0..64 {
        for bit in 0..8 {
            let mut bytes = sig.0;
            bytes[byte] ^= 1 << bit;
            assert!(!Signature(bytes).verify(&PUBLIC, msg), "byte {} bit {}", byte, bit);
        }
    }
}

#[test]
fn verify_fails_for_a_malformed_public_key() {
    let pair = known_pair();
    let sig = pair.sign(b"msg");
    assert!(!sig.verify(&[], b"msg"));
    assert!(!sig.verify(&PUBLIC[..31], b"msg"));
    let mut long = PUBLIC.to_vec();
    long.push(0);
    assert!(!sig.verify(&long, b"msg"));
}

#[test]
fn default_values_are_all_zero() {
    assert_eq!(PublicKey::default(), PublicKey([0u8; 32]));
    assert_eq!(Signature::default(), Signature([0u8; 64]));
    assert_eq!(PublicKey::default().as_ref(), &[0u8; 32][..]);
    assert_eq!(Signature::default().as_ref(), &[0u8; 64][..]);
}

#[test]
fn default_signature_verifies_nothing() {
    let pair = known_pair();
    assert!(!Signature::default().verify(&PUBLIC, b""));
    assert!(!pair.sign(b"").verify(PublicKey::default().as_ref(), b""));
}

#[test]
fn as_ref_gives_the_raw_bytes() {
    assert_eq!(PublicKey(PUBLIC).as_ref(), &PUBLIC[..]);
    assert_eq!(Signature(SIGNATURE_OF_EMPTY).as_ref(), &SIGNATURE_OF_EMPTY[..]);
}

#[test]
fn keys_compare_by_their_bytes() {
    let mut other = PUBLIC;
    other[31] ^= 0x80;
    assert_eq!(PublicKey(PUBLIC), PublicKey(PUBLIC));
    assert_ne!(PublicKey(PUBLIC), PublicKey(other));
    let mut sig = SIGNATURE_OF_EMPTY;
    sig[63] ^= 1;
    assert_eq!(Signature(SIGNATURE_OF_EMPTY), Signature(SIGNATURE_OF_EMPTY));
    assert_ne!(Signature(SIGNATURE_OF_EMPTY), Signature(sig));
}

#[test]
fn keys_hash_by_their_bytes() {
    let mut seen = HashSet::new();
    assert!(seen.insert(PublicKey(PUBLIC)));
    assert!(!seen.insert(PublicKey(PUBLIC)));
    assert!(seen.insert(PublicKey::default()));
    assert_eq!(seen.len(), 2);
    let mut sigs = HashSet::new();
    assert!(sigs.insert(Signature(SIGNATURE_OF_EMPTY)));
    assert!(!sigs.insert(Signature(SIGNATURE_OF_EMPTY)));
}

#[test]
fn base64_of_known_bytes() {
    assert_eq!(as_base64(b"hello world"), "aGVsbG8gd29ybGQ=");
    assert_eq!(as_base64(b""), "");
    assert_eq!(as_base64(&[0u8; 32]), format!("{}=", "A".repeat(43)));
    assert_eq!(as_base64(&[0u8; 64]), format!("{}==", "A".repeat(86)));
    assert_eq!(as_base64(&PUBLIC), "11qYAYKxCrfVS/7TyWQHOg7hcvPapiMlrwIaaPcHURo=");
}

#[test]
fn from_base64_of_known_text() {
    assert_eq!(from_base64("11qYAYKxCrfVS/7TyWQHOg7hcvPapiMlrwIaaPcHURo="), Ok(PUBLIC));
    assert_eq!(from_base64(&format!("{}=", "A".repeat(43))), Ok([0u8; 32]));
    assert_eq!(from_base64_u64(&format!("{}==", "A".repeat(86))), Ok([0u8; 64]));
}

#[test]
fn public_key_text_round_trip() {
    let key = fresh_pair().pubkey();
    let text = as_base64(key.as_ref());
    let back = from_base64(&text);
    assert_eq!(back, Ok(key.0));
    assert_eq!(as_base64(&back.unwrap()), text);
}

#[test]
fn signature_text_round_trip() {
    let sig = fresh_pair().sign(b"round trip");
    let text = as_base64(sig.as_ref());
    let back = from_base64_u64(&text);
    assert_eq!(back, Ok(sig.0));
    assert_eq!(as_base64(&back.unwrap()), text);
}

#[test]
fn decoding_rejects_text_that_is_not_base64() {
    assert_eq!(from_base64("not base64!"), Err(DecodeError::InvalidBase64));
    assert_eq!(from_base64("11qYAYKxCrfVS/7TyWQHOg7hcvPapiMlrwIaaPcHUR*="), Err(DecodeError::InvalidBase64));
    assert_eq!(from_base64(" 11qYAYKxCrfVS/7TyWQHOg7hcvPapiMlrwIaaPcHURo="), Err(DecodeError::InvalidBase64));
    assert_eq!(from_base64_u64("@@@@"), Err(DecodeError::InvalidBase64));
    assert_eq!(from_base64_u64("A"), Err(DecodeError::InvalidBase64));
}

#[test]
fn decoding_rejects_another_length() {
    assert_eq!(from_base64(""), Err(DecodeError::InvalidLength));
    assert_eq!(from_base64("aGVsbG8gd29ybGQ="), Err(DecodeError::InvalidLength));
    assert_eq!(from_base64(&as_base64(&[7u8; 31])), Err(DecodeError::InvalidLength));
    assert_eq!(from_base64(&as_base64(&[7u8; 33])), Err(DecodeError::InvalidLength));
    assert_eq!(from_base64(&as_base64(&[7u8; 64])), Err(DecodeError::InvalidLength));
    assert_eq!(from_base64_u64(&as_base64(&[7u8; 32])), Err(DecodeError::InvalidLength));
    assert_eq!(from_base64_u64(&as_base64(&[7u8; 63])), Err(DecodeError::InvalidLength));
    assert_eq!(from_base64_u64(&as_base64(&[7u8; 65])), Err(DecodeError::InvalidLength));
}

#[test]
fn fixed_bytes_takes_exactly_that_many() {
    assert_eq!(fixed_bytes::<4>(&[1, 2, 3, 4]), Ok([1, 2, 3, 4]));
    assert_eq!(fixed_bytes::<0>(&[]), Ok([]));
    assert_eq!(fixed_bytes::<4>(&[1, 2, 3]), Err(DecodeError::InvalidLength));
    assert_eq!(fixed_bytes::<4>(&[1, 2, 3, 4, 5]), Err(DecodeError::InvalidLength));
    assert_eq!(fixed_bytes::<32>(&PUBLIC), Ok(PUBLIC));
    assert_eq!(fixed_bytes::<64>(&SIGNATURE_OF_EMPTY), Ok(SIGNATURE_OF_EMPTY));
}

#[test]
fn a_failed_random_source_gives_no_key() {
    assert!(KeyPair::from_generated(Err(ring::error::Unspecified)).is_none());
}

#[test]
fn a_generated_document_gives_its_key() {
    let pair = KeyPair::from_generated(Ok(pkcs8(&SEED, &PUBLIC)));
    assert_eq!(pair.map(|pair| pair.pubkey()), Some(PublicKey(PUBLIC)));
}

#[test]
fn a_generated_document_that_is_no_key_gives_none() {
    assert!(KeyPair::from_generated(Ok(Vec::new())).is_none());
    assert!(KeyPair::from_generated(Ok(vec![0x42; 83])).is_none());
}
