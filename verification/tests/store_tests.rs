use ola_core::secure_store::{
    error_message, open_blob, seal_blob, seal_open_round_trip, SecretKey, StoreError, KEY_BYTES,
    NONCE_BYTES, TAG_BYTES,
};

fn test_key(fill: u8) -> SecretKey {
    sodiumoxide::init().expect("sodium init");
    SecretKey::from_bytes(vec![fill; KEY_BYTES]).expect("valid key length")
}

#[test]
fn key_must_have_exact_length() {
    assert!(matches!(
        SecretKey::from_bytes(vec![0u8; KEY_BYTES - 1]),
        Err(StoreError::BadKeyLength)
    ));
    assert!(matches!(
        SecretKey::from_bytes(vec![0u8; KEY_BYTES + 1]),
        Err(StoreError::BadKeyLength)
    ));
    assert!(SecretKey::from_bytes(vec![0u8; KEY_BYTES]).is_ok());
}

#[test]
fn seal_then_open_restores_arbitrary_bytes() {
    let key = test_key(7);
    for content in [
        Vec::new(),
        vec![0u8],
        vec![0xff; 3],
        (0..=255u8).collect::<Vec<u8>>(),
        b"line-delimited secret material\n".to_vec(),
    ] {
        let blob = seal_blob(&content, &key);
        assert_eq!(blob.len(), NONCE_BYTES + content.len() + TAG_BYTES);
        assert_eq!(open_blob(&blob, &key), Ok(content.clone()));
        assert_eq!(seal_open_round_trip(&content, &key), content);
    }
}

#[test]
fn fresh_nonces_differ_between_seals() {
    let key = test_key(9);
    let a = seal_blob(b"same content", &key);
    let b = seal_blob(b"same content", &key);
    assert_ne!(a[..NONCE_BYTES], b[..NONCE_BYTES]);
}

#[test]
fn flipping_any_bit_fails_with_the_generic_error() {
    let key = test_key(3);
    let blob = seal_blob(b"tamper target", &key);
    for byte in 0..blob.len() {
        for bit in 0..8 {
            let mut tampered = blob.clone();
            tampered[byte] ^= 1u8 << bit;
            let r = open_blob(&tampered, &key);
            assert_eq!(r, Err(StoreError::DecryptFailed));
            assert_eq!(error_message(&StoreError::DecryptFailed), "decryption failed");
        }
    }
}

#[test]
fn wrong_key_fails_with_the_generic_error() {
    let key = test_key(1);
    let other = test_key(2);
    let blob = seal_blob(b"keyed", &key);
    assert_eq!(open_blob(&blob, &other), Err(StoreError::DecryptFailed));
}

#[test]
fn truncated_blob_variants() {
    let key = test_key(5);
    let blob = seal_blob(b"short checks", &key);
    // Shorter than one nonce: rejected outright.
    assert_eq!(open_blob(&blob[..NONCE_BYTES - 1], &key), Err(StoreError::TooShort));
    assert_eq!(open_blob(&[], &key), Err(StoreError::TooShort));
    assert_eq!(error_message(&StoreError::TooShort), "file too short");
    // A nonce with part of the ciphertext missing: an authentication
    // failure, reported only generically.
    assert_eq!(
        open_blob(&blob[..blob.len() - 1], &key),
        Err(StoreError::DecryptFailed)
    );
}

#[test]
fn sealed_blob_opens_with_the_cipher_directly() {
    let key = test_key(11);
    let blob = seal_blob(b"cross-checked", &key);
    let nonce = sodiumoxide::crypto::secretbox::Nonce::from_slice(&blob[..NONCE_BYTES]).unwrap();
    let cipher_key = sodiumoxide::crypto::secretbox::Key::from_slice(&[11u8; KEY_BYTES]).unwrap();
    let plain = sodiumoxide::crypto::secretbox::open(&blob[NONCE_BYTES..], &nonce, &cipher_key)
        .expect("the blob is nonce || ciphertext under the given key");
    assert_eq!(plain, b"cross-checked");
}
