use conan::aead::{decrypt, decrypt_with_aad, encrypt, encrypt_with_aad, hkdf_derive, MessageKey};

fn test_key() -> MessageKey {
    MessageKey::from_bytes([0x42u8; 32])
}

#[test]
fn aead_basic_encrypt_and_decrypt() {
    let key = test_key();
    let msg = encrypt(&key, 1, b"hello from conan").unwrap();
    assert_ne!(msg.ciphertext, b"hello from conan");
    let plain = decrypt(&key, &msg).unwrap();
    assert_eq!(plain, b"hello from conan");
}

#[test]
fn aead_incorrect_key_fails() {
    let key1 = MessageKey::from_bytes([0x01u8; 32]);
    let key2 = MessageKey::from_bytes([0x02u8; 32]);
    let msg = encrypt(&key2, 1, b"secret").unwrap();
    assert!(decrypt(&key1, &msg).is_err());
}

#[test]
fn aead_manipulated_ciphertext_fails() {
    let key = test_key();
    let mut msg = encrypt(&key, 1, b"real message").unwrap();
    msg.ciphertext[0] ^= 0xFF;
    assert!(decrypt(&key, &msg).is_err());
}

#[test]
fn aead_hkdf_is_deterministic() {
    let k1 = hkdf_derive::<32>(b"ikm", Some(b"salt"), b"conan-v1-test").unwrap();
    let k2 = hkdf_derive::<32>(b"ikm", Some(b"salt"), b"conan-v1-test").unwrap();
    assert_eq!(k1, k2);
}

#[test]
fn aead_hkdf_distinct_info_produces_distinct_keys() {
    let k1 = hkdf_derive::<32>(b"ikm", Some(b"salt"), b"conan-v1-purpose-a").unwrap();
    let k2 = hkdf_derive::<32>(b"ikm", Some(b"salt"), b"conan-v1-purpose-b").unwrap();
    assert_ne!(k1, k2);
}

#[test]
fn aead_hkdf_empty_salt_is_valid() {
    let k = hkdf_derive::<32>(b"uniform-ikm", None, b"conan-v1-test").unwrap();
    assert_eq!(k.len(), 32);
}

#[test]
fn aead_aad_roundtrip() {
    let key = test_key();
    let aad = b"conan-v1-header-aad";
    let msg = encrypt_with_aad(&key, 1, b"secret message", aad).unwrap();
    let plain = decrypt_with_aad(&key, &msg, aad).unwrap();
    assert_eq!(plain, b"secret message");
}

#[test]
fn aead_tampered_aad_fails() {
    let key = test_key();
    let msg = encrypt_with_aad(&key, 1, b"message", b"real-header").unwrap();
    assert!(decrypt_with_aad(&key, &msg, b"modified-header").is_err());
}

#[test]
fn aead_nonce_counter_is_kept() {
    let key = test_key();
    let msg = encrypt(&key, 7, b"counted").unwrap();
    assert_eq!(msg.nonce, 7);
    assert_eq!(msg.ciphertext.len(), b"counted".len() + 16);
}

#[test]
fn aead_other_nonce_fails() {
    let key = test_key();
    let mut msg = encrypt(&key, 3, b"nonce bound").unwrap();
    msg.nonce = 4;
    assert!(decrypt(&key, &msg).is_err());
}

#[test]
fn aead_key_bytes_round_trip() {
    let key = MessageKey::from_bytes([9u8; 32]);
    assert_eq!(*key.as_bytes(), [9u8; 32]);
}

#[test]
fn aead_hkdf_too_long_is_refused() {
    assert!(hkdf_derive::<8161>(b"ikm", None, b"info").is_err());
    assert!(hkdf_derive::<8160>(b"ikm", None, b"info").is_ok());
}

#[test]
fn aead_hkdf_known_value() {
    // RFC 5869, test case 1.
    let ikm = [0x0bu8; 22];
    let salt: Vec<u8> = (0x00u8..=0x0c).collect();
    let info: Vec<u8> = (0xf0u8..=0xf9).collect();
    let okm = hkdf_derive::<42>(&ikm, Some(&salt), &info).unwrap();
    assert_eq!(
        hex::encode(okm),
        "3cb25f25faacd57a90434f64d0362f2a2d2d0a90cf1a5a4c5db02d56ecc4c5bf34007208d5b887185865"
    );
}

#[test]
fn aead_hkdf_missing_salt_is_zero_block() {
    let a = hkdf_derive::<32>(b"uniform-ikm", None, b"conan-v1-test").unwrap();
    let b = hkdf_derive::<32>(b"uniform-ikm", Some(&[0u8; 32]), b"conan-v1-test").unwrap();
    assert_eq!(a, b);
}
