use conan::handshake::edhverify;
use conan::aead::MessageKey;
use conan::identity::{Identity, IdentityError, PublicIdentity};
use x25519_dalek::{PublicKey, StaticSecret};

#[test]
fn identity_generate_returns_valid_address() {
    let id = Identity::generate().unwrap();
    assert!(id.public.address.starts_with("conan:"));
    assert!(!id.public.address.contains(' '));
}

#[test]
fn identity_roundtrip_secret_key() {
    let id1 = Identity::generate().unwrap();
    let bytes = *id1.to_secret_key();
    let id2 = Identity::from_secret_key(bytes).unwrap();
    assert_eq!(id1.public.address, id2.public.address);
}

#[test]
fn identity_sign_verify_roundtrip() {
    let id = Identity::generate().unwrap();
    let msg = b"test message";
    let sig = id.sign(msg);
    assert!(Identity::verify(&id.public, msg, &sig).is_ok());
}

#[test]
fn identity_verify_with_wrong_key_fails() {
    let id1 = Identity::generate().unwrap();
    let id2 = Identity::generate().unwrap();
    let sig = id1.sign(b"message");
    assert!(Identity::verify(&id2.public, b"message", &sig).is_err());
}

#[test]
fn identity_x25519_derivation_is_deterministic() {
    let id = Identity::generate().unwrap();
    let s1 = id.to_x25519_secret();
    let s2 = id.to_x25519_secret();
    assert_eq!(
        PublicKey::from(&StaticSecret::from(s1)).to_bytes(),
        PublicKey::from(&StaticSecret::from(s2)).to_bytes()
    );
}

#[test]
fn identity_x25519_differs_from_ed25519_bytes() {
    let id = Identity::generate().unwrap();
    let x_secret = id.to_x25519_secret();
    let x_pub = PublicKey::from(&StaticSecret::from(x_secret)).to_bytes();
    let ed_pub = id.public.to_verifying_key().unwrap();
    assert_ne!(x_pub, ed_pub);
}

#[test]
fn identity_rejects_missing_prefix() {
    let fake = PublicIdentity {
        address: "notconan:abc123".into(),
        fingerprint: "".into(),
    };
    assert!(fake.to_verifying_key().is_err());
}

#[test]
fn identity_address_and_fingerprint_of_known_key() {
    let key = [0u8; 32];
    let p = PublicIdentity::from_verifying_key(&key);
    assert_eq!(p.address, format!("conan:{}", bs58::encode(key).into_string()));
    assert_eq!(p.fingerprint, "0000-0000-0000-0000");
}

#[test]
fn identity_fingerprint_is_uppercase_groups() {
    let mut key = [0u8; 32];
    key[0] = 0xab;
    key[1] = 0xcd;
    key[7] = 0xef;
    let p = PublicIdentity::from_verifying_key(&key);
    assert_eq!(p.fingerprint, "ABCD-0000-0000-00EF");
}

#[test]
fn identity_address_round_trips_to_key() {
    let id = Identity::generate().unwrap();
    let key = id.public.to_verifying_key().unwrap();
    let again = PublicIdentity::from_verifying_key(&key);
    assert_eq!(again, id.public);
}

#[test]
fn identity_rejects_bad_base58() {
    let fake = PublicIdentity {
        address: "conan:0OIl".into(),
        fingerprint: "".into(),
    };
    assert!(fake.to_verifying_key().is_err());
}

#[test]
fn identity_rejects_short_key() {
    let fake = PublicIdentity {
        address: format!("conan:{}", bs58::encode([1u8; 16]).into_string()),
        fingerprint: "".into(),
    };
    assert!(fake.to_verifying_key().is_err());
}

#[test]
fn identity_signature_is_deterministic() {
    let id = Identity::from_secret_key([5u8; 32]).unwrap();
    assert_eq!(id.sign(b"same").to_vec(), id.sign(b"same").to_vec());
}

#[test]
fn identity_off_curve_key_reports_the_decoding_error() {
    let mut found = false;
    for b in 0u8..=255 {
        let key = [b; 32];
        if let Err(e) = ed25519_dalek::VerifyingKey::from_bytes(&key) {
            let address = format!("conan:{}", bs58::encode(key).into_string());
            let public = PublicIdentity { address, fingerprint: String::new() };
            match public.to_verifying_key() {
                Err(IdentityError::InvalidPublicKey(msg)) => assert_eq!(msg, e.to_string()),
                _ => panic!("an off-curve key was accepted"),
            }
            found = true;
            break;
        }
    }
    assert!(found);
}

#[test]
fn identity_errors_name_their_cause() {
    let id = Identity::generate().unwrap();
    let sig = id.sign(b"message");
    match Identity::verify(&id.public, b"other message", &sig) {
        Err(IdentityError::InvalidSignature) => {}
        _ => panic!("a wrong message was accepted"),
    }
    let missing = PublicIdentity { address: "nope".to_string(), fingerprint: String::new() };
    match missing.to_verifying_key() {
        Err(IdentityError::InvalidPublicKey(m)) => assert_eq!(m, "missing conan: prefix"),
        _ => panic!("an address without prefix was accepted"),
    }
    let short = PublicIdentity {
        address: format!("conan:{}", bs58::encode([1u8, 2, 3]).into_string()),
        fingerprint: String::new(),
    };
    match short.to_verifying_key() {
        Err(IdentityError::InvalidPublicKey(m)) => assert_eq!(m, "invalid key length"),
        _ => panic!("a short key was accepted"),
    }
}

#[test]
fn message_key_bytes_round_trip() {
    let k = MessageKey::from_bytes([7u8; 32]);
    let again = MessageKey::from_bytes(*k.as_bytes());
    assert_eq!(again.as_bytes(), k.as_bytes());
    assert_eq!(k.as_bytes(), &[7u8; 32]);
}

#[test]
fn exchange_gives_both_sides_the_same_secret() {
    let a = StaticSecret::from([3u8; 32]);
    let b = StaticSecret::from([9u8; 32]);
    let pa = PublicKey::from(&a).to_bytes();
    let pb = PublicKey::from(&b).to_bytes();
    let mut s1 = Some([0u8; 32]);
    let mut s2 = None;
    edhverify(a.to_bytes(), pb, &mut s1);
    edhverify(b.to_bytes(), pa, &mut s2);
    assert!(s1.is_some());
    assert_eq!(s1, s2);
}
