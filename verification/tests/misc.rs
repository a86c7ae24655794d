use conan::storage::openmls_path;
use conan::storage::has_is_friend_column;
use conan::storage::valid_peer_address;
use conan::comm::ConanGroupError;
use conan::comm::PeerStatus;
use conan::comm::Msg;
use conan::direct::{direct_decrypt, direct_encrypt, direct_encrypt_with_nonce, DirectError};
use conan::handshake::{
    derive_bob_ratchet_key, expect_approval, expect_public_key, handshake_decrypt,
    handshake_encrypt, listener_check_claim, x25519_handshake, HandshakeError,
};
use conan::names::{generate_name, name_from_draws};
use conan::numerals::push_decimal;
use ed25519_dalek::{Signer, SigningKey};
use x25519_dalek::{PublicKey, StaticSecret};

#[test]
fn direct_round_trip() {
    let key = [3u8; 32];
    let sealed = direct_encrypt(&key, b"short note").unwrap();
    assert_eq!(sealed.len(), 12 + 10 + 16);
    assert_eq!(direct_decrypt(&key, &sealed).unwrap(), b"short note");
}

#[test]
fn direct_capacity_limits() {
    let key = [3u8; 32];
    assert!(direct_encrypt(&key, &[0u8; 112]).is_ok());
    assert_eq!(direct_encrypt(&key, &[0u8; 113]), Err(DirectError::Encryption));
    assert_eq!(direct_encrypt(&key, &[0u8; 129]), Err(DirectError::Capacity));
}

#[test]
fn direct_frame_starts_with_nonce() {
    let key = [3u8; 32];
    let nonce = [7u8; 12];
    let sealed = direct_encrypt_with_nonce(&key, &nonce, b"abc").unwrap();
    assert_eq!(&sealed[..12], &nonce);
}

#[test]
fn direct_wrong_key_fails() {
    let sealed = direct_encrypt(&[3u8; 32], b"note").unwrap();
    assert_eq!(direct_decrypt(&[4u8; 32], &sealed), Err(DirectError::Decryption));
}

#[test]
fn names_alternate_vowels_and_consonants() {
    let vowels = "aeiou";
    for len in [0u8, 1, 5, 12] {
        let name = generate_name(len);
        assert_eq!(name.len(), len as usize);
        let kinds: Vec<bool> = name.chars().map(|c| vowels.contains(c)).collect();
        assert!(name.chars().all(|c| c.is_ascii_lowercase()));
        assert!(kinds.windows(2).all(|w| w[0] != w[1]));
    }
}

#[test]
fn decimal_digits() {
    let mut out = vec![];
    push_decimal(&mut out, 0);
    push_decimal(&mut out, 1207);
    assert_eq!(out.iter().collect::<String>(), "01207");
}

#[test]
fn handshake_frame_round_trip() {
    let key = [9u8; 32];
    let frame = handshake_encrypt(&key, b"payload").unwrap();
    assert_eq!(&frame[..8], &[0u8; 8]);
    assert_eq!(handshake_decrypt(&key, &frame).unwrap(), b"payload");
    assert_eq!(handshake_decrypt(&key, &frame[..7]), Err(HandshakeError::TooShort));
}

#[test]
fn bob_ratchet_key_is_shared() {
    let (secret, public) = derive_bob_ratchet_key(&[1u8; 32]);
    assert_eq!(PublicKey::from(&StaticSecret::from(secret)).to_bytes(), public);
    assert_eq!(derive_bob_ratchet_key(&[1u8; 32]).1, public);
}

fn keys(seed: u8) -> (SigningKey, [u8; 32]) {
    let sk = SigningKey::from_bytes(&[seed; 32]);
    let pk = sk.verifying_key().to_bytes();
    (sk, pk)
}

#[test]
fn dialer_accepts_listener_signature() {
    let (listener_sk, listener_id) = keys(11);
    let dialer_eph = [1u8; 32];
    let listener_eph = [2u8; 32];
    let mut signed = dialer_eph.to_vec();
    signed.extend_from_slice(&listener_eph);
    let sig = listener_sk.sign(&signed).to_bytes().to_vec();
    let mut remote = None;
    let msg = Msg::SignedAndPublicKey(sig.clone(), dialer_eph, listener_eph);
    assert_eq!(x25519_handshake(&mut remote, dialer_eph, &listener_id, msg), Ok(()));
    assert_eq!(remote, Some(listener_eph));
    let mut remote = None;
    let msg = Msg::SignedAndPublicKey(sig, [5u8; 32], listener_eph);
    assert_eq!(
        x25519_handshake(&mut remote, dialer_eph, &listener_id, msg),
        Err(HandshakeError::LocalKeyMismatch)
    );
    assert_eq!(remote, None);
}

#[test]
fn listener_checks_dialer_claim() {
    let (dialer_sk, dialer_id) = keys(12);
    let (_, listener_id) = keys(13);
    let listener_eph = [3u8; 32];
    let dialer_eph = [4u8; 32];
    let mut signed = listener_eph.to_vec();
    signed.extend_from_slice(&dialer_eph);
    let sig = dialer_sk.sign(&signed).to_bytes().to_vec();
    let msg = Msg::SignedAndPublicKey(sig.clone(), listener_id, dialer_id);
    assert_eq!(
        listener_check_claim(&listener_id, &listener_eph, &dialer_eph, msg),
        Ok(dialer_id)
    );
    let msg = Msg::SignedAndPublicKey(sig.clone(), dialer_id, dialer_id);
    assert_eq!(
        listener_check_claim(&listener_id, &listener_eph, &dialer_eph, msg),
        Err(HandshakeError::LocalKeyMismatch)
    );
    let msg = Msg::SignedAndPublicKey(sig, listener_id, dialer_id);
    assert_eq!(
        listener_check_claim(&listener_id, &dialer_eph, &listener_eph, msg),
        Err(HandshakeError::SignatureRejected)
    );
}

#[test]
fn handshake_expects_the_right_messages() {
    assert_eq!(expect_public_key(Msg::PublicKey([8u8; 32])), Ok([8u8; 32]));
    assert_eq!(expect_public_key(Msg::Verified), Err(HandshakeError::NoPublicKey));
    assert_eq!(expect_approval(Msg::Verified), Ok(()));
    assert_eq!(expect_approval(Msg::GroupSuccess), Err(HandshakeError::NotApproved));
}

#[test]
fn openmls_store_sits_next_to_database() {
    assert_eq!(openmls_path("/home/me/.conan/conan.db"), "/home/me/.conan/openmls");
    assert_eq!(openmls_path("conan.db"), "openmls");
    assert_eq!(openmls_path("/data/"), "/data/openmls");
}

#[test]
fn friend_column_is_detected() {
    let cols = vec!["id".to_string(), "name".to_string(), "is_friend".to_string()];
    assert!(has_is_friend_column(&cols));
    assert!(!has_is_friend_column(&vec!["id".to_string(), "address".to_string()]));
}

#[test]
fn peer_addresses_are_onion_addresses() {
    let addr = format!("{}.onion", "a".repeat(56));
    assert!(valid_peer_address(&addr));
    assert!(valid_peer_address(&format!("{}.ONION", "b".repeat(56))));
    assert!(!valid_peer_address(&format!("{}.onion", "a".repeat(55))));
    assert!(!valid_peer_address(&format!("{}.oniox", "a".repeat(56))));
}

#[test]
fn group_error_messages() {
    assert_eq!(ConanGroupError::NotAdmin.message(), "Not Admin");
    assert_eq!(ConanGroupError::Other("x".into()).message(), "x");
}

#[test]
fn peer_status_defaults_to_not_found() {
    assert_eq!(PeerStatus::default(), PeerStatus::NotFound);
}

#[test]
fn names_spell_their_draws() {
    assert_eq!(name_from_draws(true, &[0, 0, 4]), "abu");
    assert_eq!(name_from_draws(false, &[20, 1, 2]), "zed");
    assert_eq!(name_from_draws(true, &[]), "");
}
