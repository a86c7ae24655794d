use conan::aead::EncryptedMessage;
use conan::constants::MAX_SKIP;
use conan::ratchet::{RatchetError, RatchetMessage, RatchetSession};
use rand_core::OsRng;
use x25519_dalek::{PublicKey, StaticSecret};

fn setup() -> (RatchetSession, RatchetSession) {
    let shared_secret = [0xABu8; 32];
    let bob_dh = StaticSecret::random_from_rng(OsRng);
    let bob_dh_pub = PublicKey::from(&bob_dh);
    let alice = RatchetSession::init_sender(&shared_secret, &bob_dh_pub.to_bytes()).unwrap();
    let bob = RatchetSession::init_receiver(&shared_secret, bob_dh.to_bytes()).unwrap();
    (alice, bob)
}

#[test]
fn alice_sends_bob_receives() {
    let (mut alice, mut bob) = setup();
    let msg = alice.encrypt(b"hello bob", b"").unwrap();
    assert_eq!(bob.decrypt(&msg, b"").unwrap(), b"hello bob");
}

#[test]
fn remote_sends_local_receives() {
    let (mut remote, mut local) = setup();
    let msg = remote.encrypt(b"hello local", b"").unwrap();
    assert_eq!(local.decrypt(&msg, b"").unwrap(), b"hello local");
}

#[test]
fn ratchet_bidirectional_conversation() {
    let (mut alice, mut bob) = setup();
    let msg = alice.encrypt(b"hello bob", b"").unwrap();
    assert_eq!(bob.decrypt(&msg, b"").unwrap(), b"hello bob");
    let msg = bob.encrypt(b"hello alice", b"").unwrap();
    assert_eq!(alice.decrypt(&msg, b"").unwrap(), b"hello alice");
    let msg = alice.encrypt(b"second message", b"").unwrap();
    assert_eq!(bob.decrypt(&msg, b"").unwrap(), b"second message");
}

#[test]
fn ratchet_multiple_sequential_messages() {
    let (mut alice, mut bob) = setup();
    for m in &[b"one" as &[u8], b"two", b"three", b"four", b"five"] {
        let msg = alice.encrypt(m, b"").unwrap();
        assert_eq!(&bob.decrypt(&msg, b"").unwrap(), m);
    }
}

#[test]
fn ratchet_ciphertexts_differ_for_same_plaintext() {
    let (mut alice, _) = setup();
    let msg1 = alice.encrypt(b"repeated", b"").unwrap();
    let msg2 = alice.encrypt(b"repeated", b"").unwrap();
    assert_ne!(msg1.payload.ciphertext, msg2.payload.ciphertext);
}

#[test]
fn ratchet_out_of_order_delivery() {
    let (mut alice, mut bob) = setup();
    let msg1 = alice.encrypt(b"message 1", b"").unwrap();
    let msg2 = alice.encrypt(b"message 2", b"").unwrap();
    let msg3 = alice.encrypt(b"message 3", b"").unwrap();
    assert_eq!(bob.decrypt(&msg3, b"").unwrap(), b"message 3");
    assert_eq!(bob.skipped_keys_count(), 2);
    assert_eq!(bob.decrypt(&msg1, b"").unwrap(), b"message 1");
    assert_eq!(bob.decrypt(&msg2, b"").unwrap(), b"message 2");
    assert_eq!(bob.skipped_keys_count(), 0);
}

#[test]
fn ratchet_out_of_order_across_dh_ratchet() {
    let (mut alice, mut bob) = setup();
    let msg_a1 = alice.encrypt(b"a1", b"").unwrap();
    let msg_a2 = alice.encrypt(b"a2", b"").unwrap();
    assert_eq!(bob.decrypt(&msg_a2, b"").unwrap(), b"a2");
    assert_eq!(bob.skipped_keys_count(), 1);
    let msg_b1 = bob.encrypt(b"b1", b"").unwrap();
    assert_eq!(alice.decrypt(&msg_b1, b"").unwrap(), b"b1");
    assert_eq!(bob.decrypt(&msg_a1, b"").unwrap(), b"a1");
    assert_eq!(bob.skipped_keys_count(), 0);
}

#[test]
fn header_pn_tracks_previous_chain_length() {
    let (mut alice, mut bob) = setup();
    let m1 = alice.encrypt(b"m1", b"").unwrap();
    let m2 = alice.encrypt(b"m2", b"").unwrap();
    let m3 = alice.encrypt(b"m3", b"").unwrap();
    bob.decrypt(&m1, b"").unwrap();
    bob.decrypt(&m2, b"").unwrap();
    bob.decrypt(&m3, b"").unwrap();
    let reply = bob.encrypt(b"reply", b"").unwrap();
    alice.decrypt(&reply, b"").unwrap();
    let m4 = alice.encrypt(b"m4", b"").unwrap();
    bob.decrypt(&m4, b"").unwrap();
}

#[test]
fn header_prev_chain_length_tracks_previous_chain_length() {
    let (mut remote, mut local) = setup();
    let m1 = remote.encrypt(b"m1", b"").unwrap();
    let m2 = remote.encrypt(b"m2", b"").unwrap();
    let m3 = remote.encrypt(b"m3", b"").unwrap();
    local.decrypt(&m1, b"").unwrap();
    local.decrypt(&m2, b"").unwrap();
    local.decrypt(&m3, b"").unwrap();
    let reply = local.encrypt(b"reply", b"").unwrap();
    remote.decrypt(&reply, b"").unwrap();
    let m4 = remote.encrypt(b"m4", b"").unwrap();
    local.decrypt(&m4, b"").unwrap();
}

#[test]
fn ratchet_session_ad_is_authenticated() {
    let (mut alice, mut bob) = setup();
    let ad = b"alice-id:bob-id";
    let msg = alice.encrypt(b"secret", ad).unwrap();
    assert!(bob.decrypt(&msg, ad).is_ok());
    assert!(bob.decrypt(&msg, b"wrong-ad").is_err());
}

#[test]
fn ratchet_wrong_shared_secret_fails() {
    let bob_dh = StaticSecret::random_from_rng(OsRng);
    let bob_dh_pub = PublicKey::from(&bob_dh);
    let mut alice = RatchetSession::init_sender(&[0xAAu8; 32], &bob_dh_pub.to_bytes()).unwrap();
    let mut bob = RatchetSession::init_receiver(&[0xBBu8; 32], bob_dh.to_bytes()).unwrap();
    let msg = alice.encrypt(b"secret", b"").unwrap();
    assert!(bob.decrypt(&msg, b"").is_err());
}

#[test]
fn ratchet_tampered_ciphertext_fails() {
    let (mut alice, mut bob) = setup();
    let mut msg = alice.encrypt(b"important", b"").unwrap();
    msg.payload.ciphertext[0] ^= 0xFF;
    assert!(bob.decrypt(&msg, b"").is_err());
}

#[test]
fn ratchet_tampered_header_fails() {
    let (mut alice, mut bob) = setup();
    let mut msg = alice.encrypt(b"important", b"").unwrap();
    msg.encrypted_header.ciphertext[0] ^= 0xFF;
    assert!(bob.decrypt(&msg, b"").is_err());
}

#[test]
fn ratchet_exceeding_max_skip_returns_error() {
    let (mut alice, mut bob) = setup();
    let mut messages: Vec<RatchetMessage> = Vec::new();
    for _ in 0..=(MAX_SKIP + 1) {
        messages.push(alice.encrypt(b"x", b"").unwrap());
    }
    let last = messages.len() - 1;
    assert!(matches!(
        bob.decrypt(&messages[last], b""),
        Err(RatchetError::TooManySkipped(_))
    ));
}

#[test]
fn ratchet_receiver_cannot_send_first() {
    let (_, mut bob) = setup();
    assert_eq!(
        bob.encrypt(b"too early", b"").unwrap_err(),
        RatchetError::SendChainNotInitialized
    );
}

#[test]
fn ratchet_replayed_message_fails() {
    let (mut alice, mut bob) = setup();
    let msg = alice.encrypt(b"once", b"").unwrap();
    assert_eq!(bob.decrypt(&msg, b"").unwrap(), b"once");
    assert!(bob.decrypt(&msg, b"").is_err());
}

#[test]
fn ratchet_skipping_exactly_max_is_allowed() {
    let (mut alice, mut bob) = setup();
    let mut last = None;
    for _ in 0..=MAX_SKIP {
        last = Some(alice.encrypt(b"y", b"").unwrap());
    }
    assert_eq!(bob.decrypt(&last.unwrap(), b"").unwrap(), b"y");
    assert_eq!(bob.skipped_keys_count(), MAX_SKIP as usize);
}

#[test]
fn ratchet_public_key_matches_secret() {
    let secret = StaticSecret::random_from_rng(OsRng);
    let public = PublicKey::from(&secret).to_bytes();
    let bob = RatchetSession::init_receiver(&[1u8; 32], secret.to_bytes()).unwrap();
    assert_eq!(bob.our_public_key(), public);
}

#[test]
fn bound_data_is_length_prefixed() {
    let header = EncryptedMessage { nonce: 1, ciphertext: vec![9] };
    assert_eq!(
        RatchetSession::concat_ad_enc(b"ab", &header),
        vec![0, 0, 0, 2, 0x61, 0x62, 0, 0, 0, 0, 0, 0, 0, 1, 9]
    );
    let shifted = EncryptedMessage { nonce: 1, ciphertext: vec![9] };
    assert_ne!(
        RatchetSession::concat_ad_enc(b"a", &shifted),
        RatchetSession::concat_ad_enc(b"ab", &header)
    );
}

#[test]
fn chain_messages_arrive_in_any_order() {
    let (mut alice, mut bob) = setup();
    let msgs: Vec<RatchetMessage> = (0u8..4)
        .map(|i| alice.encrypt(&[i], b"ad").unwrap())
        .collect();
    for i in [2usize, 0, 3, 1] {
        assert_eq!(bob.decrypt(&msgs[i], b"ad").unwrap(), vec![i as u8]);
    }
    assert_eq!(bob.skipped_keys_count(), 0);
    assert!(bob.decrypt(&msgs[1], b"ad").is_err());
}
