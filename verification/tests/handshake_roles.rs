use conan::comm::Msg;
use conan::handshake::HandshakeError;
use conan::handshake_roles::{DialerHandshake, ListenerHandshake};
use ed25519_dalek::{Signer, SigningKey};

fn onion_key(seed: u8) -> (SigningKey, [u8; 32]) {
    let sk = SigningKey::from_bytes(&[seed; 32]);
    let pk = sk.verifying_key().to_bytes();
    (sk, pk)
}

#[test]
fn full_handshake_gives_sessions_that_talk() {
    let (listener_sk, listener_id) = onion_key(21);
    let (dialer_sk, dialer_id) = onion_key(22);

    let (mut dialer, opening) = DialerHandshake::start(listener_id);
    let (listener, to_sign) = ListenerHandshake::open(listener_id, opening).unwrap();
    let answer = listener.answer(&listener_sk.sign(&to_sign).to_bytes());

    let dialer_to_sign = dialer.on_answer(answer).unwrap();
    let claim = dialer.claim(&dialer_sk.sign(&dialer_to_sign).to_bytes(), dialer_id);
    let sealed = dialer.seal_claim(b"encoded claim").unwrap();
    assert_eq!(listener.open_claim(&sealed).unwrap(), b"encoded claim");
    assert_eq!(listener.check_claim(claim), Ok(dialer_id));

    let approval = listener.approval(b"encoded approval").unwrap();
    assert_eq!(dialer.open_approval(&approval).unwrap(), b"encoded approval");

    let mut alice = dialer.finish().unwrap();
    let mut bob = listener.finish().unwrap();
    let msg = alice.encrypt(b"hello over tor", b"").unwrap();
    assert_eq!(bob.decrypt(&msg, b"").unwrap(), b"hello over tor");
    let reply = bob.encrypt(b"hello back", b"").unwrap();
    assert_eq!(alice.decrypt(&reply, b"").unwrap(), b"hello back");
}

#[test]
fn listener_refuses_opening_without_key() {
    assert!(matches!(
        ListenerHandshake::open([1u8; 32], Msg::Verified),
        Err(HandshakeError::NoPublicKey)
    ));
}

#[test]
fn dialer_refuses_answer_signed_by_someone_else() {
    let (_, listener_id) = onion_key(23);
    let (impostor_sk, _) = onion_key(24);
    let (mut dialer, opening) = DialerHandshake::start(listener_id);
    let (listener, to_sign) = ListenerHandshake::open(listener_id, opening).unwrap();
    let answer = listener.answer(&impostor_sk.sign(&to_sign).to_bytes());
    assert_eq!(dialer.on_answer(answer), Err(HandshakeError::SignatureRejected));
}

#[test]
fn listener_refuses_claim_for_another_listener() {
    let (listener_sk, listener_id) = onion_key(25);
    let (dialer_sk, dialer_id) = onion_key(26);
    let (mut dialer, opening) = DialerHandshake::start([7u8; 32]);
    let (listener, to_sign) = ListenerHandshake::open(listener_id, opening).unwrap();
    let _ = listener_sk.sign(&to_sign);
    let _ = dialer.on_answer(Msg::Verified);
    let claim = dialer.claim(&dialer_sk.sign(b"x").to_bytes(), dialer_id);
    assert_eq!(listener.check_claim(claim), Err(HandshakeError::LocalKeyMismatch));
}
