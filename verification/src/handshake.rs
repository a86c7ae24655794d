//! The handshake between two peers: the framing of its encrypted messages,
//! the check of the peer's signed key, the shared secret, and the ratchet
//! key both sides derive from it.

use crate::aead::{decrypt, encrypt, hkdf_derive, nonce_of, AeadError, EncryptedMessage, KeyMaterial, MessageKey};
use crate::bytes::{
    keys_equal, sig_from_slice, sig_of, u64_be, u64_from_be, u64_from_be_at, u64_to_be_bytes,
    lemma_u64_be_roundtrip,
};
use crate::comm::Msg;
use crate::constants::INFO_BOB_RATCHET;
use crate::primitives::{
    aead_len_ok, aead_open, aead_seal, ed25519_accepts, ed25519_check_key, ed25519_key_valid,
    dh_agrees, ed25519_verify, hkdf_sha256, seal_opens, x25519_diffie_hellman, x25519_public,
    x25519_public_key, x25519_shared,
};
use vstd::prelude::*;
use vstd::string::StringSliceAdditionalSpecFns;

verus! {

/// What can go wrong during the handshake.
#[derive(Debug, Clone, Copy, PartialEq, Eq, Structural)]
pub enum HandshakeError {
    /// A framed message is shorter than its nonce.
    TooShort,
    /// Encryption or decryption failed.
    Aead(AeadError),
    /// The peer's message holds no signed key.
    NoSignedKey,
    /// The peer signed a different key than ours.
    LocalKeyMismatch,
    /// The peer's onion-service key is not a curve point.
    InvalidPeerKey,
    /// The signature does not have 64 bytes.
    InvalidSignatureLength,
    /// The signature does not verify under the peer's key.
    SignatureRejected,
    /// The dialer did not open with its public key.
    NoPublicKey,
    /// The listener did not approve the connection.
    NotApproved,
}

/// A handshake frame: the nonce counter (always 0) big-endian, then the
/// ciphertext of `data` under the shared secret.
pub open spec fn handshake_frame(key: Seq<u8>, data: Seq<u8>) -> Seq<u8> {
    u64_be(0) + aead_seal(key, nonce_of(0), data, seq![])
}

/// The data a handshake frame carries, or why it cannot be read.
pub open spec fn handshake_open(key: Seq<u8>, frame: Seq<u8>) -> Result<Seq<u8>, HandshakeError> {
    if frame.len() < 8 {
        Err(HandshakeError::TooShort)
    } else {
        match aead_open(
            key,
            nonce_of(u64_from_be(frame.subrange(0, 8))),
            frame.subrange(8, frame.len() as int),
            seq![],
        ) {
            Some(p) => Ok(p),
            None => Err(HandshakeError::Aead(AeadError::Decrypt)),
        }
    }
}

/// Encrypts handshake data under the shared secret, before the ratchet is
/// set up; the frame starts with the nonce counter.
pub fn handshake_encrypt(shared_secret_key: &KeyMaterial, data: &[u8]) -> (r: Result<
    Vec<u8>,
    HandshakeError,
>)
    ensures
        r is Ok <==> aead_len_ok(data@.len()),
        r matches Ok(out) ==> out@ == handshake_frame(shared_secret_key@, data@) && seal_opens(
            shared_secret_key@,
            nonce_of(0),
            data@,
            seq![],
        ),
        r matches Err(e) ==> e == HandshakeError::Aead(AeadError::Encrypt),
{
    let key = MessageKey::from_bytes(*shared_secret_key);
    let msg = match encrypt(&key, 0, data) {
        Ok(m) => m,
        Err(e) => return Err(HandshakeError::Aead(e)),
    };
    let nonce = u64_to_be_bytes(msg.nonce);
    let mut out: Vec<u8> = Vec::new();
    let mut i: usize = 0;
    while i < 8
        invariant
            i <= 8,
            out@ == nonce@.subrange(0, i as int),
        decreases 8 - i,
    {
        out.push(nonce[i]);
        i = i + 1;
        assert(nonce@.subrange(0, i as int) =~= nonce@.subrange(0, i - 1).push(nonce@[i - 1]));
    }
    let len = msg.ciphertext.len();
    let mut j: usize = 0;
    while j < len
        invariant
            j <= len,
            len == msg.ciphertext@.len(),
            out@ == nonce@ + msg.ciphertext@.subrange(0, j as int),
        decreases len - j,
    {
        out.push(msg.ciphertext[j]);
        j = j + 1;
        assert(msg.ciphertext@.subrange(0, j as int) =~= msg.ciphertext@.subrange(0, j - 1).push(
            msg.ciphertext@[j - 1],
        ));
    }
    assert(nonce@.subrange(0, 8) =~= nonce@);
    assert(msg.ciphertext@.subrange(0, len as int) =~= msg.ciphertext@);
    Ok(out)
}

/// Decrypts a handshake frame under the shared secret.
pub fn handshake_decrypt(shared_secret_key: &KeyMaterial, data: &[u8]) -> (r: Result<
    Vec<u8>,
    HandshakeError,
>)
    ensures
        match r {
            Ok(p) => handshake_open(shared_secret_key@, data@) == Ok::<Seq<u8>, HandshakeError>(
                p@,
            ),
            Err(e) => handshake_open(shared_secret_key@, data@) == Err::<Seq<u8>, HandshakeError>(
                e,
            ),
        },
{
    if data.len() < 8 {
        return Err(HandshakeError::TooShort);
    }
    let nonce = u64_from_be_at(data, 0);
    let len = data.len();
    let mut ciphertext: Vec<u8> = Vec::new();
    let mut i: usize = 8;
    while i < len
        invariant
            8 <= i <= len,
            len == data@.len(),
            ciphertext@ == data@.subrange(8, i as int),
        decreases len - i,
    {
        ciphertext.push(data[i]);
        i = i + 1;
        assert(data@.subrange(8, i as int) =~= data@.subrange(8, i - 1).push(data@[i - 1]));
    }
    let key = MessageKey::from_bytes(*shared_secret_key);
    let msg = EncryptedMessage { nonce, ciphertext };
    match decrypt(&key, &msg) {
        Ok(p) => Ok(p),
        Err(e) => Err(HandshakeError::Aead(e)),
    }
}

/// A frame made by `handshake_encrypt` is read back by `handshake_decrypt`
/// under the same key, given that ChaCha20-Poly1305 opens what it sealed.
pub proof fn law_handshake_roundtrip(key: Seq<u8>, data: Seq<u8>)
    requires
        seal_opens(key, nonce_of(0), data, seq![]),
    ensures
        handshake_open(key, handshake_frame(key, data)) == Ok::<Seq<u8>, HandshakeError>(data),
{
    let f = handshake_frame(key, data);
    assert(f.subrange(0, 8) =~= u64_be(0));
    lemma_u64_be_roundtrip(0);
    assert(f.subrange(8, f.len() as int) =~= aead_seal(key, nonce_of(0), data, seq![]));
}

/// The receiver's ratchet secret derived from the handshake secret (HKDF,
/// no salt, label `conan-v1-bob-ratchet`), and its public key. Both sides
/// derive it, so the sender knows the receiver's ratchet key in advance.
pub fn derive_bob_ratchet_key(shared_secret: &KeyMaterial) -> (r: (KeyMaterial, KeyMaterial))
    ensures
        r.0@ == hkdf_sha256(shared_secret@, None, INFO_BOB_RATCHET.spec_bytes(), 32),
        r.1 == x25519_public(r.0),
{
    let derived = match hkdf_derive::<32>(shared_secret, None, INFO_BOB_RATCHET.as_bytes()) {
        Ok(b) => b,
        Err(_) => {
            proof {
                assert(false);
            }
            [0u8; 32]
        },
    };
    let pub_key = x25519_public_key(&derived);
    (derived, pub_key)
}

/// Records the Diffie-Hellman secret of our ephemeral secret and the peer's
/// public key.
pub fn edhverify(
    local_private_key: KeyMaterial,
    remote_public_key: KeyMaterial,
    ssk: &mut Option<KeyMaterial>,
)
    ensures
        *final(ssk) == Some(x25519_shared(local_private_key, remote_public_key)),
        *final(ssk) is Some && dh_agrees(local_private_key, remote_public_key),
{
    let shared = x25519_diffie_hellman(&local_private_key, &remote_public_key);
    *ssk = Some(shared);
}

/// Both parties of an exchange record the same secret: when one side's
/// `edhverify` with its secret `a` and the other's public key has stated
/// its agreement, the other side's `edhverify` with `b` and the public key
/// of `a` records the same secret.
pub proof fn law_exchange_agrees(a: KeyMaterial, b: KeyMaterial)
    requires
        dh_agrees(a, x25519_public(b)),
    ensures
        x25519_shared(a, x25519_public(b)) == x25519_shared(b, x25519_public(a)),
{
}

/// The 64 bytes a key confirmation signs: first key, then second.
pub fn combined_keys(first: &KeyMaterial, second: &KeyMaterial) -> (out: Vec<u8>)
    ensures
        out@ == first@ + second@,
{
    let mut out: Vec<u8> = Vec::new();
    let mut i: usize = 0;
    while i < 32
        invariant
            i <= 32,
            out@ == first@.subrange(0, i as int),
        decreases 32 - i,
    {
        out.push(first[i]);
        i = i + 1;
        assert(first@.subrange(0, i as int) =~= first@.subrange(0, i - 1).push(first@[i - 1]));
    }
    let mut i: usize = 0;
    while i < 32
        invariant
            i <= 32,
            out@ == first@ + second@.subrange(0, i as int),
        decreases 32 - i,
    {
        out.push(second[i]);
        i = i + 1;
        assert(second@.subrange(0, i as int) =~= second@.subrange(0, i - 1).push(second@[i - 1]));
    }
    assert(first@.subrange(0, 32) =~= first@);
    assert(second@.subrange(0, 32) =~= second@);
    out
}

/// The outcome of checking the listener's signed keys: the message must
/// carry a signature of our ephemeral key followed by the listener's, made
/// with the listener's onion-service key `peer_key`; then the listener's
/// ephemeral key is accepted.
pub open spec fn signed_key_outcome(local_public_key: KeyMaterial, peer_key: KeyMaterial, msg: Msg) -> Result<
    KeyMaterial,
    HandshakeError,
> {
    match msg {
        Msg::SignedAndPublicKey(signature, claimed_local, claimed_remote) => {
            if local_public_key != claimed_local {
                Err(HandshakeError::LocalKeyMismatch)
            } else if !ed25519_key_valid(peer_key) {
                Err(HandshakeError::InvalidPeerKey)
            } else if signature@.len() != 64 {
                Err(HandshakeError::InvalidSignatureLength)
            } else if !ed25519_accepts(
                peer_key,
                local_public_key@ + claimed_remote@,
                sig_of(signature@),
            ) {
                Err(HandshakeError::SignatureRejected)
            } else {
                Ok(claimed_remote)
            }
        },
        _ => Err(HandshakeError::NoSignedKey),
    }
}

/// Checks the listener's signed keys and, when they verify, records the
/// listener's ephemeral public key. `peer_key` is the Ed25519 key of the
/// onion address being dialled.
pub fn x25519_handshake(
    remote_public_key: &mut Option<KeyMaterial>,
    local_public_key: KeyMaterial,
    peer_key: &KeyMaterial,
    msg: Msg,
) -> (r: Result<(), HandshakeError>)
    ensures
        match signed_key_outcome(local_public_key, *peer_key, msg) {
            Ok(k) => r is Ok && *final(remote_public_key) == Some(k),
            Err(e) => r == Err::<(), HandshakeError>(e) && *final(remote_public_key) == *old(
                remote_public_key,
            ),
        },
{
    let (signature, claimed_local, claimed_remote) = match msg {
        Msg::SignedAndPublicKey(s, l, r) => (s, l, r),
        _ => return Err(HandshakeError::NoSignedKey),
    };
    if !keys_equal(&local_public_key, &claimed_local) {
        return Err(HandshakeError::LocalKeyMismatch);
    }
    if ed25519_check_key(peer_key).is_err() {
        return Err(HandshakeError::InvalidPeerKey);
    }
    if signature.len() != 64 {
        return Err(HandshakeError::InvalidSignatureLength);
    }
    let sig = sig_from_slice(signature.as_slice());
    let combined = combined_keys(&local_public_key, &claimed_remote);
    if !ed25519_verify(peer_key, combined.as_slice(), &sig) {
        return Err(HandshakeError::SignatureRejected);
    }
    *remote_public_key = Some(claimed_remote);
    Ok(())
}

/// The listener's first check: the dialer opens with its ephemeral public
/// key.
pub fn expect_public_key(msg: Msg) -> (r: Result<KeyMaterial, HandshakeError>)
    ensures
        match msg {
            Msg::PublicKey(k) => r == Ok::<KeyMaterial, HandshakeError>(k),
            _ => r == Err::<KeyMaterial, HandshakeError>(HandshakeError::NoPublicKey),
        },
{
    match msg {
        Msg::PublicKey(k) => Ok(k),
        _ => Err(HandshakeError::NoPublicKey),
    }
}

/// The listener's view of the dialer's claim: the message must name our
/// onion-service key `local_hsid` and the dialer's, and carry the dialer's
/// signature, under the dialer's onion-service key, of our ephemeral key
/// followed by the dialer's; then the dialer's onion-service key is
/// accepted.
pub open spec fn claim_outcome(
    local_hsid: KeyMaterial,
    local_public_key: KeyMaterial,
    remote_public_key: KeyMaterial,
    msg: Msg,
) -> Result<KeyMaterial, HandshakeError> {
    match msg {
        Msg::SignedAndPublicKey(signature, claimed_local, claimed_remote) => {
            if local_hsid != claimed_local {
                Err(HandshakeError::LocalKeyMismatch)
            } else if !ed25519_key_valid(claimed_remote) {
                Err(HandshakeError::InvalidPeerKey)
            } else if !ed25519_accepts(
                claimed_remote,
                local_public_key@ + remote_public_key@,
                sig_of(signature@),
            ) {
                Err(HandshakeError::SignatureRejected)
            } else {
                Ok(claimed_remote)
            }
        },
        _ => Err(HandshakeError::NoSignedKey),
    }
}

/// The claims on which the listener stops: a claim naming our key whose
/// signature does not have 64 bytes.
pub open spec fn claim_panics(local_hsid: KeyMaterial, msg: Msg) -> bool {
    msg matches Msg::SignedAndPublicKey(signature, claimed_local, _) && claimed_local == local_hsid
        && signature@.len() != 64
}

/// Checks the dialer's claim as the listener. `local_public_key` is the
/// listener's ephemeral key and `remote_public_key` the dialer's. Returns
/// the dialer's onion-service key.
pub fn listener_check_claim(
    local_hsid: &KeyMaterial,
    local_public_key: &KeyMaterial,
    remote_public_key: &KeyMaterial,
    msg: Msg,
) -> (r: Result<KeyMaterial, HandshakeError>)
    requires
        !claim_panics(*local_hsid, msg),
    ensures
        r == claim_outcome(*local_hsid, *local_public_key, *remote_public_key, msg),
{
    let (signature, claimed_local, claimed_remote) = match msg {
        Msg::SignedAndPublicKey(s, l, r) => (s, l, r),
        _ => return Err(HandshakeError::NoSignedKey),
    };
    if !keys_equal(local_hsid, &claimed_local) {
        return Err(HandshakeError::LocalKeyMismatch);
    }
    let sig = sig_from_slice(signature.as_slice());
    if ed25519_check_key(&claimed_remote).is_err() {
        return Err(HandshakeError::InvalidPeerKey);
    }
    let combined = combined_keys(local_public_key, remote_public_key);
    if !ed25519_verify(&claimed_remote, combined.as_slice(), &sig) {
        return Err(HandshakeError::SignatureRejected);
    }
    Ok(claimed_remote)
}

/// The dialer's last check: the listener approves with `Verified`.
pub fn expect_approval(msg: Msg) -> (r: Result<(), HandshakeError>)
    ensures
        r is Ok <==> msg is Verified,
        r is Err ==> r == Err::<(), HandshakeError>(HandshakeError::NotApproved),
{
    match msg {
        Msg::Verified => Ok(()),
        _ => Err(HandshakeError::NotApproved),
    }
}

} // verus!
