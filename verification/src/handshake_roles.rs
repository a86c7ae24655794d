//! The two sides of the handshake, step by step. The listener receives the
//! dialer's ephemeral key, answers with its own and a signature of both by
//! its onion-service key, checks the dialer's encrypted claim and approves
//! it; the dialer checks the listener's answer, sends its encrypted claim
//! and waits for the approval. Each side then starts its ratchet session.
//! Reading and writing frames, encoding messages and signing with the
//! onion-service key are done by the caller between the steps.

use crate::aead::KeyMaterial;
use crate::comm::Msg;
use crate::handshake::{
    claim_outcome, claim_panics, combined_keys, derive_bob_ratchet_key, expect_public_key,
    handshake_decrypt, handshake_encrypt, handshake_frame, handshake_open, listener_check_claim,
    signed_key_outcome, x25519_handshake, HandshakeError,
};
use crate::bytes::key_of;
use crate::constants::INFO_BOB_RATCHET;
use crate::primitives::{
    aead_len_ok, dh_agrees, hkdf_sha256, x25519_diffie_hellman, x25519_public,
    x25519_public_key, x25519_random_secret, x25519_shared,
};
use crate::ratchet::{init_receiver_model, init_sender_model, RatchetError, RatchetSession};
use vstd::prelude::*;
use vstd::string::StringSliceAdditionalSpecFns;

verus! {

/// The receiver's ratchet secret derived from a handshake secret.
pub open spec fn bob_ratchet_secret(shared: KeyMaterial) -> Seq<u8> {
    hkdf_sha256(shared@, None, INFO_BOB_RATCHET.spec_bytes(), 32)
}

/// The listener's side, once the dialer's ephemeral key has arrived.
pub struct ListenerHandshake {
    local_hsid: KeyMaterial,
    eph: KeyMaterial,
    eph_pub: KeyMaterial,
    remote_eph: KeyMaterial,
    shared: KeyMaterial,
}

/// The model of the listener's side: our onion-service key, our ephemeral
/// secret and public key, the dialer's ephemeral key and the shared secret.
pub struct ListenerView {
    pub local_hsid: KeyMaterial,
    pub eph: KeyMaterial,
    pub eph_pub: KeyMaterial,
    pub remote_eph: KeyMaterial,
    pub shared: KeyMaterial,
}

impl View for ListenerHandshake {
    type V = ListenerView;

    closed spec fn view(&self) -> ListenerView {
        ListenerView {
            local_hsid: self.local_hsid,
            eph: self.eph,
            eph_pub: self.eph_pub,
            remote_eph: self.remote_eph,
            shared: self.shared,
        }
    }
}

impl ListenerHandshake {
    /// Takes the dialer's opening message, which must carry its ephemeral
    /// key, with a fresh ephemeral secret `eph`; returns the listener's side
    /// and the bytes to sign with the onion-service key: the dialer's key,
    /// then ours.
    pub fn open_with_secret(local_hsid: KeyMaterial, first: Msg, eph: KeyMaterial) -> (r: Result<
        (Self, Vec<u8>),
        HandshakeError,
    >)
        ensures
            match first {
                Msg::PublicKey(k) => r matches Ok((side, to_sign)) && side@ == (ListenerView {
                    local_hsid,
                    eph,
                    eph_pub: x25519_public(eph),
                    remote_eph: k,
                    shared: x25519_shared(eph, k),
                }) && to_sign@ == k@ + x25519_public(eph)@ && dh_agrees(eph, k),
                _ => r == Err::<(Self, Vec<u8>), HandshakeError>(HandshakeError::NoPublicKey),
            },
    {
        let remote_eph = match expect_public_key(first) {
            Ok(k) => k,
            Err(e) => return Err(e),
        };
        let eph_pub = x25519_public_key(&eph);
        let shared = x25519_diffie_hellman(&eph, &remote_eph);
        let to_sign = combined_keys(&remote_eph, &eph_pub);
        Ok((ListenerHandshake { local_hsid, eph, eph_pub, remote_eph, shared }, to_sign))
    }

    /// As `open_with_secret`, with an ephemeral secret drawn from the
    /// operating system's random number generator.
    pub fn open(local_hsid: KeyMaterial, first: Msg) -> (r: Result<(Self, Vec<u8>), HandshakeError>)
        ensures
            match first {
                Msg::PublicKey(k) => r matches Ok((side, to_sign)) && side@.local_hsid == local_hsid
                    && side@.remote_eph == k && side@.eph_pub == x25519_public(side@.eph)
                    && side@.shared == x25519_shared(side@.eph, k) && to_sign@ == k@
                    + side@.eph_pub@ && dh_agrees(side@.eph, k),
                _ => r == Err::<(Self, Vec<u8>), HandshakeError>(HandshakeError::NoPublicKey),
            },
    {
        let eph = x25519_random_secret();
        Self::open_with_secret(local_hsid, first, eph)
    }

    /// The listener's answer: the signature by the onion-service key, the
    /// dialer's ephemeral key and ours.
    pub fn answer(&self, signature: &[u8; 64]) -> (m: Msg)
        ensures
            m matches Msg::SignedAndPublicKey(s, a, b) && s@ == signature@ && a == self@.remote_eph
                && b == self@.eph_pub,
    {
        let mut s: Vec<u8> = Vec::new();
        let mut i: usize = 0;
        while i < 64
            invariant
                i <= 64,
                s@ == signature@.take(i as int),
            decreases 64 - i,
        {
            s.push(signature[i]);
            i = i + 1;
            assert(s@ =~= signature@.take(i as int));
        }
        assert(signature@.take(64) =~= signature@);
        Msg::SignedAndPublicKey(s, self.remote_eph, self.eph_pub)
    }

    /// Opens the dialer's encrypted claim.
    pub fn open_claim(&self, frame: &[u8]) -> (r: Result<Vec<u8>, HandshakeError>)
        ensures
            match r {
                Ok(p) => handshake_open(self@.shared@, frame@) == Ok::<Seq<u8>, HandshakeError>(
                    p@,
                ),
                Err(e) => handshake_open(self@.shared@, frame@) == Err::<Seq<u8>, HandshakeError>(
                    e,
                ),
            },
    {
        handshake_decrypt(&self.shared, frame)
    }

    /// Checks the dialer's decoded claim; returns the dialer's onion-service
    /// key.
    pub fn check_claim(&self, claim: Msg) -> (r: Result<KeyMaterial, HandshakeError>)
        requires
            !claim_panics(self@.local_hsid, claim),
        ensures
            r == claim_outcome(self@.local_hsid, self@.eph_pub, self@.remote_eph, claim),
    {
        listener_check_claim(&self.local_hsid, &self.eph_pub, &self.remote_eph, claim)
    }

    /// Encrypts the approval, the encoded `Verified` message, for the dialer.
    pub fn approval(&self, verified: &[u8]) -> (r: Result<Vec<u8>, HandshakeError>)
        ensures
            r is Ok <==> aead_len_ok(verified@.len()),
            r matches Ok(out) ==> out@ == handshake_frame(self@.shared@, verified@),
    {
        handshake_encrypt(&self.shared, verified)
    }

    /// Starts the listener's ratchet session, as the receiving side, with
    /// the ratchet secret derived from the shared secret.
    pub fn finish(&self) -> (r: Result<RatchetSession, RatchetError>)
        ensures
            r matches Ok(s) && s.wf() && s@ == init_receiver_model(
                self@.shared@,
                key_of(bob_ratchet_secret(self@.shared)),
            ),
    {
        let (bob_dh, _) = derive_bob_ratchet_key(&self.shared);
        proof {
            crate::bytes::lemma_key_of_view(bob_dh);
        }
        RatchetSession::init_receiver(&self.shared, bob_dh)
    }
}

/// The dialer's side of the handshake.
pub struct DialerHandshake {
    eph: KeyMaterial,
    eph_pub: KeyMaterial,
    peer_key: KeyMaterial,
    remote_eph: Option<KeyMaterial>,
    shared: Option<KeyMaterial>,
}

/// The model of the dialer's side: our ephemeral secret and public key,
/// the listener's onion-service key, and, once the listener's answer
/// checked out, its ephemeral key and the shared secret.
pub struct DialerView {
    pub eph: KeyMaterial,
    pub eph_pub: KeyMaterial,
    pub peer_key: KeyMaterial,
    pub remote_eph: Option<KeyMaterial>,
    pub shared: Option<KeyMaterial>,
}

impl View for DialerHandshake {
    type V = DialerView;

    closed spec fn view(&self) -> DialerView {
        DialerView {
            eph: self.eph,
            eph_pub: self.eph_pub,
            peer_key: self.peer_key,
            remote_eph: self.remote_eph,
            shared: self.shared,
        }
    }
}

impl DialerHandshake {
    /// Starts dialing the listener whose onion-service key is `peer_key`,
    /// with the ephemeral secret `eph`; returns the dialer's side and its
    /// opening message, its ephemeral key.
    pub fn start_with_secret(peer_key: KeyMaterial, eph: KeyMaterial) -> (r: (Self, Msg))
        ensures
            r.0@ == (DialerView {
                eph,
                eph_pub: x25519_public(eph),
                peer_key,
                remote_eph: None,
                shared: None,
            }),
            r.1 == Msg::PublicKey(x25519_public(eph)),
    {
        let eph_pub = x25519_public_key(&eph);
        (
            DialerHandshake { eph, eph_pub, peer_key, remote_eph: None, shared: None },
            Msg::PublicKey(eph_pub),
        )
    }

    /// As `start_with_secret`, with an ephemeral secret drawn from the
    /// operating system's random number generator.
    pub fn start(peer_key: KeyMaterial) -> (r: (Self, Msg))
        ensures
            r.0@.peer_key == peer_key,
            r.0@.eph_pub == x25519_public(r.0@.eph),
            r.0@.remote_eph is None,
            r.0@.shared is None,
            r.1 == Msg::PublicKey(r.0@.eph_pub),
    {
        let eph = x25519_random_secret();
        Self::start_with_secret(peer_key, eph)
    }

    /// Checks the listener's decoded answer. When it checks out, records the
    /// listener's ephemeral key and the shared secret, and returns the bytes
    /// to sign with our onion-service key: the listener's ephemeral key,
    /// then ours.
    pub fn on_answer(&mut self, answer: Msg) -> (r: Result<Vec<u8>, HandshakeError>)
        ensures
            match signed_key_outcome(old(self)@.eph_pub, old(self)@.peer_key, answer) {
                Ok(k) => r matches Ok(to_sign) && to_sign@ == k@ + old(self)@.eph_pub@
                    && final(self)@ == (DialerView {
                    remote_eph: Some(k),
                    shared: Some(x25519_shared(old(self)@.eph, k)),
                    ..old(self)@
                }) && dh_agrees(old(self)@.eph, k),
                Err(e) => r == Err::<Vec<u8>, HandshakeError>(e) && final(self)@ == old(self)@,
            },
    {
        let mut remote: Option<KeyMaterial> = None;
        match x25519_handshake(&mut remote, self.eph_pub, &self.peer_key, answer) {
            Ok(()) => {},
            Err(e) => return Err(e),
        }
        let k = match remote {
            Some(k) => k,
            None => {
                return Err(HandshakeError::NoSignedKey);
            },
        };
        let shared = x25519_diffie_hellman(&self.eph, &k);
        self.remote_eph = Some(k);
        self.shared = Some(shared);
        Ok(combined_keys(&k, &self.eph_pub))
    }

    /// The dialer's claim: the signature by our onion-service key, the
    /// listener's onion-service key and ours (`local_hsid`).
    pub fn claim(&self, signature: &[u8; 64], local_hsid: KeyMaterial) -> (m: Msg)
        ensures
            m matches Msg::SignedAndPublicKey(s, a, b) && s@ == signature@ && a == self@.peer_key
                && b == local_hsid,
    {
        let mut s: Vec<u8> = Vec::new();
        let mut i: usize = 0;
        while i < 64
            invariant
                i <= 64,
                s@ == signature@.take(i as int),
            decreases 64 - i,
        {
            s.push(signature[i]);
            i = i + 1;
            assert(s@ =~= signature@.take(i as int));
        }
        assert(signature@.take(64) =~= signature@);
        Msg::SignedAndPublicKey(s, self.peer_key, local_hsid)
    }

    /// Encrypts the encoded claim for the listener, under the shared secret.
    pub fn seal_claim(&self, encoded: &[u8]) -> (r: Result<Vec<u8>, HandshakeError>)
        requires
            self@.shared is Some,
        ensures
            r is Ok <==> aead_len_ok(encoded@.len()),
            r matches Ok(out) ==> out@ == handshake_frame(self@.shared->Some_0@, encoded@),
    {
        let shared = match self.shared {
            Some(s) => s,
            None => [0u8; 32],
        };
        handshake_encrypt(&shared, encoded)
    }

    /// Opens the listener's encrypted approval.
    pub fn open_approval(&self, frame: &[u8]) -> (r: Result<Vec<u8>, HandshakeError>)
        requires
            self@.shared is Some,
        ensures
            match r {
                Ok(p) => handshake_open(self@.shared->Some_0@, frame@) == Ok::<
                    Seq<u8>,
                    HandshakeError,
                >(p@),
                Err(e) => handshake_open(self@.shared->Some_0@, frame@) == Err::<
                    Seq<u8>,
                    HandshakeError,
                >(e),
            },
    {
        let shared = match self.shared {
            Some(s) => s,
            None => [0u8; 32],
        };
        handshake_decrypt(&shared, frame)
    }

    /// Starts the dialer's ratchet session, as the sending side, towards the
    /// ratchet key derived from the shared secret.
    pub fn finish(&self) -> (r: Result<RatchetSession, RatchetError>)
        requires
            self@.shared is Some,
        ensures
            r matches Ok(s) && s.wf() && exists|our_dh: KeyMaterial|
                s@ == init_sender_model(
                    self@.shared->Some_0@,
                    x25519_public(key_of(bob_ratchet_secret(self@.shared->Some_0))),
                    our_dh,
                ) && dh_agrees(
                    our_dh,
                    x25519_public(key_of(bob_ratchet_secret(self@.shared->Some_0))),
                ),
    {
        let shared = match self.shared {
            Some(s) => s,
            None => [0u8; 32],
        };
        let (bob_dh, bob_pub) = derive_bob_ratchet_key(&shared);
        proof {
            crate::bytes::lemma_key_of_view(bob_dh);
            assert(shared == self@.shared->Some_0);
            assert(key_of(bob_ratchet_secret(shared)) == bob_dh);
        }
        RatchetSession::init_sender(&shared, &bob_pub)
    }
}

/// The two sides sign and check the same bytes: the listener's signed
/// answer is checked by the dialer over what the listener signed, and the
/// dialer's signed claim is checked by the listener over what the dialer
/// signed; both sides compute the same shared secret.
pub proof fn law_sides_agree(listener: ListenerView, dialer: DialerView, lk: KeyMaterial)
    requires
        listener.remote_eph == dialer.eph_pub,
        dialer.remote_eph == Some(listener.eph_pub),
        listener.eph_pub == x25519_public(listener.eph),
        dialer.eph_pub == x25519_public(dialer.eph),
        listener.shared == x25519_shared(listener.eph, listener.remote_eph),
        dialer.shared == Some(x25519_shared(dialer.eph, listener.eph_pub)),
        dh_agrees(dialer.eph, listener.eph_pub),
    ensures
        listener.remote_eph@ + listener.eph_pub@ == dialer.eph_pub@ + listener.eph_pub@,
        dialer.remote_eph->Some_0@ + dialer.eph_pub@ == listener.eph_pub@ + listener.remote_eph@,
        dialer.shared == Some(listener.shared),
{
    assert(x25519_shared(dialer.eph, x25519_public(listener.eph)) == x25519_shared(
        listener.eph,
        x25519_public(dialer.eph),
    ));
}

} // verus!
