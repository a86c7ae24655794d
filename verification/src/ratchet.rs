//! The double ratchet with header encryption.
//!
//! A session is modelled by a [`SessionView`]; every operation is specified
//! as a function from the model before the call (and its inputs) to the
//! model after it together with the result.

use crate::aead::{
    decrypt_with_aad, encrypt_with_aad, hkdf_derive, nonce_of, open_outcome, AeadError,
    EncryptedMessage, KeyMaterial, MessageKey, SealedView,
};
use crate::bytes::{key_from_slice, keys_equal, lemma_key_of_view, u32_be, u32_to_be_bytes, u64_be, u64_to_be_bytes};
use crate::constants::{
    INFO_CHAIN, INFO_INIT_HKR, INFO_INIT_HKS, INFO_INIT_RK, INFO_MESSAGE, INFO_ROOT, MAX_SKIP,
    MAX_SKIPPED_KEYS,
};
use crate::primitives::{
    aead_len_ok, aead_open, aead_seal, dh_agrees, hkdf_sha256, seal_opens, x25519_diffie_hellman,
    x25519_public, x25519_public_key, x25519_random_secret, x25519_shared,
};
use crate::ratchet_header::{parse_header, RatchetHeader};
use crate::skipped_keys::SkippedKeys;
use vstd::prelude::*;
use vstd::string::StringSliceAdditionalSpecFns;

verus! {

/// What can go wrong in a ratchet session.
#[derive(Debug, Clone, Copy, PartialEq, Eq, Structural)]
pub enum RatchetError {
    /// Key derivation failed.
    HkdfExpand,
    /// An AEAD operation failed.
    Aead(AeadError),
    /// `encrypt` was called before a sending chain exists.
    SendChainNotInitialized,
    /// No receiving chain exists yet.
    RecvChainNotInitialized,
    /// A ratchet public key was unusable.
    InvalidDhKey,
    /// A message asks to skip more keys than allowed; carries how many.
    TooManySkipped(u64),
    /// The store of skipped message keys is full.
    SkippedKeysFull,
    /// No header key opened the header: unknown session or corrupted header.
    HeaderDecryptionFailed,
}

/// A message of a ratchet session: the encrypted header and the encrypted
/// payload.
#[derive(Debug, Clone)]
pub struct RatchetMessage {
    pub encrypted_header: EncryptedMessage,
    pub payload: EncryptedMessage,
}

/// The model of a [`RatchetMessage`].
pub struct MessageView {
    pub header: SealedView,
    pub payload: SealedView,
}

impl View for RatchetMessage {
    type V = MessageView;

    open spec fn view(&self) -> MessageView {
        MessageView { header: self.encrypted_header@, payload: self.payload@ }
    }
}

// ----------------------------------------------------------------------------
// Key derivations
// ----------------------------------------------------------------------------

/// The bytes of a label.
pub open spec fn label(s: &str) -> Seq<u8> {
    s.spec_bytes()
}

/// The message key taken from chain key `ck`.
pub open spec fn chain_message_key(ck: Seq<u8>) -> Seq<u8> {
    hkdf_sha256(ck, None, label(INFO_MESSAGE), 32)
}

/// The chain key that follows `ck`.
pub open spec fn chain_next(ck: Seq<u8>) -> Seq<u8> {
    hkdf_sha256(ck, None, label(INFO_CHAIN), 32)
}

/// The 96 bytes of a root-key step from root key `rk` with Diffie-Hellman
/// output `dh`: the next root key, a chain key and a next header key.
pub open spec fn root_output(rk: Seq<u8>, dh: Seq<u8>) -> Seq<u8> {
    hkdf_sha256(dh, Some(rk), label(INFO_ROOT), 96)
}

/// A key derived from the shared secret at session start.
pub open spec fn initial_key(shared_secret: Seq<u8>, info: &str) -> Seq<u8> {
    hkdf_sha256(shared_secret, None, label(info), 32)
}

/// The part of a root-key step's output holding the `i`-th key.
pub open spec fn third(m: Seq<u8>, i: int) -> Seq<u8> {
    m.subrange(32 * i, 32 * i + 32)
}

/// A header key.
struct HeaderKey(KeyMaterial);

impl View for HeaderKey {
    type V = Seq<u8>;

    closed spec fn view(&self) -> Seq<u8> {
        self.0@
    }
}

impl HeaderKey {
    fn from_bytes(bytes: KeyMaterial) -> (k: Self)
        ensures
            k@ == bytes@,
            k.0 == bytes,
    {
        Self(bytes)
    }

    fn as_message_key(&self) -> (k: MessageKey)
        ensures
            k@ == self@,
    {
        MessageKey::from_bytes(self.0)
    }
}

/// A chain key.
struct ChainKey(KeyMaterial);

impl View for ChainKey {
    type V = Seq<u8>;

    closed spec fn view(&self) -> Seq<u8> {
        self.0@
    }
}

impl ChainKey {
    fn from_bytes(bytes: KeyMaterial) -> (k: Self)
        ensures
            k@ == bytes@,
    {
        Self(bytes)
    }

    /// Takes the next message key and moves the chain on.
    fn advance(&mut self) -> (r: Result<MessageKey, RatchetError>)
        ensures
            r matches Ok(mk) && mk@ == chain_message_key(old(self)@),
            final(self)@ == chain_next(old(self)@),
    {
        let msg_bytes = match hkdf_derive::<32>(&self.0, None, INFO_MESSAGE.as_bytes()) {
            Ok(b) => b,
            Err(_) => return Err(RatchetError::HkdfExpand),
        };
        let next_bytes = match hkdf_derive::<32>(&self.0, None, INFO_CHAIN.as_bytes()) {
            Ok(b) => b,
            Err(_) => return Err(RatchetError::HkdfExpand),
        };
        self.0 = next_bytes;
        Ok(MessageKey::from_bytes(msg_bytes))
    }
}

/// A root key.
struct RootKey(KeyMaterial);

impl View for RootKey {
    type V = Seq<u8>;

    closed spec fn view(&self) -> Seq<u8> {
        self.0@
    }
}

impl RootKey {
    fn from_bytes(bytes: KeyMaterial) -> (k: Self)
        ensures
            k@ == bytes@,
    {
        Self(bytes)
    }

    /// Mixes a Diffie-Hellman output into the root key, giving a chain key
    /// and a next header key.
    fn advance(&mut self, dh_output: &KeyMaterial) -> (r: Result<(ChainKey, HeaderKey), RatchetError>)
        ensures
            r matches Ok((ck, hk)) && {
                &&& final(self)@ == third(root_output(old(self)@, dh_output@), 0)
                &&& ck@ == third(root_output(old(self)@, dh_output@), 1)
                &&& hk@ == third(root_output(old(self)@, dh_output@), 2)
            },
    {
        let material = match hkdf_derive::<96>(dh_output, Some(&self.0), INFO_ROOT.as_bytes()) {
            Ok(m) => m,
            Err(_) => return Err(RatchetError::HkdfExpand),
        };
        self.0 = key_from_slice(&material, 0);
        let ck = ChainKey::from_bytes(key_from_slice(&material, 32));
        let nhk = HeaderKey::from_bytes(key_from_slice(&material, 64));
        Ok((ck, nhk))
    }
}

// ----------------------------------------------------------------------------
// The session model
// ----------------------------------------------------------------------------

/// The model of a ratchet session.
pub struct SessionView {
    pub root: Seq<u8>,
    pub send_chain: Option<Seq<u8>>,
    pub recv_chain: Option<Seq<u8>>,
    pub hk_send: Option<Seq<u8>>,
    pub hk_recv: Option<Seq<u8>>,
    pub nhk_send: Option<Seq<u8>>,
    pub nhk_recv: Option<Seq<u8>>,
    pub our_dh: KeyMaterial,
    pub our_dh_pub: KeyMaterial,
    pub their_dh_pub: Option<KeyMaterial>,
    pub ns: u64,
    pub nr: u64,
    pub pn: u64,
    pub skipped: Map<(Seq<u8>, u64), Seq<u8>>,
}

spec fn chain_view(o: Option<ChainKey>) -> Option<Seq<u8>> {
    match o {
        Some(k) => Some(k@),
        None => None,
    }
}

spec fn header_key_view(o: Option<HeaderKey>) -> Option<Seq<u8>> {
    match o {
        Some(k) => Some(k@),
        None => None,
    }
}

/// The session at the sending side's start: `their_dh_pub` is the peer's
/// ratchet public key and `our_dh` the sender's fresh ratchet secret.
pub open spec fn init_sender_model(
    shared_secret: Seq<u8>,
    their_dh_pub: KeyMaterial,
    our_dh: KeyMaterial,
) -> SessionView {
    let rk = initial_key(shared_secret, INFO_INIT_RK);
    let m = root_output(rk, x25519_shared(our_dh, their_dh_pub)@);
    SessionView {
        root: third(m, 0),
        send_chain: Some(third(m, 1)),
        recv_chain: None,
        hk_send: Some(initial_key(shared_secret, INFO_INIT_HKS)),
        hk_recv: None,
        nhk_send: Some(third(m, 2)),
        nhk_recv: Some(initial_key(shared_secret, INFO_INIT_HKR)),
        our_dh,
        our_dh_pub: x25519_public(our_dh),
        their_dh_pub: Some(their_dh_pub),
        ns: 0,
        nr: 0,
        pn: 0,
        skipped: Map::empty(),
    }
}

/// The session at the receiving side's start, with its ratchet secret
/// `our_dh`. The header keys are the sender's, crossed over.
pub open spec fn init_receiver_model(shared_secret: Seq<u8>, our_dh: KeyMaterial) -> SessionView {
    SessionView {
        root: initial_key(shared_secret, INFO_INIT_RK),
        send_chain: None,
        recv_chain: None,
        hk_send: Some(initial_key(shared_secret, INFO_INIT_HKR)),
        hk_recv: None,
        nhk_send: None,
        nhk_recv: Some(initial_key(shared_secret, INFO_INIT_HKS)),
        our_dh,
        our_dh_pub: x25519_public(our_dh),
        their_dh_pub: None,
        ns: 0,
        nr: 0,
        pn: 0,
        skipped: Map::empty(),
    }
}

/// The associated data that binds a payload to its encrypted header: the
/// caller's data length-prefixed (32-bit big-endian, the length taken modulo
/// 2^32), then the header's nonce counter and ciphertext.
pub open spec fn bound_ad(ad: Seq<u8>, header: SealedView) -> Seq<u8> {
    u32_be(ad.len() as u32) + ad + u64_be(header.nonce) + header.ciphertext
}

/// Sending: the model after `encrypt(plaintext, ad)` and its result.
pub open spec fn encrypt_model(s: SessionView, plaintext: Seq<u8>, ad: Seq<u8>) -> (
    SessionView,
    Result<MessageView, RatchetError>,
) {
    match s.send_chain {
        None => (s, Err(RatchetError::SendChainNotInitialized)),
        Some(ck) => {
            let mk = chain_message_key(ck);
            let s1 = SessionView { send_chain: Some(chain_next(ck)), ..s };
            match s.hk_send {
                None => (s1, Err(RatchetError::SendChainNotInitialized)),
                Some(hk) => {
                    let header = RatchetHeader { dh_pub: s.our_dh_pub, pn: s.pn, n: s.ns };
                    let eh = SealedView {
                        nonce: s.ns,
                        ciphertext: aead_seal(hk, nonce_of(s.ns), header.encoding(), seq![]),
                    };
                    if !aead_len_ok(plaintext.len()) {
                        (s1, Err(RatchetError::Aead(AeadError::Encrypt)))
                    } else {
                        (
                            SessionView { ns: (s.ns + 1) as u64, ..s1 },
                            Ok(
                                MessageView {
                                    header: eh,
                                    payload: SealedView {
                                        nonce: s.ns,
                                        ciphertext: aead_seal(
                                            mk,
                                            nonce_of(s.ns),
                                            plaintext,
                                            bound_ad(ad, eh),
                                        ),
                                    },
                                },
                            ),
                        )
                    }
                },
            }
        },
    }
}

/// The two seals of sending `plaintext` with `ad` from `s` open again: the
/// header under the sending header key, and the payload under the message
/// key with the header bound to `ad`. `encrypt` states this of the message
/// it sends, from the sealing calls it makes.
pub open spec fn sent_opens(s: SessionView, plaintext: Seq<u8>, ad: Seq<u8>) -> bool {
    match (s.send_chain, s.hk_send) {
        (Some(ck), Some(hk)) => {
            let header = RatchetHeader { dh_pub: s.our_dh_pub, pn: s.pn, n: s.ns };
            let eh = SealedView {
                nonce: s.ns,
                ciphertext: aead_seal(hk, nonce_of(s.ns), header.encoding(), seq![]),
            };
            &&& seal_opens(hk, nonce_of(s.ns), header.encoding(), seq![])
            &&& seal_opens(chain_message_key(ck), nonce_of(s.ns), plaintext, bound_ad(ad, eh))
        },
        _ => true,
    }
}

/// The header that the header key `hk` opens, if any.
pub open spec fn open_header_with(hk: Option<Seq<u8>>, eh: SealedView) -> Option<RatchetHeader> {
    match hk {
        None => None,
        Some(k) => match aead_open(k, nonce_of(eh.nonce), eh.ciphertext, seq![]) {
            Some(b) => parse_header(b),
            None => None,
        },
    }
}

/// The header of an incoming message and the header key that opened it: the
/// current receiving header key is tried first, then the next one.
pub open spec fn header_outcome(s: SessionView, eh: SealedView) -> Option<(RatchetHeader, Seq<u8>)> {
    match open_header_with(s.hk_recv, eh) {
        Some(h) => Some((h, s.hk_recv->Some_0)),
        None => match open_header_with(s.nhk_recv, eh) {
            Some(h) => Some((h, s.nhk_recv->Some_0)),
            None => None,
        },
    }
}

/// The header key under which skipped keys of the current receiving chain are
/// stored: the current receiving header key, or zeros when there is none.
pub open spec fn skip_store_key(hk_recv: Option<Seq<u8>>) -> Seq<u8> {
    match hk_recv {
        Some(k) => k,
        None => Seq::new(32, |i: int| 0u8),
    }
}

/// Moves the receiving chain `ck` on to message number `until`, storing each
/// skipped message key under (`hk`, its number). Stops with an error when the
/// store is full.
pub open spec fn skip_loop(s: SessionView, ck: Seq<u8>, hk: Seq<u8>, until: u64) -> (
    SessionView,
    Result<(), RatchetError>,
)
    decreases until - s.nr,
{
    if s.nr >= until {
        (SessionView { recv_chain: Some(ck), ..s }, Ok(()))
    } else if s.skipped.dom().len() >= MAX_SKIPPED_KEYS {
        (SessionView { recv_chain: Some(chain_next(ck)), ..s }, Err(RatchetError::SkippedKeysFull))
    } else {
        skip_loop(
            SessionView {
                skipped: s.skipped.insert((hk, s.nr), chain_message_key(ck)),
                nr: (s.nr + 1) as u64,
                ..s
            },
            chain_next(ck),
            hk,
            until,
        )
    }
}

/// Skipping the receiving chain on to message number `until`: refused when
/// that is more than `MAX_SKIP` ahead; nothing happens without a receiving
/// chain.
pub open spec fn skip_model(s: SessionView, until: u64) -> (SessionView, Result<(), RatchetError>) {
    if until > s.nr + MAX_SKIP {
        (s, Err(RatchetError::TooManySkipped((until - s.nr) as u64)))
    } else {
        match s.recv_chain {
            None => (s, Ok(())),
            Some(ck) => skip_loop(s, ck, skip_store_key(s.hk_recv), until),
        }
    }
}

/// A Diffie-Hellman ratchet step towards the peer's new ratchet key `their`,
/// with `fresh` as our new ratchet secret.
pub open spec fn ratchet_step_model(s: SessionView, their: KeyMaterial, fresh: KeyMaterial) -> SessionView {
    let m1 = root_output(s.root, x25519_shared(s.our_dh, their)@);
    let m2 = root_output(third(m1, 0), x25519_shared(fresh, their)@);
    SessionView {
        root: third(m2, 0),
        send_chain: Some(third(m2, 1)),
        recv_chain: Some(third(m1, 1)),
        hk_send: if s.nhk_send is Some {
            s.nhk_send
        } else {
            s.hk_send
        },
        hk_recv: s.nhk_recv,
        nhk_send: Some(third(m2, 2)),
        nhk_recv: Some(third(m1, 2)),
        our_dh: fresh,
        our_dh_pub: x25519_public(fresh),
        their_dh_pub: Some(their),
        ns: 0,
        nr: 0,
        pn: s.ns,
        skipped: s.skipped,
    }
}

/// A payload decryption's outcome as a ratchet result.
pub open spec fn payload_outcome(mk: Seq<u8>, payload: SealedView, aad: Seq<u8>) -> Result<
    Seq<u8>,
    RatchetError,
> {
    match open_outcome(mk, payload.nonce, payload.ciphertext, aad) {
        Ok(p) => Ok(p),
        Err(e) => Err(RatchetError::Aead(e)),
    }
}

/// The peer's new ratchet key that receiving `msg` in `s` takes a
/// Diffie-Hellman step towards, if it takes one: the header opens, the
/// message is not one of the skipped ones, the key differs from the one
/// known, and the rest of the previous chain can be skipped.
pub open spec fn takes_step(s: SessionView, msg: MessageView) -> Option<KeyMaterial> {
    match header_outcome(s, msg.header) {
        None => None,
        Some((h, hk_used)) => {
            let new_dh_key = match s.their_dh_pub {
                Some(p) => p != h.dh_pub,
                None => true,
            };
            if !s.skipped.contains_key((hk_used, h.n)) && new_dh_key && skip_model(s, h.pn).1 is Ok {
                Some(h.dh_pub)
            } else {
                None
            }
        },
    }
}

/// The part of receiving that follows the decision whether the sender has a
/// new ratchet key.
pub open spec fn receive_in_chain(s: SessionView, h: RatchetHeader, payload: SealedView, aad: Seq<
    u8,
>) -> (SessionView, Result<Seq<u8>, RatchetError>) {
    let (s2, r2) = skip_model(s, h.n);
    match r2 {
        Err(e) => (s2, Err(e)),
        Ok(_) => match s2.recv_chain {
            None => (s2, Err(RatchetError::RecvChainNotInitialized)),
            Some(ck) => (
                SessionView { recv_chain: Some(chain_next(ck)), nr: (s2.nr + 1) as u64, ..s2 },
                payload_outcome(chain_message_key(ck), payload, aad),
            ),
        },
    }
}

/// Receiving: the model after `decrypt(msg, ad)` with `fresh` as the ratchet
/// secret drawn for a Diffie-Hellman step, and its result.
pub open spec fn decrypt_model(s: SessionView, msg: MessageView, ad: Seq<u8>, fresh: KeyMaterial) -> (
    SessionView,
    Result<Seq<u8>, RatchetError>,
) {
    match header_outcome(s, msg.header) {
        None => (s, Err(RatchetError::HeaderDecryptionFailed)),
        Some((h, hk_used)) => {
            let aad = bound_ad(ad, msg.header);
            if s.skipped.contains_key((hk_used, h.n)) {
                (
                    SessionView { skipped: s.skipped.remove((hk_used, h.n)), ..s },
                    payload_outcome(s.skipped[(hk_used, h.n)], msg.payload, aad),
                )
            } else {
                let new_dh_key = match s.their_dh_pub {
                    Some(p) => p != h.dh_pub,
                    None => true,
                };
                if new_dh_key {
                    let (s1, r1) = skip_model(s, h.pn);
                    match r1 {
                        Err(e) => (s1, Err(e)),
                        Ok(_) => receive_in_chain(
                            ratchet_step_model(s1, h.dh_pub, fresh),
                            h,
                            msg.payload,
                            aad,
                        ),
                    }
                } else {
                    receive_in_chain(s, h, msg.payload, aad)
                }
            }
        },
    }
}

/// Skipping does not depend on the receiving chain recorded in the state it
/// starts from (it is given separately), and when it succeeds it ends at
/// message number `until`, or where it was if that is further.
proof fn lemma_skip_loop(s: SessionView, ck: Seq<u8>, hk: Seq<u8>, until: u64, x: Option<Seq<u8>>)
    ensures
        skip_loop(s, ck, hk, until) == skip_loop(SessionView { recv_chain: x, ..s }, ck, hk, until),
        skip_loop(s, ck, hk, until).1 is Ok ==> skip_loop(s, ck, hk, until).0.nr == (if s.nr
            >= until {
            s.nr
        } else {
            until
        }),
    decreases until - s.nr,
{
    if s.nr >= until {
    } else if s.skipped.dom().len() >= MAX_SKIPPED_KEYS {
    } else {
        let next = SessionView {
            skipped: s.skipped.insert((hk, s.nr), chain_message_key(ck)),
            nr: (s.nr + 1) as u64,
            ..s
        };
        lemma_skip_loop(next, chain_next(ck), hk, until, x);
        assert(SessionView { recv_chain: x, ..next } == SessionView {
            skipped: s.skipped.insert((hk, s.nr), chain_message_key(ck)),
            nr: (s.nr + 1) as u64,
            ..SessionView { recv_chain: x, ..s }
        });
    }
}

/// Skipping to a message number already reached changes nothing but the
/// recorded receiving chain.
pub proof fn lemma_skip_loop_done(s: SessionView, ck: Seq<u8>, hk: Seq<u8>, until: u64)
    requires
        s.nr >= until,
    ensures
        skip_loop(s, ck, hk, until) == (SessionView { recv_chain: Some(ck), ..s }, Ok::<
            (),
            RatchetError,
        >(())),
{
}

/// When skipping succeeds, the receiving position moves at most `MAX_SKIP`
/// ahead.
proof fn lemma_skip_model_bound(s: SessionView, until: u64)
    ensures
        skip_model(s, until).1 is Ok ==> skip_model(s, until).0.nr <= s.nr + MAX_SKIP,
{
    if until > s.nr + MAX_SKIP {
    } else {
        match s.recv_chain {
            None => {},
            Some(ck) => {
                lemma_skip_loop(s, ck, skip_store_key(s.hk_recv), until, s.recv_chain);
            },
        }
    }
}

/// A message result seen through the model.
pub open spec fn message_result(r: Result<RatchetMessage, RatchetError>) -> Result<
    MessageView,
    RatchetError,
> {
    match r {
        Ok(m) => Ok(m@),
        Err(e) => Err(e),
    }
}

/// A plaintext result seen through the model.
pub open spec fn plain_result(r: Result<Vec<u8>, RatchetError>) -> Result<Seq<u8>, RatchetError> {
    match r {
        Ok(v) => Ok(v@),
        Err(e) => Err(e),
    }
}

// ----------------------------------------------------------------------------
// The session
// ----------------------------------------------------------------------------

/// A double-ratchet session with encrypted headers.
pub struct RatchetSession {
    root_key: RootKey,
    send_chain: Option<ChainKey>,
    recv_chain: Option<ChainKey>,
    hk_send: Option<HeaderKey>,
    hk_recv: Option<HeaderKey>,
    nhk_send: Option<HeaderKey>,
    nhk_recv: Option<HeaderKey>,
    our_dh: KeyMaterial,
    our_dh_pub: KeyMaterial,
    their_dh_pub: Option<KeyMaterial>,
    ns: u64,
    nr: u64,
    pn: u64,
    skipped: SkippedKeys,
}

impl View for RatchetSession {
    type V = SessionView;

    closed spec fn view(&self) -> SessionView {
        SessionView {
            root: self.root_key@,
            send_chain: chain_view(self.send_chain),
            recv_chain: chain_view(self.recv_chain),
            hk_send: header_key_view(self.hk_send),
            hk_recv: header_key_view(self.hk_recv),
            nhk_send: header_key_view(self.nhk_send),
            nhk_recv: header_key_view(self.nhk_recv),
            our_dh: self.our_dh,
            our_dh_pub: self.our_dh_pub,
            their_dh_pub: self.their_dh_pub,
            ns: self.ns,
            nr: self.nr,
            pn: self.pn,
            skipped: self.skipped@,
        }
    }
}

/// Copies `src` onto the end of `out`.
fn append_bytes(out: &mut Vec<u8>, src: &[u8])
    ensures
        final(out)@ == old(out)@ + src@,
{
    let len = src.len();
    let mut i: usize = 0;
    while i < len
        invariant
            len == src@.len(),
            i <= len,
            out@ == old(out)@ + src@.subrange(0, i as int),
        decreases len - i,
    {
        out.push(src[i]);
        i = i + 1;
        assert(src@.subrange(0, i as int) =~= src@.subrange(0, i - 1).push(src@[i - 1]));
    }
    assert(src@.subrange(0, len as int) =~= src@);
}

impl RatchetSession {
    /// The session's internal consistency: the skipped-key store is well
    /// formed and within its bound.
    pub closed spec fn wf(&self) -> bool {
        &&& self.skipped.wf()
        &&& self.skipped.count() <= MAX_SKIPPED_KEYS
    }

    /// Starts the sending side with the ratchet secret `our_dh`.
    pub fn init_sender_with_secret(
        shared_secret: &KeyMaterial,
        their_dh_pub_bytes: &KeyMaterial,
        our_dh: KeyMaterial,
    ) -> (r: Result<Self, RatchetError>)
        ensures
            r matches Ok(s) && s.wf() && s@ == init_sender_model(
                shared_secret@,
                *their_dh_pub_bytes,
                our_dh,
            ) && dh_agrees(our_dh, *their_dh_pub_bytes),
    {
        let rk_bytes = match hkdf_derive::<32>(shared_secret, None, INFO_INIT_RK.as_bytes()) {
            Ok(b) => b,
            Err(_) => return Err(RatchetError::HkdfExpand),
        };
        let hks_bytes = match hkdf_derive::<32>(shared_secret, None, INFO_INIT_HKS.as_bytes()) {
            Ok(b) => b,
            Err(_) => return Err(RatchetError::HkdfExpand),
        };
        let hkr_bytes = match hkdf_derive::<32>(shared_secret, None, INFO_INIT_HKR.as_bytes()) {
            Ok(b) => b,
            Err(_) => return Err(RatchetError::HkdfExpand),
        };
        let mut root_key = RootKey::from_bytes(rk_bytes);
        let our_dh_pub = x25519_public_key(&our_dh);
        let dh_out = x25519_diffie_hellman(&our_dh, their_dh_pub_bytes);
        let (send_chain, nhk_send) = match root_key.advance(&dh_out) {
            Ok(p) => p,
            Err(e) => return Err(e),
        };
        let s = Self {
            root_key,
            send_chain: Some(send_chain),
            recv_chain: None,
            hk_send: Some(HeaderKey::from_bytes(hks_bytes)),
            hk_recv: None,
            nhk_send: Some(nhk_send),
            nhk_recv: Some(HeaderKey::from_bytes(hkr_bytes)),
            our_dh,
            our_dh_pub,
            their_dh_pub: Some(*their_dh_pub_bytes),
            ns: 0,
            nr: 0,
            pn: 0,
            skipped: SkippedKeys::new(),
        };
        Ok(s)
    }

    /// Starts the sending side towards the peer's ratchet public key, with a
    /// fresh random ratchet secret.
    pub fn init_sender(shared_secret: &KeyMaterial, their_dh_pub_bytes: &KeyMaterial) -> (r:
        Result<Self, RatchetError>)
        ensures
            r matches Ok(s) && s.wf() && exists|our_dh: KeyMaterial|
                s@ == init_sender_model(shared_secret@, *their_dh_pub_bytes, our_dh) && dh_agrees(
                    our_dh,
                    *their_dh_pub_bytes,
                ),
    {
        let our_dh = x25519_random_secret();
        Self::init_sender_with_secret(shared_secret, their_dh_pub_bytes, our_dh)
    }

    /// Starts the receiving side with its ratchet secret `our_dh`.
    pub fn init_receiver(shared_secret: &KeyMaterial, our_dh: KeyMaterial) -> (r: Result<
        Self,
        RatchetError,
    >)
        ensures
            r matches Ok(s) && s.wf() && s@ == init_receiver_model(shared_secret@, our_dh),
    {
        let rk_bytes = match hkdf_derive::<32>(shared_secret, None, INFO_INIT_RK.as_bytes()) {
            Ok(b) => b,
            Err(_) => return Err(RatchetError::HkdfExpand),
        };
        let hks_bytes = match hkdf_derive::<32>(shared_secret, None, INFO_INIT_HKR.as_bytes()) {
            Ok(b) => b,
            Err(_) => return Err(RatchetError::HkdfExpand),
        };
        let hkr_bytes = match hkdf_derive::<32>(shared_secret, None, INFO_INIT_HKS.as_bytes()) {
            Ok(b) => b,
            Err(_) => return Err(RatchetError::HkdfExpand),
        };
        let our_dh_pub = x25519_public_key(&our_dh);
        Ok(
            Self {
                root_key: RootKey::from_bytes(rk_bytes),
                send_chain: None,
                recv_chain: None,
                hk_send: Some(HeaderKey::from_bytes(hks_bytes)),
                hk_recv: None,
                nhk_send: None,
                nhk_recv: Some(HeaderKey::from_bytes(hkr_bytes)),
                our_dh,
                our_dh_pub,
                their_dh_pub: None,
                ns: 0,
                nr: 0,
                pn: 0,
                skipped: SkippedKeys::new(),
            },
        )
    }

    /// Our current ratchet public key.
    pub fn our_public_key(&self) -> (k: KeyMaterial)
        ensures
            k == self@.our_dh_pub,
    {
        self.our_dh_pub
    }

    /// The number of stored skipped message keys.
    pub fn skipped_keys_count(&self) -> (n: usize)
        requires
            self.wf(),
        ensures
            n == self@.skipped.dom().len(),
    {
        self.skipped.len()
    }

    /// The associated data that binds the payload to its encrypted header.
    pub fn concat_ad_enc(ad: &[u8], enc_header: &EncryptedMessage) -> (out: Vec<u8>)
        ensures
            out@ == bound_ad(ad@, enc_header@),
    {
        let mut out: Vec<u8> = Vec::new();
        let len_bytes = u32_to_be_bytes(ad.len() as u32);
        append_bytes(&mut out, &len_bytes);
        append_bytes(&mut out, ad);
        let nonce_bytes = u64_to_be_bytes(enc_header.nonce);
        append_bytes(&mut out, &nonce_bytes);
        append_bytes(&mut out, enc_header.ciphertext.as_slice());
        out
    }

    /// Encrypts `plaintext` with the next key of the sending chain, binding
    /// `ad` to it.
    pub fn encrypt(&mut self, plaintext: &[u8], ad: &[u8]) -> (r: Result<RatchetMessage, RatchetError>)
        requires
            old(self).wf(),
            old(self)@.ns < u64::MAX,
        ensures
            final(self).wf(),
            (final(self)@, message_result(r)) == encrypt_model(old(self)@, plaintext@, ad@),
            r is Ok ==> sent_opens(old(self)@, plaintext@, ad@),
    {
        let mut ck = match self.send_chain.take() {
            Some(c) => c,
            None => return Err(RatchetError::SendChainNotInitialized),
        };
        let message_key = match ck.advance() {
            Ok(k) => k,
            Err(e) => {
                self.send_chain = Some(ck);
                return Err(e);
            },
        };
        self.send_chain = Some(ck);
        let header = RatchetHeader::new(self.our_dh_pub, self.pn, self.ns);
        let hk = match &self.hk_send {
            Some(hk) => hk.as_message_key(),
            None => return Err(RatchetError::SendChainNotInitialized),
        };
        let header_bytes = header.to_bytes();
        let no_ad: Vec<u8> = Vec::new();
        let encrypted_header = match encrypt_with_aad(&hk, self.ns, &header_bytes, no_ad.as_slice()) {
            Ok(m) => m,
            Err(e) => return Err(RatchetError::Aead(e)),
        };
        let aad = Self::concat_ad_enc(ad, &encrypted_header);
        let payload = match encrypt_with_aad(&message_key, self.ns, plaintext, aad.as_slice()) {
            Ok(m) => m,
            Err(e) => return Err(RatchetError::Aead(e)),
        };
        self.ns = self.ns + 1;
        Ok(RatchetMessage { encrypted_header, payload })
    }

    /// Opens the header of an incoming message with the current receiving
    /// header key, or else with the next one.
    fn try_decrypt_header(&self, enc_header: &EncryptedMessage) -> (r: Result<
        (RatchetHeader, KeyMaterial),
        RatchetError,
    >)
        ensures
            match r {
                Ok((h, hk)) => header_outcome(self@, enc_header@) == Some((h, hk@)),
                Err(e) => e == RatchetError::HeaderDecryptionFailed && header_outcome(
                    self@,
                    enc_header@,
                ) is None,
            },
    {
        let no_ad: Vec<u8> = Vec::new();
        if let Some(hk) = &self.hk_recv {
            if let Ok(bytes) = decrypt_with_aad(&hk.as_message_key(), enc_header, no_ad.as_slice()) {
                if let Some(h) = RatchetHeader::from_bytes(bytes.as_slice()) {
                    return Ok((h, hk.0));
                }
            }
        }
        if let Some(hk) = &self.nhk_recv {
            if let Ok(bytes) = decrypt_with_aad(&hk.as_message_key(), enc_header, no_ad.as_slice()) {
                if let Some(h) = RatchetHeader::from_bytes(bytes.as_slice()) {
                    return Ok((h, hk.0));
                }
            }
        }
        Err(RatchetError::HeaderDecryptionFailed)
    }

    /// Moves the receiving chain on to message number `until`, storing the
    /// keys skipped over.
    fn skip_message_keys(&mut self, until: u64) -> (r: Result<(), RatchetError>)
        requires
            old(self).wf(),
            old(self)@.nr <= u64::MAX - MAX_SKIP,
        ensures
            final(self).wf(),
            (final(self)@, r) == skip_model(old(self)@, until),
            final(self)@.our_dh == old(self)@.our_dh,
    {
        if until > self.nr + MAX_SKIP {
            return Err(RatchetError::TooManySkipped(until - self.nr));
        }
        let mut ck = match self.recv_chain.take() {
            Some(c) => c,
            None => return Ok(()),
        };
        let hk: KeyMaterial = match &self.hk_recv {
            Some(h) => h.0,
            None => [0u8; 32],
        };
        let ghost start = old(self)@;
        let ghost store_key = skip_store_key(start.hk_recv);
        proof {
            assert(hk@ =~= store_key);
            lemma_skip_loop(start, ck@, store_key, until, None);
            assert(self@ == SessionView { recv_chain: None, ..start });
        }
        while self.nr < until
            invariant
                self.wf(),
                hk@ == store_key,
                self.recv_chain is None,
                skip_loop(self@, ck@, store_key, until) == skip_loop(
                    start,
                    start.recv_chain->Some_0,
                    store_key,
                    until,
                ),
                start.recv_chain is Some,
                start == old(self)@,
                until <= start.nr + MAX_SKIP,
                store_key == skip_store_key(start.hk_recv),
                self@.our_dh == start.our_dh,
            decreases until - self.nr,
        {
            let ghost before = self@;
            let ghost ck0 = ck@;
            let mk = match ck.advance() {
                Ok(k) => k,
                Err(e) => {
                    self.recv_chain = Some(ck);
                    return Err(e);
                },
            };
            match self.skipped.insert(hk, self.nr, mk) {
                Ok(()) => {},
                Err(e) => {
                    self.recv_chain = Some(ck);
                    proof {
                        assert(self@ == SessionView { recv_chain: Some(chain_next(ck0)), ..before });
                        assert(skip_loop(before, ck0, store_key, until) == (
                            SessionView { recv_chain: Some(chain_next(ck0)), ..before },
                            Err::<(), RatchetError>(RatchetError::SkippedKeysFull),
                        ));
                    }
                    return Err(e);
                },
            }
            self.nr = self.nr + 1;
            proof {
                assert(self@ == SessionView {
                    skipped: before.skipped.insert((store_key, before.nr), chain_message_key(ck0)),
                    nr: (before.nr + 1) as u64,
                    ..before
                });
            }
        }
        self.recv_chain = Some(ck);
        Ok(())
    }

    /// A Diffie-Hellman ratchet step towards the peer's new ratchet key, with
    /// `new_dh` as our next ratchet secret.
    fn dh_ratchet_step(&mut self, their_pub_bytes: &KeyMaterial, new_dh: KeyMaterial) -> (r: Result<
        (),
        RatchetError,
    >)
        requires
            old(self).wf(),
        ensures
            final(self).wf(),
            r is Ok,
            final(self)@ == ratchet_step_model(old(self)@, *their_pub_bytes, new_dh),
            dh_agrees(old(self)@.our_dh, *their_pub_bytes),
            dh_agrees(new_dh, *their_pub_bytes),
    {
        self.pn = self.ns;
        self.ns = 0;
        self.nr = 0;
        self.their_dh_pub = Some(*their_pub_bytes);
        let dh_out = x25519_diffie_hellman(&self.our_dh, their_pub_bytes);
        let (recv_ck, new_nhk_recv) = match self.root_key.advance(&dh_out) {
            Ok(p) => p,
            Err(e) => return Err(e),
        };
        self.hk_recv = self.nhk_recv.take();
        self.nhk_recv = Some(new_nhk_recv);
        self.recv_chain = Some(recv_ck);
        let new_dh_pub = x25519_public_key(&new_dh);
        if self.nhk_send.is_some() {
            self.hk_send = self.nhk_send.take();
        }
        let dh_out2 = x25519_diffie_hellman(&new_dh, their_pub_bytes);
        let (send_ck, new_nhk_send) = match self.root_key.advance(&dh_out2) {
            Ok(p) => p,
            Err(e) => return Err(e),
        };
        self.nhk_send = Some(new_nhk_send);
        self.send_chain = Some(send_ck);
        self.our_dh = new_dh;
        self.our_dh_pub = new_dh_pub;
        Ok(())
    }

    /// Decrypts `msg`, checking that it was sent with `ad`; `fresh` is the
    /// ratchet secret taken up if the message starts a new sending chain of
    /// the peer.
    pub fn decrypt_with_secret(&mut self, msg: &RatchetMessage, ad: &[u8], fresh: KeyMaterial) -> (r:
        Result<Vec<u8>, RatchetError>)
        requires
            old(self).wf(),
            old(self)@.nr < u64::MAX - MAX_SKIP,
        ensures
            final(self).wf(),
            (final(self)@, plain_result(r)) == decrypt_model(old(self)@, msg@, ad@, fresh),
            takes_step(old(self)@, msg@) matches Some(k) ==> dh_agrees(old(self)@.our_dh, k)
                && dh_agrees(fresh, k),
    {
        let (header, hk_used) = match self.try_decrypt_header(&msg.encrypted_header) {
            Ok(p) => p,
            Err(e) => return Err(e),
        };
        let aad = Self::concat_ad_enc(ad, &msg.encrypted_header);
        let ghost s0 = self@;
        if let Some(mk) = self.skipped.get_and_remove(&hk_used, header.n) {
            return match decrypt_with_aad(&mk, &msg.payload, aad.as_slice()) {
                Ok(p) => Ok(p),
                Err(e) => Err(RatchetError::Aead(e)),
            };
        }
        proof {
            assert(s0.skipped.remove((hk_used@, header.n)) =~= s0.skipped);
            assert(self@ == s0);
        }
        let new_dh_key = match self.their_dh_pub {
            Some(p) => !keys_equal(&p, &header.dh_pub),
            None => true,
        };
        if new_dh_key {
            match self.skip_message_keys(header.pn) {
                Ok(()) => {},
                Err(e) => return Err(e),
            }
            match self.dh_ratchet_step(&header.dh_pub, fresh) {
                Ok(()) => {},
                Err(e) => return Err(e),
            }
        }
        let ghost s1 = self@;
        match self.skip_message_keys(header.n) {
            Ok(()) => {},
            Err(e) => return Err(e),
        }
        proof {
            lemma_skip_model_bound(s1, header.n);
        }
        let mut ck = match self.recv_chain.take() {
            Some(c) => c,
            None => return Err(RatchetError::RecvChainNotInitialized),
        };
        let message_key = match ck.advance() {
            Ok(k) => k,
            Err(e) => {
                self.recv_chain = Some(ck);
                return Err(e);
            },
        };
        self.recv_chain = Some(ck);
        self.nr = self.nr + 1;
        match decrypt_with_aad(&message_key, &msg.payload, aad.as_slice()) {
            Ok(p) => Ok(p),
            Err(e) => Err(RatchetError::Aead(e)),
        }
    }

    /// Decrypts `msg`, checking that it was sent with `ad`. A fresh random
    /// ratchet secret is drawn for the case that the message starts a new
    /// sending chain of the peer.
    pub fn decrypt(&mut self, msg: &RatchetMessage, ad: &[u8]) -> (r: Result<Vec<u8>, RatchetError>)
        requires
            old(self).wf(),
            old(self)@.nr < u64::MAX - MAX_SKIP,
        ensures
            final(self).wf(),
            exists|fresh: KeyMaterial|
                (final(self)@, plain_result(r)) == decrypt_model(old(self)@, msg@, ad@, fresh) && (
                takes_step(old(self)@, msg@) matches Some(k) ==> dh_agrees(old(self)@.our_dh, k)
                    && dh_agrees(fresh, k)),
    {
        let fresh = x25519_random_secret();
        self.decrypt_with_secret(msg, ad, fresh)
    }
}

} // verus!
