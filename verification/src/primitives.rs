//! The cryptographic and encoding primitives that come from outside crates.
//!
//! Every function here is trusted: Verus believes its contract without
//! reading its body. Results that take pages to describe are given a name
//! (an uninterpreted spec function) so that the rest of the library can be
//! specified and proved in terms of them.

use chacha20poly1305::aead::{Aead, AeadCore, KeyInit, Payload};
use chacha20poly1305::{ChaCha20Poly1305, Key, Nonce};
use ed25519_dalek::{Signature, Signer, SigningKey, Verifier, VerifyingKey};
use hkdf::Hkdf;
use rand_core::OsRng;
use sha2::Sha256;
use vstd::prelude::*;
use x25519_dalek::{PublicKey, StaticSecret};

verus! {

// ----------------------------------------------------------------------------
// ChaCha20-Poly1305
// ----------------------------------------------------------------------------

/// The ciphertext (with its 16-byte tag appended) that ChaCha20-Poly1305
/// produces for `msg` under `key`, `nonce` and associated data `aad`.
pub uninterp spec fn aead_seal(key: Seq<u8>, nonce: Seq<u8>, msg: Seq<u8>, aad: Seq<u8>) -> Seq<u8>;

/// The plaintext that ChaCha20-Poly1305 recovers from `ct` under `key`,
/// `nonce` and `aad`, or `None` when authentication fails.
pub uninterp spec fn aead_open(key: Seq<u8>, nonce: Seq<u8>, ct: Seq<u8>, aad: Seq<u8>) -> Option<
    Seq<u8>,
>;

/// ChaCha20 can encrypt a message of `len` bytes: its block counter does not
/// run out.
pub open spec fn aead_len_ok(len: nat) -> bool {
    len / 64 < 0xffff_ffffnat
}

/// ChaCha20-Poly1305 opens what it sealed: the ciphertext of `msg` under
/// `key`, `nonce` and `aad` decrypts under the same three to `msg`.
pub open spec fn seal_opens(key: Seq<u8>, nonce: Seq<u8>, msg: Seq<u8>, aad: Seq<u8>) -> bool {
    aead_open(key, nonce, aead_seal(key, nonce, msg, aad), aad) == Some(msg)
}

/// `ChaCha20Poly1305::encrypt` (chacha20poly1305 0.10, through the `Aead`
/// trait). It fails exactly when the message has at least
/// `64 * (2^32 - 1)` bytes; otherwise the result is the named ciphertext,
/// which is the message length plus the 16-byte tag, and which decrypts
/// under the same key, nonce and associated data to the message (the
/// defining property of an AEAD).
#[verifier::external_body]
pub(crate) fn chacha_seal(key: &[u8; 32], nonce: &[u8; 12], msg: &[u8], aad: &[u8]) -> (out:
    Option<Vec<u8>>)
    ensures
        out is Some <==> aead_len_ok(msg@.len()),
        out matches Some(c) ==> {
            &&& c@ == aead_seal(key@, nonce@, msg@, aad@)
            &&& c@.len() == msg@.len() + 16
            &&& aead_open(key@, nonce@, c@, aad@) == Some(msg@)
        },
{
    let cipher = ChaCha20Poly1305::new(Key::from_slice(key));
    cipher.encrypt(Nonce::from_slice(nonce), Payload { msg, aad }).ok()
}

/// `ChaCha20Poly1305::decrypt` (chacha20poly1305 0.10, through the `Aead`
/// trait): the result is the named plaintext, `None` when the ciphertext
/// does not authenticate.
#[verifier::external_body]
pub(crate) fn chacha_open(key: &[u8; 32], nonce: &[u8; 12], ct: &[u8], aad: &[u8]) -> (out:
    Option<Vec<u8>>)
    ensures
        match out {
            Some(p) => aead_open(key@, nonce@, ct@, aad@) == Some(p@),
            None => aead_open(key@, nonce@, ct@, aad@) is None,
        },
{
    let cipher = ChaCha20Poly1305::new(Key::from_slice(key));
    cipher.decrypt(Nonce::from_slice(nonce), Payload { msg: ct, aad }).ok()
}

/// `ChaCha20Poly1305::generate_nonce` with the operating system's random
/// number generator. Nothing is promised of the twelve bytes.
#[verifier::external_body]
pub(crate) fn chacha_random_nonce() -> (n: [u8; 12]) {
    let nonce = ChaCha20Poly1305::generate_nonce(&mut OsRng);
    let mut out = [0u8; 12];
    out.copy_from_slice(nonce.as_slice());
    out
}

// ----------------------------------------------------------------------------
// HKDF-SHA256
// ----------------------------------------------------------------------------

/// The first `len` bytes of HKDF-SHA256 (RFC 5869) with input key material
/// `ikm`, optional `salt` and context `info`.
pub uninterp spec fn hkdf_sha256(ikm: Seq<u8>, salt: Option<Seq<u8>>, info: Seq<u8>, len: nat) -> Seq<
    u8,
>;

/// The bytes behind an optional slice.
pub open spec fn opt_bytes(s: Option<&[u8]>) -> Option<Seq<u8>> {
    match s {
        Some(b) => Some(b@),
        None => None,
    }
}

/// The largest output HKDF-SHA256 can expand to: 255 blocks of 32 bytes.
pub open spec fn hkdf_max_len() -> nat {
    8160
}

/// The salt HKDF-SHA256 takes when none is given: one hash output (32
/// bytes) of zeros.
pub open spec fn zero_salt() -> Seq<u8> {
    Seq::new(32, |i: int| 0u8)
}

/// `Hkdf::<Sha256>::new(salt, ikm)` followed by `expand(info, &mut [0; N])`
/// (hkdf 0.12). Expansion fails exactly when `N` exceeds 255 hash blocks;
/// otherwise the output is the named HKDF output of length `N`. A missing
/// salt is the zero block (`HkdfExtract::new` takes `Output::default()`),
/// so the output is then also that of the zero salt.
#[verifier::external_body]
pub(crate) fn hkdf_expand<const N: usize>(ikm: &[u8], salt: Option<&[u8]>, info: &[u8]) -> (out:
    Option<[u8; N]>)
    ensures
        out is Some <==> N <= hkdf_max_len(),
        out matches Some(o) ==> o@ == hkdf_sha256(ikm@, opt_bytes(salt), info@, N as nat),
        out matches Some(o) ==> salt is None ==> o@ == hkdf_sha256(
            ikm@,
            Some(zero_salt()),
            info@,
            N as nat,
        ),
{
    let hk = Hkdf::<Sha256>::new(salt, ikm);
    let mut out = [0u8; N];
    match hk.expand(info, &mut out) {
        Ok(()) => Some(out),
        Err(_) => None,
    }
}

// ----------------------------------------------------------------------------
// X25519
// ----------------------------------------------------------------------------

/// The X25519 public key of the secret scalar bytes `secret`.
pub uninterp spec fn x25519_public(secret: [u8; 32]) -> [u8; 32];

/// The X25519 shared secret of `secret` with the peer's public key `public`.
pub uninterp spec fn x25519_shared(secret: [u8; 32], public: [u8; 32]) -> [u8; 32];

/// Both parties of an X25519 exchange obtain the same secret: whoever holds
/// a secret `b` whose public key is `public` computes, with the public key
/// of `secret`, what `secret` computes with `public`.
pub open spec fn dh_agrees(secret: [u8; 32], public: [u8; 32]) -> bool {
    forall|b: [u8; 32]|
        public == x25519_public(b) ==> #[trigger] x25519_shared(b, x25519_public(secret))
            == x25519_shared(secret, public)
}

/// `StaticSecret::random_from_rng(OsRng)` (x25519-dalek 2), as bytes.
/// Nothing is promised of the bytes.
#[verifier::external_body]
pub(crate) fn x25519_random_secret() -> (s: [u8; 32]) {
    StaticSecret::random_from_rng(OsRng).to_bytes()
}

/// `PublicKey::from(&StaticSecret::from(secret))` (x25519-dalek 2), as bytes.
#[verifier::external_body]
pub(crate) fn x25519_public_key(secret: &[u8; 32]) -> (p: [u8; 32])
    ensures
        p == x25519_public(*secret),
{
    PublicKey::from(&StaticSecret::from(*secret)).to_bytes()
}

/// `StaticSecret::diffie_hellman` (x25519-dalek 2), as bytes. Both parties of
/// a Diffie-Hellman exchange obtain the same secret: when `public` is the
/// public key of some secret `b`, the result is what `b` computes with the
/// public key of `secret` (both are the product of the two clamped scalars
/// with the base point).
#[verifier::external_body]
pub(crate) fn x25519_diffie_hellman(secret: &[u8; 32], public: &[u8; 32]) -> (s: [u8; 32])
    ensures
        s == x25519_shared(*secret, *public),
        forall|b: [u8; 32]|
            *public == x25519_public(b) ==> s == #[trigger] x25519_shared(
                b,
                x25519_public(*secret),
            ),
{
    StaticSecret::from(*secret).diffie_hellman(&PublicKey::from(*public)).to_bytes()
}

// ----------------------------------------------------------------------------
// Ed25519
// ----------------------------------------------------------------------------

/// The Ed25519 verifying key (compressed point) of the signing key `secret`.
pub uninterp spec fn ed25519_public(secret: [u8; 32]) -> [u8; 32];

/// The Ed25519 signature of `msg` by the signing key `secret`.
pub uninterp spec fn ed25519_signature(secret: [u8; 32], msg: Seq<u8>) -> [u8; 64];

/// `public` decompresses to a curve point, so it is a usable verifying key.
pub uninterp spec fn ed25519_key_valid(public: [u8; 32]) -> bool;

/// `sig` is a valid signature of `msg` under the verifying key `public`.
pub uninterp spec fn ed25519_accepts(public: [u8; 32], msg: Seq<u8>, sig: [u8; 64]) -> bool;

/// `SigningKey::generate(&mut OsRng)` (ed25519-dalek 2), as its 32 secret
/// bytes. Nothing is promised of the bytes.
#[verifier::external_body]
pub(crate) fn ed25519_random_secret() -> (s: [u8; 32]) {
    SigningKey::generate(&mut OsRng).to_bytes()
}

/// `SigningKey::from_bytes(secret).verifying_key()` (ed25519-dalek 2), as
/// bytes. A verifying key derived from a signing key is a valid point.
#[verifier::external_body]
pub(crate) fn ed25519_public_key(secret: &[u8; 32]) -> (p: [u8; 32])
    ensures
        p == ed25519_public(*secret),
        ed25519_key_valid(p),
{
    SigningKey::from_bytes(secret).verifying_key().to_bytes()
}

/// `SigningKey::from_bytes(secret).sign(msg)` (ed25519-dalek 2), as bytes.
/// Ed25519 signing is deterministic, and the verifying key of the same
/// signing key accepts the signature.
#[verifier::external_body]
pub(crate) fn ed25519_sign(secret: &[u8; 32], msg: &[u8]) -> (sig: [u8; 64])
    ensures
        sig == ed25519_signature(*secret, msg@),
        ed25519_accepts(ed25519_public(*secret), msg@, sig),
{
    SigningKey::from_bytes(secret).sign(msg).to_bytes()
}

/// `VerifyingKey::from_bytes(public)` (ed25519-dalek 2): succeeds exactly
/// when the bytes decompress to a curve point; the error is turned into its
/// message, of which nothing is promised.
#[verifier::external_body]
pub(crate) fn ed25519_check_key(public: &[u8; 32]) -> (r: Result<(), String>)
    ensures
        r is Ok <==> ed25519_key_valid(*public),
{
    match VerifyingKey::from_bytes(public) {
        Ok(_) => Ok(()),
        Err(e) => Err(e.to_string()),
    }
}

/// `VerifyingKey::verify` (ed25519-dalek 2) with the key given as bytes: the
/// key is first decompressed with `VerifyingKey::from_bytes`; an invalid key
/// accepts nothing.
#[verifier::external_body]
pub(crate) fn ed25519_verify(public: &[u8; 32], msg: &[u8], sig: &[u8; 64]) -> (ok: bool)
    ensures
        ok == (ed25519_key_valid(*public) && ed25519_accepts(*public, msg@, *sig)),
{
    match VerifyingKey::from_bytes(public) {
        Ok(key) => key.verify(msg, &Signature::from_bytes(sig)).is_ok(),
        Err(_) => false,
    }
}

// ----------------------------------------------------------------------------
// Base58 and hex text encodings
// ----------------------------------------------------------------------------

/// The Bitcoin-alphabet base58 text of `bytes`.
pub uninterp spec fn base58_encoding(bytes: Seq<u8>) -> Seq<char>;

/// The bytes that the Bitcoin-alphabet base58 text `text` decodes to, or
/// `None` when it holds a character outside the alphabet.
pub uninterp spec fn base58_decoding(text: Seq<char>) -> Option<Seq<u8>>;

/// A character of the Bitcoin base58 alphabet
/// `123456789ABCDEFGHJKLMNPQRSTUVWXYZabcdefghijkmnopqrstuvwxyz`: the digits
/// but `0`, the capitals but `I` and `O`, the small letters but `l`.
pub open spec fn is_base58_char(c: char) -> bool {
    ||| ('1' <= c && c <= '9')
    ||| ('A' <= c && c <= 'Z' && c != 'I' && c != 'O')
    ||| ('a' <= c && c <= 'z' && c != 'l')
}

/// `bs58::encode(bytes).into_string()` (bs58 0.5), which writes in the
/// default Bitcoin alphabet. Decoding the text gives the bytes back.
#[verifier::external_body]
pub(crate) fn base58_encode(bytes: &[u8]) -> (s: String)
    ensures
        s@ == base58_encoding(bytes@),
        base58_decoding(s@) == Some(bytes@),
        forall|i: int| 0 <= i < s@.len() ==> is_base58_char(#[trigger] s@[i]),
{
    bs58::encode(bytes).into_string()
}

/// `bs58::decode(text).into_vec()` (bs58 0.5); the error is turned into its
/// message, of which nothing is promised.
#[verifier::external_body]
pub(crate) fn base58_decode(text: &str) -> (r: Result<Vec<u8>, String>)
    ensures
        match r {
            Ok(v) => base58_decoding(text@) == Some(v@),
            Err(_) => base58_decoding(text@) is None,
        },
{
    bs58::decode(text).into_vec().map_err(|e| e.to_string())
}

/// The lowercase hex digit of a nibble.
pub open spec fn hex_digit(v: int) -> char {
    if v < 10 {
        (v + 48) as char
    } else {
        (v + 87) as char
    }
}

/// The lowercase hex text of `bytes`: two digits per byte, high nibble first.
pub open spec fn hex_lower(bytes: Seq<u8>) -> Seq<char> {
    Seq::new(
        2 * bytes.len(),
        |i: int|
            if i % 2 == 0 {
                hex_digit(bytes[i / 2] as int / 16)
            } else {
                hex_digit(bytes[i / 2] as int % 16)
            },
    )
}

/// `hex::encode(bytes)` (hex 0.4), as documented there: lowercase, two
/// digits per byte.
#[verifier::external_body]
pub(crate) fn hex_encode(bytes: &[u8]) -> (s: String)
    ensures
        s@ == hex_lower(bytes@),
{
    hex::encode(bytes)
}

// ----------------------------------------------------------------------------
// Text, time and randomness from std and small crates
// ----------------------------------------------------------------------------

/// `String::from_iter` over a slice of characters: the string that holds
/// them in order.
#[verifier::external_body]
pub(crate) fn string_of(chars: &[char]) -> (s: String)
    ensures
        s@ == chars@,
{
    String::from_iter(chars)
}

/// `chrono::Utc::now().to_string()`: the current time. Nothing is promised
/// of the text.
#[verifier::external_body]
pub(crate) fn utc_now_text() -> (t: String) {
    chrono::Utc::now().to_string()
}

// ----------------------------------------------------------------------------
// Random choices
// ----------------------------------------------------------------------------

/// `rand::random::<bool>()`: a coin toss. Nothing is promised of it.
#[verifier::external_body]
pub(crate) fn random_flag() -> (b: bool) {
    rand::random::<bool>()
}

/// `rand::random_range(0..bound)`: an index below `bound`, which must not
/// be zero (the range would be empty, and the call panics).
#[verifier::external_body]
pub(crate) fn random_index(bound: usize) -> (r: usize)
    requires
        bound > 0,
    ensures
        r < bound,
{
    rand::random_range(0..bound)
}

} // verus!
