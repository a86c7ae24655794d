//! Authenticated encryption with associated data (ChaCha20-Poly1305) and
//! HKDF-SHA256 key derivation.

use crate::bytes::{u64_be, u64_to_be_bytes};
use crate::primitives::{
    aead_len_ok, aead_open, aead_seal, chacha_open, chacha_seal, hkdf_expand, hkdf_max_len,
    hkdf_sha256, opt_bytes, zero_salt,
};
use vstd::prelude::*;

verus! {

/// 32 bytes of key material.
pub type KeyMaterial = [u8; 32];

/// What can go wrong in an AEAD operation or a key derivation.
#[derive(Debug, Clone, Copy, PartialEq, Eq, Structural)]
pub enum AeadError {
    /// The message could not be encrypted.
    Encrypt,
    /// The ciphertext did not authenticate: corrupted or tampered with.
    Decrypt,
    /// No nonce is left.
    NonceExhausted,
    /// HKDF could not expand to the requested length.
    HkdfExpand,
}

/// Derives `N` bytes from `ikm` with HKDF-SHA256, the optional `salt` and the
/// context label `info`. Fails exactly when `N` exceeds 255 blocks of 32
/// bytes.
pub fn hkdf_derive<const N: usize>(ikm: &[u8], salt: Option<&[u8]>, info: &[u8]) -> (r: Result<
    [u8; N],
    AeadError,
>)
    ensures
        r is Ok <==> N <= hkdf_max_len(),
        r matches Ok(out) ==> out@ == hkdf_sha256(ikm@, opt_bytes(salt), info@, N as nat),
        r matches Ok(out) ==> salt is None ==> out@ == hkdf_sha256(
            ikm@,
            Some(zero_salt()),
            info@,
            N as nat,
        ),
        r matches Err(e) ==> e == AeadError::HkdfExpand,
{
    match hkdf_expand::<N>(ikm, salt, info) {
        Some(out) => Ok(out),
        None => Err(AeadError::HkdfExpand),
    }
}

/// A 32-byte key for one AEAD operation.
#[derive(Clone)]
pub struct MessageKey(KeyMaterial);

impl View for MessageKey {
    type V = Seq<u8>;

    closed spec fn view(&self) -> Seq<u8> {
        self.0@
    }
}

impl MessageKey {
    /// The key material, as the array it was made from.
    pub closed spec fn bytes(&self) -> KeyMaterial {
        self.0
    }

    /// Wraps 32 bytes of key material; reading them back gives the same
    /// array.
    pub fn from_bytes(bytes: KeyMaterial) -> (k: Self)
        ensures
            k@ == bytes@,
            k.bytes() == bytes,
    {
        Self(bytes)
    }

    /// The key material; the key is left as it is.
    pub fn as_bytes(&self) -> (b: &KeyMaterial)
        ensures
            b@ == self@,
            *b == self.bytes(),
    {
        &self.0
    }

    /// A description that does not reveal the key.
    pub fn describe(&self) -> (s: &'static str)
        ensures
            s@ == "MessageKey([redacted])"@,
    {
        "MessageKey([redacted])"
    }
}

/// A ciphertext together with the nonce counter it was encrypted under.
#[derive(Debug, Clone)]
pub struct EncryptedMessage {
    pub nonce: u64,
    pub ciphertext: Vec<u8>,
}

/// The model of an [`EncryptedMessage`].
pub struct SealedView {
    pub nonce: u64,
    pub ciphertext: Seq<u8>,
}

impl View for EncryptedMessage {
    type V = SealedView;

    open spec fn view(&self) -> SealedView {
        SealedView { nonce: self.nonce, ciphertext: self.ciphertext@ }
    }
}

/// The 96-bit nonce for a counter: four zero bytes, then the counter
/// big-endian.
pub open spec fn nonce_of(counter: u64) -> Seq<u8> {
    seq![0u8, 0u8, 0u8, 0u8] + u64_be(counter)
}

/// Maps a counter to its ChaCha20-Poly1305 nonce.
fn nonce_from_u64(counter: u64) -> (n: [u8; 12])
    ensures
        n@ == nonce_of(counter),
{
    let b = u64_to_be_bytes(counter);
    let n = [0u8, 0u8, 0u8, 0u8, b[0], b[1], b[2], b[3], b[4], b[5], b[6], b[7]];
    assert(n@ =~= nonce_of(counter));
    n
}

/// The outcome of decrypting `ct` under `key`, the nonce of `counter` and
/// `aad`.
pub open spec fn open_outcome(key: Seq<u8>, counter: u64, ct: Seq<u8>, aad: Seq<u8>) -> Result<
    Seq<u8>,
    AeadError,
> {
    match aead_open(key, nonce_of(counter), ct, aad) {
        Some(p) => Ok(p),
        None => Err(AeadError::Decrypt),
    }
}

/// A byte-vector result seen as bytes.
pub open spec fn bytes_result<E>(r: Result<Vec<u8>, E>) -> Result<Seq<u8>, E> {
    match r {
        Ok(v) => Ok(v@),
        Err(e) => Err(e),
    }
}

/// Encrypts `plaintext` under `key` and the nonce of `nonce_counter`,
/// authenticating `aad` along with it. Fails only for a message too long for
/// the cipher's block counter.
pub fn encrypt_with_aad(key: &MessageKey, nonce_counter: u64, plaintext: &[u8], aad: &[u8]) -> (r:
    Result<EncryptedMessage, AeadError>)
    ensures
        r is Ok <==> aead_len_ok(plaintext@.len()),
        r matches Ok(m) ==> {
            &&& m.nonce == nonce_counter
            &&& m.ciphertext@ == aead_seal(key@, nonce_of(nonce_counter), plaintext@, aad@)
            &&& m.ciphertext@.len() == plaintext@.len() + 16
            &&& open_outcome(key@, nonce_counter, m.ciphertext@, aad@) == Ok::<
                Seq<u8>,
                AeadError,
            >(plaintext@)
        },
        r matches Err(e) ==> e == AeadError::Encrypt,
{
    let nonce = nonce_from_u64(nonce_counter);
    match chacha_seal(key.as_bytes(), &nonce, plaintext, aad) {
        Some(ciphertext) => Ok(EncryptedMessage { nonce: nonce_counter, ciphertext }),
        None => Err(AeadError::Encrypt),
    }
}

/// Encrypts `plaintext` under `key` and the nonce of `nonce_counter`, with
/// no associated data.
pub fn encrypt(key: &MessageKey, nonce_counter: u64, plaintext: &[u8]) -> (r: Result<
    EncryptedMessage,
    AeadError,
>)
    ensures
        r is Ok <==> aead_len_ok(plaintext@.len()),
        r matches Ok(m) ==> {
            &&& m.nonce == nonce_counter
            &&& m.ciphertext@ == aead_seal(key@, nonce_of(nonce_counter), plaintext@, seq![])
            &&& m.ciphertext@.len() == plaintext@.len() + 16
            &&& open_outcome(key@, nonce_counter, m.ciphertext@, seq![]) == Ok::<
                Seq<u8>,
                AeadError,
            >(plaintext@)
        },
        r matches Err(e) ==> e == AeadError::Encrypt,
{
    let empty: Vec<u8> = Vec::new();
    encrypt_with_aad(key, nonce_counter, plaintext, empty.as_slice())
}

/// Decrypts `msg` under `key`, checking that it authenticates together with
/// `aad`.
pub fn decrypt_with_aad(key: &MessageKey, msg: &EncryptedMessage, aad: &[u8]) -> (r: Result<
    Vec<u8>,
    AeadError,
>)
    ensures
        bytes_result(r) == open_outcome(key@, msg.nonce, msg.ciphertext@, aad@),
{
    let nonce = nonce_from_u64(msg.nonce);
    match chacha_open(key.as_bytes(), &nonce, msg.ciphertext.as_slice(), aad) {
        Some(plain) => Ok(plain),
        None => Err(AeadError::Decrypt),
    }
}

/// Decrypts `msg` under `key`, with no associated data.
pub fn decrypt(key: &MessageKey, msg: &EncryptedMessage) -> (r: Result<Vec<u8>, AeadError>)
    ensures
        bytes_result(r) == open_outcome(key@, msg.nonce, msg.ciphertext@, seq![]),
{
    let empty: Vec<u8> = Vec::new();
    decrypt_with_aad(key, msg, empty.as_slice())
}


} // verus!
