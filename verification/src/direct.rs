//! Sealing a short message under a key shared out of band: a random
//! nonce followed by the ChaCha20-Poly1305 ciphertext. The sealed message
//! must fit in 128 bytes, tag included.

use crate::primitives::{
    aead_open, aead_seal, chacha_open, chacha_random_nonce, chacha_seal, seal_opens,
};
use vstd::prelude::*;

verus! {

/// The room for a message and its tag.
pub const DIRECT_CAPACITY: usize = 128;

/// The length of the tag.
pub const TAG_LEN: usize = 16;

/// The length of the nonce in front of the ciphertext.
pub const NONCE_LEN: usize = 12;

/// Why a message could not be sealed or opened.
#[derive(Debug, Clone, Copy, PartialEq, Eq, Structural)]
pub enum DirectError {
    /// The message is longer than the 128 bytes of room.
    Capacity,
    /// The message fits, but not with its 16-byte tag.
    Encryption,
    /// The ciphertext does not authenticate under the key.
    Decryption,
}

/// The sealed form of `msg` under `key` with `nonce`: the nonce, then the
/// ciphertext with its tag.
pub open spec fn direct_frame(key: Seq<u8>, nonce: Seq<u8>, msg: Seq<u8>) -> Seq<u8> {
    nonce + aead_seal(key, nonce, msg, seq![])
}

/// What opening `data` under `key` gives: the plaintext, or `None` when
/// the ciphertext after the 12-byte nonce does not authenticate.
pub open spec fn direct_open(key: Seq<u8>, data: Seq<u8>) -> Option<Seq<u8>> {
    aead_open(key, data.take(12), data.skip(12), seq![])
}

/// Whether `len` bytes fit, with the tag, in the room.
pub open spec fn direct_fits(len: nat) -> bool {
    len + 16 <= 128
}

/// Seals `data` under `key` with the given nonce.
pub fn direct_encrypt_with_nonce(key: &[u8; 32], nonce: &[u8; 12], data: &[u8]) -> (r: Result<
    Vec<u8>,
    DirectError,
>)
    ensures
        data@.len() > 128 <==> r == Err::<Vec<u8>, DirectError>(DirectError::Capacity),
        (112 < data@.len() <= 128) <==> r == Err::<Vec<u8>, DirectError>(DirectError::Encryption),
        r is Ok <==> direct_fits(data@.len()),
        r matches Ok(out) ==> out@ == direct_frame(key@, nonce@, data@) && out@.len() == 12
            + data@.len() + 16 && seal_opens(key@, nonce@, data@, seq![]),
{
    if data.len() > DIRECT_CAPACITY {
        return Err(DirectError::Capacity);
    }
    if data.len() > DIRECT_CAPACITY - TAG_LEN {
        return Err(DirectError::Encryption);
    }
    let no_aad: Vec<u8> = Vec::new();
    assert(no_aad@ =~= seq![]);
    let sealed = match chacha_seal(key, nonce, data, no_aad.as_slice()) {
        Some(c) => c,
        None => {
            return Err(DirectError::Encryption);
        },
    };
    let mut out: Vec<u8> = Vec::new();
    let mut i: usize = 0;
    while i < NONCE_LEN
        invariant
            i <= 12,
            out@ == nonce@.take(i as int),
        decreases 12 - i,
    {
        out.push(nonce[i]);
        i = i + 1;
        assert(out@ =~= nonce@.take(i as int));
    }
    let mut j: usize = 0;
    while j < sealed.len()
        invariant
            j <= sealed.len(),
            out@ == nonce@ + sealed@.take(j as int),
        decreases sealed.len() - j,
    {
        out.push(sealed[j]);
        j = j + 1;
        assert(out@ =~= nonce@ + sealed@.take(j as int));
    }
    assert(sealed@.take(sealed.len() as int) =~= sealed@);
    assert(nonce@.take(12) =~= nonce@);
    Ok(out)
}

/// Seals `data` under `key` with a fresh random nonce. The message must
/// leave room for the tag in 128 bytes.
pub fn direct_encrypt(key: &[u8; 32], data: &[u8]) -> (r: Result<Vec<u8>, DirectError>)
    ensures
        data@.len() > 128 <==> r == Err::<Vec<u8>, DirectError>(DirectError::Capacity),
        (112 < data@.len() <= 128) <==> r == Err::<Vec<u8>, DirectError>(DirectError::Encryption),
        r is Ok <==> direct_fits(data@.len()),
        r matches Ok(out) ==> out@.len() == 12 + data@.len() + 16 && out@ == direct_frame(
            key@,
            out@.take(12),
            data@,
        ) && seal_opens(key@, out@.take(12), data@, seq![]),
{
    let nonce = chacha_random_nonce();
    let r = direct_encrypt_with_nonce(key, &nonce, data);
    if let Ok(out) = &r {
        assert(out@.take(12) =~= nonce@);
    }
    r
}

/// Opens `data`, a nonce followed by a ciphertext, under `key`.
pub fn direct_decrypt(key: &[u8; 32], data: &[u8]) -> (r: Result<Vec<u8>, DirectError>)
    requires
        data@.len() >= 12,
    ensures
        match direct_open(key@, data@) {
            Some(p) => r matches Ok(out) && out@ == p,
            None => r == Err::<Vec<u8>, DirectError>(DirectError::Decryption),
        },
{
    let mut nonce = [0u8; 12];
    let mut i: usize = 0;
    while i < NONCE_LEN
        invariant
            i <= 12,
            data@.len() >= 12,
            forall|k: int| 0 <= k < i ==> nonce@[k] == data@[k],
        decreases 12 - i,
    {
        nonce[i] = data[i];
        i = i + 1;
    }
    assert(nonce@ =~= data@.take(12));
    let mut ct: Vec<u8> = Vec::new();
    let mut j: usize = NONCE_LEN;
    while j < data.len()
        invariant
            12 <= j <= data@.len(),
            ct@ == data@.subrange(12, j as int),
        decreases data.len() - j,
    {
        ct.push(data[j]);
        j = j + 1;
        assert(ct@ =~= data@.subrange(12, j as int));
    }
    assert(ct@ =~= data@.skip(12));
    let no_aad: Vec<u8> = Vec::new();
    assert(no_aad@ =~= seq![]);
    match chacha_open(key, &nonce, ct.as_slice(), no_aad.as_slice()) {
        Some(p) => Ok(p),
        None => Err(DirectError::Decryption),
    }
}

/// What is sealed under a key and a nonce opens under the same key to the
/// message.
pub proof fn law_direct_roundtrip(key: Seq<u8>, nonce: Seq<u8>, msg: Seq<u8>)
    requires
        nonce.len() == 12,
        seal_opens(key, nonce, msg, seq![]),
    ensures
        direct_open(key, direct_frame(key, nonce, msg)) == Some(msg),
{
    let f = direct_frame(key, nonce, msg);
    assert(f.take(12) =~= nonce);
    assert(f.skip(12) =~= aead_seal(key, nonce, msg, seq![]));
    assert(aead_open(key, nonce, aead_seal(key, nonce, msg, seq![]), seq![]) == Some(msg));
}

} // verus!
