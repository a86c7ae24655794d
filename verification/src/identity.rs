//! Identities: an Ed25519 signing key and the public address and
//! fingerprint derived from its verifying key.

use crate::aead::{hkdf_derive, KeyMaterial};
use crate::bytes::{key_from_slice, key_of};
use crate::constants::INFO_ED_TO_X;
use crate::text::chars_of;
use crate::primitives::{
    base58_decode, base58_decoding, base58_encode, base58_encoding, ed25519_accepts,
    ed25519_check_key, ed25519_key_valid, ed25519_public, ed25519_public_key,
    ed25519_random_secret, ed25519_sign, ed25519_signature, ed25519_verify, hex_digit, hex_encode, hex_lower,
    hkdf_sha256, string_of,
};
use vstd::prelude::*;
use vstd::string::StringSliceAdditionalSpecFns;
use vstd::arithmetic::div_mod::lemma_fundamental_div_mod_converse;

verus! {

/// What can go wrong with an identity.
#[derive(Debug)]
pub enum IdentityError {
    /// The identity could not be generated.
    Generation(String),
    /// The address does not hold a usable public key; says why.
    InvalidPublicKey(String),
    /// The signature does not verify.
    InvalidSignature,
    /// Serialization failed.
    Serialization(String),
    /// Reading or writing failed.
    Io(String),
}

/// The prefix of every address.
pub const ADDRESS_PREFIX: &'static str = "conan:";

/// The address of the verifying key `key`: the prefix, then the key in
/// base58.
pub open spec fn address_of(key: [u8; 32]) -> Seq<char> {
    ADDRESS_PREFIX@ + base58_encoding(key@)
}

/// The uppercase form of an ASCII lowercase letter; other characters stay.
pub open spec fn ascii_upper(c: char) -> char {
    if 'a' <= c && c <= 'z' {
        ((c as u32) - 32) as char
    } else {
        c
    }
}

/// The fingerprint of `key`: the first 16 hex digits of the key, uppercase,
/// in four groups of four joined by `-`.
pub open spec fn fingerprint_of(key: [u8; 32]) -> Seq<char> {
    Seq::new(
        19,
        |i: int|
            if i % 5 == 4 {
                '-'
            } else {
                ascii_upper(hex_lower(key@)[i - i / 5])
            },
    )
}

/// Whether `address` starts with the prefix `conan:`.
pub open spec fn has_address_prefix(address: Seq<char>) -> bool {
    address.len() >= ADDRESS_PREFIX@.len() && address.subrange(0, ADDRESS_PREFIX@.len() as int)
        == ADDRESS_PREFIX@
}

/// The text of `address` after the prefix.
pub open spec fn address_text(address: Seq<char>) -> Seq<char> {
    address.subrange(ADDRESS_PREFIX@.len() as int, address.len() as int)
}

/// The verifying key that an address holds: the text after the prefix must
/// be base58 for 32 bytes that decompress to a curve point.
pub open spec fn address_key(address: Seq<char>) -> Option<[u8; 32]> {
    let p = ADDRESS_PREFIX@;
    if address.len() >= p.len() && address.subrange(0, p.len() as int) == p {
        match base58_decoding(address.subrange(p.len() as int, address.len() as int)) {
            Some(b) => if b.len() == 32 && ed25519_key_valid(key_of(b)) {
                Some(key_of(b))
            } else {
                None
            },
            None => None,
        }
    } else {
        None
    }
}

/// The public half of an identity: a stable address and a human-readable
/// fingerprint of the Ed25519 verifying key, for comparing out of band.
#[derive(Debug, Clone, PartialEq, Eq)]
pub struct PublicIdentity {
    /// The prefix `conan:` followed by the verifying key in base58.
    pub address: String,
    /// `XXXX-XXXX-XXXX-XXXX`: the first 16 hex digits of the key.
    pub fingerprint: String,
}

/// The uppercase form of an ASCII lowercase letter.
fn to_ascii_upper(c: char) -> (u: char)
    ensures
        u == ascii_upper(c),
{
    if 'a' <= c && c <= 'z' {
        ((c as u32) - 32) as u8 as char
    } else {
        c
    }
}

impl PublicIdentity {
    /// The public identity of the verifying key `key`; the address of a
    /// valid verifying key gives that key back.
    pub fn from_verifying_key(key: &KeyMaterial) -> (p: Self)
        ensures
            p.address@ == address_of(*key),
            p.fingerprint@ == fingerprint_of(*key),
            ed25519_key_valid(*key) ==> address_key(p.address@) == Some(*key),
            !p.address@.contains(' '),
    {
        let mut address = ADDRESS_PREFIX.to_owned();
        let encoded = base58_encode(key);
        address.append(encoded.as_str());
        let fingerprint = Self::compute_fingerprint(key);
        proof {
            let pre = ADDRESS_PREFIX@;
            let a = address_of(*key);
            assert(a.subrange(0, pre.len() as int) =~= pre);
            assert(a.subrange(pre.len() as int, a.len() as int) =~= base58_encoding(key@));
            crate::bytes::lemma_key_of_view(*key);
            reveal_strlit("conan:");
            assert(pre =~= seq!['c', 'o', 'n', 'a', 'n', ':']);
            if a.contains(' ') {
                let k = choose|k: int| 0 <= k < a.len() && a[k] == ' ';
                if k >= pre.len() {
                    assert(base58_encoding(key@)[k - pre.len()] == ' ');
                }
            }
        }
        Self { address, fingerprint }
    }

    /// `XXXX-XXXX-XXXX-XXXX`: the first 16 hex digits of the key, uppercase.
    fn compute_fingerprint(bytes: &KeyMaterial) -> (f: String)
        ensures
            f@ == fingerprint_of(*bytes),
    {
        let hex = hex_encode(bytes);
        let digits = chars_of(hex.as_str());
        let mut out: Vec<char> = Vec::new();
        let mut i: usize = 0;
        while i < 19
            invariant
                i <= 19,
                digits@ == crate::primitives::hex_lower(bytes@),
                digits@.len() == 64,
                out@.len() == i,
                forall|j: int| 0 <= j < i ==> out@[j] == fingerprint_of(*bytes)[j],
            decreases 19 - i,
        {
            if i % 5 == 4 {
                out.push('-');
            } else {
                out.push(to_ascii_upper(digits[i - i / 5]));
            }
            i = i + 1;
        }
        assert(out@ =~= fingerprint_of(*bytes));
        string_of(out.as_slice())
    }

    /// The verifying key that the address holds.
    pub fn to_verifying_key(&self) -> (r: Result<KeyMaterial, IdentityError>)
        ensures
            r matches Ok(k) ==> address_key(self.address@) == Some(k),
            r is Err ==> address_key(self.address@) is None,
            r matches Err(e) ==> e is InvalidPublicKey,
            !has_address_prefix(self.address@) ==> (r matches Err(IdentityError::InvalidPublicKey(m))
                && m@ == "missing conan: prefix"@),
            has_address_prefix(self.address@) ==> (base58_decoding(address_text(self.address@))
                matches Some(b) && b.len() != 32 ==> (r matches Err(
                IdentityError::InvalidPublicKey(m),
            ) && m@ == "invalid key length"@)),
    {
        let chars = chars_of(self.address.as_str());
        let prefix = chars_of(ADDRESS_PREFIX);
        let plen = prefix.len();
        let len = chars.len();
        if len < plen {
            return Err(IdentityError::InvalidPublicKey("missing conan: prefix".to_owned()));
        }
        let mut i: usize = 0;
        while i < plen
            invariant
                plen == prefix@.len(),
                prefix@ == ADDRESS_PREFIX@,
                chars@ == self.address@,
                plen <= len,
                len == chars@.len(),
                i <= plen,
                forall|j: int| 0 <= j < i ==> chars@[j] == prefix@[j],
            decreases plen - i,
        {
            if chars[i] != prefix[i] {
                proof {
                    assert(chars@.subrange(0, plen as int)[i as int] != prefix@[i as int]);
                }
                return Err(IdentityError::InvalidPublicKey("missing conan: prefix".to_owned()));
            }
            i = i + 1;
        }
        assert(chars@.subrange(0, plen as int) =~= prefix@);
        let mut rest: Vec<char> = Vec::new();
        let mut i: usize = plen;
        while i < len
            invariant
                plen <= i <= len,
                len == chars@.len(),
                chars@ == self.address@,
                rest@ == chars@.subrange(plen as int, i as int),
            decreases len - i,
        {
            rest.push(chars[i]);
            i = i + 1;
            assert(chars@.subrange(plen as int, i as int) =~= chars@.subrange(
                plen as int,
                i - 1,
            ).push(chars@[i - 1]));
        }
        let encoded = string_of(rest.as_slice());
        let bytes = match base58_decode(encoded.as_str()) {
            Ok(b) => b,
            Err(msg) => return Err(IdentityError::InvalidPublicKey(msg)),
        };
        if bytes.len() != 32 {
            return Err(IdentityError::InvalidPublicKey("invalid key length".to_owned()));
        }
        let key = key_from_slice(bytes.as_slice(), 0);
        assert(bytes@.subrange(0, 32) =~= bytes@);
        if let Err(msg) = ed25519_check_key(&key) {
            return Err(IdentityError::InvalidPublicKey(msg));
        }
        Ok(key)
    }
}

/// Whether `sig` is a valid signature of `msg` by the identity whose
/// address is `address`.
pub open spec fn signature_verifies(address: Seq<char>, msg: Seq<u8>, sig: [u8; 64]) -> bool {
    match address_key(address) {
        Some(k) => ed25519_accepts(k, msg, sig),
        None => false,
    }
}

/// An Ed25519 signing key, whose bytes are read only through
/// [`Identity::to_secret_key`].
pub struct SigningSecret(KeyMaterial);

impl SigningSecret {
    /// The key bytes.
    pub closed spec fn bytes(&self) -> KeyMaterial {
        self.0
    }
}

/// A full identity: the Ed25519 signing key and its public identity.
pub struct Identity {
    pub public: PublicIdentity,
    pub signing_key: SigningSecret,
}

impl Identity {
    /// The signing key.
    pub open spec fn secret(&self) -> KeyMaterial {
        self.signing_key.bytes()
    }

    /// The identity's public half belongs to its signing key, and its
    /// address gives the signing key's verifying key back.
    pub open spec fn consistent(&self) -> bool {
        &&& self.public.address@ == address_of(ed25519_public(self.secret()))
        &&& self.public.fingerprint@ == fingerprint_of(ed25519_public(self.secret()))
        &&& address_key(self.public.address@) == Some(ed25519_public(self.secret()))
    }

    /// Restores an identity from its signing key bytes.
    pub fn from_secret_key(bytes: KeyMaterial) -> (r: Result<Self, IdentityError>)
        ensures
            r matches Ok(id) && id.secret() == bytes && id.consistent() && !id.public.address@.contains(
                ' ',
            ),
    {
        let verifying_key = ed25519_public_key(&bytes);
        let public = PublicIdentity::from_verifying_key(&verifying_key);
        Ok(Self { public, signing_key: SigningSecret(bytes) })
    }

    /// Generates a new identity from the operating system's random number
    /// generator.
    pub fn generate() -> (r: Result<Self, IdentityError>)
        ensures
            r matches Ok(id) && id.consistent() && !id.public.address@.contains(' '),
    {
        let bytes = ed25519_random_secret();
        Self::from_secret_key(bytes)
    }

    /// The signing key bytes, for storing the identity.
    pub fn to_secret_key(&self) -> (k: &KeyMaterial)
        ensures
            *k == self.secret(),
    {
        &self.signing_key.0
    }

    /// Signs `message` with the identity's signing key; what an identity
    /// signs, its public identity verifies.
    pub fn sign(&self, message: &[u8]) -> (sig: [u8; 64])
        ensures
            sig == ed25519_signature(self.secret(), message@),
            self.consistent() ==> signature_verifies(self.public.address@, message@, sig),
    {
        ed25519_sign(&self.signing_key.0, message)
    }

    /// Checks `signature` over `message` against the key in `public`'s
    /// address.
    pub fn verify(public: &PublicIdentity, message: &[u8], signature: &[u8; 64]) -> (r: Result<
        (),
        IdentityError,
    >)
        ensures
            r is Ok <==> signature_verifies(public.address@, message@, *signature),
            r matches Err(e) ==> (address_key(public.address@) is Some ==> e
                == IdentityError::InvalidSignature),
            r matches Err(e) ==> (address_key(public.address@) is None ==> e is InvalidPublicKey),
    {
        let key = match public.to_verifying_key() {
            Ok(k) => k,
            Err(e) => return Err(e),
        };
        if ed25519_verify(&key, message, signature) {
            Ok(())
        } else {
            Err(IdentityError::InvalidSignature)
        }
    }

    /// The X25519 secret derived from the signing key with HKDF-SHA256 (no
    /// salt, the label `conan-v1-ed25519-to-x25519`), so that signing and key
    /// agreement never share a key.
    pub fn to_x25519_secret(&self) -> (s: KeyMaterial)
        ensures
            s@ == hkdf_sha256(self.secret()@, None, INFO_ED_TO_X.spec_bytes(), 32),
    {
        match hkdf_derive::<32>(&self.signing_key.0, None, INFO_ED_TO_X.as_bytes()) {
            Ok(b) => b,
            Err(_) => {
                proof {
                    assert(false);
                }
                [0u8; 32]
            },
        }
    }
}

/// The fingerprint shows the first eight bytes of the key, in order, in
/// uppercase hex: four groups of two bytes separated by dashes, group `g`
/// holding bytes `2g` and `2g + 1`, each as its high then its low digit.
pub proof fn law_fingerprint_shows_leading_bytes(key: [u8; 32])
    ensures
        fingerprint_of(key).len() == 19,
        forall|g: int| 0 <= g < 3 ==> #[trigger] fingerprint_of(key)[5 * g + 4] == '-',
        forall|g: int, b: int|
            0 <= g < 4 && 0 <= b < 2 ==> #[trigger] fingerprint_of(key)[5 * g + 2 * b]
                == ascii_upper(hex_digit(key@[2 * g + b] as int / 16)),
        forall|g: int, b: int|
            0 <= g < 4 && 0 <= b < 2 ==> #[trigger] fingerprint_of(key)[5 * g + 2 * b + 1]
                == ascii_upper(hex_digit(key@[2 * g + b] as int % 16)),
{
    assert forall|g: int| 0 <= g < 3 implies #[trigger] fingerprint_of(key)[5 * g + 4] == '-' by {
        lemma_fundamental_div_mod_converse(5 * g + 4, 5, g, 4);
    }
    assert forall|g: int, b: int| 0 <= g < 4 && 0 <= b < 2 implies #[trigger] fingerprint_of(
        key,
    )[5 * g + 2 * b] == ascii_upper(hex_digit(key@[2 * g + b] as int / 16)) by {
        lemma_fundamental_div_mod_converse(5 * g + 2 * b, 5, g, 2 * b);
        lemma_fundamental_div_mod_converse(4 * g + 2 * b, 2, 2 * g + b, 0);
    }
    assert forall|g: int, b: int| 0 <= g < 4 && 0 <= b < 2 implies #[trigger] fingerprint_of(
        key,
    )[5 * g + 2 * b + 1] == ascii_upper(hex_digit(key@[2 * g + b] as int % 16)) by {
        lemma_fundamental_div_mod_converse(5 * g + 2 * b + 1, 5, g, 2 * b + 1);
        lemma_fundamental_div_mod_converse(4 * g + 2 * b + 1, 2, 2 * g + b, 1);
    }
}

} // verus!
