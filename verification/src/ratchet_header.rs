//! The clear-text header of a ratchet message and its 48-byte encoding.

use crate::aead::KeyMaterial;
use crate::bytes::{
    key_from_slice, key_of, lemma_key_of_view, lemma_u64_be_of_bytes, lemma_u64_be_roundtrip,
    lemma_view_of_key, u64_be, u64_from_be, u64_from_be_at, u64_to_be_bytes,
};
use vstd::prelude::*;

verus! {

/// The header of a ratchet message: the sender's current ratchet public key,
/// the length of its previous sending chain and the message's number in the
/// current chain.
#[derive(Debug, Clone, PartialEq, Eq, Hash)]
pub struct RatchetHeader {
    pub dh_pub: KeyMaterial,
    pub pn: u64,
    pub n: u64,
}

/// The length of an encoded header.
pub open spec fn header_len() -> nat {
    48
}

impl RatchetHeader {
    /// The encoding: the public key, then `pn` and `n` big-endian.
    pub open spec fn encoding(self) -> Seq<u8> {
        self.dh_pub@ + u64_be(self.pn) + u64_be(self.n)
    }

    /// Builds a header.
    pub fn new(dh_pub: KeyMaterial, pn: u64, n: u64) -> (h: Self)
        ensures
            h == (RatchetHeader { dh_pub, pn, n }),
    {
        Self { dh_pub, pn, n }
    }

    /// Encodes the header in 48 bytes.
    pub fn to_bytes(&self) -> (buf: [u8; 48])
        ensures
            buf@ == self.encoding(),
    {
        let pn = u64_to_be_bytes(self.pn);
        let n = u64_to_be_bytes(self.n);
        let mut buf = [0u8; 48];
        let mut i: usize = 0;
        while i < 32
            invariant
                i <= 32,
                forall|j: int| 0 <= j < i ==> buf@[j] == self.dh_pub@[j],
            decreases 32 - i,
        {
            buf[i] = self.dh_pub[i];
            i = i + 1;
        }
        let mut i: usize = 0;
        while i < 8
            invariant
                i <= 8,
                forall|j: int| 0 <= j < 32 ==> buf@[j] == self.dh_pub@[j],
                forall|j: int| 0 <= j < i ==> buf@[32 + j] == pn@[j],
            decreases 8 - i,
        {
            buf[32 + i] = pn[i];
            i = i + 1;
        }
        let mut i: usize = 0;
        while i < 8
            invariant
                i <= 8,
                forall|j: int| 0 <= j < 32 ==> buf@[j] == self.dh_pub@[j],
                forall|j: int| 0 <= j < 8 ==> buf@[32 + j] == pn@[j],
                forall|j: int| 0 <= j < i ==> buf@[40 + j] == n@[j],
            decreases 8 - i,
        {
            buf[40 + i] = n[i];
            i = i + 1;
        }
        assert(buf@ =~= self.encoding());
        buf
    }

    /// Decodes a header: exactly 48 bytes are one.
    pub fn from_bytes(bytes: &[u8]) -> (r: Option<Self>)
        ensures
            r == parse_header(bytes@),
    {
        if bytes.len() != 48 {
            return None;
        }
        let dh_pub = key_from_slice(bytes, 0);
        let pn = u64_from_be_at(bytes, 32);
        let n = u64_from_be_at(bytes, 40);
        Some(Self { dh_pub, pn, n })
    }
}

/// The header that `b` encodes, if it is one.
pub open spec fn parse_header(b: Seq<u8>) -> Option<RatchetHeader> {
    if b.len() != header_len() {
        None
    } else {
        Some(
            RatchetHeader {
                dh_pub: key_of(b.subrange(0, 32)),
                pn: u64_from_be(b.subrange(32, 40)),
                n: u64_from_be(b.subrange(40, 48)),
            },
        )
    }
}

/// Decoding the encoding of a header gives the header back.
pub proof fn lemma_header_roundtrip(h: RatchetHeader)
    ensures
        parse_header(h.encoding()) == Some(h),
        h.encoding().len() == header_len(),
{
    let e = h.encoding();
    assert(e.subrange(0, 32) =~= h.dh_pub@);
    assert(e.subrange(32, 40) =~= u64_be(h.pn));
    assert(e.subrange(40, 48) =~= u64_be(h.n));
    lemma_key_of_view(h.dh_pub);
    lemma_u64_be_roundtrip(h.pn);
    lemma_u64_be_roundtrip(h.n);
}

/// A byte string that decodes to a header is that header's encoding: a
/// header has one encoding only.
pub proof fn law_header_encoding_is_unique(b: Seq<u8>)
    requires
        parse_header(b) is Some,
    ensures
        parse_header(b)->Some_0.encoding() == b,
{
    let h = parse_header(b)->Some_0;
    lemma_view_of_key(b.subrange(0, 32));
    lemma_u64_be_of_bytes(b.subrange(32, 40));
    lemma_u64_be_of_bytes(b.subrange(40, 48));
    assert(h.encoding() =~= b);
}

} // verus!
