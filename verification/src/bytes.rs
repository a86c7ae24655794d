//! Big-endian encodings of fixed-width integers.

use vstd::prelude::*;

verus! {

/// The eight big-endian bytes of `x`.
pub open spec fn u64_be(x: u64) -> Seq<u8> {
    seq![
        (x >> 56u64) as u8,
        (x >> 48u64) as u8,
        (x >> 40u64) as u8,
        (x >> 32u64) as u8,
        (x >> 24u64) as u8,
        (x >> 16u64) as u8,
        (x >> 8u64) as u8,
        x as u8,
    ]
}

/// The four big-endian bytes of `x`.
pub open spec fn u32_be(x: u32) -> Seq<u8> {
    seq![(x >> 24u32) as u8, (x >> 16u32) as u8, (x >> 8u32) as u8, x as u8]
}

/// The integer whose big-endian bytes are the first eight of `s`.
pub open spec fn u64_from_be(s: Seq<u8>) -> u64
    recommends
        s.len() >= 8,
{
    ((s[0] as u64) << 56u64) | ((s[1] as u64) << 48u64) | ((s[2] as u64) << 40u64) | ((
    s[3] as u64) << 32u64) | ((s[4] as u64) << 24u64) | ((s[5] as u64) << 16u64) | ((
    s[6] as u64) << 8u64) | (s[7] as u64)
}

/// Different 32-bit integers have different big-endian bytes.
pub proof fn lemma_u32_be_injective(x: u32, y: u32)
    requires
        u32_be(x) == u32_be(y),
    ensures
        x == y,
{
    assert(u32_be(x)[0] == u32_be(y)[0]);
    assert(u32_be(x)[1] == u32_be(y)[1]);
    assert(u32_be(x)[2] == u32_be(y)[2]);
    assert(u32_be(x)[3] == u32_be(y)[3]);
    assert(x == y) by (bit_vector)
        requires
            (x >> 24u32) as u8 == (y >> 24u32) as u8,
            (x >> 16u32) as u8 == (y >> 16u32) as u8,
            (x >> 8u32) as u8 == (y >> 8u32) as u8,
            x as u8 == y as u8,
    ;
}

/// Reading back the big-endian bytes of `x` gives `x`.
pub proof fn lemma_u64_be_roundtrip(x: u64)
    ensures
        u64_from_be(u64_be(x)) == x,
{
    let s = u64_be(x);
    assert(s[0] == (x >> 56u64) as u8);
    assert(s[7] == x as u8);
    assert(((((x >> 56u64) as u8) as u64) << 56u64) | ((((x >> 48u64) as u8) as u64) << 48u64)
        | ((((x >> 40u64) as u8) as u64) << 40u64) | ((((x >> 32u64) as u8) as u64) << 32u64) | ((
    ((x >> 24u64) as u8) as u64) << 24u64) | ((((x >> 16u64) as u8) as u64) << 16u64) | ((((x
        >> 8u64) as u8) as u64) << 8u64) | ((x as u8) as u64) == x) by (bit_vector);
}

/// Any eight bytes are the big-endian bytes of the integer they encode.
pub proof fn lemma_u64_be_of_bytes(s: Seq<u8>)
    requires
        s.len() == 8,
    ensures
        u64_be(u64_from_be(s)) == s,
{
    let (b0, b1, b2, b3, b4, b5, b6, b7) = (s[0], s[1], s[2], s[3], s[4], s[5], s[6], s[7]);
    let x = u64_from_be(s);
    assert(x == ((b0 as u64) << 56u64) | ((b1 as u64) << 48u64) | ((b2 as u64) << 40u64) | ((
    b3 as u64) << 32u64) | ((b4 as u64) << 24u64) | ((b5 as u64) << 16u64) | ((b6 as u64)
        << 8u64) | (b7 as u64));
    assert((x >> 56u64) as u8 == b0 && (x >> 48u64) as u8 == b1 && (x >> 40u64) as u8 == b2
        && (x >> 32u64) as u8 == b3 && (x >> 24u64) as u8 == b4 && (x >> 16u64) as u8 == b5
        && (x >> 8u64) as u8 == b6 && x as u8 == b7) by (bit_vector)
        requires
            x == ((b0 as u64) << 56u64) | ((b1 as u64) << 48u64) | ((b2 as u64) << 40u64) | ((
            b3 as u64) << 32u64) | ((b4 as u64) << 24u64) | ((b5 as u64) << 16u64) | ((
            b6 as u64) << 8u64) | (b7 as u64),
    ;
    assert(u64_be(x) =~= s);
}

/// The big-endian bytes of `x`.
pub fn u64_to_be_bytes(x: u64) -> (r: [u8; 8])
    ensures
        r@ == u64_be(x),
{
    let r = [
        (x >> 56u64) as u8,
        (x >> 48u64) as u8,
        (x >> 40u64) as u8,
        (x >> 32u64) as u8,
        (x >> 24u64) as u8,
        (x >> 16u64) as u8,
        (x >> 8u64) as u8,
        x as u8,
    ];
    assert(r@ =~= u64_be(x));
    r
}

/// The big-endian bytes of `x`.
pub fn u32_to_be_bytes(x: u32) -> (r: [u8; 4])
    ensures
        r@ == u32_be(x),
{
    let r = [(x >> 24u32) as u8, (x >> 16u32) as u8, (x >> 8u32) as u8, x as u8];
    assert(r@ =~= u32_be(x));
    r
}

/// The integer encoded big-endian by `s[start..start + 8]`.
pub fn u64_from_be_at(s: &[u8], start: usize) -> (r: u64)
    requires
        start + 8 <= s@.len(),
    ensures
        r == u64_from_be(s@.subrange(start as int, start + 8)),
{
    let ghost w = s@.subrange(start as int, start + 8);
    assert(w[0] == s@[start as int]);
    ((s[start] as u64) << 56u64) | ((s[start + 1] as u64) << 48u64) | ((s[start + 2] as u64)
        << 40u64) | ((s[start + 3] as u64) << 32u64) | ((s[start + 4] as u64) << 24u64) | ((
    s[start + 5] as u64) << 16u64) | ((s[start + 6] as u64) << 8u64) | (s[start + 7] as u64)
}

/// The 32-byte array holding the first 32 bytes of `s`.
pub open spec fn key_of(s: Seq<u8>) -> [u8; 32] {
    [s[0], s[1], s[2], s[3], s[4], s[5], s[6], s[7], s[8], s[9], s[10], s[11], s[12], s[13], s[14], s[15], s[16], s[17], s[18], s[19], s[20], s[21], s[22], s[23], s[24], s[25], s[26], s[27], s[28], s[29], s[30], s[31]]
}

/// An array of 32 bytes is the array of its bytes.
pub proof fn lemma_key_of_view(a: [u8; 32])
    ensures
        key_of(a@) == a,
{
    assert(key_of(a@) =~= a);
}

/// The array of 32 bytes has those bytes.
pub proof fn lemma_view_of_key(s: Seq<u8>)
    requires
        s.len() == 32,
    ensures
        key_of(s)@ == s,
{
    assert(key_of(s)@ =~= s);
}

/// Whether two 32-byte arrays hold the same bytes.
pub fn keys_equal(a: &[u8; 32], b: &[u8; 32]) -> (r: bool)
    ensures
        r == (*a == *b),
{
    let mut i: usize = 0;
    while i < 32
        invariant
            i <= 32,
            forall|j: int| 0 <= j < i ==> a@[j] == b@[j],
        decreases 32 - i,
    {
        if a[i] != b[i] {
            return false;
        }
        i = i + 1;
    }
    assert(a@ =~= b@);
    proof {
        lemma_key_of_view(*a);
        lemma_key_of_view(*b);
    }
    true
}

/// Copies `src[start..start + 32]` into a new array.
pub fn key_from_slice(src: &[u8], start: usize) -> (k: [u8; 32])
    requires
        start + 32 <= src@.len(),
    ensures
        k@ == src@.subrange(start as int, start + 32),
        k == key_of(src@.subrange(start as int, start + 32)),
{
    let len = src.len();
    let mut k = [0u8; 32];
    let mut i: usize = 0;
    while i < 32
        invariant
            i <= 32,
            len == src@.len(),
            start + 32 <= len,
            forall|j: int| 0 <= j < i ==> k@[j] == src@[start + j],
        decreases 32 - i,
    {
        k[i] = src[start + i];
        i = i + 1;
    }
    assert(k@ =~= src@.subrange(start as int, start + 32));
    proof {
        lemma_key_of_view(k);
    }
    k
}

/// The 64-byte array holding the first 64 bytes of `s`.
pub open spec fn sig_of(s: Seq<u8>) -> [u8; 64] {
    [s[0], s[1], s[2], s[3], s[4], s[5], s[6], s[7], s[8], s[9], s[10], s[11], s[12], s[13], s[14], s[15], s[16], s[17], s[18], s[19], s[20], s[21], s[22], s[23], s[24], s[25], s[26], s[27], s[28], s[29], s[30], s[31], s[32], s[33], s[34], s[35], s[36], s[37], s[38], s[39], s[40], s[41], s[42], s[43], s[44], s[45], s[46], s[47], s[48], s[49], s[50], s[51], s[52], s[53], s[54], s[55], s[56], s[57], s[58], s[59], s[60], s[61], s[62], s[63]]
}

/// Copies 64 bytes into a new array.
pub fn sig_from_slice(src: &[u8]) -> (k: [u8; 64])
    requires
        src@.len() == 64,
    ensures
        k@ == src@,
        k == sig_of(src@),
{
    let mut k = [0u8; 64];
    let mut i: usize = 0;
    while i < 64
        invariant
            i <= 64,
            src@.len() == 64,
            forall|j: int| 0 <= j < i ==> k@[j] == src@[j],
        decreases 64 - i,
    {
        k[i] = src[i];
        i = i + 1;
    }
    assert(k@ =~= src@);
    assert(sig_of(k@) =~= k);
    k
}

} // verus!
