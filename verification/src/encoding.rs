//! Big-endian integer encodings and byte-buffer helpers shared by the wire
//! formats of this crate.

use vstd::prelude::*;

verus! {

/// The eight bytes of `x`, most significant first.
pub open spec fn u64_be(x: u64) -> Seq<u8> {
    seq![
        (x >> 56) as u8,
        ((x >> 48) & 0xff) as u8,
        ((x >> 40) & 0xff) as u8,
        ((x >> 32) & 0xff) as u8,
        ((x >> 24) & 0xff) as u8,
        ((x >> 16) & 0xff) as u8,
        ((x >> 8) & 0xff) as u8,
        (x & 0xff) as u8,
    ]
}

/// The four bytes of `x`, most significant first.
pub open spec fn u32_be(x: u32) -> Seq<u8> {
    seq![
        (x >> 24) as u8,
        ((x >> 16) & 0xff) as u8,
        ((x >> 8) & 0xff) as u8,
        (x & 0xff) as u8,
    ]
}

/// The two bytes of `x`, most significant first.
pub open spec fn u16_be(x: u16) -> Seq<u8> {
    seq![(x >> 8) as u8, (x & 0xff) as u8]
}

/// The integer that eight bytes encode, most significant first.
pub open spec fn u64_of_bytes(
    b0: u8,
    b1: u8,
    b2: u8,
    b3: u8,
    b4: u8,
    b5: u8,
    b6: u8,
    b7: u8,
) -> u64 {
    (b0 as u64) << 56 | (b1 as u64) << 48 | (b2 as u64) << 40 | (b3 as u64) << 32 | (b4 as u64)
        << 24 | (b5 as u64) << 16 | (b6 as u64) << 8 | (b7 as u64)
}

/// The integer whose big-endian encoding is the first eight bytes of `s`.
pub open spec fn u64_from_be(s: Seq<u8>) -> u64
    recommends
        s.len() >= 8,
{
    u64_of_bytes(s[0], s[1], s[2], s[3], s[4], s[5], s[6], s[7])
}

/// Decoding undoes encoding.
pub proof fn lemma_u64_be_roundtrip(x: u64)
    ensures
        u64_be(x).len() == 8,
        u64_from_be(u64_be(x)) == x,
{
    assert(u64_of_bytes(
        (x >> 56) as u8,
        ((x >> 48) & 0xff) as u8,
        ((x >> 40) & 0xff) as u8,
        ((x >> 32) & 0xff) as u8,
        ((x >> 24) & 0xff) as u8,
        ((x >> 16) & 0xff) as u8,
        ((x >> 8) & 0xff) as u8,
        (x & 0xff) as u8,
    ) == x) by {
        assert(((x >> 56) as u8 as u64) << 56 | (((x >> 48) & 0xff) as u8 as u64) << 48 | (((x
            >> 40) & 0xff) as u8 as u64) << 40 | (((x >> 32) & 0xff) as u8 as u64) << 32 | (((x
            >> 24) & 0xff) as u8 as u64) << 24 | (((x >> 16) & 0xff) as u8 as u64) << 16 | (((x
            >> 8) & 0xff) as u8 as u64) << 8 | ((x & 0xff) as u8 as u64) == x) by (bit_vector);
    }
}

/// Encoding undoes decoding of any eight bytes.
pub proof fn lemma_u64_from_be_roundtrip(s: Seq<u8>)
    requires
        s.len() == 8,
    ensures
        u64_be(u64_from_be(s)) == s,
{
    let b0 = s[0];
    let b1 = s[1];
    let b2 = s[2];
    let b3 = s[3];
    let b4 = s[4];
    let b5 = s[5];
    let b6 = s[6];
    let b7 = s[7];
    let y = u64_of_bytes(b0, b1, b2, b3, b4, b5, b6, b7);
    assert({
        let y = (b0 as u64) << 56 | (b1 as u64) << 48 | (b2 as u64) << 40 | (b3 as u64) << 32 | (
        b4 as u64) << 24 | (b5 as u64) << 16 | (b6 as u64) << 8 | (b7 as u64);
        &&& (y >> 56) as u8 == b0
        &&& ((y >> 48) & 0xff) as u8 == b1
        &&& ((y >> 40) & 0xff) as u8 == b2
        &&& ((y >> 32) & 0xff) as u8 == b3
        &&& ((y >> 24) & 0xff) as u8 == b4
        &&& ((y >> 16) & 0xff) as u8 == b5
        &&& ((y >> 8) & 0xff) as u8 == b6
        &&& (y & 0xff) as u8 == b7
    }) by (bit_vector);
    assert(u64_be(y) =~= s);
}

/// Distinct integers have distinct encodings.
pub proof fn lemma_u64_be_injective(x: u64, y: u64)
    requires
        u64_be(x) == u64_be(y),
    ensures
        x == y,
{
    lemma_u64_be_roundtrip(x);
    lemma_u64_be_roundtrip(y);
}

/// Distinct integers have distinct encodings.
pub proof fn lemma_u32_be_injective(x: u32, y: u32)
    requires
        u32_be(x) == u32_be(y),
    ensures
        x == y,
{
    let a = u32_be(x);
    let b = u32_be(y);
    assert(a[0] == b[0] && a[1] == b[1] && a[2] == b[2] && a[3] == b[3]);
    assert(((x >> 24) as u8 == (y >> 24) as u8 && ((x >> 16) & 0xff) as u8 == ((y >> 16)
        & 0xff) as u8 && ((x >> 8) & 0xff) as u8 == ((y >> 8) & 0xff) as u8 && (x & 0xff) as u8
        == (y & 0xff) as u8) ==> x == y) by (bit_vector);
}

/// Distinct integers have distinct encodings.
pub proof fn lemma_u16_be_injective(x: u16, y: u16)
    requires
        u16_be(x) == u16_be(y),
    ensures
        x == y,
{
    let a = u16_be(x);
    let b = u16_be(y);
    assert(a[0] == b[0] && a[1] == b[1]);
    assert(((x >> 8) as u8 == (y >> 8) as u8 && (x & 0xff) as u8 == (y & 0xff) as u8) ==> x
        == y) by (bit_vector);
}

/// Encodes `x` in eight bytes, most significant first.
pub fn u64_to_be_bytes(x: u64) -> (r: [u8; 8])
    ensures
        r@ == u64_be(x),
{
    let r: [u8; 8] = [
        #[verifier::truncate] ((x >> 56) as u8),
        #[verifier::truncate] (((x >> 48) & 0xff) as u8),
        #[verifier::truncate] (((x >> 40) & 0xff) as u8),
        #[verifier::truncate] (((x >> 32) & 0xff) as u8),
        #[verifier::truncate] (((x >> 24) & 0xff) as u8),
        #[verifier::truncate] (((x >> 16) & 0xff) as u8),
        #[verifier::truncate] (((x >> 8) & 0xff) as u8),
        #[verifier::truncate] ((x & 0xff) as u8),
    ];
    assert(r@ =~= u64_be(x));
    r
}

/// Encodes `x` in four bytes, most significant first.
pub fn u32_to_be_bytes(x: u32) -> (r: [u8; 4])
    ensures
        r@ == u32_be(x),
{
    let r: [u8; 4] = [
        #[verifier::truncate] ((x >> 24) as u8),
        #[verifier::truncate] (((x >> 16) & 0xff) as u8),
        #[verifier::truncate] (((x >> 8) & 0xff) as u8),
        #[verifier::truncate] ((x & 0xff) as u8),
    ];
    assert(r@ =~= u32_be(x));
    r
}

/// Encodes `x` in two bytes, most significant first.
pub fn u16_to_be_bytes(x: u16) -> (r: [u8; 2])
    ensures
        r@ == u16_be(x),
{
    let r: [u8; 2] = [
        #[verifier::truncate] ((x >> 8) as u8),
        #[verifier::truncate] ((x & 0xff) as u8),
    ];
    assert(r@ =~= u16_be(x));
    r
}

/// Decodes the eight big-endian bytes of `src` that start at `at`.
pub fn u64_from_be_bytes(src: &[u8], at: usize) -> (r: u64)
    requires
        at + 8 <= src@.len(),
    ensures
        r == u64_from_be(src@.subrange(at as int, at + 8)),
{
    let n: usize = src.len();
    let r: u64 = (src[at] as u64) << 56 | (src[at + 1] as u64) << 48 | (src[at + 2] as u64) << 40
        | (src[at + 3] as u64) << 32 | (src[at + 4] as u64) << 24 | (src[at + 5] as u64) << 16 | (
    src[at + 6] as u64) << 8 | (src[at + 7] as u64);
    r
}

/// `s` with the bytes from `at` on replaced by `src`, as far as `src` reaches.
pub open spec fn spliced(s: Seq<u8>, at: int, src: Seq<u8>) -> Seq<u8>
    recommends
        0 <= at,
        at + src.len() <= s.len(),
{
    Seq::new(s.len(), |i: int| if at <= i < at + src.len() { src[i - at] } else { s[i] })
}

/// Copies `src` into `dst` starting at `at`.
pub fn copy_into(dst: &mut [u8], at: usize, src: &[u8])
    requires
        at + src@.len() <= old(dst)@.len(),
    ensures
        final(dst)@ == spliced(old(dst)@, at as int, src@),
{
    let n: usize = src.len();
    let total: usize = dst.len();
    let mut i: usize = 0;
    while i < n
        invariant
            i <= n,
            n == src@.len(),
            dst@.len() == old(dst)@.len(),
            at + n <= total,
            total == dst@.len(),
            dst@ == spliced(old(dst)@, at as int, src@.subrange(0, i as int)),
        decreases n - i,
    {
        dst[at + i] = src[i];
        assert(dst@ =~= spliced(old(dst)@, at as int, src@.subrange(0, i + 1)));
        i += 1;
    }
    assert(src@.subrange(0, n as int) =~= src@);
}

/// A splice that covers the whole of an equally long sequence replaces it.
pub proof fn lemma_spliced_whole(s: Seq<u8>, src: Seq<u8>)
    requires
        s.len() == src.len(),
    ensures
        spliced(s, 0, src) == src,
{
    assert(spliced(s, 0, src) =~= src);
}

/// The `N` bytes of `src` that start at `at`, as an array.
pub fn array_from<const N: usize>(src: &[u8], at: usize) -> (r: [u8; N])
    requires
        at + N <= src@.len(),
    ensures
        r@ == src@.subrange(at as int, at + N),
{
    let total: usize = src.len();
    let mut r = [0u8; N];
    let mut i: usize = 0;
    while i < N
        invariant
            i <= N,
            at + N <= total,
            total == src@.len(),
            forall|j: int| 0 <= j < i ==> r@[j] == src@[at + j],
        decreases N - i,
    {
        r[i] = src[at + i];
        i += 1;
    }
    assert(r@ =~= src@.subrange(at as int, at + N));
    r
}

} // verus!
