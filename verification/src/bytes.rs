//! Little- and big-endian byte packing of fixed-width integers.

use vstd::prelude::*;

verus! {

/// The value of two little-endian bytes.
pub open spec fn le16(b0: u8, b1: u8) -> int {
    b0 + 256 * b1
}

/// The value of four little-endian bytes.
pub open spec fn le32(b0: u8, b1: u8, b2: u8, b3: u8) -> int {
    b0 + 256 * b1 + 65536 * b2 + 16777216 * b3
}

/// Byte `i` (0 is the least significant) of `v`.
pub open spec fn byte_of(v: int, i: int) -> int
    decreases i,
{
    if i <= 0 {
        v % 256
    } else {
        byte_of(v / 256, i - 1)
    }
}

/// Build a `u16` from two little-endian bytes.
pub fn u16_from_le(b0: u8, b1: u8) -> (r: u16)
    ensures
        r == le16(b0, b1),
{
    b0 as u16 + (b1 as u16) * 256
}

/// Build a `u32` from four little-endian bytes.
pub fn u32_from_le(b0: u8, b1: u8, b2: u8, b3: u8) -> (r: u32)
    ensures
        r == le32(b0, b1, b2, b3),
{
    b0 as u32 + (b1 as u32) * 256 + (b2 as u32) * 65536 + (b3 as u32) * 16777216
}

/// The two little-endian bytes of `v`.
pub fn u16_to_le(v: u16) -> (r: [u8; 2])
    ensures
        r@[0] == v % 256,
        r@[1] == v / 256,
        le16(r@[0], r@[1]) == v,
{
    [(v % 256) as u8, (v / 256) as u8]
}

/// The four little-endian bytes of `v`.
pub fn u32_to_le(v: u32) -> (r: [u8; 4])
    ensures
        r@[0] == v % 256,
        r@[1] == (v / 256) % 256,
        r@[2] == (v / 65536) % 256,
        r@[3] == v / 16777216,
        le32(r@[0], r@[1], r@[2], r@[3]) == v,
{
    [(v % 256) as u8, ((v / 256) % 256) as u8, ((v / 65536) % 256) as u8, (v / 16777216) as u8]
}

/// The two little-endian bytes of `v`.
pub open spec fn le16_bytes(v: u16) -> Seq<u8> {
    seq![(v % 256) as u8, (v / 256) as u8]
}

/// The four little-endian bytes of `v`.
pub open spec fn le32_bytes(v: u32) -> Seq<u8> {
    seq![(v % 256) as u8, ((v / 256) % 256) as u8, ((v / 65536) % 256) as u8, (v / 16777216) as u8]
}

/// The four big-endian bytes of `v`.
pub open spec fn be32_bytes(v: u32) -> Seq<u8> {
    seq![(v / 16777216) as u8, ((v / 65536) % 256) as u8, ((v / 256) % 256) as u8, (v % 256) as u8]
}

/// Append the little-endian bytes of `x`.
pub fn push_le16(v: &mut Vec<u8>, x: u16)
    ensures
        final(v)@ == old(v)@ + le16_bytes(x),
{
    v.push((x % 256) as u8);
    v.push((x / 256) as u8);
    assert(final(v)@ =~= old(v)@ + le16_bytes(x));
}

/// Append the little-endian bytes of `x`.
pub fn push_le32(v: &mut Vec<u8>, x: u32)
    ensures
        final(v)@ == old(v)@ + le32_bytes(x),
{
    v.push((x % 256) as u8);
    v.push(((x / 256) % 256) as u8);
    v.push(((x / 65536) % 256) as u8);
    v.push((x / 16777216) as u8);
    assert(final(v)@ =~= old(v)@ + le32_bytes(x));
}

/// Append `n` copies of `b`.
pub fn push_repeat(v: &mut Vec<u8>, b: u8, n: usize)
    ensures
        final(v)@ == old(v)@ + Seq::new(n as nat, |i: int| b),
{
    let mut i: usize = 0;
    while i < n
        invariant
            i <= n,
            v@ == old(v)@ + Seq::new(i as nat, |k: int| b),
        decreases n - i,
    {
        v.push(b);
        i = i + 1;
        assert(v@ =~= old(v)@ + Seq::new(i as nat, |k: int| b));
    }
}

/// Append all of `data`.
pub fn push_all(v: &mut Vec<u8>, data: &[u8])
    ensures
        final(v)@ == old(v)@ + data@,
{
    let mut i: usize = 0;
    while i < data.len()
        invariant
            i <= data@.len(),
            v@ == old(v)@ + data@.subrange(0, i as int),
        decreases data@.len() - i,
    {
        v.push(data[i]);
        i = i + 1;
        assert(v@ =~= old(v)@ + data@.subrange(0, i as int));
    }
    assert(data@.subrange(0, data@.len() as int) =~= data@);
}

/// `n` zero bytes.
pub open spec fn zeros(n: int) -> Seq<u8> {
    Seq::new(n as nat, |i: int| 0u8)
}

/// `data` followed by zeros up to `N` bytes.
pub fn padded<const N: usize>(data: &[u8]) -> (r: [u8; N])
    requires
        data@.len() <= N,
    ensures
        r@ == data@ + zeros(N - data@.len()),
{
    let mut r: [u8; N] = vstd::array::array_fill_for_copy_types(0u8);
    let mut i: usize = 0;
    while i < data.len()
        invariant
            i <= data@.len() <= N,
            r@.len() == N,
            forall|k: int| 0 <= k < i ==> r@[k] == data@[k],
            forall|k: int| i <= k < N ==> r@[k] == 0u8,
        decreases data@.len() - i,
    {
        r[i] = data[i];
        i = i + 1;
    }
    assert(r@ =~= data@ + zeros(N - data@.len()));
    r
}

/// The first `n` bytes of `data`.
pub fn prefix(data: &[u8], n: usize) -> (r: &[u8])
    requires
        n <= data@.len(),
    ensures
        r@ == data@.subrange(0, n as int),
{
    vstd::slice::slice_subrange(data, 0, n)
}

/// The little-endian value of the four bytes of `s` from `off` on.
pub open spec fn le32_at(s: Seq<u8>, off: int) -> int {
    le32(s[off], s[off + 1], s[off + 2], s[off + 3])
}

/// Read the little-endian `u32` at `off`.
pub fn read_le32(b: &[u8], off: usize) -> (r: u32)
    requires
        off + 4 <= b@.len(),
    ensures
        r == le32_at(b@, off as int),
{
    u32_from_le(b[off], b[off + 1], b[off + 2], b[off + 3])
}

/// Four bytes read back as the value they were written from.
pub proof fn lemma_le32_roundtrip(v: u32)
    ensures
        ({
            let b = le32_bytes(v);
            le32(b[0], b[1], b[2], b[3]) == v
        }),
{
}

/// A value read from four bytes writes back as those bytes.
pub proof fn lemma_le32_bytes_of(b0: u8, b1: u8, b2: u8, b3: u8)
    ensures
        le32_bytes(le32(b0, b1, b2, b3) as u32) == seq![b0, b1, b2, b3],
{
    let v = le32(b0, b1, b2, b3);
    assert(0 <= v <= u32::MAX);
    assert(v % 256 == b0);
    assert((v / 256) % 256 == b1);
    assert((v / 65536) % 256 == b2);
    assert(v / 16777216 == b3);
    assert(le32_bytes(v as u32) =~= seq![b0, b1, b2, b3]);
}

/// The little-endian words of `b`, four bytes each (a short tail is dropped).
#[verifier::opaque]
pub open spec fn le32_words(b: Seq<u8>) -> Seq<u32> {
    Seq::new(b.len() / 4, |i: int| le32_at(b, 4 * i) as u32)
}

/// The little-endian bytes of the words `ws`, one after another.
#[verifier::opaque]
pub open spec fn words_bytes(ws: Seq<u32>) -> Seq<u8> {
    Seq::new(4 * ws.len(), |j: int| le32_bytes(ws[j / 4])[j % 4])
}

/// Read `b` as little-endian words.
pub fn read_words(b: &[u8]) -> (r: Vec<u32>)
    ensures
        r@ == le32_words(b@),
        r@.len() == b@.len() / 4,
{
    reveal(le32_words);
    let n = b.len() / 4;
    let mut r: Vec<u32> = Vec::new();
    let mut i: usize = 0;
    while i < n
        invariant
            n == b@.len() / 4,
            i <= n,
            r@.len() == i,
            forall|k: int| 0 <= k < i ==> r@[k] == le32_at(b@, 4 * k) as u32,
        decreases n - i,
    {
        assert(4 * i + 4 <= b@.len()) by (nonlinear_arith)
            requires
                i < n,
                n == b@.len() / 4,
        ;
        assert(b@.len() == b.len());
        r.push(read_le32(b, 4 * i));
        i = i + 1;
    }
    assert(r@ =~= le32_words(b@));
    r
}

/// Write the words `ws` as little-endian bytes.
pub fn write_words(ws: &[u32]) -> (r: Vec<u8>)
    requires
        4 * ws@.len() <= usize::MAX,
    ensures
        r@ == words_bytes(ws@),
        r@.len() == 4 * ws@.len(),
{
    reveal(words_bytes);
    let mut r: Vec<u8> = Vec::new();
    let mut i: usize = 0;
    while i < ws.len()
        invariant
            i <= ws@.len(),
            r@ == words_bytes(ws@.take(i as int)),
        decreases ws@.len() - i,
    {
        let ghost before = r@;
        push_le32(&mut r, ws[i]);
        i = i + 1;
        assert(r@ =~= words_bytes(ws@.take(i as int))) by {
            reveal(words_bytes);
            assert forall|j: int| 0 <= j < 4 * i implies #[trigger] r@[j] == words_bytes(
                ws@.take(i as int),
            )[j] by {
                if j < 4 * (i - 1) {
                    assert(before[j] == words_bytes(ws@.take(i - 1))[j]);
                } else {
                    assert(j / 4 == i - 1);
                }
            }
        }
    }
    assert(ws@.take(ws@.len() as int) =~= ws@);
    r
}

/// Words written as bytes read back as the same words.
pub proof fn lemma_words_roundtrip(ws: Seq<u32>)
    ensures
        le32_words(words_bytes(ws)) == ws,
        words_bytes(ws).len() == 4 * ws.len(),
{
    reveal(le32_words);
    reveal(words_bytes);
    let b = words_bytes(ws);
    assert forall|i: int| 0 <= i < ws.len() implies #[trigger] le32_words(b)[i] == ws[i] by {
        lemma_le32_roundtrip(ws[i]);
        assert((4 * i) / 4 == i && (4 * i + 1) / 4 == i && (4 * i + 2) / 4 == i && (4 * i + 3) / 4 == i);
        assert((4 * i) % 4 == 0 && (4 * i + 1) % 4 == 1 && (4 * i + 2) % 4 == 2 && (4 * i + 3) % 4 == 3);
    }
    assert(le32_words(b) =~= ws);
}

/// The value of four big-endian bytes.
pub open spec fn be32(b0: u8, b1: u8, b2: u8, b3: u8) -> int {
    16777216 * b0 + 65536 * b1 + 256 * b2 + b3
}

/// Build a `u32` from four big-endian bytes.
pub fn u32_from_be(b0: u8, b1: u8, b2: u8, b3: u8) -> (r: u32)
    ensures
        r == be32(b0, b1, b2, b3),
{
    (b0 as u32) * 16777216 + (b1 as u32) * 65536 + (b2 as u32) * 256 + b3 as u32
}

/// The four big-endian bytes of `v`.
pub fn u32_to_be(v: u32) -> (r: [u8; 4])
    ensures
        r@ == be32_bytes(v),
{
    let r = [(v / 16777216) as u8, ((v / 65536) % 256) as u8, ((v / 256) % 256) as u8, (v % 256) as u8];
    assert(r@ =~= be32_bytes(v));
    r
}

/// The two big-endian bytes of `v`.
pub open spec fn be16_bytes(v: u16) -> Seq<u8> {
    seq![(v / 256) as u8, (v % 256) as u8]
}

/// The two big-endian bytes of `v`.
pub fn u16_to_be(v: u16) -> (r: [u8; 2])
    ensures
        r@ == be16_bytes(v),
{
    let r = [(v / 256) as u8, (v % 256) as u8];
    assert(r@ =~= be16_bytes(v));
    r
}

} // verus!
