//! Little-endian field codec for the fixed-layout records that cross the
//! kernel/userspace ring buffer.  Readers decode a field at a byte offset;
//! writers append the bytes of a field to a buffer.
use vstd::prelude::*;

verus! {

/// The `u16` stored little-endian at `off`.
pub open spec fn u16_at(b: Seq<u8>, off: int) -> u16 {
    (b[off] as int + b[off + 1] as int * 0x100) as u16
}

/// The `u32` stored little-endian at `off`.
pub open spec fn u32_at(b: Seq<u8>, off: int) -> u32 {
    (b[off] as int + b[off + 1] as int * 0x100 + b[off + 2] as int * 0x10000 + b[off + 3] as int
        * 0x1000000) as u32
}

/// The `u64` stored little-endian at `off`.
pub open spec fn u64_at(b: Seq<u8>, off: int) -> u64 {
    (u32_at(b, off) as int + u32_at(b, off + 4) as int * 0x1_0000_0000) as u64
}

/// The `i32` stored little-endian (two's complement) at `off`.
pub open spec fn i32_at(b: Seq<u8>, off: int) -> i32 {
    u32_at(b, off) as i32
}

/// The `i64` stored little-endian (two's complement) at `off`.
pub open spec fn i64_at(b: Seq<u8>, off: int) -> i64 {
    u64_at(b, off) as i64
}

/// The little-endian bytes of a `u16`.
pub open spec fn u16_le(x: u16) -> Seq<u8> {
    seq![(x & 0xff) as u8, ((x >> 8u16) & 0xff) as u8]
}

/// The little-endian bytes of a `u32`.
pub open spec fn u32_le(x: u32) -> Seq<u8> {
    seq![
        (x & 0xff) as u8,
        ((x >> 8u32) & 0xff) as u8,
        ((x >> 16u32) & 0xff) as u8,
        ((x >> 24u32) & 0xff) as u8,
    ]
}

/// The little-endian bytes of a `u64`.
pub open spec fn u64_le(x: u64) -> Seq<u8> {
    u32_le((x & 0xffff_ffff) as u32) + u32_le((x >> 32u64) as u32)
}

proof fn lemma_u16_bits(x: u16)
    by (bit_vector)
    ensures
        ((x & 0xff) as u8) as u16 + (((x >> 8u16) & 0xff) as u8) as u16 * 0x100 == x,
{
}

proof fn lemma_u32_bits(x: u32)
    by (bit_vector)
    ensures
        ((x & 0xff) as u8) as u32 + (((x >> 8u32) & 0xff) as u8) as u32 * 0x100 + (((x >> 16u32)
            & 0xff) as u8) as u32 * 0x10000 + (((x >> 24u32) & 0xff) as u8) as u32 * 0x1000000 == x,
{
}

proof fn lemma_u64_bits(x: u64)
    by (bit_vector)
    ensures
        ((x & 0xffff_ffff) as u32) as u64 + ((x >> 32u64) as u32) as u64 * 0x1_0000_0000 == x,
{
}

proof fn lemma_i32_bits(x: i32)
    by (bit_vector)
    ensures
        (x as u32) as i32 == x,
{
}

proof fn lemma_i64_bits(x: i64)
    by (bit_vector)
    ensures
        (x as u64) as i64 == x,
{
}

/// Reading back the bytes of a `u16` gives the `u16`.
pub proof fn lemma_u16_roundtrip(x: u16)
    ensures
        u16_at(u16_le(x), 0) == x,
{
    lemma_u16_bits(x);
}

/// Reading back the bytes of a `u32` gives the `u32`.
pub proof fn lemma_u32_roundtrip(x: u32)
    ensures
        u32_at(u32_le(x), 0) == x,
{
    lemma_u32_bits(x);
}

/// Reading back the bytes of a `u64` gives the `u64`.
pub proof fn lemma_u64_roundtrip(x: u64)
    ensures
        u64_at(u64_le(x), 0) == x,
{
    let lo = (x & 0xffff_ffff) as u32;
    let hi = (x >> 32u64) as u32;
    lemma_u32_roundtrip(lo);
    lemma_u32_roundtrip(hi);
    let s = u64_le(x);
    assert(s.subrange(0, 4) =~= u32_le(lo));
    assert(s.subrange(4, 8) =~= u32_le(hi));
    assert(u32_at(s, 0) == u32_at(u32_le(lo), 0));
    assert(u32_at(s, 4) == u32_at(u32_le(hi), 0));
    lemma_u64_bits(x);
}

/// A `u16` written after `pre` reads back at offset `pre.len()`, whatever follows.
pub proof fn lemma_u16_field(pre: Seq<u8>, x: u16, post: Seq<u8>)
    ensures
        u16_at(pre + u16_le(x) + post, pre.len() as int) == x,
{
    lemma_u16_roundtrip(x);
    let b = pre + u16_le(x) + post;
    assert(b[pre.len() as int] == u16_le(x)[0]);
    assert(b[pre.len() as int + 1] == u16_le(x)[1]);
}

/// A `u32` written after `pre` reads back at offset `pre.len()`, whatever follows.
pub proof fn lemma_u32_field(pre: Seq<u8>, x: u32, post: Seq<u8>)
    ensures
        u32_at(pre + u32_le(x) + post, pre.len() as int) == x,
{
    lemma_u32_roundtrip(x);
    let b = pre + u32_le(x) + post;
    assert(b[pre.len() as int] == u32_le(x)[0]);
    assert(b[pre.len() as int + 1] == u32_le(x)[1]);
    assert(b[pre.len() as int + 2] == u32_le(x)[2]);
    assert(b[pre.len() as int + 3] == u32_le(x)[3]);
}

/// A `u64` written after `pre` reads back at offset `pre.len()`, whatever follows.
pub proof fn lemma_u64_field(pre: Seq<u8>, x: u64, post: Seq<u8>)
    ensures
        u64_at(pre + u64_le(x) + post, pre.len() as int) == x,
{
    lemma_u64_roundtrip(x);
    let b = pre + u64_le(x) + post;
    let s = u64_le(x);
    assert forall|i: int| 0 <= i < 8 implies b[pre.len() as int + i] == s[i] by {}
    assert(u32_at(b, pre.len() as int) == u32_at(s, 0));
    assert(u32_at(b, pre.len() as int + 4) == u32_at(s, 4));
}

/// `(x as u32) as i32 == x`.
pub proof fn lemma_i32_cast(x: i32)
    ensures
        (x as u32) as i32 == x,
{
    lemma_i32_bits(x);
}

/// `(x as u64) as i64 == x`.
pub proof fn lemma_i64_cast(x: i64)
    ensures
        (x as u64) as i64 == x,
{
    lemma_i64_bits(x);
}

/// Reads the `u16` at `off`.
pub fn read_u16(b: &[u8], off: usize) -> (r: u16)
    requires
        off + 2 <= b@.len(),
    ensures
        r == u16_at(b@, off as int),
{
    b[off] as u16 + (b[off + 1] as u16) * 0x100
}

/// Reads the `u32` at `off`.
pub fn read_u32(b: &[u8], off: usize) -> (r: u32)
    requires
        off + 4 <= b@.len(),
    ensures
        r == u32_at(b@, off as int),
{
    b[off] as u32 + (b[off + 1] as u32) * 0x100 + (b[off + 2] as u32) * 0x10000 + (b[off + 3]
        as u32) * 0x1000000
}

/// Reads the `u64` at `off`.
pub fn read_u64(b: &[u8], off: usize) -> (r: u64)
    requires
        off + 8 <= b@.len(),
    ensures
        r == u64_at(b@, off as int),
{
    let n = b.len();
    assert(off + 8 <= n);
    let lo = read_u32(b, off);
    let hi = read_u32(b, off + 4);
    lo as u64 + (hi as u64) * 0x1_0000_0000
}

/// Reads the `i32` at `off`.
pub fn read_i32(b: &[u8], off: usize) -> (r: i32)
    requires
        off + 4 <= b@.len(),
    ensures
        r == i32_at(b@, off as int),
{
    read_u32(b, off) as i32
}

/// Reads the `i64` at `off`.
pub fn read_i64(b: &[u8], off: usize) -> (r: i64)
    requires
        off + 8 <= b@.len(),
    ensures
        r == i64_at(b@, off as int),
{
    read_u64(b, off) as i64
}

/// Copies the `N` bytes starting at `off`.
pub fn read_array<const N: usize>(b: &[u8], off: usize) -> (r: [u8; N])
    requires
        off + N <= b@.len(),
    ensures
        r@ == b@.subrange(off as int, off + N),
{
    let mut r = [0u8; N];
    let mut i: usize = 0;
    while i < N
        invariant
            off + N <= b.len(),
            i <= N,
            r@.len() == N,
            forall|j: int| 0 <= j < i ==> r@[j] == b@[off + j],
        decreases N - i,
    {
        r[i] = b[off + i];
        i = i + 1;
    }
    assert(r@ =~= b@.subrange(off as int, off + N));
    r
}

/// Appends the bytes of a `u16`.
pub fn write_u16(v: &mut Vec<u8>, x: u16)
    ensures
        final(v)@ == old(v)@ + u16_le(x),
{
    v.push((x & 0xff) as u8);
    v.push(((x >> 8u16) & 0xff) as u8);
    assert(final(v)@ =~= old(v)@ + u16_le(x));
}

/// Appends the bytes of a `u32`.
pub fn write_u32(v: &mut Vec<u8>, x: u32)
    ensures
        final(v)@ == old(v)@ + u32_le(x),
{
    v.push((x & 0xff) as u8);
    v.push(((x >> 8u32) & 0xff) as u8);
    v.push(((x >> 16u32) & 0xff) as u8);
    v.push(((x >> 24u32) & 0xff) as u8);
    assert(final(v)@ =~= old(v)@ + u32_le(x));
}

/// Appends the bytes of a `u64`.
pub fn write_u64(v: &mut Vec<u8>, x: u64)
    ensures
        final(v)@ == old(v)@ + u64_le(x),
{
    let ghost start = v@;
    write_u32(v, (x & 0xffff_ffff) as u32);
    write_u32(v, (x >> 32u64) as u32);
    assert(v@ =~= start + u64_le(x));
}

/// Appends a run of bytes.
pub fn write_bytes(v: &mut Vec<u8>, a: &[u8])
    ensures
        final(v)@ == old(v)@ + a@,
{
    let ghost start = v@;
    let mut i: usize = 0;
    while i < a.len()
        invariant
            i <= a@.len(),
            v@ == start + a@.take(i as int),
        decreases a@.len() - i,
    {
        v.push(a[i]);
        i = i + 1;
        assert(v@ =~= start + a@.take(i as int));
    }
    assert(a@.take(a@.len() as int) =~= a@);
}

/// `n` zero bytes.
pub open spec fn zeros(n: nat) -> Seq<u8> {
    Seq::new(n, |i: int| 0u8)
}

/// Appends `n` zero bytes (alignment padding).
pub fn write_zeros(v: &mut Vec<u8>, n: usize)
    ensures
        final(v)@ == old(v)@ + zeros(n as nat),
{
    let ghost start = v@;
    let mut i: usize = 0;
    while i < n
        invariant
            i <= n,
            v@ == start + zeros(i as nat),
        decreases n - i,
    {
        v.push(0u8);
        i = i + 1;
        assert(v@ =~= start + zeros(i as nat));
    }
}

} // verus!
