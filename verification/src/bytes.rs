//! Integers in byte sequences.
//!
//! Fields of kernel structures are little-endian; ports in socket addresses
//! are big-endian. Everything here is stated with plain arithmetic on the
//! bytes.

use vstd::prelude::*;

verus! {

/// The unsigned 16-bit integer whose little-endian bytes start at `at`.
pub open spec fn le16(s: Seq<u8>, at: int) -> u16 {
    (s[at] as int + 256 * (s[at + 1] as int)) as u16
}

/// The unsigned 16-bit integer whose big-endian bytes start at `at`.
pub open spec fn be16(s: Seq<u8>, at: int) -> u16 {
    (256 * (s[at] as int) + s[at + 1] as int) as u16
}

/// The unsigned 32-bit integer whose little-endian bytes start at `at`.
pub open spec fn le32(s: Seq<u8>, at: int) -> u32 {
    (s[at] as int + 256 * (s[at + 1] as int) + 65536 * (s[at + 2] as int) + 16777216 * (s[at
        + 3] as int)) as u32
}

/// The unsigned 64-bit integer whose little-endian bytes start at `at`.
pub open spec fn le64(s: Seq<u8>, at: int) -> u64 {
    (le32(s, at) as int + 4294967296 * (le32(s, at + 4) as int)) as u64
}

/// The signed integer with the same 32 bits as `x`.
pub open spec fn signed32(x: u32) -> i32 {
    if x < 0x8000_0000 {
        x as i32
    } else {
        (x as int - 0x1_0000_0000) as i32
    }
}

/// The unsigned integer with the same 32 bits as `x`.
pub open spec fn unsigned32(x: i32) -> u32 {
    if x >= 0 {
        x as u32
    } else {
        (x as int + 0x1_0000_0000) as u32
    }
}

/// The signed 32-bit integer whose little-endian bytes start at `at`.
pub open spec fn le_i32(s: Seq<u8>, at: int) -> i32 {
    signed32(le32(s, at))
}

/// The two little-endian bytes of `x`.
pub open spec fn bytes_le16(x: u16) -> Seq<u8> {
    seq![(x % 256) as u8, (x / 256) as u8]
}

/// The two big-endian bytes of `x`.
pub open spec fn bytes_be16(x: u16) -> Seq<u8> {
    seq![(x / 256) as u8, (x % 256) as u8]
}

/// The four little-endian bytes of `x`.
pub open spec fn bytes_le32(x: u32) -> Seq<u8> {
    seq![
        (x % 256) as u8,
        (x / 256 % 256) as u8,
        (x / 65536 % 256) as u8,
        (x / 16777216) as u8,
    ]
}

/// The eight little-endian bytes of `x`.
pub open spec fn bytes_le64(x: u64) -> Seq<u8> {
    bytes_le32((x % 4294967296) as u32) + bytes_le32((x / 4294967296) as u32)
}

/// The four little-endian bytes of the signed integer `x`.
pub open spec fn bytes_le_i32(x: i32) -> Seq<u8> {
    bytes_le32(unsigned32(x))
}

/// `n` bytes of zero.
pub open spec fn zeros(n: nat) -> Seq<u8> {
    Seq::new(n, |i: int| 0u8)
}

/// A 32-bit number is the sum of its four bytes, each at its weight.
pub proof fn lemma_bytes_of_u32(x: u32)
    ensures
        x % 256 + 256 * (x / 256 % 256) + 65536 * (x / 65536 % 256) + 16777216 * (x / 16777216)
            == x,
        x / 16777216 < 256,
{
}

/// Reading back a 16-bit number written in little-endian order gives the
/// number, wherever the bytes stand in a longer sequence.
pub proof fn lemma_le16_written(pre: Seq<u8>, x: u16, post: Seq<u8>)
    ensures
        le16(pre + bytes_le16(x) + post, pre.len() as int) == x,
{
    let n = pre.len() as int;
    let s = pre + bytes_le16(x) + post;
    assert(s[n] == bytes_le16(x)[0] && s[n + 1] == bytes_le16(x)[1]);
}

/// Reading back a 16-bit number written in big-endian order gives the
/// number, wherever the bytes stand in a longer sequence.
pub proof fn lemma_be16_written(pre: Seq<u8>, x: u16, post: Seq<u8>)
    ensures
        be16(pre + bytes_be16(x) + post, pre.len() as int) == x,
{
    let n = pre.len() as int;
    let s = pre + bytes_be16(x) + post;
    assert(s[n] == bytes_be16(x)[0] && s[n + 1] == bytes_be16(x)[1]);
}

/// Reading back a 32-bit number written in little-endian order gives the
/// number, wherever the bytes stand in a longer sequence.
pub proof fn lemma_le32_written(pre: Seq<u8>, x: u32, post: Seq<u8>)
    ensures
        le32(pre + bytes_le32(x) + post, pre.len() as int) == x,
{
    let n = pre.len() as int;
    let s = pre + bytes_le32(x) + post;
    lemma_bytes_of_u32(x);
    assert(s[n] == bytes_le32(x)[0] && s[n + 1] == bytes_le32(x)[1]);
    assert(s[n + 2] == bytes_le32(x)[2] && s[n + 3] == bytes_le32(x)[3]);
}

/// Reading back a signed 32-bit number written in little-endian order
/// gives the number, wherever the bytes stand in a longer sequence.
pub proof fn lemma_le_i32_written(pre: Seq<u8>, x: i32, post: Seq<u8>)
    ensures
        le_i32(pre + bytes_le_i32(x) + post, pre.len() as int) == x,
{
    lemma_le32_written(pre, unsigned32(x), post);
}

/// Reading back a 64-bit number written in little-endian order gives the
/// number, wherever the bytes stand in a longer sequence.
pub proof fn lemma_le64_written(pre: Seq<u8>, x: u64, post: Seq<u8>)
    ensures
        le64(pre + bytes_le64(x) + post, pre.len() as int) == x,
{
    let lo = (x % 4294967296) as u32;
    let hi = (x / 4294967296) as u32;
    let s = pre + bytes_le64(x) + post;
    assert(s =~= pre + bytes_le32(lo) + (bytes_le32(hi) + post));
    lemma_le32_written(pre, lo, bytes_le32(hi) + post);
    assert(s =~= (pre + bytes_le32(lo)) + bytes_le32(hi) + post);
    lemma_le32_written(pre + bytes_le32(lo), hi, post);
}

/// Reads an unsigned 16-bit little-endian integer at `at`.
pub fn read_le16(buf: &[u8], at: usize) -> (x: u16)
    requires
        at + 2 <= buf@.len(),
    ensures
        x == le16(buf@, at as int),
{
    buf[at] as u16 + 256 * (buf[at + 1] as u16)
}

/// Reads an unsigned 16-bit big-endian integer at `at`.
pub fn read_be16(buf: &[u8], at: usize) -> (x: u16)
    requires
        at + 2 <= buf@.len(),
    ensures
        x == be16(buf@, at as int),
{
    256 * (buf[at] as u16) + buf[at + 1] as u16
}

/// Reads an unsigned 32-bit little-endian integer at `at`.
pub fn read_le32(buf: &[u8], at: usize) -> (x: u32)
    requires
        at + 4 <= buf@.len(),
    ensures
        x == le32(buf@, at as int),
{
    buf[at] as u32 + 256 * (buf[at + 1] as u32) + 65536 * (buf[at + 2] as u32) + 16777216 * (
    buf[at + 3] as u32)
}

/// Reads an unsigned 64-bit little-endian integer at `at`.
pub fn read_le64(buf: &[u8], at: usize) -> (x: u64)
    requires
        at + 8 <= buf@.len(),
    ensures
        x == le64(buf@, at as int),
{
    let len: usize = buf.len();
    let lo: u32 = read_le32(buf, at);
    let hi: u32 = read_le32(buf, at + 4);
    lo as u64 + 4294967296 * (hi as u64)
}

/// The signed integer with the same 32 bits as `x`.
pub fn to_signed32(x: u32) -> (y: i32)
    ensures
        y == signed32(x),
{
    if x < 0x8000_0000 {
        x as i32
    } else {
        (x as i64 - 0x1_0000_0000) as i32
    }
}

/// The unsigned integer with the same 32 bits as `x`.
pub fn to_unsigned32(x: i32) -> (y: u32)
    ensures
        y == unsigned32(x),
{
    if x >= 0 {
        x as u32
    } else {
        (x as i64 + 0x1_0000_0000) as u32
    }
}

/// Reads a signed 32-bit little-endian integer at `at`.
pub fn read_le_i32(buf: &[u8], at: usize) -> (x: i32)
    requires
        at + 4 <= buf@.len(),
    ensures
        x == le_i32(buf@, at as int),
{
    to_signed32(read_le32(buf, at))
}

/// Appends the two little-endian bytes of `x`.
pub fn push_le16(out: &mut Vec<u8>, x: u16)
    ensures
        final(out)@ == old(out)@ + bytes_le16(x),
{
    out.push((x % 256) as u8);
    out.push((x / 256) as u8);
}

/// Appends the two big-endian bytes of `x`.
pub fn push_be16(out: &mut Vec<u8>, x: u16)
    ensures
        final(out)@ == old(out)@ + bytes_be16(x),
{
    out.push((x / 256) as u8);
    out.push((x % 256) as u8);
}

/// Appends the four little-endian bytes of `x`.
pub fn push_le32(out: &mut Vec<u8>, x: u32)
    ensures
        final(out)@ == old(out)@ + bytes_le32(x),
{
    out.push((x % 256) as u8);
    out.push((x / 256 % 256) as u8);
    out.push((x / 65536 % 256) as u8);
    out.push((x / 16777216) as u8);
}

/// Appends the eight little-endian bytes of `x`.
pub fn push_le64(out: &mut Vec<u8>, x: u64)
    ensures
        final(out)@ == old(out)@ + bytes_le64(x),
{
    push_le32(out, (x % 4294967296) as u32);
    push_le32(out, (x / 4294967296) as u32);
}

/// Appends the four little-endian bytes of the signed integer `x`.
pub fn push_le_i32(out: &mut Vec<u8>, x: i32)
    ensures
        final(out)@ == old(out)@ + bytes_le_i32(x),
{
    push_le32(out, to_unsigned32(x));
}

/// Appends `n` bytes of zero.
pub fn push_zeros(out: &mut Vec<u8>, n: usize)
    ensures
        final(out)@ == old(out)@ + zeros(n as nat),
{
    let mut i: usize = 0;
    while i < n
        invariant
            i <= n,
            out@ == old(out)@ + zeros(i as nat),
        decreases n - i,
    {
        out.push(0u8);
        i += 1;
    }
}

} // verus!
