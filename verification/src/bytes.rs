//! Little-endian integer fields of byte buffers.

use vstd::prelude::*;

verus! {

/// The `u32` stored little-endian at `s[i..i + 4]`.
pub open spec fn le_u32(s: Seq<u8>, i: int) -> u32 {
    (s[i] + s[i + 1] * 0x100 + s[i + 2] * 0x1_0000 + s[i + 3] * 0x100_0000) as u32
}

/// The `u16` stored little-endian at `s[i..i + 2]`.
pub open spec fn le_u16(s: Seq<u8>, i: int) -> u16 {
    (s[i] + s[i + 1] * 0x100) as u16
}

/// The two's-complement reading of a 32-bit pattern.
pub open spec fn as_signed32(u: u32) -> i32 {
    if u >= 0x8000_0000 {
        (u - 0x1_0000_0000) as i32
    } else {
        u as i32
    }
}

/// The two's-complement reading of a 64-bit pattern.
pub open spec fn as_signed64(u: u64) -> i64 {
    if u >= 0x8000_0000_0000_0000 {
        (u - 0x1_0000_0000_0000_0000) as i64
    } else {
        u as i64
    }
}

/// The bit pattern of a 32-bit two's-complement value.
pub open spec fn as_unsigned32(v: i32) -> u32 {
    if v < 0 {
        (v + 0x1_0000_0000) as u32
    } else {
        v as u32
    }
}

/// The `i32` stored little-endian at `s[i..i + 4]`.
pub open spec fn le_i32(s: Seq<u8>, i: int) -> i32 {
    as_signed32(le_u32(s, i))
}

/// The `u64` stored little-endian at `s[i..i + 8]`.
pub open spec fn le_u64(s: Seq<u8>, i: int) -> u64 {
    (le_u32(s, i) + le_u32(s, i + 4) * 0x1_0000_0000) as u64
}

/// The `i64` stored little-endian at `s[i..i + 8]`.
pub open spec fn le_i64(s: Seq<u8>, i: int) -> i64 {
    as_signed64(le_u64(s, i))
}

/// The four little-endian bytes of `v`.
pub open spec fn u32_le_bytes(v: u32) -> Seq<u8> {
    seq![
        (v % 0x100) as u8,
        (v / 0x100 % 0x100) as u8,
        (v / 0x1_0000 % 0x100) as u8,
        (v / 0x100_0000 % 0x100) as u8,
    ]
}

/// Reads the `u32` stored little-endian at `buf[at..at + 4]`.
pub fn read_u32_le(buf: &[u8], at: usize) -> (r: u32)
    requires
        at + 4 <= buf@.len(),
    ensures
        r == le_u32(buf@, at as int),
{
    buf[at] as u32 + buf[at + 1] as u32 * 0x100 + buf[at + 2] as u32 * 0x1_0000 + buf[at + 3] as u32
        * 0x100_0000
}

/// Reads the `u16` stored little-endian at `buf[at..at + 2]`.
pub fn read_u16_le(buf: &[u8], at: usize) -> (r: u16)
    requires
        at + 2 <= buf@.len(),
    ensures
        r == le_u16(buf@, at as int),
{
    buf[at] as u16 + buf[at + 1] as u16 * 0x100
}

/// Reinterprets a 32-bit pattern as two's complement.
pub fn signed32(u: u32) -> (r: i32)
    ensures
        r == as_signed32(u),
{
    if u >= 0x8000_0000 {
        ((u - 0x8000_0000) as i32) + i32::MIN
    } else {
        u as i32
    }
}

/// Reinterprets a 64-bit pattern as two's complement.
pub fn signed64(u: u64) -> (r: i64)
    ensures
        r == as_signed64(u),
{
    if u >= 0x8000_0000_0000_0000 {
        ((u - 0x8000_0000_0000_0000) as i64) + i64::MIN
    } else {
        u as i64
    }
}

/// Returns the 32-bit pattern of a two's-complement value.
pub fn unsigned32(v: i32) -> (r: u32)
    ensures
        r == as_unsigned32(v),
{
    if v < 0 {
        ((v - i32::MIN) as u32) + 0x8000_0000
    } else {
        v as u32
    }
}

/// Reads the `i32` stored little-endian at `buf[at..at + 4]`.
pub fn read_i32_le(buf: &[u8], at: usize) -> (r: i32)
    requires
        at + 4 <= buf@.len(),
    ensures
        r == le_i32(buf@, at as int),
{
    signed32(read_u32_le(buf, at))
}

/// Reads the `i64` stored little-endian at `buf[at..at + 8]`.
pub fn read_i64_le(buf: &[u8], at: usize) -> (r: i64)
    requires
        at + 8 <= buf@.len(),
    ensures
        r == le_i64(buf@, at as int),
{
    let _len = buf.len();
    let lo = read_u32_le(buf, at) as u64;
    let hi = read_u32_le(buf, at + 4) as u64;
    signed64(lo + hi * 0x1_0000_0000)
}

/// Appends the four little-endian bytes of `v`.
pub fn push_u32_le(buf: &mut Vec<u8>, v: u32)
    ensures
        final(buf)@ == old(buf)@ + u32_le_bytes(v),
{
    buf.push((v % 0x100) as u8);
    buf.push((v / 0x100 % 0x100) as u8);
    buf.push((v / 0x1_0000 % 0x100) as u8);
    buf.push((v / 0x100_0000 % 0x100) as u8);
    assert(buf@ =~= old(buf)@ + u32_le_bytes(v));
}

/// Writing a `u32` little-endian and reading it back gives the value written.
pub proof fn lemma_u32_le_roundtrip(v: u32)
    ensures
        le_u32(u32_le_bytes(v), 0) == v,
        u32_le_bytes(v).len() == 4,
{
}

/// Reading a `u32` at an offset of a concatenation reads inside the part that holds it.
pub proof fn lemma_le_u32_append(a: Seq<u8>, b: Seq<u8>, i: int)
    requires
        0 <= i,
        i + 4 <= b.len(),
    ensures
        le_u32(a + b, a.len() + i) == le_u32(b, i),
{
    assert((a + b)[a.len() + i] == b[i]);
    assert((a + b)[a.len() + i + 1] == b[i + 1]);
    assert((a + b)[a.len() + i + 2] == b[i + 2]);
    assert((a + b)[a.len() + i + 3] == b[i + 3]);
}

} // verus!
