//! Fixed-width little-endian scalar codec primitives.
//!
//! Every fragment layout is built from these: unsigned and signed 16- and
//! 32-bit integers, always little-endian. Decoding consumes exactly the
//! field's width at a given position; encoding appends exactly that width.

use vstd::bytes::lemma_auto_spec_u16_to_from_le_bytes;
use vstd::bytes::lemma_auto_spec_u32_to_from_le_bytes;
use vstd::bytes::spec_u16_from_le_bytes;
use vstd::bytes::spec_u16_to_le_bytes;
use vstd::bytes::spec_u32_from_le_bytes;
use vstd::bytes::spec_u32_to_le_bytes;
use vstd::bytes::u16_from_le_bytes;
use vstd::bytes::u16_to_le_bytes;
use vstd::bytes::u32_from_le_bytes;
use vstd::bytes::u32_to_le_bytes;
use vstd::prelude::*;
use vstd::slice::slice_subrange;

verus! {

// ---------------------------------------------------------------------------
// Two's-complement reinterpretation between the unsigned and signed readings
// of a field. The format stores signed fields as their unsigned bit pattern.
// ---------------------------------------------------------------------------
/// The signed reading of a 32-bit pattern.
pub open spec fn u32_as_i32(u: u32) -> i32 {
    if u < 0x8000_0000 {
        u as i32
    } else {
        (u - 0x1_0000_0000) as i32
    }
}

/// The 32-bit pattern of a signed value.
pub open spec fn i32_as_u32(v: i32) -> u32 {
    if v >= 0 {
        v as u32
    } else {
        (v + 0x1_0000_0000) as u32
    }
}

/// The signed reading of a 16-bit pattern.
pub open spec fn u16_as_i16(u: u16) -> i16 {
    if u < 0x8000 {
        u as i16
    } else {
        (u - 0x1_0000) as i16
    }
}

/// The 16-bit pattern of a signed value.
pub open spec fn i16_as_u16(v: i16) -> u16 {
    if v >= 0 {
        v as u16
    } else {
        (v + 0x1_0000) as u16
    }
}

pub proof fn lemma_i32_u32_round_trip(v: i32)
    ensures
        u32_as_i32(i32_as_u32(v)) == v,
{
}

pub proof fn lemma_u32_i32_round_trip(u: u32)
    ensures
        i32_as_u32(u32_as_i32(u)) == u,
{
}

pub proof fn lemma_u16_i16_round_trip(u: u16)
    ensures
        i16_as_u16(u16_as_i16(u)) == u,
{
}

// ---------------------------------------------------------------------------
// The little-endian bytes of each field width.
// ---------------------------------------------------------------------------
/// The 4 little-endian bytes of a signed 32-bit field.
pub open spec fn i32_le_bytes(v: i32) -> Seq<u8> {
    spec_u32_to_le_bytes(i32_as_u32(v))
}

/// The 2 little-endian bytes of a signed 16-bit field.
pub open spec fn i16_le_bytes(v: i16) -> Seq<u8> {
    spec_u16_to_le_bytes(i16_as_u16(v))
}

// ---------------------------------------------------------------------------
// The value of the field that starts at byte `pos` of a buffer.
// ---------------------------------------------------------------------------
/// The unsigned 32-bit field at `pos`.
pub open spec fn u32_at(b: Seq<u8>, pos: int) -> u32
    recommends
        0 <= pos,
        pos + 4 <= b.len(),
{
    spec_u32_from_le_bytes(b.subrange(pos, pos + 4))
}

/// The signed 32-bit field at `pos`.
pub open spec fn i32_at(b: Seq<u8>, pos: int) -> i32
    recommends
        0 <= pos,
        pos + 4 <= b.len(),
{
    u32_as_i32(u32_at(b, pos))
}

/// The unsigned 16-bit field at `pos`.
pub open spec fn u16_at(b: Seq<u8>, pos: int) -> u16
    recommends
        0 <= pos,
        pos + 2 <= b.len(),
{
    spec_u16_from_le_bytes(b.subrange(pos, pos + 2))
}

/// The signed 16-bit field at `pos`.
pub open spec fn i16_at(b: Seq<u8>, pos: int) -> i16
    recommends
        0 <= pos,
        pos + 2 <= b.len(),
{
    u16_as_i16(u16_at(b, pos))
}

// ---------------------------------------------------------------------------
// Encoding a field reproduces the bytes it was decoded from.
// ---------------------------------------------------------------------------
pub proof fn lemma_u32_le_bytes_inverse(b: Seq<u8>)
    requires
        b.len() == 4,
    ensures
        spec_u32_to_le_bytes(spec_u32_from_le_bytes(b)) == b,
{
    lemma_auto_spec_u32_to_from_le_bytes();
}

pub proof fn lemma_u16_le_bytes_inverse(b: Seq<u8>)
    requires
        b.len() == 2,
    ensures
        spec_u16_to_le_bytes(spec_u16_from_le_bytes(b)) == b,
{
    lemma_auto_spec_u16_to_from_le_bytes();
}

/// Re-encoding the signed 32-bit field at `pos` reproduces its 4 bytes.
pub proof fn lemma_i32_field_round_trip(b: Seq<u8>, pos: int)
    requires
        0 <= pos,
        pos + 4 <= b.len(),
    ensures
        i32_le_bytes(i32_at(b, pos)) == b.subrange(pos, pos + 4),
{
    lemma_u32_i32_round_trip(u32_at(b, pos));
    lemma_u32_le_bytes_inverse(b.subrange(pos, pos + 4));
}

/// Re-encoding the unsigned 32-bit field at `pos` reproduces its 4 bytes.
pub proof fn lemma_u32_field_round_trip(b: Seq<u8>, pos: int)
    requires
        0 <= pos,
        pos + 4 <= b.len(),
    ensures
        spec_u32_to_le_bytes(u32_at(b, pos)) == b.subrange(pos, pos + 4),
{
    lemma_u32_le_bytes_inverse(b.subrange(pos, pos + 4));
}

/// Re-encoding the unsigned 16-bit field at `pos` reproduces its 2 bytes.
pub proof fn lemma_u16_field_round_trip(b: Seq<u8>, pos: int)
    requires
        0 <= pos,
        pos + 2 <= b.len(),
    ensures
        spec_u16_to_le_bytes(u16_at(b, pos)) == b.subrange(pos, pos + 2),
{
    lemma_u16_le_bytes_inverse(b.subrange(pos, pos + 2));
}

/// Re-encoding the signed 16-bit field at `pos` reproduces its 2 bytes.
pub proof fn lemma_i16_field_round_trip(b: Seq<u8>, pos: int)
    requires
        0 <= pos,
        pos + 2 <= b.len(),
    ensures
        i16_le_bytes(i16_at(b, pos)) == b.subrange(pos, pos + 2),
{
    lemma_u16_i16_round_trip(u16_at(b, pos));
    lemma_u16_le_bytes_inverse(b.subrange(pos, pos + 2));
}

/// Adjacent subranges concatenate to the enclosing subrange.
pub proof fn lemma_subrange_concat(b: Seq<u8>, i: int, j: int, k: int)
    requires
        0 <= i <= j <= k <= b.len(),
    ensures
        b.subrange(i, j) + b.subrange(j, k) == b.subrange(i, k),
{
    assert(b.subrange(i, j) + b.subrange(j, k) =~= b.subrange(i, k));
}

// ---------------------------------------------------------------------------
// Executable decoders: each reads exactly the field's width at `pos`.
// ---------------------------------------------------------------------------
/// Reinterpret an unsigned 32-bit pattern as signed.
pub fn u32_to_i32(u: u32) -> (r: i32)
    ensures
        r == u32_as_i32(u),
{
    if u < 0x8000_0000 {
        u as i32
    } else {
        ((u as i64) - 0x1_0000_0000i64) as i32
    }
}

/// Reinterpret a signed 32-bit value as its unsigned pattern.
pub fn i32_to_u32(v: i32) -> (r: u32)
    ensures
        r == i32_as_u32(v),
{
    if v >= 0 {
        v as u32
    } else {
        ((v as i64) + 0x1_0000_0000i64) as u32
    }
}

/// Reinterpret an unsigned 16-bit pattern as signed.
pub fn u16_to_i16(u: u16) -> (r: i16)
    ensures
        r == u16_as_i16(u),
{
    if u < 0x8000 {
        u as i16
    } else {
        ((u as i32) - 0x1_0000i32) as i16
    }
}

/// Reinterpret a signed 16-bit value as its unsigned pattern.
pub fn i16_to_u16(v: i16) -> (r: u16)
    ensures
        r == i16_as_u16(v),
{
    if v >= 0 {
        v as u16
    } else {
        ((v as i32) + 0x1_0000i32) as u16
    }
}

/// Read the unsigned 32-bit field at `pos`.
pub fn read_u32_at(input: &[u8], pos: usize) -> (x: u32)
    requires
        pos + 4 <= input@.len(),
    ensures
        x == u32_at(input@, pos as int),
{
    let len: usize = input.len();
    assert(pos + 4 <= len);
    let s = slice_subrange(input, pos, pos + 4);
    u32_from_le_bytes(s)
}

/// Read the signed 32-bit field at `pos`.
pub fn read_i32_at(input: &[u8], pos: usize) -> (x: i32)
    requires
        pos + 4 <= input@.len(),
    ensures
        x == i32_at(input@, pos as int),
{
    let u = read_u32_at(input, pos);
    u32_to_i32(u)
}

/// Read the unsigned 16-bit field at `pos`.
pub fn read_u16_at(input: &[u8], pos: usize) -> (x: u16)
    requires
        pos + 2 <= input@.len(),
    ensures
        x == u16_at(input@, pos as int),
{
    let len: usize = input.len();
    assert(pos + 2 <= len);
    let s = slice_subrange(input, pos, pos + 2);
    u16_from_le_bytes(s)
}

/// Read the signed 16-bit field at `pos`.
pub fn read_i16_at(input: &[u8], pos: usize) -> (x: i16)
    requires
        pos + 2 <= input@.len(),
    ensures
        x == i16_at(input@, pos as int),
{
    let u = read_u16_at(input, pos);
    u16_to_i16(u)
}

// ---------------------------------------------------------------------------
// Executable encoders: each appends exactly the field's width.
// ---------------------------------------------------------------------------
/// Append the 4 little-endian bytes of an unsigned 32-bit field.
pub fn push_u32_le(out: &mut Vec<u8>, x: u32)
    ensures
        final(out)@ == old(out)@ + spec_u32_to_le_bytes(x),
{
    let mut b = u32_to_le_bytes(x);
    out.append(&mut b);
}

/// Append the 4 little-endian bytes of a signed 32-bit field.
pub fn push_i32_le(out: &mut Vec<u8>, x: i32)
    ensures
        final(out)@ == old(out)@ + i32_le_bytes(x),
{
    let u = i32_to_u32(x);
    push_u32_le(out, u);
}

/// Append the 2 little-endian bytes of an unsigned 16-bit field.
pub fn push_u16_le(out: &mut Vec<u8>, x: u16)
    ensures
        final(out)@ == old(out)@ + spec_u16_to_le_bytes(x),
{
    let mut b = u16_to_le_bytes(x);
    out.append(&mut b);
}

/// Append the 2 little-endian bytes of a signed 16-bit field.
pub fn push_i16_le(out: &mut Vec<u8>, x: i16)
    ensures
        final(out)@ == old(out)@ + i16_le_bytes(x),
{
    let u = i16_to_u16(x);
    push_u16_le(out, u);
}

} // verus!
