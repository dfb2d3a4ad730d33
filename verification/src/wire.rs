//! Little-endian field access inside wire frames.
//!
//! Reply and request frames are flat byte sequences; every field of an
//! ABI record is a little-endian integer at a fixed offset. The readers
//! and writers here connect the executable byte handling to the
//! little-endian specifications of `vstd::bytes`, which every record
//! contract is stated over.

use vstd::bytes::spec_u16_from_le_bytes;
use vstd::bytes::spec_u32_from_le_bytes;
use vstd::bytes::spec_u32_to_le_bytes;
use vstd::bytes::spec_u64_from_le_bytes;
use vstd::bytes::spec_u64_to_le_bytes;
use vstd::bytes::u16_from_le_bytes;
use vstd::bytes::u16_to_le_bytes;
use vstd::bytes::u32_from_le_bytes;
use vstd::bytes::u32_to_le_bytes;
use vstd::bytes::u64_from_le_bytes;
use vstd::bytes::u64_to_le_bytes;
use vstd::prelude::*;
use vstd::slice::slice_subrange;

verus! {

broadcast use vstd::slice::group_slice_axioms;

/// The little-endian bytes of an `i32`, via its two's-complement
/// `u32` image: how the reply header's error field goes on the wire.
pub open spec fn spec_i32_to_le_bytes(x: i32) -> Seq<u8> {
    spec_u32_to_le_bytes(x as u32)
}

/// The `i32` a little-endian 4-byte prefix denotes.
pub open spec fn spec_i32_from_le_bytes(bytes: Seq<u8>) -> i32 {
    spec_u32_from_le_bytes(bytes) as i32
}

/// The little-endian bytes of an `i64`, via its two's-complement
/// `u64` image.
pub open spec fn spec_i64_to_le_bytes(x: i64) -> Seq<u8> {
    spec_u64_to_le_bytes(x as u64)
}

/// The `i64` a little-endian 8-byte prefix denotes.
pub open spec fn spec_i64_from_le_bytes(bytes: Seq<u8>) -> i64 {
    spec_u64_from_le_bytes(bytes) as i64
}

/// Reading an `i32`'s wire form back yields the value.
pub proof fn lemma_i32_le_roundtrip(x: i32)
    ensures
        spec_i32_from_le_bytes(spec_i32_to_le_bytes(x)) == x,
{
    vstd::bytes::lemma_auto_spec_u32_to_from_le_bytes();
    let u = x as u32;
    assert(spec_u32_to_le_bytes(u).len() == 4);
    assert(spec_u32_from_le_bytes(spec_u32_to_le_bytes(u)) == u);
    assert((x as u32) as i32 == x) by (bit_vector);
}

/// Writing the `i32` read from a 4-byte sequence reproduces the bytes.
pub proof fn lemma_i32_le_bytes(bytes: Seq<u8>)
    requires
        bytes.len() == 4,
    ensures
        spec_i32_to_le_bytes(spec_i32_from_le_bytes(bytes)) == bytes,
{
    vstd::bytes::lemma_auto_spec_u32_to_from_le_bytes();
    let u = spec_u32_from_le_bytes(bytes);
    assert((u as i32) as u32 == u) by (bit_vector);
    assert(spec_u32_to_le_bytes(spec_u32_from_le_bytes(bytes)) == bytes);
}

/// Reading an `i64`'s wire form back yields the value.
pub proof fn lemma_i64_le_roundtrip(x: i64)
    ensures
        spec_i64_from_le_bytes(spec_i64_to_le_bytes(x)) == x,
{
    vstd::bytes::lemma_auto_spec_u64_to_from_le_bytes();
    let u = x as u64;
    assert(spec_u64_to_le_bytes(u).len() == 8);
    assert(spec_u64_from_le_bytes(spec_u64_to_le_bytes(u)) == u);
    assert((x as u64) as i64 == x) by (bit_vector);
}

/// Writing the `i64` read from an 8-byte sequence reproduces the bytes.
pub proof fn lemma_i64_le_bytes(bytes: Seq<u8>)
    requires
        bytes.len() == 8,
    ensures
        spec_i64_to_le_bytes(spec_i64_from_le_bytes(bytes)) == bytes,
{
    vstd::bytes::lemma_auto_spec_u64_to_from_le_bytes();
    let u = spec_u64_from_le_bytes(bytes);
    assert((u as i64) as u64 == u) by (bit_vector);
    assert(spec_u64_to_le_bytes(spec_u64_from_le_bytes(bytes)) == bytes);
}

/// Reads the little-endian `u16` at byte `off`.
pub fn read_u16_at(bytes: &[u8], off: usize) -> (r: u16)
    requires
        off + 2 <= bytes@.len(),
    ensures
        r == spec_u16_from_le_bytes(bytes@.subrange(off as int, off as int + 2)),
{
    let len: usize = bytes.len();
    let tail: &[u8] = slice_subrange(bytes, off, len);
    let piece: &[u8] = slice_subrange(tail, 0, 2);
    proof {
        assert(piece@ =~= bytes@.subrange(off as int, off as int + 2));
    }
    u16_from_le_bytes(piece)
}

/// Reads the little-endian `u32` at byte `off`.
pub fn read_u32_at(bytes: &[u8], off: usize) -> (r: u32)
    requires
        off + 4 <= bytes@.len(),
    ensures
        r == spec_u32_from_le_bytes(bytes@.subrange(off as int, off as int + 4)),
{
    let len: usize = bytes.len();
    let tail: &[u8] = slice_subrange(bytes, off, len);
    let piece: &[u8] = slice_subrange(tail, 0, 4);
    proof {
        assert(piece@ =~= bytes@.subrange(off as int, off as int + 4));
    }
    u32_from_le_bytes(piece)
}

/// Reads the little-endian `i32` at byte `off`.
pub fn read_i32_at(bytes: &[u8], off: usize) -> (r: i32)
    requires
        off + 4 <= bytes@.len(),
    ensures
        r == spec_i32_from_le_bytes(bytes@.subrange(off as int, off as int + 4)),
{
    read_u32_at(bytes, off) as i32
}

/// Reads the little-endian `u64` at byte `off`.
pub fn read_u64_at(bytes: &[u8], off: usize) -> (r: u64)
    requires
        off + 8 <= bytes@.len(),
    ensures
        r == spec_u64_from_le_bytes(bytes@.subrange(off as int, off as int + 8)),
{
    let len: usize = bytes.len();
    let tail: &[u8] = slice_subrange(bytes, off, len);
    let piece: &[u8] = slice_subrange(tail, 0, 8);
    proof {
        assert(piece@ =~= bytes@.subrange(off as int, off as int + 8));
    }
    u64_from_le_bytes(piece)
}

/// Appends the little-endian bytes of a `u16`.
pub fn write_u16(out: &mut Vec<u8>, x: u16)
    ensures
        final(out)@ == old(out)@ + vstd::bytes::spec_u16_to_le_bytes(x),
{
    let mut tmp = u16_to_le_bytes(x);
    out.append(&mut tmp);
}

/// Appends the little-endian bytes of a `u32`.
pub fn write_u32(out: &mut Vec<u8>, x: u32)
    ensures
        final(out)@ == old(out)@ + spec_u32_to_le_bytes(x),
{
    let mut tmp = u32_to_le_bytes(x);
    out.append(&mut tmp);
}

/// Appends the little-endian bytes of an `i32`, two's complement.
pub fn write_i32(out: &mut Vec<u8>, x: i32)
    ensures
        final(out)@ == old(out)@ + spec_i32_to_le_bytes(x),
{
    write_u32(out, x as u32);
}

/// Appends the little-endian bytes of a `u64`.
pub fn write_u64(out: &mut Vec<u8>, x: u64)
    ensures
        final(out)@ == old(out)@ + vstd::bytes::spec_u64_to_le_bytes(x),
{
    let mut tmp = u64_to_le_bytes(x);
    out.append(&mut tmp);
}

/// Reads the little-endian `i64` at byte `off`.
pub fn read_i64_at(bytes: &[u8], off: usize) -> (r: i64)
    requires
        off + 8 <= bytes@.len(),
    ensures
        r == spec_i64_from_le_bytes(bytes@.subrange(off as int, off as int + 8)),
{
    read_u64_at(bytes, off) as i64
}

/// Appends the little-endian bytes of an `i64`, two's complement.
pub fn write_i64(out: &mut Vec<u8>, x: i64)
    ensures
        final(out)@ == old(out)@ + spec_i64_to_le_bytes(x),
{
    write_u64(out, x as u64);
}

} // verus!
