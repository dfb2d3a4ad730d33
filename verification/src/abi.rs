//! The ABI record capability: the wire form of fixed-layout kernel records.
//!
//! Every FUSE message is a concatenation of fixed-layout records whose
//! fields are little-endian integers. A type admitted as an ABI record
//! states its byte size, the alignment the kernel lays it out with, and
//! the exact byte sequence a value occupies on the wire; decoding and
//! encoding are proved inverse to each other.

use vstd::bytes::lemma_auto_spec_u16_to_from_le_bytes;
use vstd::bytes::lemma_auto_spec_u32_to_from_le_bytes;
use vstd::bytes::lemma_auto_spec_u64_to_from_le_bytes;
use vstd::bytes::spec_u16_from_le_bytes;
use vstd::bytes::spec_u16_to_le_bytes;
use vstd::bytes::spec_u32_from_le_bytes;
use vstd::bytes::spec_u32_to_le_bytes;
use vstd::bytes::spec_u64_from_le_bytes;
use vstd::bytes::spec_u64_to_le_bytes;
use vstd::prelude::*;

verus! {

broadcast use vstd::slice::group_slice_axioms;

/// Closed set of types admitted as ABI records.
pub trait Sealed {}

/// A fixed-layout record of the FUSE wire protocol.
///
/// A value of such a type occupies exactly [`FuseAbiData::wire_size`]
/// bytes on the wire, laid out at an address that is a multiple of
/// [`FuseAbiData::wire_align`]. `as_wire` gives those bytes; `of_wire`
/// reads a value back out of a byte prefix. The laws below make the two
/// maps inverse, so a record survives a trip through the wire bitwise
/// unchanged.
pub trait FuseAbiData: Sealed + Sized {
    /// Size of the record on the wire, in bytes.
    spec fn wire_size() -> nat;

    /// Alignment of the record, in bytes: the largest field alignment,
    /// as the kernel's C layout prescribes.
    spec fn wire_align() -> nat;

    /// The exact bytes this value occupies on the wire.
    spec fn as_wire(self) -> Seq<u8>;

    /// The value a byte prefix of length `wire_size` denotes.
    spec fn of_wire(bytes: Seq<u8>) -> Self;

    /// A record's wire form has exactly `wire_size` bytes.
    proof fn lemma_wire_len(x: Self)
        ensures
            x.as_wire().len() == Self::wire_size(),
    ;

    /// Sizes and alignments are as the kernel prescribes: the alignment
    /// is at most 8 and divides the size, so concatenated records stay
    /// naturally aligned inside an 8-byte-aligned frame.
    proof fn lemma_size_align()
        ensures
            0 < Self::wire_align() <= 8,
            Self::wire_size() % Self::wire_align() == 0,
            0 < Self::wire_size(),
    ;

    /// Reading a value's wire form back yields the value.
    proof fn lemma_of_as(x: Self)
        ensures
            Self::of_wire(x.as_wire()) == x,
    ;

    /// Writing the value read from a full-length byte sequence
    /// reproduces the bytes.
    proof fn lemma_as_of(bytes: Seq<u8>)
        requires
            bytes.len() == Self::wire_size(),
        ensures
            Self::of_wire(bytes).as_wire() == bytes,
    ;

    /// `wire_size`, at run time.
    exec fn wire_size_exec() -> (n: usize)
        ensures
            n == Self::wire_size(),
    ;

    /// `wire_align`, at run time.
    exec fn wire_align_exec() -> (n: usize)
        ensures
            n == Self::wire_align(),
    ;

    /// Reads the record starting at byte `off` of `bytes`.
    exec fn read_wire(bytes: &[u8], off: usize) -> (r: Self)
        requires
            off + Self::wire_size() <= bytes@.len(),
        ensures
            r == Self::of_wire(bytes@.subrange(off as int, off as int + Self::wire_size() as int)),
    ;

    /// Appends the record's wire form to `out`.
    exec fn write_wire(&self, out: &mut Vec<u8>)
        ensures
            final(out)@ == old(out)@ + self.as_wire(),
    ;
}

/// Law: decoding a record's wire form yields the record, bitwise — a
/// round trip through the wire loses nothing, for every ABI record
/// type and value.
pub proof fn lemma_encode_decode_roundtrip<T: FuseAbiData>(x: T)
    ensures
        T::of_wire(x.as_wire()) == x,
{
    T::lemma_of_as(x);
}

/// Two records with the same wire form are the same record: the wire
/// form determines the record, so a decoded view loses nothing.
pub proof fn lemma_wire_injective<T: FuseAbiData>(x: T, y: T)
    requires
        x.as_wire() == y.as_wire(),
    ensures
        x == y,
{
    T::lemma_of_as(x);
    T::lemma_of_as(y);
}

/// A record wrapped as the bytes it occupies on the wire.
#[derive(Debug, Clone, Copy)]
pub struct RawBytes<T>(pub T);

impl<T: FuseAbiData> RawBytes<T> {
    /// Wraps a record.
    pub fn wrap(raw: T) -> (r: Self)
        ensures
            r.0 == raw,
    {
        RawBytes(raw)
    }

    /// The record's wire bytes.
    pub fn to_bytes(&self) -> (r: Vec<u8>)
        ensures
            r@ == self.0.as_wire(),
    {
        let mut out: Vec<u8> = Vec::new();
        self.0.write_wire(&mut out);
        proof {
            assert(out@ =~= self.0.as_wire());
        }
        out
    }
}

impl Sealed for u8 {}

impl FuseAbiData for u8 {
    open spec fn wire_size() -> nat {
        1
    }

    open spec fn wire_align() -> nat {
        1
    }

    open spec fn as_wire(self) -> Seq<u8> {
        seq![self]
    }

    open spec fn of_wire(bytes: Seq<u8>) -> Self {
        bytes[0]
    }

    proof fn lemma_wire_len(x: Self) {
    }

    proof fn lemma_size_align() {
    }

    proof fn lemma_of_as(x: Self) {
    }

    proof fn lemma_as_of(bytes: Seq<u8>) {
        assert(Self::of_wire(bytes).as_wire() =~= bytes);
    }

    fn wire_size_exec() -> usize {
        1
    }

    fn wire_align_exec() -> usize {
        1
    }

    fn read_wire(bytes: &[u8], off: usize) -> (r: Self) {
        bytes[off]
    }

    fn write_wire(&self, out: &mut Vec<u8>) {
        out.push(*self);
    }
}

impl Sealed for u16 {}

impl FuseAbiData for u16 {
    open spec fn wire_size() -> nat {
        2
    }

    open spec fn wire_align() -> nat {
        2
    }

    open spec fn as_wire(self) -> Seq<u8> {
        spec_u16_to_le_bytes(self)
    }

    open spec fn of_wire(bytes: Seq<u8>) -> Self {
        spec_u16_from_le_bytes(bytes)
    }

    proof fn lemma_wire_len(x: Self) {
        lemma_auto_spec_u16_to_from_le_bytes();
        assert(spec_u16_to_le_bytes(x).len() == 2);
    }

    proof fn lemma_size_align() {
    }

    proof fn lemma_of_as(x: Self) {
        lemma_auto_spec_u16_to_from_le_bytes();
        assert(spec_u16_to_le_bytes(x).len() == 2);
    }

    proof fn lemma_as_of(bytes: Seq<u8>) {
        lemma_auto_spec_u16_to_from_le_bytes();
    }

    fn wire_size_exec() -> usize {
        2
    }

    fn wire_align_exec() -> usize {
        2
    }

    fn read_wire(bytes: &[u8], off: usize) -> (r: Self) {
        proof {
            assert(Self::wire_size() == 2);
        }
        crate::wire::read_u16_at(bytes, off)
    }

    fn write_wire(&self, out: &mut Vec<u8>) {
        crate::wire::write_u16(out, *self);
    }
}

impl Sealed for u32 {}

impl FuseAbiData for u32 {
    open spec fn wire_size() -> nat {
        4
    }

    open spec fn wire_align() -> nat {
        4
    }

    open spec fn as_wire(self) -> Seq<u8> {
        spec_u32_to_le_bytes(self)
    }

    open spec fn of_wire(bytes: Seq<u8>) -> Self {
        spec_u32_from_le_bytes(bytes)
    }

    proof fn lemma_wire_len(x: Self) {
        lemma_auto_spec_u32_to_from_le_bytes();
        assert(spec_u32_to_le_bytes(x).len() == 4);
    }

    proof fn lemma_size_align() {
    }

    proof fn lemma_of_as(x: Self) {
        lemma_auto_spec_u32_to_from_le_bytes();
        assert(spec_u32_to_le_bytes(x).len() == 4);
    }

    proof fn lemma_as_of(bytes: Seq<u8>) {
        lemma_auto_spec_u32_to_from_le_bytes();
    }

    fn wire_size_exec() -> usize {
        4
    }

    fn wire_align_exec() -> usize {
        4
    }

    fn read_wire(bytes: &[u8], off: usize) -> (r: Self) {
        proof {
            assert(Self::wire_size() == 4);
        }
        crate::wire::read_u32_at(bytes, off)
    }

    fn write_wire(&self, out: &mut Vec<u8>) {
        crate::wire::write_u32(out, *self);
    }
}

impl Sealed for u64 {}

impl FuseAbiData for u64 {
    open spec fn wire_size() -> nat {
        8
    }

    open spec fn wire_align() -> nat {
        8
    }

    open spec fn as_wire(self) -> Seq<u8> {
        spec_u64_to_le_bytes(self)
    }

    open spec fn of_wire(bytes: Seq<u8>) -> Self {
        spec_u64_from_le_bytes(bytes)
    }

    proof fn lemma_wire_len(x: Self) {
        lemma_auto_spec_u64_to_from_le_bytes();
        assert(spec_u64_to_le_bytes(x).len() == 8);
    }

    proof fn lemma_size_align() {
    }

    proof fn lemma_of_as(x: Self) {
        lemma_auto_spec_u64_to_from_le_bytes();
        assert(spec_u64_to_le_bytes(x).len() == 8);
    }

    proof fn lemma_as_of(bytes: Seq<u8>) {
        lemma_auto_spec_u64_to_from_le_bytes();
    }

    fn wire_size_exec() -> usize {
        8
    }

    fn wire_align_exec() -> usize {
        8
    }

    fn read_wire(bytes: &[u8], off: usize) -> (r: Self) {
        proof {
            assert(Self::wire_size() == 8);
        }
        crate::wire::read_u64_at(bytes, off)
    }

    fn write_wire(&self, out: &mut Vec<u8>) {
        crate::wire::write_u64(out, *self);
    }
}

} // verus!
