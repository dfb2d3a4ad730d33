//! Checked numeric conversions and small buffer helpers.

use vstd::prelude::*;
use vstd::slice::slice_subrange;

verus! {

/// Conversion to the same-width integer type, wrapping through two's
/// complement.
pub trait WrappingCast: Sized {
    /// The same-width target type.
    type Target;

    /// The two's-complement image of the value.
    spec fn spec_wrapping_cast(self) -> Self::Target;

    /// Casts, wrapping through two's complement.
    fn wrapping_cast(self) -> (r: Self::Target)
        ensures
            r == self.spec_wrapping_cast(),
    ;
}

impl WrappingCast for u32 {
    type Target = i32;

    open spec fn spec_wrapping_cast(self) -> i32 {
        self as i32
    }

    fn wrapping_cast(self) -> (r: i32) {
        self as i32
    }
}

impl WrappingCast for i32 {
    type Target = u32;

    open spec fn spec_wrapping_cast(self) -> u32 {
        self as u32
    }

    fn wrapping_cast(self) -> (r: u32) {
        self as u32
    }
}

impl WrappingCast for u64 {
    type Target = i64;

    open spec fn spec_wrapping_cast(self) -> i64 {
        self as i64
    }

    fn wrapping_cast(self) -> (r: i64) {
        self as i64
    }
}

impl WrappingCast for i64 {
    type Target = u64;

    open spec fn spec_wrapping_cast(self) -> u64 {
        self as u64
    }

    fn wrapping_cast(self) -> (r: u64) {
        self as u64
    }
}

/// Conversion to a narrower integer type, keeping the low bits.
pub trait TruncatingCast<U>: Sized {
    /// The low bits of the value, as the target type.
    spec fn spec_truncating_cast(self) -> U;

    /// Casts, keeping the low bits.
    fn truncating_cast(self) -> (r: U)
        ensures
            r == self.spec_truncating_cast(),
    ;
}

impl TruncatingCast<u8> for u32 {
    open spec fn spec_truncating_cast(self) -> u8 {
        self as u8
    }

    fn truncating_cast(self) -> (r: u8) {
        self as u8
    }
}

/// Widens a byte to the field width directory entries store types in.
pub fn u8_to_u32(x: u8) -> (r: u32)
    ensures
        r == x as u32,
{
    x as u32
}

/// Conversion between integer widths that demands the value fits.
pub trait ForceConvert<U>: Sized {
    /// Whether the value survives the conversion unchanged.
    spec fn fits(self) -> bool;

    /// The converted value.
    spec fn spec_force_convert(self) -> U;

    /// Converts; a value that does not fit is left out.
    fn force_convert(self) -> (r: U)
        requires
            self.fits(),
        ensures
            r == self.spec_force_convert(),
    ;
}

impl ForceConvert<usize> for u64 {
    open spec fn fits(self) -> bool {
        self <= usize::MAX
    }

    open spec fn spec_force_convert(self) -> usize {
        self as usize
    }

    fn force_convert(self) -> (r: usize) {
        self as usize
    }
}

impl ForceConvert<usize> for u32 {
    open spec fn fits(self) -> bool {
        true
    }

    open spec fn spec_force_convert(self) -> usize {
        self as usize
    }

    fn force_convert(self) -> (r: usize) {
        self as usize
    }
}

impl ForceConvert<u64> for usize {
    open spec fn fits(self) -> bool {
        true
    }

    open spec fn spec_force_convert(self) -> u64 {
        self as u64
    }

    fn force_convert(self) -> (r: u64) {
        self as u64
    }
}

impl ForceConvert<u32> for usize {
    open spec fn fits(self) -> bool {
        self <= u32::MAX
    }

    open spec fn spec_force_convert(self) -> u32 {
        self as u32
    }

    fn force_convert(self) -> (r: u32) {
        self as u32
    }
}

/// Whether two byte strings hold the same bytes.
pub fn bytes_eq(a: &[u8], b: &[u8]) -> (r: bool)
    ensures
        r == (a@ == b@),
{
    let a_len: usize = a.len();
    let b_len: usize = b.len();
    if a_len != b_len {
        proof {
            assert(a@ != b@);
        }
        return false;
    }
    let mut i: usize = 0;
    while i < a_len
        invariant
            i <= a_len,
            a_len == a@.len() == b@.len(),
            forall|j: int| 0 <= j < i ==> a@[j] == b@[j],
        decreases a_len - i,
    {
        if a[i] != b[i] {
            proof {
                assert(a@ != b@);
            }
            return false;
        }
        i = i + 1;
    }
    proof {
        assert(a@ =~= b@);
    }
    true
}

/// `x` as a machine word, clamped to the largest one.
pub open spec fn spec_clamp_to_usize(x: u64) -> usize {
    if x <= usize::MAX {
        x as usize
    } else {
        usize::MAX
    }
}

/// Clamps a 64-bit offset to a machine word: an offset past what a
/// word addresses clips everything anyway.
pub fn clamp_to_usize(x: u64) -> (r: usize)
    ensures
        r == spec_clamp_to_usize(x),
{
    if x <= usize::MAX as u64 {
        x as usize
    } else {
        usize::MAX
    }
}

/// A buffer frozen at a length: the first `len` bytes of its storage,
/// as a read that filled them leaves it.
#[derive(Debug)]
pub struct FreezedBuf {
    buf: Vec<u8>,
    len: usize,
}

impl FreezedBuf {
    /// The frozen bytes.
    pub closed spec fn spec_bytes(&self) -> Seq<u8> {
        self.buf@.take(self.len as int)
    }

    #[verifier::type_invariant]
    spec fn len_in_buf(self) -> bool {
        self.len <= self.buf@.len()
    }

    /// Freezes the first `len` bytes of `buf`. A length beyond the
    /// storage is left out.
    pub fn new(buf: Vec<u8>, len: usize) -> (r: Self)
        requires
            len <= buf@.len(),
        ensures
            r.spec_bytes() == buf@.take(len as int),
    {
        FreezedBuf { buf, len }
    }

    /// The frozen bytes.
    pub fn bytes(&self) -> (r: &[u8])
        ensures
            r@ == self.spec_bytes(),
    {
        proof {
            use_type_invariant(self);
        }
        slice_subrange(self.buf.as_slice(), 0, self.len)
    }
}

} // verus!
