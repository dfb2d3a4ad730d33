//! NUL-terminated byte strings inside request frames.
//!
//! Names in FUSE requests arrive as bytes ending in the frame's only
//! NUL byte. [`CBytes`] is a view of such bytes: it always ends in a
//! NUL and holds no other one, so the name itself is everything before
//! the terminator.

use vstd::prelude::*;

verus! {

broadcast use vstd::slice::group_slice_axioms;

/// Whether `bytes` holds a NUL byte anywhere.
pub open spec fn has_nul(bytes: Seq<u8>) -> bool {
    exists|j: int| 0 <= j < bytes.len() && bytes[j] == 0
}

/// Whether the first `k` bytes of `bytes` form a NUL-terminated name:
/// the byte at `k - 1` is the first NUL of `bytes`.
pub open spec fn c_prefix(bytes: Seq<u8>, k: int) -> bool {
    &&& 1 <= k <= bytes.len()
    &&& bytes[k - 1] == 0
    &&& forall|j: int| 0 <= j < k - 1 ==> bytes[j] != 0
}

/// Relies on `memchr::memchr`: it returns the index of the first
/// occurrence of `needle` in `haystack`, or `None` when the byte does
/// not occur, as its documentation states.
pub assume_specification[ memchr::memchr ](needle: u8, haystack: &[u8]) -> (r: Option<usize>)
    ensures
        match r {
            Some(i) => {
                &&& i < haystack@.len()
                &&& haystack@[i as int] == needle
                &&& forall|j: int| 0 <= j < i ==> haystack@[j] != needle
            },
            None => forall|j: int| 0 <= j < haystack@.len() ==> haystack@[j] != needle,
        },
;

/// A NUL-terminated prefix is unique: its last byte is the first NUL
/// of the sequence, so two such prefixes have the same length.
pub proof fn lemma_c_prefix_unique(bytes: Seq<u8>, k1: int, k2: int)
    requires
        c_prefix(bytes, k1),
        c_prefix(bytes, k2),
    ensures
        k1 == k2,
{
    if k1 < k2 {
        assert(bytes[k1 - 1] == 0);
        assert(bytes[k1 - 1] != 0);
    }
    if k2 < k1 {
        assert(bytes[k2 - 1] == 0);
        assert(bytes[k2 - 1] != 0);
    }
}

/// The error of [`check_bytes`]: the bytes hold an interior NUL.
#[derive(Debug, Clone, Copy, PartialEq, Eq, Structural)]
pub struct NulError {
    pos: usize,
}

impl NulError {
    /// The position of the offending NUL byte.
    pub closed spec fn spec_nul_position(&self) -> usize {
        self.pos
    }

    /// The position of the offending NUL byte.
    pub fn nul_position(&self) -> (pos: usize)
        ensures
            pos == self.spec_nul_position(),
    {
        self.pos
    }
}

/// Checks that the bytes hold no NUL byte; the error carries the
/// position of the first one found.
pub fn check_bytes(bytes: &[u8]) -> (r: Result<(), NulError>)
    ensures
        match r {
            Ok(()) => !has_nul(bytes@),
            Err(e) => {
                &&& e.spec_nul_position() < bytes@.len()
                &&& bytes@[e.spec_nul_position() as int] == 0
                &&& forall|j: int| 0 <= j < e.spec_nul_position() ==> bytes@[j] != 0
            },
        },
{
    match memchr::memchr(0, bytes) {
        None => Ok(()),
        Some(pos) => Err(NulError { pos }),
    }
}

/// NUL-terminated bytes: nonempty, ending in their only NUL byte.
/// The view is the whole byte range, terminator included.
#[derive(Debug)]
pub struct CBytes<'b> {
    bytes: &'b [u8],
}

impl<'b> View for CBytes<'b> {
    type V = Seq<u8>;

    closed spec fn view(&self) -> Seq<u8> {
        self.bytes@
    }
}

impl<'b> CBytes<'b> {
    #[verifier::type_invariant]
    spec fn terminated(self) -> bool {
        &&& self@.len() >= 1
        &&& self@.last() == 0
        &&& forall|j: int| 0 <= j < self@.len() - 1 ==> self@[j] != 0
    }

    /// Wraps bytes already known to end in their only NUL.
    pub fn new_unchecked(bytes: &'b [u8]) -> (r: Self)
        requires
            bytes@.len() >= 1,
            bytes@.last() == 0,
            forall|j: int| 0 <= j < bytes@.len() - 1 ==> bytes@[j] != 0,
        ensures
            r@ == bytes@,
    {
        CBytes { bytes }
    }

    /// The bytes before the NUL terminator.
    pub fn as_bytes(&self) -> (r: &'b [u8])
        ensures
            r@ == self@.take(self@.len() - 1),
            !has_nul(r@),
            self@.len() >= 1,
            self@.last() == 0,
    {
        proof {
            use_type_invariant(self);
        }
        let len: usize = self.bytes.len();
        vstd::slice::slice_subrange(self.bytes, 0, len - 1)
    }
}

} // verus!
