//! The encoder sink: reply values turned into reply body bytes.
//!
//! A reply value contributes zero or more byte fragments to the frame
//! written back to the kernel. [`Encode::encoded`] is the exact byte
//! sequence a value contributes; `collect_bytes` appends those bytes to
//! the frame under construction.

use vstd::prelude::*;
use vstd::slice::slice_subrange;
use vstd::slice::slice_to_vec;

verus! {

broadcast use vstd::slice::group_slice_axioms;

/// Types whose values can be encoded into a reply body.
pub trait Encode {
    /// The exact bytes this value contributes to the reply body.
    spec fn encoded(&self) -> Seq<u8>;

    /// Appends this value's reply bytes to `out`.
    fn collect_bytes(&self, out: &mut Vec<u8>)
        ensures
            final(out)@ == old(out)@ + self.encoded(),
    ;
}

/// The window `[offset, offset + size)` of `buf`, clipped to the bytes
/// that exist: what a read-style reply sends of its source.
pub open spec fn clip(buf: Seq<u8>, offset: nat, size: nat) -> Seq<u8> {
    let start = if offset <= buf.len() {
        offset as int
    } else {
        buf.len() as int
    };
    let end = if offset + size <= buf.len() {
        (offset + size) as int
    } else {
        buf.len() as int
    };
    buf.subrange(start, end)
}

/// Appends bytes to a reply frame under construction.
pub fn add_bytes(out: &mut Vec<u8>, bytes: &[u8])
    ensures
        final(out)@ == old(out)@ + bytes@,
{
    let mut tmp = slice_to_vec(bytes);
    out.append(&mut tmp);
}

/// Appends the clipped window `[offset, offset + size)` of `buf`.
pub fn add_clipped(out: &mut Vec<u8>, buf: &[u8], offset: usize, size: usize)
    ensures
        final(out)@ == old(out)@ + clip(buf@, offset as nat, size as nat),
{
    let len: usize = buf.len();
    let start: usize = if offset < len {
        offset
    } else {
        len
    };
    let end: usize = if offset >= len {
        len
    } else {
        if size < len - offset {
            offset + size
        } else {
            len
        }
    };
    let window: &[u8] = slice_subrange(buf, start, end);
    proof {
        assert(window@ =~= clip(buf@, offset as nat, size as nat));
    }
    add_bytes(out, window);
}

} // verus!
