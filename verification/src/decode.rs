//! The decoder: a checked cursor over a request frame.
//!
//! A request frame is one contiguous byte buffer the kernel wrote in a
//! single read; the kernel stores it 8-byte aligned (page aligned, in
//! fact), and every ABI record's size is a multiple of its alignment,
//! so records concatenated without padding stay naturally aligned. The
//! decoder walks the frame, checking on each fetch that enough bytes
//! remain and that the cursor sits on a properly aligned offset.

use crate::abi::FuseAbiData;
use crate::c_bytes::has_nul;
use crate::c_bytes::CBytes;
use crate::context::ProtocolVersion;
use vstd::prelude::*;
use vstd::slice::slice_subrange;

verus! {

broadcast use vstd::slice::group_slice_axioms;

/// The error of a failed decode.
#[derive(Debug, Clone, Copy, PartialEq, Eq, Structural)]
pub enum DecodeError {
    /// Fewer bytes remain than the fetched value needs.
    NotEnough,
    /// Bytes remain after a frame should have been fully consumed.
    TooMuchData,
    /// The cursor does not sit on the alignment of the fetched record.
    AlignMismatch,
    /// A slice byte count overflows the machine word.
    NumOverflow,
    /// A field holds a value the protocol does not allow, or the frame
    /// header contradicts the frame.
    InvalidValue,
}

/// Decodes FUSE ABI records out of a borrowed request frame.
pub struct Decoder<'b> {
    /// The whole frame.
    bytes: &'b [u8],
    /// How many bytes are consumed.
    pos: usize,
    /// Distance of the frame's first byte from an 8-byte-aligned
    /// storage boundary: zero for a frame at the start of a pool
    /// buffer.
    start: usize,
}

impl<'b> Decoder<'b> {
    /// The whole frame the decoder walks.
    pub closed spec fn spec_full(&self) -> Seq<u8> {
        self.bytes@
    }

    /// How many bytes are consumed.
    pub closed spec fn spec_pos(&self) -> nat {
        self.pos as nat
    }

    /// Distance of the frame start from an 8-byte-aligned boundary.
    pub closed spec fn spec_start(&self) -> nat {
        self.start as nat
    }

    #[verifier::type_invariant]
    spec fn cursor_in_frame(self) -> bool {
        &&& self.pos <= self.bytes@.len()
        &&& self.start < 8
    }

    /// The bytes not yet consumed.
    pub open spec fn remaining(&self) -> Seq<u8> {
        self.spec_full().skip(self.spec_pos() as int)
    }

    /// Whether the cursor sits on a multiple of `align`, counting from
    /// the frame's aligned storage boundary.
    pub open spec fn aligned_for(&self, align: nat) -> bool {
        (self.spec_start() + self.spec_pos()) % align == 0
    }

    /// A decoder over a frame that starts on an 8-byte-aligned storage
    /// boundary, as every frame read into a pool buffer does.
    pub fn new(bytes: &'b [u8]) -> (de: Self)
        ensures
            de.spec_full() == bytes@,
            de.spec_pos() == 0,
            de.spec_start() == 0,
    {
        Decoder { bytes, pos: 0, start: 0 }
    }

    /// A decoder over a frame whose first byte sits `offset` bytes
    /// past an 8-byte-aligned storage boundary.
    pub fn new_at_offset(bytes: &'b [u8], offset: usize) -> (de: Self)
        ensures
            de.spec_full() == bytes@,
            de.spec_pos() == 0,
            de.spec_start() == offset % 8,
    {
        Decoder { bytes, pos: 0, start: offset % 8 }
    }

    /// Whether the frame is fully consumed.
    pub fn is_empty(&self) -> (r: bool)
        ensures
            self.spec_pos() <= self.spec_full().len(),
            r == (self.remaining().len() == 0),
    {
        proof {
            use_type_invariant(self);
        }
        self.pos == self.bytes.len()
    }

    /// Fetches one ABI record and advances the cursor by its size.
    ///
    /// Succeeds exactly when at least `wire_size` bytes remain and the
    /// cursor is aligned for the record; the record read is the one the
    /// consumed bytes denote. `NotEnough` reports a short frame,
    /// `AlignMismatch` a misaligned cursor; either way the cursor does
    /// not move.
    pub fn fetch<T: FuseAbiData>(&mut self) -> (r: Result<T, DecodeError>)
        ensures
            old(self).spec_pos() <= old(self).spec_full().len(),
            final(self).spec_pos() <= final(self).spec_full().len(),
            match r {
                Ok(v) => {
                    &&& T::wire_size() <= old(self).remaining().len()
                    &&& old(self).aligned_for(T::wire_align())
                    &&& v == T::of_wire(old(self).remaining().take(T::wire_size() as int))
                    &&& final(self).spec_full() == old(self).spec_full()
                    &&& final(self).spec_start() == old(self).spec_start()
                    &&& final(self).spec_pos() == old(self).spec_pos() + T::wire_size()
                },
                Err(e) => {
                    &&& *final(self) == *old(self)
                    &&& (e == DecodeError::NotEnough || e == DecodeError::AlignMismatch)
                    &&& (e == DecodeError::NotEnough <==> old(self).remaining().len() < T::wire_size())
                    &&& (e == DecodeError::AlignMismatch ==> !old(self).aligned_for(
                        T::wire_align(),
                    ))
                },
            },
    {
        proof {
            use_type_invariant(&*self);
            T::lemma_size_align();
        }
        let size: usize = T::wire_size_exec();
        let align: usize = T::wire_align_exec();
        let len: usize = self.bytes.len();

        if len - self.pos < size {
            return Err(DecodeError::NotEnough);
        }

        proof {
            vstd::arithmetic::div_mod::lemma_add_mod_noop(
                self.start as int,
                self.pos as int,
                align as int,
            );
        }
        if (self.start % align + self.pos % align) % align != 0 {
            return Err(DecodeError::AlignMismatch);
        }

        let v: T = T::read_wire(self.bytes, self.pos);
        proof {
            assert(self.bytes@.subrange(self.pos as int, self.pos as int + T::wire_size())
                =~= self.remaining().take(T::wire_size() as int));
        }
        self.pos = self.pos + size;
        Ok(v)
    }

    /// Fetches a contiguous run of `n` ABI records.
    ///
    /// `NumOverflow` reports a run whose byte count overflows the
    /// machine word; otherwise the checks and the cursor behaviour are
    /// those of [`Decoder::fetch`], over `n * wire_size` bytes.
    pub fn fetch_slice<T: FuseAbiData>(&mut self, n: usize) -> (r: Result<Vec<T>, DecodeError>)
        ensures
            old(self).spec_pos() <= old(self).spec_full().len(),
            final(self).spec_pos() <= final(self).spec_full().len(),
            match r {
                Ok(vs) => {
                    &&& T::wire_size() * n <= old(self).remaining().len()
                    &&& old(self).aligned_for(T::wire_align())
                    &&& vs@.len() == n
                    &&& forall|i: int|
                        0 <= i < n ==> vs@[i] == T::of_wire(
                            #[trigger] old(self).remaining().subrange(
                                i * T::wire_size(),
                                (i + 1) * T::wire_size(),
                            ),
                        )
                    &&& final(self).spec_full() == old(self).spec_full()
                    &&& final(self).spec_start() == old(self).spec_start()
                    &&& final(self).spec_pos() == old(self).spec_pos() + T::wire_size() * n
                },
                Err(e) => {
                    &&& *final(self) == *old(self)
                    &&& (e == DecodeError::NumOverflow || e == DecodeError::NotEnough || e
                        == DecodeError::AlignMismatch)
                    &&& (e == DecodeError::NumOverflow <==> T::wire_size() * n > usize::MAX)
                    &&& (e == DecodeError::NotEnough <==> T::wire_size() * n <= usize::MAX
                        && old(self).remaining().len() < T::wire_size() * n)
                    &&& (e == DecodeError::AlignMismatch ==> !old(self).aligned_for(
                        T::wire_align(),
                    ))
                },
            },
    {
        proof {
            use_type_invariant(&*self);
            T::lemma_size_align();
        }
        let size: usize = T::wire_size_exec();
        let align: usize = T::wire_align_exec();
        let len: usize = self.bytes.len();

        let run: usize = match size.checked_mul(n) {
            Some(run) => run,
            None => {
                return Err(DecodeError::NumOverflow);
            },
        };

        if len - self.pos < run {
            return Err(DecodeError::NotEnough);
        }

        proof {
            vstd::arithmetic::div_mod::lemma_add_mod_noop(
                self.start as int,
                self.pos as int,
                align as int,
            );
        }
        if (self.start % align + self.pos % align) % align != 0 {
            return Err(DecodeError::AlignMismatch);
        }

        let ghost old_self = *self;
        let mut vs: Vec<T> = Vec::new();
        let mut i: usize = 0;
        while i < n
            invariant
                i <= n,
                *self == old_self,
                self.pos <= self.bytes@.len(),
                size == T::wire_size(),
                run == T::wire_size() * n,
                run <= self.bytes@.len() - self.pos,
                self.pos + run <= usize::MAX,
                vs@.len() == i,
                forall|k: int|
                    0 <= k < i ==> vs@[k] == T::of_wire(
                        #[trigger] old_self.remaining().subrange(
                            k * T::wire_size(),
                            (k + 1) * T::wire_size(),
                        ),
                    ),
            decreases n - i,
        {
            proof {
                T::lemma_size_align();
                assert((i + 1) * size == i * size + size) by (nonlinear_arith);
                assert(i * size >= 0 && (i + 1) * size <= n * size) by (nonlinear_arith)
                    requires
                        0 <= i < n,
                        size > 0,
                ;
                assert(n * size == size * n) by (nonlinear_arith);
            }
            let off: usize = self.pos + i * size;
            let v: T = T::read_wire(self.bytes, off);
            proof {
                assert(self.bytes@.subrange(off as int, off as int + T::wire_size())
                    =~= old_self.remaining().subrange(
                    i * T::wire_size(),
                    (i + 1) * T::wire_size(),
                ));
            }
            vs.push(v);
            i = i + 1;
        }

        self.pos = self.pos + run;
        proof {
            assert(T::wire_size() * n == run);
        }
        Ok(vs)
    }

    /// Returns and consumes all remaining bytes of the frame.
    pub fn fetch_all_bytes(&mut self) -> (r: Result<&'b [u8], DecodeError>)
        ensures
            old(self).spec_pos() <= old(self).spec_full().len(),
            final(self).spec_pos() <= final(self).spec_full().len(),
            r is Ok,
            r.unwrap()@ == old(self).remaining(),
            final(self).spec_full() == old(self).spec_full(),
            final(self).spec_start() == old(self).spec_start(),
            final(self).spec_pos() == old(self).spec_full().len(),
    {
        proof {
            use_type_invariant(&*self);
        }
        let len: usize = self.bytes.len();
        let rest: &'b [u8] = slice_subrange(self.bytes, self.pos, len);
        self.pos = len;
        Ok(rest)
    }

    /// Fetches the bytes up to and including the first NUL, as a
    /// [`CBytes`]. `NotEnough` reports a frame with no NUL left; the
    /// cursor then does not move.
    pub fn fetch_c_bytes(&mut self) -> (r: Result<CBytes<'b>, DecodeError>)
        ensures
            old(self).spec_pos() <= old(self).spec_full().len(),
            final(self).spec_pos() <= final(self).spec_full().len(),
            match r {
                Ok(cb) => {
                    &&& 1 <= cb@.len() <= old(self).remaining().len()
                    &&& cb@ == old(self).remaining().take(cb@.len() as int)
                    &&& cb@.last() == 0
                    &&& forall|j: int| 0 <= j < cb@.len() - 1 ==> cb@[j] != 0
                    &&& final(self).spec_full() == old(self).spec_full()
                    &&& final(self).spec_start() == old(self).spec_start()
                    &&& final(self).spec_pos() == old(self).spec_pos() + cb@.len()
                },
                Err(e) => {
                    &&& *final(self) == *old(self)
                    &&& e == DecodeError::NotEnough
                    &&& !has_nul(old(self).remaining())
                },
            },
    {
        proof {
            use_type_invariant(&*self);
        }
        let len: usize = self.bytes.len();
        let rest: &'b [u8] = slice_subrange(self.bytes, self.pos, len);
        match memchr::memchr(0, rest) {
            None => {
                proof {
                    assert(!has_nul(self.remaining()));
                }
                Err(DecodeError::NotEnough)
            },
            Some(idx) => {
                let taken: &'b [u8] = slice_subrange(rest, 0, idx + 1);
                proof {
                    assert(taken@ =~= self.remaining().take(idx + 1));
                }
                let cb = CBytes::new_unchecked(taken);
                self.pos = self.pos + (idx + 1);
                Ok(cb)
            },
        }
    }

    /// Passes a decode result through, demanding that the frame is now
    /// fully consumed: a leftover after a complete request body is
    /// `TooMuchData`.
    pub fn all_consuming<T>(&self, r: Result<T, DecodeError>) -> (out: Result<T, DecodeError>)
        ensures
            r is Err ==> out == r,
            r is Ok && self.remaining().len() == 0 ==> out == r,
            r is Ok && self.remaining().len() != 0 ==> out == Err::<T, DecodeError>(
                DecodeError::TooMuchData,
            ),
    {
        match r {
            Err(e) => Err(e),
            Ok(v) => {
                if self.is_empty() {
                    Ok(v)
                } else {
                    Err(DecodeError::TooMuchData)
                }
            },
        }
    }

    /// Decodes a typed value via its [`Decode`] implementation.
    pub fn decode<T: Decode<'b>>(&mut self, proto: ProtocolVersion) -> (r: Result<T, DecodeError>)
        ensures
            old(self).spec_pos() <= old(self).spec_full().len(),
            final(self).spec_pos() <= final(self).spec_full().len(),
            match r {
                Ok(v) => {
                    &&& final(self).spec_full() == old(self).spec_full()
                    &&& final(self).spec_start() == old(self).spec_start()
                    &&& old(self).spec_pos() <= final(self).spec_pos()
                    &&& T::parsed_from(
                        old(self).remaining(),
                        final(self).spec_pos() - old(self).spec_pos(),
                        v,
                    )
                },
                Err(e) => T::decode_err(*old(self), e),
            },
    {
        proof {
            use_type_invariant(&*self);
        }
        let r = T::decode(self, proto);
        proof {
            use_type_invariant(&*self);
        }
        r
    }
}

/// Types that can be decoded from a request frame.
///
/// `parsed_from` is the exact relation between the bytes consumed and
/// the value produced; `decode_err` says on which cursors which error
/// comes.
pub trait Decode<'b>: Sized {
    /// The exact relation between the first `used` bytes of the input
    /// and the value produced from them.
    spec fn parsed_from(rest: Seq<u8>, used: int, v: Self) -> bool;

    /// The cursors on which decoding fails with `e`.
    spec fn decode_err(old_de: Decoder<'b>, e: DecodeError) -> bool;

    /// Decodes `Self` from the cursor. On success the frame and its
    /// alignment are untouched, and the cursor advanced over exactly
    /// the bytes the value was parsed from.
    fn decode(de: &mut Decoder<'b>, proto: ProtocolVersion) -> (r: Result<Self, DecodeError>)
        ensures
            match r {
                Ok(v) => {
                    &&& final(de).spec_full() == old(de).spec_full()
                    &&& final(de).spec_start() == old(de).spec_start()
                    &&& old(de).spec_pos() <= final(de).spec_pos()
                    &&& Self::parsed_from(
                        old(de).remaining(),
                        final(de).spec_pos() - old(de).spec_pos(),
                        v,
                    )
                },
                Err(e) => Self::decode_err(*old(de), e),
            },
    ;
}

} // verus!

