//! The write half of a FUSE connection, as the library sees it.
//!
//! A reply frame is written to `/dev/fuse` in one atomic system call;
//! the kernel treats each write as a complete message. The trait below
//! abstracts that endpoint as the sequence of frames sent so far: a
//! send either appends exactly one whole frame or reports an OS error
//! and sends nothing.

use vstd::prelude::*;
use vstd::slice::slice_to_vec;

verus! {

/// Writes whole reply frames to a FUSE connection.
pub trait FuseWrite {
    /// The frames sent so far, oldest first.
    spec fn sent(&self) -> Seq<Seq<u8>>;

    /// Sends one whole reply frame atomically: on success exactly the
    /// frame's bytes went out, in order, as one message; on an OS
    /// error, reported as a raw errno, nothing was sent.
    fn send_reply(&mut self, frame: &[u8]) -> (r: Result<(), i32>)
        ensures
            match r {
                Ok(()) => final(self).sent() == old(self).sent().push(frame@),
                Err(_) => final(self).sent() == old(self).sent(),
            },
    ;
}

/// A writer that keeps every frame in memory: the endpoint used by
/// tests, and the collector a dispatch loop drains into the real
/// descriptor.
#[derive(Debug)]
pub struct VecWriter {
    frames: Vec<Vec<u8>>,
}

impl VecWriter {
    /// A writer with nothing sent yet.
    pub fn new() -> (w: Self)
        ensures
            w.sent() == Seq::<Seq<u8>>::empty(),
    {
        let w = VecWriter { frames: Vec::new() };
        proof {
            assert(w.sent() =~= Seq::<Seq<u8>>::empty());
        }
        w
    }

    /// The frames sent so far.
    pub fn frames(&self) -> (r: &Vec<Vec<u8>>)
        ensures
            r.deep_view() == self.sent(),
            r@.len() == self.sent().len(),
            forall|i: int| 0 <= i < r@.len() ==> r@[i]@ == self.sent()[i],
    {
        proof {
            assert(forall|i: int|
                0 <= i < self.frames@.len() ==> self.frames@[i]@ == #[trigger] self.frames.deep_view()[i]);
        }
        &self.frames
    }

    /// Removes and returns the frames sent so far.
    pub fn take_frames(&mut self) -> (r: Vec<Vec<u8>>)
        ensures
            r.deep_view() == old(self).sent(),
            final(self).sent() == Seq::<Seq<u8>>::empty(),
    {
        let mut out: Vec<Vec<u8>> = Vec::new();
        core::mem::swap(&mut out, &mut self.frames);
        proof {
            assert(self.sent() =~= Seq::<Seq<u8>>::empty());
        }
        out
    }
}

impl FuseWrite for VecWriter {
    closed spec fn sent(&self) -> Seq<Seq<u8>> {
        self.frames.deep_view()
    }

    fn send_reply(&mut self, frame: &[u8]) -> (r: Result<(), i32>) {
        let copy = slice_to_vec(frame);
        self.frames.push(copy);
        proof {
            assert(self.sent() =~~= old(self).sent().push(frame@));
        }
        Ok(())
    }
}

} // verus!
