//! OS error numbers as they appear in FUSE reply headers.
//!
//! A reply header carries the negated errno of a failed request. The
//! values below are the Linux error numbers the runtime itself needs;
//! a filesystem may wrap any other errno with [`Errno::new`].

use vstd::prelude::*;

verus! {

/// `ENOENT`: no such file or directory.
pub const ENOENT: i32 = 2;

/// `EIO`: input/output error.
pub const EIO: i32 = 5;

/// `EAGAIN`: the read would block; retry.
pub const EAGAIN: i32 = 11;

/// `EACCES`: permission denied.
pub const EACCES: i32 = 13;

/// `ENODEV`: the FUSE mount was torn down.
pub const ENODEV: i32 = 19;

/// `ENOTDIR`: not a directory.
pub const ENOTDIR: i32 = 20;

/// `EISDIR`: is a directory.
pub const EISDIR: i32 = 21;

/// `EINVAL`: invalid argument; sent for malformed request bodies.
pub const EINVAL: i32 = 22;

/// `ENOSYS`: operation not implemented; sent for unknown opcodes.
pub const ENOSYS: i32 = 38;

/// An OS error number, as sent back to the kernel in a reply header.
#[derive(Debug, Clone, Copy, PartialEq, Eq, Structural)]
pub struct Errno(pub i32);

impl Errno {
    /// Wraps a raw OS error number.
    pub fn new(raw: i32) -> (e: Self)
        ensures
            e.0 == raw,
    {
        Errno(raw)
    }

    /// The raw OS error number.
    pub fn as_raw(&self) -> (raw: i32)
        ensures
            raw == self.0,
    {
        self.0
    }
}

} // verus!
