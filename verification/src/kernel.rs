//! The FUSE kernel wire protocol: record layouts, opcodes, and flags.
//!
//! Mirrors the kernel header `fuse_kernel.h` for protocol version 7.31.
//! Every record is a concatenation of little-endian fields with the
//! padding the kernel itself prescribes, so the concatenated field
//! bytes are exactly the record's bytes on the wire.

use crate::abi::FuseAbiData;
use crate::abi::Sealed;
use vstd::bytes::lemma_auto_spec_u16_to_from_le_bytes;
use vstd::bytes::lemma_auto_spec_u32_to_from_le_bytes;
use vstd::bytes::lemma_auto_spec_u64_to_from_le_bytes;
use vstd::bytes::spec_u16_from_le_bytes;
use vstd::bytes::spec_u16_to_le_bytes;
use vstd::bytes::spec_u32_from_le_bytes;
use vstd::bytes::spec_u32_to_le_bytes;
use vstd::bytes::spec_u64_from_le_bytes;
use vstd::bytes::spec_u64_to_le_bytes;
use vstd::prelude::*;

verus! {

broadcast use vstd::slice::group_slice_axioms;

/// Major version of the FUSE protocol this runtime speaks.
pub const FUSE_KERNEL_VERSION: u32 = 7;

/// Minor version of the FUSE protocol this runtime speaks.
pub const FUSE_KERNEL_MINOR_VERSION: u32 = 31;

/// The node id of the root inode.
pub const FUSE_ROOT_ID: u32 = 1;

// Bitmasks for fuse_setattr_in.valid.
pub const FATTR_MODE: u32 = 1 << 0;
pub const FATTR_UID: u32 = 1 << 1;
pub const FATTR_GID: u32 = 1 << 2;
pub const FATTR_SIZE: u32 = 1 << 3;
pub const FATTR_ATIME: u32 = 1 << 4;
pub const FATTR_MTIME: u32 = 1 << 5;
pub const FATTR_FH: u32 = 1 << 6;
pub const FATTR_ATIME_NOW: u32 = 1 << 7;
pub const FATTR_MTIME_NOW: u32 = 1 << 8;
pub const FATTR_LOCKOWNER: u32 = 1 << 9;
pub const FATTR_CTIME: u32 = 1 << 10;

// Flags returned by the OPEN request.
pub const FOPEN_DIRECT_IO: u32 = 1 << 0;
pub const FOPEN_KEEP_CACHE: u32 = 1 << 1;
pub const FOPEN_NONSEEKABLE: u32 = 1 << 2;
pub const FOPEN_CACHE_DIR: u32 = 1 << 3;
pub const FOPEN_STREAM: u32 = 1 << 4;

// INIT request/reply capability flags.
pub const FUSE_ASYNC_READ: u32 = 1 << 0;
pub const FUSE_POSIX_LOCKS: u32 = 1 << 1;
pub const FUSE_FILE_OPS: u32 = 1 << 2;
pub const FUSE_ATOMIC_O_TRUNC: u32 = 1 << 3;
pub const FUSE_EXPORT_SUPPORT: u32 = 1 << 4;
pub const FUSE_BIG_WRITES: u32 = 1 << 5;
pub const FUSE_DONT_MASK: u32 = 1 << 6;
pub const FUSE_SPLICE_WRITE: u32 = 1 << 7;
pub const FUSE_SPLICE_MOVE: u32 = 1 << 8;
pub const FUSE_SPLICE_READ: u32 = 1 << 9;
pub const FUSE_FLOCK_LOCKS: u32 = 1 << 10;
pub const FUSE_HAS_IOCTL_DIR: u32 = 1 << 11;
pub const FUSE_AUTO_INVAL_DATA: u32 = 1 << 12;
pub const FUSE_DO_READDIRPLUS: u32 = 1 << 13;
pub const FUSE_READDIRPLUS_AUTO: u32 = 1 << 14;
pub const FUSE_ASYNC_DIO: u32 = 1 << 15;
pub const FUSE_WRITEBACK_CACHE: u32 = 1 << 16;
pub const FUSE_NO_OPEN_SUPPORT: u32 = 1 << 17;
pub const FUSE_PARALLEL_DIROPS: u32 = 1 << 18;
pub const FUSE_HANDLE_KILLPRIV: u32 = 1 << 19;
pub const FUSE_POSIX_ACL: u32 = 1 << 20;
pub const FUSE_ABORT_ERROR: u32 = 1 << 21;
pub const FUSE_MAX_PAGES: u32 = 1 << 22;
pub const FUSE_CACHE_SYMLINKS: u32 = 1 << 23;
pub const FUSE_NO_OPENDIR_SUPPORT: u32 = 1 << 24;
pub const FUSE_EXPLICIT_INVAL_DATA: u32 = 1 << 25;

// CUSE INIT request/reply flags.
pub const CUSE_UNRESTRICTED_IOCTL: u32 = 1 << 0;

// Release flags.
pub const FUSE_RELEASE_FLUSH: u32 = 1 << 0;
pub const FUSE_RELEASE_FLOCK_UNLOCK: u32 = 1 << 1;

// Getattr flags.
pub const FUSE_GETATTR_FH: u32 = 1 << 0;

// Lock flags.
pub const FUSE_LK_FLOCK: u32 = 1 << 0;

// WRITE flags.
pub const FUSE_WRITE_CACHE: u32 = 1 << 0;
pub const FUSE_WRITE_LOCKOWNER: u32 = 1 << 1;
pub const FUSE_WRITE_KILL_PRIV: u32 = 1 << 2;

// Read flags.
pub const FUSE_READ_LOCKOWNER: u32 = 1 << 1;

// Ioctl flags.
pub const FUSE_IOCTL_COMPAT: u32 = 1 << 0;
pub const FUSE_IOCTL_UNRESTRICTED: u32 = 1 << 1;
pub const FUSE_IOCTL_RETRY: u32 = 1 << 2;
pub const FUSE_IOCTL_32BIT: u32 = 1 << 3;
pub const FUSE_IOCTL_DIR: u32 = 1 << 4;
pub const FUSE_IOCTL_COMPAT_X32: u32 = 1 << 5;

/// Maximum of in_iovecs + out_iovecs.
pub const FUSE_IOCTL_MAX_IOV: u32 = 256;

// Poll flags.
pub const FUSE_POLL_SCHEDULE_NOTIFY: u32 = 1 << 0;

// Fsync flags.
pub const FUSE_FSYNC_FDATASYNC: u32 = 1 << 0;

// Opcodes of the request header.
pub const FUSE_LOOKUP: u32 = 1;
pub const FUSE_FORGET: u32 = 2;
pub const FUSE_GETATTR: u32 = 3;
pub const FUSE_SETATTR: u32 = 4;
pub const FUSE_READLINK: u32 = 5;
pub const FUSE_SYMLINK: u32 = 6;
pub const FUSE_MKNOD: u32 = 8;
pub const FUSE_MKDIR: u32 = 9;
pub const FUSE_UNLINK: u32 = 10;
pub const FUSE_RMDIR: u32 = 11;
pub const FUSE_RENAME: u32 = 12;
pub const FUSE_LINK: u32 = 13;
pub const FUSE_OPEN: u32 = 14;
pub const FUSE_READ: u32 = 15;
pub const FUSE_WRITE: u32 = 16;
pub const FUSE_STATFS: u32 = 17;
pub const FUSE_RELEASE: u32 = 18;
pub const FUSE_FSYNC: u32 = 20;
pub const FUSE_SETXATTR: u32 = 21;
pub const FUSE_GETXATTR: u32 = 22;
pub const FUSE_LISTXATTR: u32 = 23;
pub const FUSE_REMOVEXATTR: u32 = 24;
pub const FUSE_FLUSH: u32 = 25;
pub const FUSE_INIT: u32 = 26;
pub const FUSE_OPENDIR: u32 = 27;
pub const FUSE_READDIR: u32 = 28;
pub const FUSE_RELEASEDIR: u32 = 29;
pub const FUSE_FSYNCDIR: u32 = 30;
pub const FUSE_GETLK: u32 = 31;
pub const FUSE_SETLK: u32 = 32;
pub const FUSE_SETLKW: u32 = 33;
pub const FUSE_ACCESS: u32 = 34;
pub const FUSE_CREATE: u32 = 35;
pub const FUSE_INTERRUPT: u32 = 36;
pub const FUSE_BMAP: u32 = 37;
pub const FUSE_DESTROY: u32 = 38;
pub const FUSE_IOCTL: u32 = 39;
pub const FUSE_POLL: u32 = 40;
pub const FUSE_NOTIFY_REPLY: u32 = 41;
pub const FUSE_BATCH_FORGET: u32 = 42;
pub const FUSE_FALLOCATE: u32 = 43;
pub const FUSE_READDIRPLUS: u32 = 44;
pub const FUSE_RENAME2: u32 = 45;
pub const FUSE_LSEEK: u32 = 46;
pub const FUSE_COPY_FILE_RANGE: u32 = 47;
pub const CUSE_INIT: u32 = 4096;

// Notification codes.
pub const FUSE_NOTIFY_POLL: u32 = 1;
pub const FUSE_NOTIFY_INVAL_INODE: u32 = 2;
pub const FUSE_NOTIFY_INVAL_ENTRY: u32 = 3;
pub const FUSE_NOTIFY_STORE: u32 = 4;
pub const FUSE_NOTIFY_RETRIEVE: u32 = 5;
pub const FUSE_NOTIFY_DELETE: u32 = 6;
pub const FUSE_NOTIFY_CODE_MAX: u32 = 7;

/// The read buffer handed to the kernel must have at least this size.
pub const FUSE_MIN_READ_BUFFER: u32 = 8192;

pub const FUSE_COMPAT_ENTRY_OUT_SIZE: u32 = 120;
pub const FUSE_COMPAT_ATTR_OUT_SIZE: u32 = 96;
pub const FUSE_COMPAT_MKNOD_IN_SIZE: u32 = 8;
pub const FUSE_COMPAT_WRITE_IN_SIZE: u32 = 24;
pub const FUSE_COMPAT_STATFS_SIZE: u32 = 48;
pub const FUSE_COMPAT_INIT_OUT_SIZE: u32 = 8;
pub const FUSE_COMPAT_22_INIT_OUT_SIZE: u32 = 24;
pub const CUSE_INIT_INFO_MAX: u32 = 4096;


#[allow(non_camel_case_types)]
#[derive(Debug, Clone, Copy, PartialEq, Eq, Structural)]
pub struct fuse_attr {
    pub ino: u64,
    pub size: u64,
    pub blocks: u64,
    pub atime: u64,
    pub mtime: u64,
    pub ctime: u64,
    pub atimensec: u32,
    pub mtimensec: u32,
    pub ctimensec: u32,
    pub mode: u32,
    pub nlink: u32,
    pub uid: u32,
    pub gid: u32,
    pub rdev: u32,
    pub blksize: u32,
    pub padding: u32,
}

impl fuse_attr {
    /// The all-zero record, the starting point of every reply builder.
    pub open spec fn zeroed() -> Self {
        fuse_attr {
            ino: 0,
            size: 0,
            blocks: 0,
            atime: 0,
            mtime: 0,
            ctime: 0,
            atimensec: 0,
            mtimensec: 0,
            ctimensec: 0,
            mode: 0,
            nlink: 0,
            uid: 0,
            gid: 0,
            rdev: 0,
            blksize: 0,
            padding: 0,
        }
    }
}

impl Default for fuse_attr {
    fn default() -> (r: Self)
        ensures
            r == fuse_attr::zeroed(),
    {
        fuse_attr {
            ino: 0,
            size: 0,
            blocks: 0,
            atime: 0,
            mtime: 0,
            ctime: 0,
            atimensec: 0,
            mtimensec: 0,
            ctimensec: 0,
            mode: 0,
            nlink: 0,
            uid: 0,
            gid: 0,
            rdev: 0,
            blksize: 0,
            padding: 0,
        }
    }
}

impl Sealed for fuse_attr {}

impl FuseAbiData for fuse_attr {
    open spec fn wire_size() -> nat {
        88
    }

    open spec fn wire_align() -> nat {
        8
    }

    open spec fn as_wire(self) -> Seq<u8> {
        spec_u64_to_le_bytes(self.ino)
            + spec_u64_to_le_bytes(self.size)
            + spec_u64_to_le_bytes(self.blocks)
            + spec_u64_to_le_bytes(self.atime)
            + spec_u64_to_le_bytes(self.mtime)
            + spec_u64_to_le_bytes(self.ctime)
            + spec_u32_to_le_bytes(self.atimensec)
            + spec_u32_to_le_bytes(self.mtimensec)
            + spec_u32_to_le_bytes(self.ctimensec)
            + spec_u32_to_le_bytes(self.mode)
            + spec_u32_to_le_bytes(self.nlink)
            + spec_u32_to_le_bytes(self.uid)
            + spec_u32_to_le_bytes(self.gid)
            + spec_u32_to_le_bytes(self.rdev)
            + spec_u32_to_le_bytes(self.blksize)
            + spec_u32_to_le_bytes(self.padding)
    }

    open spec fn of_wire(bytes: Seq<u8>) -> Self {
        fuse_attr {
            ino: spec_u64_from_le_bytes(bytes.subrange(0, 8)),
            size: spec_u64_from_le_bytes(bytes.subrange(8, 16)),
            blocks: spec_u64_from_le_bytes(bytes.subrange(16, 24)),
            atime: spec_u64_from_le_bytes(bytes.subrange(24, 32)),
            mtime: spec_u64_from_le_bytes(bytes.subrange(32, 40)),
            ctime: spec_u64_from_le_bytes(bytes.subrange(40, 48)),
            atimensec: spec_u32_from_le_bytes(bytes.subrange(48, 52)),
            mtimensec: spec_u32_from_le_bytes(bytes.subrange(52, 56)),
            ctimensec: spec_u32_from_le_bytes(bytes.subrange(56, 60)),
            mode: spec_u32_from_le_bytes(bytes.subrange(60, 64)),
            nlink: spec_u32_from_le_bytes(bytes.subrange(64, 68)),
            uid: spec_u32_from_le_bytes(bytes.subrange(68, 72)),
            gid: spec_u32_from_le_bytes(bytes.subrange(72, 76)),
            rdev: spec_u32_from_le_bytes(bytes.subrange(76, 80)),
            blksize: spec_u32_from_le_bytes(bytes.subrange(80, 84)),
            padding: spec_u32_from_le_bytes(bytes.subrange(84, 88)),
        }
    }

    proof fn lemma_wire_len(x: Self) {
        lemma_auto_spec_u32_to_from_le_bytes();
        lemma_auto_spec_u64_to_from_le_bytes();
        assert(spec_u64_to_le_bytes(x.ino).len() == 8);
        assert(spec_u64_to_le_bytes(x.size).len() == 8);
        assert(spec_u64_to_le_bytes(x.blocks).len() == 8);
        assert(spec_u64_to_le_bytes(x.atime).len() == 8);
        assert(spec_u64_to_le_bytes(x.mtime).len() == 8);
        assert(spec_u64_to_le_bytes(x.ctime).len() == 8);
        assert(spec_u32_to_le_bytes(x.atimensec).len() == 4);
        assert(spec_u32_to_le_bytes(x.mtimensec).len() == 4);
        assert(spec_u32_to_le_bytes(x.ctimensec).len() == 4);
        assert(spec_u32_to_le_bytes(x.mode).len() == 4);
        assert(spec_u32_to_le_bytes(x.nlink).len() == 4);
        assert(spec_u32_to_le_bytes(x.uid).len() == 4);
        assert(spec_u32_to_le_bytes(x.gid).len() == 4);
        assert(spec_u32_to_le_bytes(x.rdev).len() == 4);
        assert(spec_u32_to_le_bytes(x.blksize).len() == 4);
        assert(spec_u32_to_le_bytes(x.padding).len() == 4);
    }

    proof fn lemma_size_align() {
    }

    proof fn lemma_of_as(x: Self) {
        lemma_auto_spec_u32_to_from_le_bytes();
        lemma_auto_spec_u64_to_from_le_bytes();
        let w = x.as_wire();
        assert(w.subrange(0, 8) =~= spec_u64_to_le_bytes(x.ino));
        assert(w.subrange(8, 16) =~= spec_u64_to_le_bytes(x.size));
        assert(w.subrange(16, 24) =~= spec_u64_to_le_bytes(x.blocks));
        assert(w.subrange(24, 32) =~= spec_u64_to_le_bytes(x.atime));
        assert(w.subrange(32, 40) =~= spec_u64_to_le_bytes(x.mtime));
        assert(w.subrange(40, 48) =~= spec_u64_to_le_bytes(x.ctime));
        assert(w.subrange(48, 52) =~= spec_u32_to_le_bytes(x.atimensec));
        assert(w.subrange(52, 56) =~= spec_u32_to_le_bytes(x.mtimensec));
        assert(w.subrange(56, 60) =~= spec_u32_to_le_bytes(x.ctimensec));
        assert(w.subrange(60, 64) =~= spec_u32_to_le_bytes(x.mode));
        assert(w.subrange(64, 68) =~= spec_u32_to_le_bytes(x.nlink));
        assert(w.subrange(68, 72) =~= spec_u32_to_le_bytes(x.uid));
        assert(w.subrange(72, 76) =~= spec_u32_to_le_bytes(x.gid));
        assert(w.subrange(76, 80) =~= spec_u32_to_le_bytes(x.rdev));
        assert(w.subrange(80, 84) =~= spec_u32_to_le_bytes(x.blksize));
        assert(w.subrange(84, 88) =~= spec_u32_to_le_bytes(x.padding));
        assert(Self::of_wire(w) == x);
    }

    proof fn lemma_as_of(bytes: Seq<u8>) {
        lemma_auto_spec_u32_to_from_le_bytes();
        lemma_auto_spec_u64_to_from_le_bytes();
        assert(spec_u64_to_le_bytes(spec_u64_from_le_bytes(bytes.subrange(0, 8))) == bytes.subrange(0, 8));
        assert(spec_u64_to_le_bytes(spec_u64_from_le_bytes(bytes.subrange(8, 16))) == bytes.subrange(8, 16));
        assert(spec_u64_to_le_bytes(spec_u64_from_le_bytes(bytes.subrange(16, 24))) == bytes.subrange(16, 24));
        assert(spec_u64_to_le_bytes(spec_u64_from_le_bytes(bytes.subrange(24, 32))) == bytes.subrange(24, 32));
        assert(spec_u64_to_le_bytes(spec_u64_from_le_bytes(bytes.subrange(32, 40))) == bytes.subrange(32, 40));
        assert(spec_u64_to_le_bytes(spec_u64_from_le_bytes(bytes.subrange(40, 48))) == bytes.subrange(40, 48));
        assert(spec_u32_to_le_bytes(spec_u32_from_le_bytes(bytes.subrange(48, 52))) == bytes.subrange(48, 52));
        assert(spec_u32_to_le_bytes(spec_u32_from_le_bytes(bytes.subrange(52, 56))) == bytes.subrange(52, 56));
        assert(spec_u32_to_le_bytes(spec_u32_from_le_bytes(bytes.subrange(56, 60))) == bytes.subrange(56, 60));
        assert(spec_u32_to_le_bytes(spec_u32_from_le_bytes(bytes.subrange(60, 64))) == bytes.subrange(60, 64));
        assert(spec_u32_to_le_bytes(spec_u32_from_le_bytes(bytes.subrange(64, 68))) == bytes.subrange(64, 68));
        assert(spec_u32_to_le_bytes(spec_u32_from_le_bytes(bytes.subrange(68, 72))) == bytes.subrange(68, 72));
        assert(spec_u32_to_le_bytes(spec_u32_from_le_bytes(bytes.subrange(72, 76))) == bytes.subrange(72, 76));
        assert(spec_u32_to_le_bytes(spec_u32_from_le_bytes(bytes.subrange(76, 80))) == bytes.subrange(76, 80));
        assert(spec_u32_to_le_bytes(spec_u32_from_le_bytes(bytes.subrange(80, 84))) == bytes.subrange(80, 84));
        assert(spec_u32_to_le_bytes(spec_u32_from_le_bytes(bytes.subrange(84, 88))) == bytes.subrange(84, 88));
        assert(Self::of_wire(bytes).as_wire() =~= bytes);
    }

    fn wire_size_exec() -> usize {
        88
    }

    fn wire_align_exec() -> usize {
        8
    }

    fn read_wire(bytes: &[u8], off: usize) -> (r: Self) {
        proof {
            assert(Self::wire_size() == 88);
            assert(bytes.len() == bytes@.len());
        }
        let r = fuse_attr {
            ino: crate::wire::read_u64_at(bytes, off),
            size: crate::wire::read_u64_at(bytes, off + 8),
            blocks: crate::wire::read_u64_at(bytes, off + 16),
            atime: crate::wire::read_u64_at(bytes, off + 24),
            mtime: crate::wire::read_u64_at(bytes, off + 32),
            ctime: crate::wire::read_u64_at(bytes, off + 40),
            atimensec: crate::wire::read_u32_at(bytes, off + 48),
            mtimensec: crate::wire::read_u32_at(bytes, off + 52),
            ctimensec: crate::wire::read_u32_at(bytes, off + 56),
            mode: crate::wire::read_u32_at(bytes, off + 60),
            nlink: crate::wire::read_u32_at(bytes, off + 64),
            uid: crate::wire::read_u32_at(bytes, off + 68),
            gid: crate::wire::read_u32_at(bytes, off + 72),
            rdev: crate::wire::read_u32_at(bytes, off + 76),
            blksize: crate::wire::read_u32_at(bytes, off + 80),
            padding: crate::wire::read_u32_at(bytes, off + 84),
        };
        proof {
            let s = bytes@.subrange(off as int, off as int + 88);
            assert(s.subrange(0, 8) =~= bytes@.subrange(off as int + 0, off as int + 8));
            assert(s.subrange(8, 16) =~= bytes@.subrange(off as int + 8, off as int + 16));
            assert(s.subrange(16, 24) =~= bytes@.subrange(off as int + 16, off as int + 24));
            assert(s.subrange(24, 32) =~= bytes@.subrange(off as int + 24, off as int + 32));
            assert(s.subrange(32, 40) =~= bytes@.subrange(off as int + 32, off as int + 40));
            assert(s.subrange(40, 48) =~= bytes@.subrange(off as int + 40, off as int + 48));
            assert(s.subrange(48, 52) =~= bytes@.subrange(off as int + 48, off as int + 52));
            assert(s.subrange(52, 56) =~= bytes@.subrange(off as int + 52, off as int + 56));
            assert(s.subrange(56, 60) =~= bytes@.subrange(off as int + 56, off as int + 60));
            assert(s.subrange(60, 64) =~= bytes@.subrange(off as int + 60, off as int + 64));
            assert(s.subrange(64, 68) =~= bytes@.subrange(off as int + 64, off as int + 68));
            assert(s.subrange(68, 72) =~= bytes@.subrange(off as int + 68, off as int + 72));
            assert(s.subrange(72, 76) =~= bytes@.subrange(off as int + 72, off as int + 76));
            assert(s.subrange(76, 80) =~= bytes@.subrange(off as int + 76, off as int + 80));
            assert(s.subrange(80, 84) =~= bytes@.subrange(off as int + 80, off as int + 84));
            assert(s.subrange(84, 88) =~= bytes@.subrange(off as int + 84, off as int + 88));
            assert(r == Self::of_wire(s));
        }
        r
    }

    fn write_wire(&self, out: &mut Vec<u8>) {
        crate::wire::write_u64(out, self.ino);
        crate::wire::write_u64(out, self.size);
        crate::wire::write_u64(out, self.blocks);
        crate::wire::write_u64(out, self.atime);
        crate::wire::write_u64(out, self.mtime);
        crate::wire::write_u64(out, self.ctime);
        crate::wire::write_u32(out, self.atimensec);
        crate::wire::write_u32(out, self.mtimensec);
        crate::wire::write_u32(out, self.ctimensec);
        crate::wire::write_u32(out, self.mode);
        crate::wire::write_u32(out, self.nlink);
        crate::wire::write_u32(out, self.uid);
        crate::wire::write_u32(out, self.gid);
        crate::wire::write_u32(out, self.rdev);
        crate::wire::write_u32(out, self.blksize);
        crate::wire::write_u32(out, self.padding);
        proof {
            lemma_auto_spec_u32_to_from_le_bytes();
            lemma_auto_spec_u64_to_from_le_bytes();
            assert(spec_u64_to_le_bytes(self.ino).len() == 8);
            assert(spec_u64_to_le_bytes(self.size).len() == 8);
            assert(spec_u64_to_le_bytes(self.blocks).len() == 8);
            assert(spec_u64_to_le_bytes(self.atime).len() == 8);
            assert(spec_u64_to_le_bytes(self.mtime).len() == 8);
            assert(spec_u64_to_le_bytes(self.ctime).len() == 8);
            assert(spec_u32_to_le_bytes(self.atimensec).len() == 4);
            assert(spec_u32_to_le_bytes(self.mtimensec).len() == 4);
            assert(spec_u32_to_le_bytes(self.ctimensec).len() == 4);
            assert(spec_u32_to_le_bytes(self.mode).len() == 4);
            assert(spec_u32_to_le_bytes(self.nlink).len() == 4);
            assert(spec_u32_to_le_bytes(self.uid).len() == 4);
            assert(spec_u32_to_le_bytes(self.gid).len() == 4);
            assert(spec_u32_to_le_bytes(self.rdev).len() == 4);
            assert(spec_u32_to_le_bytes(self.blksize).len() == 4);
            assert(spec_u32_to_le_bytes(self.padding).len() == 4);
            assert(out@ =~= old(out)@ + self.as_wire());
        }
    }
}

#[allow(non_camel_case_types)]
#[derive(Debug, Clone, Copy, PartialEq, Eq, Structural)]
pub struct fuse_kstatfs {
    pub blocks: u64,
    pub bfree: u64,
    pub bavail: u64,
    pub files: u64,
    pub ffree: u64,
    pub bsize: u32,
    pub namelen: u32,
    pub frsize: u32,
    pub padding: u32,
    pub spare0: u32,
    pub spare1: u32,
    pub spare2: u32,
    pub spare3: u32,
    pub spare4: u32,
    pub spare5: u32,
}

impl fuse_kstatfs {
    /// The all-zero record, the starting point of every reply builder.
    pub open spec fn zeroed() -> Self {
        fuse_kstatfs {
            blocks: 0,
            bfree: 0,
            bavail: 0,
            files: 0,
            ffree: 0,
            bsize: 0,
            namelen: 0,
            frsize: 0,
            padding: 0,
            spare0: 0,
            spare1: 0,
            spare2: 0,
            spare3: 0,
            spare4: 0,
            spare5: 0,
        }
    }
}

impl Default for fuse_kstatfs {
    fn default() -> (r: Self)
        ensures
            r == fuse_kstatfs::zeroed(),
    {
        fuse_kstatfs {
            blocks: 0,
            bfree: 0,
            bavail: 0,
            files: 0,
            ffree: 0,
            bsize: 0,
            namelen: 0,
            frsize: 0,
            padding: 0,
            spare0: 0,
            spare1: 0,
            spare2: 0,
            spare3: 0,
            spare4: 0,
            spare5: 0,
        }
    }
}

impl Sealed for fuse_kstatfs {}

impl FuseAbiData for fuse_kstatfs {
    open spec fn wire_size() -> nat {
        80
    }

    open spec fn wire_align() -> nat {
        8
    }

    open spec fn as_wire(self) -> Seq<u8> {
        spec_u64_to_le_bytes(self.blocks)
            + spec_u64_to_le_bytes(self.bfree)
            + spec_u64_to_le_bytes(self.bavail)
            + spec_u64_to_le_bytes(self.files)
            + spec_u64_to_le_bytes(self.ffree)
            + spec_u32_to_le_bytes(self.bsize)
            + spec_u32_to_le_bytes(self.namelen)
            + spec_u32_to_le_bytes(self.frsize)
            + spec_u32_to_le_bytes(self.padding)
            + spec_u32_to_le_bytes(self.spare0)
            + spec_u32_to_le_bytes(self.spare1)
            + spec_u32_to_le_bytes(self.spare2)
            + spec_u32_to_le_bytes(self.spare3)
            + spec_u32_to_le_bytes(self.spare4)
            + spec_u32_to_le_bytes(self.spare5)
    }

    open spec fn of_wire(bytes: Seq<u8>) -> Self {
        fuse_kstatfs {
            blocks: spec_u64_from_le_bytes(bytes.subrange(0, 8)),
            bfree: spec_u64_from_le_bytes(bytes.subrange(8, 16)),
            bavail: spec_u64_from_le_bytes(bytes.subrange(16, 24)),
            files: spec_u64_from_le_bytes(bytes.subrange(24, 32)),
            ffree: spec_u64_from_le_bytes(bytes.subrange(32, 40)),
            bsize: spec_u32_from_le_bytes(bytes.subrange(40, 44)),
            namelen: spec_u32_from_le_bytes(bytes.subrange(44, 48)),
            frsize: spec_u32_from_le_bytes(bytes.subrange(48, 52)),
            padding: spec_u32_from_le_bytes(bytes.subrange(52, 56)),
            spare0: spec_u32_from_le_bytes(bytes.subrange(56, 60)),
            spare1: spec_u32_from_le_bytes(bytes.subrange(60, 64)),
            spare2: spec_u32_from_le_bytes(bytes.subrange(64, 68)),
            spare3: spec_u32_from_le_bytes(bytes.subrange(68, 72)),
            spare4: spec_u32_from_le_bytes(bytes.subrange(72, 76)),
            spare5: spec_u32_from_le_bytes(bytes.subrange(76, 80)),
        }
    }

    proof fn lemma_wire_len(x: Self) {
        lemma_auto_spec_u32_to_from_le_bytes();
        lemma_auto_spec_u64_to_from_le_bytes();
        assert(spec_u64_to_le_bytes(x.blocks).len() == 8);
        assert(spec_u64_to_le_bytes(x.bfree).len() == 8);
        assert(spec_u64_to_le_bytes(x.bavail).len() == 8);
        assert(spec_u64_to_le_bytes(x.files).len() == 8);
        assert(spec_u64_to_le_bytes(x.ffree).len() == 8);
        assert(spec_u32_to_le_bytes(x.bsize).len() == 4);
        assert(spec_u32_to_le_bytes(x.namelen).len() == 4);
        assert(spec_u32_to_le_bytes(x.frsize).len() == 4);
        assert(spec_u32_to_le_bytes(x.padding).len() == 4);
        assert(spec_u32_to_le_bytes(x.spare0).len() == 4);
        assert(spec_u32_to_le_bytes(x.spare1).len() == 4);
        assert(spec_u32_to_le_bytes(x.spare2).len() == 4);
        assert(spec_u32_to_le_bytes(x.spare3).len() == 4);
        assert(spec_u32_to_le_bytes(x.spare4).len() == 4);
        assert(spec_u32_to_le_bytes(x.spare5).len() == 4);
    }

    proof fn lemma_size_align() {
    }

    proof fn lemma_of_as(x: Self) {
        lemma_auto_spec_u32_to_from_le_bytes();
        lemma_auto_spec_u64_to_from_le_bytes();
        let w = x.as_wire();
        assert(w.subrange(0, 8) =~= spec_u64_to_le_bytes(x.blocks));
        assert(w.subrange(8, 16) =~= spec_u64_to_le_bytes(x.bfree));
        assert(w.subrange(16, 24) =~= spec_u64_to_le_bytes(x.bavail));
        assert(w.subrange(24, 32) =~= spec_u64_to_le_bytes(x.files));
        assert(w.subrange(32, 40) =~= spec_u64_to_le_bytes(x.ffree));
        assert(w.subrange(40, 44) =~= spec_u32_to_le_bytes(x.bsize));
        assert(w.subrange(44, 48) =~= spec_u32_to_le_bytes(x.namelen));
        assert(w.subrange(48, 52) =~= spec_u32_to_le_bytes(x.frsize));
        assert(w.subrange(52, 56) =~= spec_u32_to_le_bytes(x.padding));
        assert(w.subrange(56, 60) =~= spec_u32_to_le_bytes(x.spare0));
        assert(w.subrange(60, 64) =~= spec_u32_to_le_bytes(x.spare1));
        assert(w.subrange(64, 68) =~= spec_u32_to_le_bytes(x.spare2));
        assert(w.subrange(68, 72) =~= spec_u32_to_le_bytes(x.spare3));
        assert(w.subrange(72, 76) =~= spec_u32_to_le_bytes(x.spare4));
        assert(w.subrange(76, 80) =~= spec_u32_to_le_bytes(x.spare5));
        assert(Self::of_wire(w) == x);
    }

    proof fn lemma_as_of(bytes: Seq<u8>) {
        lemma_auto_spec_u32_to_from_le_bytes();
        lemma_auto_spec_u64_to_from_le_bytes();
        assert(spec_u64_to_le_bytes(spec_u64_from_le_bytes(bytes.subrange(0, 8))) == bytes.subrange(0, 8));
        assert(spec_u64_to_le_bytes(spec_u64_from_le_bytes(bytes.subrange(8, 16))) == bytes.subrange(8, 16));
        assert(spec_u64_to_le_bytes(spec_u64_from_le_bytes(bytes.subrange(16, 24))) == bytes.subrange(16, 24));
        assert(spec_u64_to_le_bytes(spec_u64_from_le_bytes(bytes.subrange(24, 32))) == bytes.subrange(24, 32));
        assert(spec_u64_to_le_bytes(spec_u64_from_le_bytes(bytes.subrange(32, 40))) == bytes.subrange(32, 40));
        assert(spec_u32_to_le_bytes(spec_u32_from_le_bytes(bytes.subrange(40, 44))) == bytes.subrange(40, 44));
        assert(spec_u32_to_le_bytes(spec_u32_from_le_bytes(bytes.subrange(44, 48))) == bytes.subrange(44, 48));
        assert(spec_u32_to_le_bytes(spec_u32_from_le_bytes(bytes.subrange(48, 52))) == bytes.subrange(48, 52));
        assert(spec_u32_to_le_bytes(spec_u32_from_le_bytes(bytes.subrange(52, 56))) == bytes.subrange(52, 56));
        assert(spec_u32_to_le_bytes(spec_u32_from_le_bytes(bytes.subrange(56, 60))) == bytes.subrange(56, 60));
        assert(spec_u32_to_le_bytes(spec_u32_from_le_bytes(bytes.subrange(60, 64))) == bytes.subrange(60, 64));
        assert(spec_u32_to_le_bytes(spec_u32_from_le_bytes(bytes.subrange(64, 68))) == bytes.subrange(64, 68));
        assert(spec_u32_to_le_bytes(spec_u32_from_le_bytes(bytes.subrange(68, 72))) == bytes.subrange(68, 72));
        assert(spec_u32_to_le_bytes(spec_u32_from_le_bytes(bytes.subrange(72, 76))) == bytes.subrange(72, 76));
        assert(spec_u32_to_le_bytes(spec_u32_from_le_bytes(bytes.subrange(76, 80))) == bytes.subrange(76, 80));
        assert(Self::of_wire(bytes).as_wire() =~= bytes);
    }

    fn wire_size_exec() -> usize {
        80
    }

    fn wire_align_exec() -> usize {
        8
    }

    fn read_wire(bytes: &[u8], off: usize) -> (r: Self) {
        proof {
            assert(Self::wire_size() == 80);
            assert(bytes.len() == bytes@.len());
        }
        let r = fuse_kstatfs {
            blocks: crate::wire::read_u64_at(bytes, off),
            bfree: crate::wire::read_u64_at(bytes, off + 8),
            bavail: crate::wire::read_u64_at(bytes, off + 16),
            files: crate::wire::read_u64_at(bytes, off + 24),
            ffree: crate::wire::read_u64_at(bytes, off + 32),
            bsize: crate::wire::read_u32_at(bytes, off + 40),
            namelen: crate::wire::read_u32_at(bytes, off + 44),
            frsize: crate::wire::read_u32_at(bytes, off + 48),
            padding: crate::wire::read_u32_at(bytes, off + 52),
            spare0: crate::wire::read_u32_at(bytes, off + 56),
            spare1: crate::wire::read_u32_at(bytes, off + 60),
            spare2: crate::wire::read_u32_at(bytes, off + 64),
            spare3: crate::wire::read_u32_at(bytes, off + 68),
            spare4: crate::wire::read_u32_at(bytes, off + 72),
            spare5: crate::wire::read_u32_at(bytes, off + 76),
        };
        proof {
            let s = bytes@.subrange(off as int, off as int + 80);
            assert(s.subrange(0, 8) =~= bytes@.subrange(off as int + 0, off as int + 8));
            assert(s.subrange(8, 16) =~= bytes@.subrange(off as int + 8, off as int + 16));
            assert(s.subrange(16, 24) =~= bytes@.subrange(off as int + 16, off as int + 24));
            assert(s.subrange(24, 32) =~= bytes@.subrange(off as int + 24, off as int + 32));
            assert(s.subrange(32, 40) =~= bytes@.subrange(off as int + 32, off as int + 40));
            assert(s.subrange(40, 44) =~= bytes@.subrange(off as int + 40, off as int + 44));
            assert(s.subrange(44, 48) =~= bytes@.subrange(off as int + 44, off as int + 48));
            assert(s.subrange(48, 52) =~= bytes@.subrange(off as int + 48, off as int + 52));
            assert(s.subrange(52, 56) =~= bytes@.subrange(off as int + 52, off as int + 56));
            assert(s.subrange(56, 60) =~= bytes@.subrange(off as int + 56, off as int + 60));
            assert(s.subrange(60, 64) =~= bytes@.subrange(off as int + 60, off as int + 64));
            assert(s.subrange(64, 68) =~= bytes@.subrange(off as int + 64, off as int + 68));
            assert(s.subrange(68, 72) =~= bytes@.subrange(off as int + 68, off as int + 72));
            assert(s.subrange(72, 76) =~= bytes@.subrange(off as int + 72, off as int + 76));
            assert(s.subrange(76, 80) =~= bytes@.subrange(off as int + 76, off as int + 80));
            assert(r == Self::of_wire(s));
        }
        r
    }

    fn write_wire(&self, out: &mut Vec<u8>) {
        crate::wire::write_u64(out, self.blocks);
        crate::wire::write_u64(out, self.bfree);
        crate::wire::write_u64(out, self.bavail);
        crate::wire::write_u64(out, self.files);
        crate::wire::write_u64(out, self.ffree);
        crate::wire::write_u32(out, self.bsize);
        crate::wire::write_u32(out, self.namelen);
        crate::wire::write_u32(out, self.frsize);
        crate::wire::write_u32(out, self.padding);
        crate::wire::write_u32(out, self.spare0);
        crate::wire::write_u32(out, self.spare1);
        crate::wire::write_u32(out, self.spare2);
        crate::wire::write_u32(out, self.spare3);
        crate::wire::write_u32(out, self.spare4);
        crate::wire::write_u32(out, self.spare5);
        proof {
            lemma_auto_spec_u32_to_from_le_bytes();
            lemma_auto_spec_u64_to_from_le_bytes();
            assert(spec_u64_to_le_bytes(self.blocks).len() == 8);
            assert(spec_u64_to_le_bytes(self.bfree).len() == 8);
            assert(spec_u64_to_le_bytes(self.bavail).len() == 8);
            assert(spec_u64_to_le_bytes(self.files).len() == 8);
            assert(spec_u64_to_le_bytes(self.ffree).len() == 8);
            assert(spec_u32_to_le_bytes(self.bsize).len() == 4);
            assert(spec_u32_to_le_bytes(self.namelen).len() == 4);
            assert(spec_u32_to_le_bytes(self.frsize).len() == 4);
            assert(spec_u32_to_le_bytes(self.padding).len() == 4);
            assert(spec_u32_to_le_bytes(self.spare0).len() == 4);
            assert(spec_u32_to_le_bytes(self.spare1).len() == 4);
            assert(spec_u32_to_le_bytes(self.spare2).len() == 4);
            assert(spec_u32_to_le_bytes(self.spare3).len() == 4);
            assert(spec_u32_to_le_bytes(self.spare4).len() == 4);
            assert(spec_u32_to_le_bytes(self.spare5).len() == 4);
            assert(out@ =~= old(out)@ + self.as_wire());
        }
    }
}

#[allow(non_camel_case_types)]
#[derive(Debug, Clone, Copy, PartialEq, Eq, Structural)]
pub struct fuse_file_lock {
    pub start: u64,
    pub end: u64,
    pub lock_type: u32,
    pub pid: u32,
}

impl Sealed for fuse_file_lock {}

impl FuseAbiData for fuse_file_lock {
    open spec fn wire_size() -> nat {
        24
    }

    open spec fn wire_align() -> nat {
        8
    }

    open spec fn as_wire(self) -> Seq<u8> {
        spec_u64_to_le_bytes(self.start)
            + spec_u64_to_le_bytes(self.end)
            + spec_u32_to_le_bytes(self.lock_type)
            + spec_u32_to_le_bytes(self.pid)
    }

    open spec fn of_wire(bytes: Seq<u8>) -> Self {
        fuse_file_lock {
            start: spec_u64_from_le_bytes(bytes.subrange(0, 8)),
            end: spec_u64_from_le_bytes(bytes.subrange(8, 16)),
            lock_type: spec_u32_from_le_bytes(bytes.subrange(16, 20)),
            pid: spec_u32_from_le_bytes(bytes.subrange(20, 24)),
        }
    }

    proof fn lemma_wire_len(x: Self) {
        lemma_auto_spec_u32_to_from_le_bytes();
        lemma_auto_spec_u64_to_from_le_bytes();
        assert(spec_u64_to_le_bytes(x.start).len() == 8);
        assert(spec_u64_to_le_bytes(x.end).len() == 8);
        assert(spec_u32_to_le_bytes(x.lock_type).len() == 4);
        assert(spec_u32_to_le_bytes(x.pid).len() == 4);
    }

    proof fn lemma_size_align() {
    }

    proof fn lemma_of_as(x: Self) {
        lemma_auto_spec_u32_to_from_le_bytes();
        lemma_auto_spec_u64_to_from_le_bytes();
        let w = x.as_wire();
        assert(w.subrange(0, 8) =~= spec_u64_to_le_bytes(x.start));
        assert(w.subrange(8, 16) =~= spec_u64_to_le_bytes(x.end));
        assert(w.subrange(16, 20) =~= spec_u32_to_le_bytes(x.lock_type));
        assert(w.subrange(20, 24) =~= spec_u32_to_le_bytes(x.pid));
        assert(Self::of_wire(w) == x);
    }

    proof fn lemma_as_of(bytes: Seq<u8>) {
        lemma_auto_spec_u32_to_from_le_bytes();
        lemma_auto_spec_u64_to_from_le_bytes();
        assert(spec_u64_to_le_bytes(spec_u64_from_le_bytes(bytes.subrange(0, 8))) == bytes.subrange(0, 8));
        assert(spec_u64_to_le_bytes(spec_u64_from_le_bytes(bytes.subrange(8, 16))) == bytes.subrange(8, 16));
        assert(spec_u32_to_le_bytes(spec_u32_from_le_bytes(bytes.subrange(16, 20))) == bytes.subrange(16, 20));
        assert(spec_u32_to_le_bytes(spec_u32_from_le_bytes(bytes.subrange(20, 24))) == bytes.subrange(20, 24));
        assert(Self::of_wire(bytes).as_wire() =~= bytes);
    }

    fn wire_size_exec() -> usize {
        24
    }

    fn wire_align_exec() -> usize {
        8
    }

    fn read_wire(bytes: &[u8], off: usize) -> (r: Self) {
        proof {
            assert(Self::wire_size() == 24);
            assert(bytes.len() == bytes@.len());
        }
        let r = fuse_file_lock {
            start: crate::wire::read_u64_at(bytes, off),
            end: crate::wire::read_u64_at(bytes, off + 8),
            lock_type: crate::wire::read_u32_at(bytes, off + 16),
            pid: crate::wire::read_u32_at(bytes, off + 20),
        };
        proof {
            let s = bytes@.subrange(off as int, off as int + 24);
            assert(s.subrange(0, 8) =~= bytes@.subrange(off as int + 0, off as int + 8));
            assert(s.subrange(8, 16) =~= bytes@.subrange(off as int + 8, off as int + 16));
            assert(s.subrange(16, 20) =~= bytes@.subrange(off as int + 16, off as int + 20));
            assert(s.subrange(20, 24) =~= bytes@.subrange(off as int + 20, off as int + 24));
            assert(r == Self::of_wire(s));
        }
        r
    }

    fn write_wire(&self, out: &mut Vec<u8>) {
        crate::wire::write_u64(out, self.start);
        crate::wire::write_u64(out, self.end);
        crate::wire::write_u32(out, self.lock_type);
        crate::wire::write_u32(out, self.pid);
        proof {
            lemma_auto_spec_u32_to_from_le_bytes();
            lemma_auto_spec_u64_to_from_le_bytes();
            assert(spec_u64_to_le_bytes(self.start).len() == 8);
            assert(spec_u64_to_le_bytes(self.end).len() == 8);
            assert(spec_u32_to_le_bytes(self.lock_type).len() == 4);
            assert(spec_u32_to_le_bytes(self.pid).len() == 4);
            assert(out@ =~= old(out)@ + self.as_wire());
        }
    }
}

#[allow(non_camel_case_types)]
#[derive(Debug, Clone, Copy, PartialEq, Eq, Structural)]
pub struct fuse_entry_out {
    pub nodeid: u64,
    pub generation: u64,
    pub entry_valid: u64,
    pub attr_valid: u64,
    pub entry_valid_nsec: u32,
    pub attr_valid_nsec: u32,
    pub attr: fuse_attr,
}

impl fuse_entry_out {
    /// The all-zero record, the starting point of every reply builder.
    pub open spec fn zeroed() -> Self {
        fuse_entry_out {
            nodeid: 0,
            generation: 0,
            entry_valid: 0,
            attr_valid: 0,
            entry_valid_nsec: 0,
            attr_valid_nsec: 0,
            attr: fuse_attr::zeroed(),
        }
    }
}

impl Default for fuse_entry_out {
    fn default() -> (r: Self)
        ensures
            r == fuse_entry_out::zeroed(),
    {
        fuse_entry_out {
            nodeid: 0,
            generation: 0,
            entry_valid: 0,
            attr_valid: 0,
            entry_valid_nsec: 0,
            attr_valid_nsec: 0,
            attr: fuse_attr::default(),
        }
    }
}

impl Sealed for fuse_entry_out {}

impl FuseAbiData for fuse_entry_out {
    open spec fn wire_size() -> nat {
        128
    }

    open spec fn wire_align() -> nat {
        8
    }

    open spec fn as_wire(self) -> Seq<u8> {
        spec_u64_to_le_bytes(self.nodeid)
            + spec_u64_to_le_bytes(self.generation)
            + spec_u64_to_le_bytes(self.entry_valid)
            + spec_u64_to_le_bytes(self.attr_valid)
            + spec_u32_to_le_bytes(self.entry_valid_nsec)
            + spec_u32_to_le_bytes(self.attr_valid_nsec)
            + self.attr.as_wire()
    }

    open spec fn of_wire(bytes: Seq<u8>) -> Self {
        fuse_entry_out {
            nodeid: spec_u64_from_le_bytes(bytes.subrange(0, 8)),
            generation: spec_u64_from_le_bytes(bytes.subrange(8, 16)),
            entry_valid: spec_u64_from_le_bytes(bytes.subrange(16, 24)),
            attr_valid: spec_u64_from_le_bytes(bytes.subrange(24, 32)),
            entry_valid_nsec: spec_u32_from_le_bytes(bytes.subrange(32, 36)),
            attr_valid_nsec: spec_u32_from_le_bytes(bytes.subrange(36, 40)),
            attr: fuse_attr::of_wire(bytes.subrange(40, 128)),
        }
    }

    proof fn lemma_wire_len(x: Self) {
        lemma_auto_spec_u32_to_from_le_bytes();
        lemma_auto_spec_u64_to_from_le_bytes();
        assert(spec_u64_to_le_bytes(x.nodeid).len() == 8);
        assert(spec_u64_to_le_bytes(x.generation).len() == 8);
        assert(spec_u64_to_le_bytes(x.entry_valid).len() == 8);
        assert(spec_u64_to_le_bytes(x.attr_valid).len() == 8);
        assert(spec_u32_to_le_bytes(x.entry_valid_nsec).len() == 4);
        assert(spec_u32_to_le_bytes(x.attr_valid_nsec).len() == 4);
        fuse_attr::lemma_wire_len(x.attr);
    }

    proof fn lemma_size_align() {
    }

    proof fn lemma_of_as(x: Self) {
        lemma_auto_spec_u32_to_from_le_bytes();
        lemma_auto_spec_u64_to_from_le_bytes();
        fuse_attr::lemma_wire_len(x.attr);
        let w = x.as_wire();
        assert(w.subrange(0, 8) =~= spec_u64_to_le_bytes(x.nodeid));
        assert(w.subrange(8, 16) =~= spec_u64_to_le_bytes(x.generation));
        assert(w.subrange(16, 24) =~= spec_u64_to_le_bytes(x.entry_valid));
        assert(w.subrange(24, 32) =~= spec_u64_to_le_bytes(x.attr_valid));
        assert(w.subrange(32, 36) =~= spec_u32_to_le_bytes(x.entry_valid_nsec));
        assert(w.subrange(36, 40) =~= spec_u32_to_le_bytes(x.attr_valid_nsec));
        assert(w.subrange(40, 128) =~= x.attr.as_wire());
        fuse_attr::lemma_of_as(x.attr);
        assert(Self::of_wire(w) == x);
    }

    proof fn lemma_as_of(bytes: Seq<u8>) {
        lemma_auto_spec_u32_to_from_le_bytes();
        lemma_auto_spec_u64_to_from_le_bytes();
        assert(spec_u64_to_le_bytes(spec_u64_from_le_bytes(bytes.subrange(0, 8))) == bytes.subrange(0, 8));
        assert(spec_u64_to_le_bytes(spec_u64_from_le_bytes(bytes.subrange(8, 16))) == bytes.subrange(8, 16));
        assert(spec_u64_to_le_bytes(spec_u64_from_le_bytes(bytes.subrange(16, 24))) == bytes.subrange(16, 24));
        assert(spec_u64_to_le_bytes(spec_u64_from_le_bytes(bytes.subrange(24, 32))) == bytes.subrange(24, 32));
        assert(spec_u32_to_le_bytes(spec_u32_from_le_bytes(bytes.subrange(32, 36))) == bytes.subrange(32, 36));
        assert(spec_u32_to_le_bytes(spec_u32_from_le_bytes(bytes.subrange(36, 40))) == bytes.subrange(36, 40));
        fuse_attr::lemma_as_of(bytes.subrange(40, 128));
        assert(Self::of_wire(bytes).as_wire() =~= bytes);
    }

    fn wire_size_exec() -> usize {
        128
    }

    fn wire_align_exec() -> usize {
        8
    }

    fn read_wire(bytes: &[u8], off: usize) -> (r: Self) {
        proof {
            assert(Self::wire_size() == 128);
            assert(bytes.len() == bytes@.len());
        }
        let r = fuse_entry_out {
            nodeid: crate::wire::read_u64_at(bytes, off),
            generation: crate::wire::read_u64_at(bytes, off + 8),
            entry_valid: crate::wire::read_u64_at(bytes, off + 16),
            attr_valid: crate::wire::read_u64_at(bytes, off + 24),
            entry_valid_nsec: crate::wire::read_u32_at(bytes, off + 32),
            attr_valid_nsec: crate::wire::read_u32_at(bytes, off + 36),
            attr: fuse_attr::read_wire(bytes, off + 40),
        };
        proof {
            let s = bytes@.subrange(off as int, off as int + 128);
            assert(s.subrange(0, 8) =~= bytes@.subrange(off as int + 0, off as int + 8));
            assert(s.subrange(8, 16) =~= bytes@.subrange(off as int + 8, off as int + 16));
            assert(s.subrange(16, 24) =~= bytes@.subrange(off as int + 16, off as int + 24));
            assert(s.subrange(24, 32) =~= bytes@.subrange(off as int + 24, off as int + 32));
            assert(s.subrange(32, 36) =~= bytes@.subrange(off as int + 32, off as int + 36));
            assert(s.subrange(36, 40) =~= bytes@.subrange(off as int + 36, off as int + 40));
            assert(s.subrange(40, 128) =~= bytes@.subrange(off as int + 40, off as int + 128));
            assert(r == Self::of_wire(s));
        }
        r
    }

    fn write_wire(&self, out: &mut Vec<u8>) {
        crate::wire::write_u64(out, self.nodeid);
        crate::wire::write_u64(out, self.generation);
        crate::wire::write_u64(out, self.entry_valid);
        crate::wire::write_u64(out, self.attr_valid);
        crate::wire::write_u32(out, self.entry_valid_nsec);
        crate::wire::write_u32(out, self.attr_valid_nsec);
        self.attr.write_wire(out);
        proof {
            lemma_auto_spec_u32_to_from_le_bytes();
            lemma_auto_spec_u64_to_from_le_bytes();
            assert(spec_u64_to_le_bytes(self.nodeid).len() == 8);
            assert(spec_u64_to_le_bytes(self.generation).len() == 8);
            assert(spec_u64_to_le_bytes(self.entry_valid).len() == 8);
            assert(spec_u64_to_le_bytes(self.attr_valid).len() == 8);
            assert(spec_u32_to_le_bytes(self.entry_valid_nsec).len() == 4);
            assert(spec_u32_to_le_bytes(self.attr_valid_nsec).len() == 4);
            fuse_attr::lemma_wire_len(self.attr);
            assert(out@ =~= old(out)@ + self.as_wire());
        }
    }
}

#[allow(non_camel_case_types)]
#[derive(Debug, Clone, Copy, PartialEq, Eq, Structural)]
pub struct fuse_forget_in {
    pub nlookup: u64,
}

impl Sealed for fuse_forget_in {}

impl FuseAbiData for fuse_forget_in {
    open spec fn wire_size() -> nat {
        8
    }

    open spec fn wire_align() -> nat {
        8
    }

    open spec fn as_wire(self) -> Seq<u8> {
        spec_u64_to_le_bytes(self.nlookup)
    }

    open spec fn of_wire(bytes: Seq<u8>) -> Self {
        fuse_forget_in {
            nlookup: spec_u64_from_le_bytes(bytes.subrange(0, 8)),
        }
    }

    proof fn lemma_wire_len(x: Self) {
        lemma_auto_spec_u64_to_from_le_bytes();
        assert(spec_u64_to_le_bytes(x.nlookup).len() == 8);
    }

    proof fn lemma_size_align() {
    }

    proof fn lemma_of_as(x: Self) {
        lemma_auto_spec_u64_to_from_le_bytes();
        let w = x.as_wire();
        assert(w.subrange(0, 8) =~= spec_u64_to_le_bytes(x.nlookup));
        assert(Self::of_wire(w) == x);
    }

    proof fn lemma_as_of(bytes: Seq<u8>) {
        lemma_auto_spec_u64_to_from_le_bytes();
        assert(spec_u64_to_le_bytes(spec_u64_from_le_bytes(bytes.subrange(0, 8))) == bytes.subrange(0, 8));
        assert(Self::of_wire(bytes).as_wire() =~= bytes);
    }

    fn wire_size_exec() -> usize {
        8
    }

    fn wire_align_exec() -> usize {
        8
    }

    fn read_wire(bytes: &[u8], off: usize) -> (r: Self) {
        proof {
            assert(Self::wire_size() == 8);
            assert(bytes.len() == bytes@.len());
        }
        let r = fuse_forget_in {
            nlookup: crate::wire::read_u64_at(bytes, off),
        };
        proof {
            let s = bytes@.subrange(off as int, off as int + 8);
            assert(s.subrange(0, 8) =~= bytes@.subrange(off as int + 0, off as int + 8));
            assert(r == Self::of_wire(s));
        }
        r
    }

    fn write_wire(&self, out: &mut Vec<u8>) {
        crate::wire::write_u64(out, self.nlookup);
        proof {
            lemma_auto_spec_u64_to_from_le_bytes();
            assert(spec_u64_to_le_bytes(self.nlookup).len() == 8);
            assert(out@ =~= old(out)@ + self.as_wire());
        }
    }
}

#[allow(non_camel_case_types)]
#[derive(Debug, Clone, Copy, PartialEq, Eq, Structural)]
pub struct fuse_forget_one {
    pub nodeid: u64,
    pub nlookup: u64,
}

impl Sealed for fuse_forget_one {}

impl FuseAbiData for fuse_forget_one {
    open spec fn wire_size() -> nat {
        16
    }

    open spec fn wire_align() -> nat {
        8
    }

    open spec fn as_wire(self) -> Seq<u8> {
        spec_u64_to_le_bytes(self.nodeid)
            + spec_u64_to_le_bytes(self.nlookup)
    }

    open spec fn of_wire(bytes: Seq<u8>) -> Self {
        fuse_forget_one {
            nodeid: spec_u64_from_le_bytes(bytes.subrange(0, 8)),
            nlookup: spec_u64_from_le_bytes(bytes.subrange(8, 16)),
        }
    }

    proof fn lemma_wire_len(x: Self) {
        lemma_auto_spec_u64_to_from_le_bytes();
        assert(spec_u64_to_le_bytes(x.nodeid).len() == 8);
        assert(spec_u64_to_le_bytes(x.nlookup).len() == 8);
    }

    proof fn lemma_size_align() {
    }

    proof fn lemma_of_as(x: Self) {
        lemma_auto_spec_u64_to_from_le_bytes();
        let w = x.as_wire();
        assert(w.subrange(0, 8) =~= spec_u64_to_le_bytes(x.nodeid));
        assert(w.subrange(8, 16) =~= spec_u64_to_le_bytes(x.nlookup));
        assert(Self::of_wire(w) == x);
    }

    proof fn lemma_as_of(bytes: Seq<u8>) {
        lemma_auto_spec_u64_to_from_le_bytes();
        assert(spec_u64_to_le_bytes(spec_u64_from_le_bytes(bytes.subrange(0, 8))) == bytes.subrange(0, 8));
        assert(spec_u64_to_le_bytes(spec_u64_from_le_bytes(bytes.subrange(8, 16))) == bytes.subrange(8, 16));
        assert(Self::of_wire(bytes).as_wire() =~= bytes);
    }

    fn wire_size_exec() -> usize {
        16
    }

    fn wire_align_exec() -> usize {
        8
    }

    fn read_wire(bytes: &[u8], off: usize) -> (r: Self) {
        proof {
            assert(Self::wire_size() == 16);
            assert(bytes.len() == bytes@.len());
        }
        let r = fuse_forget_one {
            nodeid: crate::wire::read_u64_at(bytes, off),
            nlookup: crate::wire::read_u64_at(bytes, off + 8),
        };
        proof {
            let s = bytes@.subrange(off as int, off as int + 16);
            assert(s.subrange(0, 8) =~= bytes@.subrange(off as int + 0, off as int + 8));
            assert(s.subrange(8, 16) =~= bytes@.subrange(off as int + 8, off as int + 16));
            assert(r == Self::of_wire(s));
        }
        r
    }

    fn write_wire(&self, out: &mut Vec<u8>) {
        crate::wire::write_u64(out, self.nodeid);
        crate::wire::write_u64(out, self.nlookup);
        proof {
            lemma_auto_spec_u64_to_from_le_bytes();
            assert(spec_u64_to_le_bytes(self.nodeid).len() == 8);
            assert(spec_u64_to_le_bytes(self.nlookup).len() == 8);
            assert(out@ =~= old(out)@ + self.as_wire());
        }
    }
}

#[allow(non_camel_case_types)]
#[derive(Debug, Clone, Copy, PartialEq, Eq, Structural)]
pub struct fuse_batch_forget_in {
    pub count: u32,
    pub dummy: u32,
}

impl Sealed for fuse_batch_forget_in {}

impl FuseAbiData for fuse_batch_forget_in {
    open spec fn wire_size() -> nat {
        8
    }

    open spec fn wire_align() -> nat {
        4
    }

    open spec fn as_wire(self) -> Seq<u8> {
        spec_u32_to_le_bytes(self.count)
            + spec_u32_to_le_bytes(self.dummy)
    }

    open spec fn of_wire(bytes: Seq<u8>) -> Self {
        fuse_batch_forget_in {
            count: spec_u32_from_le_bytes(bytes.subrange(0, 4)),
            dummy: spec_u32_from_le_bytes(bytes.subrange(4, 8)),
        }
    }

    proof fn lemma_wire_len(x: Self) {
        lemma_auto_spec_u32_to_from_le_bytes();
        assert(spec_u32_to_le_bytes(x.count).len() == 4);
        assert(spec_u32_to_le_bytes(x.dummy).len() == 4);
    }

    proof fn lemma_size_align() {
    }

    proof fn lemma_of_as(x: Self) {
        lemma_auto_spec_u32_to_from_le_bytes();
        let w = x.as_wire();
        assert(w.subrange(0, 4) =~= spec_u32_to_le_bytes(x.count));
        assert(w.subrange(4, 8) =~= spec_u32_to_le_bytes(x.dummy));
        assert(Self::of_wire(w) == x);
    }

    proof fn lemma_as_of(bytes: Seq<u8>) {
        lemma_auto_spec_u32_to_from_le_bytes();
        assert(spec_u32_to_le_bytes(spec_u32_from_le_bytes(bytes.subrange(0, 4))) == bytes.subrange(0, 4));
        assert(spec_u32_to_le_bytes(spec_u32_from_le_bytes(bytes.subrange(4, 8))) == bytes.subrange(4, 8));
        assert(Self::of_wire(bytes).as_wire() =~= bytes);
    }

    fn wire_size_exec() -> usize {
        8
    }

    fn wire_align_exec() -> usize {
        4
    }

    fn read_wire(bytes: &[u8], off: usize) -> (r: Self) {
        proof {
            assert(Self::wire_size() == 8);
            assert(bytes.len() == bytes@.len());
        }
        let r = fuse_batch_forget_in {
            count: crate::wire::read_u32_at(bytes, off),
            dummy: crate::wire::read_u32_at(bytes, off + 4),
        };
        proof {
            let s = bytes@.subrange(off as int, off as int + 8);
            assert(s.subrange(0, 4) =~= bytes@.subrange(off as int + 0, off as int + 4));
            assert(s.subrange(4, 8) =~= bytes@.subrange(off as int + 4, off as int + 8));
            assert(r == Self::of_wire(s));
        }
        r
    }

    fn write_wire(&self, out: &mut Vec<u8>) {
        crate::wire::write_u32(out, self.count);
        crate::wire::write_u32(out, self.dummy);
        proof {
            lemma_auto_spec_u32_to_from_le_bytes();
            assert(spec_u32_to_le_bytes(self.count).len() == 4);
            assert(spec_u32_to_le_bytes(self.dummy).len() == 4);
            assert(out@ =~= old(out)@ + self.as_wire());
        }
    }
}

#[allow(non_camel_case_types)]
#[derive(Debug, Clone, Copy, PartialEq, Eq, Structural)]
pub struct fuse_getattr_in {
    pub getattr_flags: u32,
    pub dummy: u32,
    pub fh: u64,
}

impl Sealed for fuse_getattr_in {}

impl FuseAbiData for fuse_getattr_in {
    open spec fn wire_size() -> nat {
        16
    }

    open spec fn wire_align() -> nat {
        8
    }

    open spec fn as_wire(self) -> Seq<u8> {
        spec_u32_to_le_bytes(self.getattr_flags)
            + spec_u32_to_le_bytes(self.dummy)
            + spec_u64_to_le_bytes(self.fh)
    }

    open spec fn of_wire(bytes: Seq<u8>) -> Self {
        fuse_getattr_in {
            getattr_flags: spec_u32_from_le_bytes(bytes.subrange(0, 4)),
            dummy: spec_u32_from_le_bytes(bytes.subrange(4, 8)),
            fh: spec_u64_from_le_bytes(bytes.subrange(8, 16)),
        }
    }

    proof fn lemma_wire_len(x: Self) {
        lemma_auto_spec_u32_to_from_le_bytes();
        lemma_auto_spec_u64_to_from_le_bytes();
        assert(spec_u32_to_le_bytes(x.getattr_flags).len() == 4);
        assert(spec_u32_to_le_bytes(x.dummy).len() == 4);
        assert(spec_u64_to_le_bytes(x.fh).len() == 8);
    }

    proof fn lemma_size_align() {
    }

    proof fn lemma_of_as(x: Self) {
        lemma_auto_spec_u32_to_from_le_bytes();
        lemma_auto_spec_u64_to_from_le_bytes();
        let w = x.as_wire();
        assert(w.subrange(0, 4) =~= spec_u32_to_le_bytes(x.getattr_flags));
        assert(w.subrange(4, 8) =~= spec_u32_to_le_bytes(x.dummy));
        assert(w.subrange(8, 16) =~= spec_u64_to_le_bytes(x.fh));
        assert(Self::of_wire(w) == x);
    }

    proof fn lemma_as_of(bytes: Seq<u8>) {
        lemma_auto_spec_u32_to_from_le_bytes();
        lemma_auto_spec_u64_to_from_le_bytes();
        assert(spec_u32_to_le_bytes(spec_u32_from_le_bytes(bytes.subrange(0, 4))) == bytes.subrange(0, 4));
        assert(spec_u32_to_le_bytes(spec_u32_from_le_bytes(bytes.subrange(4, 8))) == bytes.subrange(4, 8));
        assert(spec_u64_to_le_bytes(spec_u64_from_le_bytes(bytes.subrange(8, 16))) == bytes.subrange(8, 16));
        assert(Self::of_wire(bytes).as_wire() =~= bytes);
    }

    fn wire_size_exec() -> usize {
        16
    }

    fn wire_align_exec() -> usize {
        8
    }

    fn read_wire(bytes: &[u8], off: usize) -> (r: Self) {
        proof {
            assert(Self::wire_size() == 16);
            assert(bytes.len() == bytes@.len());
        }
        let r = fuse_getattr_in {
            getattr_flags: crate::wire::read_u32_at(bytes, off),
            dummy: crate::wire::read_u32_at(bytes, off + 4),
            fh: crate::wire::read_u64_at(bytes, off + 8),
        };
        proof {
            let s = bytes@.subrange(off as int, off as int + 16);
            assert(s.subrange(0, 4) =~= bytes@.subrange(off as int + 0, off as int + 4));
            assert(s.subrange(4, 8) =~= bytes@.subrange(off as int + 4, off as int + 8));
            assert(s.subrange(8, 16) =~= bytes@.subrange(off as int + 8, off as int + 16));
            assert(r == Self::of_wire(s));
        }
        r
    }

    fn write_wire(&self, out: &mut Vec<u8>) {
        crate::wire::write_u32(out, self.getattr_flags);
        crate::wire::write_u32(out, self.dummy);
        crate::wire::write_u64(out, self.fh);
        proof {
            lemma_auto_spec_u32_to_from_le_bytes();
            lemma_auto_spec_u64_to_from_le_bytes();
            assert(spec_u32_to_le_bytes(self.getattr_flags).len() == 4);
            assert(spec_u32_to_le_bytes(self.dummy).len() == 4);
            assert(spec_u64_to_le_bytes(self.fh).len() == 8);
            assert(out@ =~= old(out)@ + self.as_wire());
        }
    }
}

#[allow(non_camel_case_types)]
#[derive(Debug, Clone, Copy, PartialEq, Eq, Structural)]
pub struct fuse_attr_out {
    pub attr_valid: u64,
    pub attr_valid_nsec: u32,
    pub dummy: u32,
    pub attr: fuse_attr,
}

impl fuse_attr_out {
    /// The all-zero record, the starting point of every reply builder.
    pub open spec fn zeroed() -> Self {
        fuse_attr_out {
            attr_valid: 0,
            attr_valid_nsec: 0,
            dummy: 0,
            attr: fuse_attr::zeroed(),
        }
    }
}

impl Default for fuse_attr_out {
    fn default() -> (r: Self)
        ensures
            r == fuse_attr_out::zeroed(),
    {
        fuse_attr_out {
            attr_valid: 0,
            attr_valid_nsec: 0,
            dummy: 0,
            attr: fuse_attr::default(),
        }
    }
}

impl Sealed for fuse_attr_out {}

impl FuseAbiData for fuse_attr_out {
    open spec fn wire_size() -> nat {
        104
    }

    open spec fn wire_align() -> nat {
        8
    }

    open spec fn as_wire(self) -> Seq<u8> {
        spec_u64_to_le_bytes(self.attr_valid)
            + spec_u32_to_le_bytes(self.attr_valid_nsec)
            + spec_u32_to_le_bytes(self.dummy)
            + self.attr.as_wire()
    }

    open spec fn of_wire(bytes: Seq<u8>) -> Self {
        fuse_attr_out {
            attr_valid: spec_u64_from_le_bytes(bytes.subrange(0, 8)),
            attr_valid_nsec: spec_u32_from_le_bytes(bytes.subrange(8, 12)),
            dummy: spec_u32_from_le_bytes(bytes.subrange(12, 16)),
            attr: fuse_attr::of_wire(bytes.subrange(16, 104)),
        }
    }

    proof fn lemma_wire_len(x: Self) {
        lemma_auto_spec_u32_to_from_le_bytes();
        lemma_auto_spec_u64_to_from_le_bytes();
        assert(spec_u64_to_le_bytes(x.attr_valid).len() == 8);
        assert(spec_u32_to_le_bytes(x.attr_valid_nsec).len() == 4);
        assert(spec_u32_to_le_bytes(x.dummy).len() == 4);
        fuse_attr::lemma_wire_len(x.attr);
    }

    proof fn lemma_size_align() {
    }

    proof fn lemma_of_as(x: Self) {
        lemma_auto_spec_u32_to_from_le_bytes();
        lemma_auto_spec_u64_to_from_le_bytes();
        fuse_attr::lemma_wire_len(x.attr);
        let w = x.as_wire();
        assert(w.subrange(0, 8) =~= spec_u64_to_le_bytes(x.attr_valid));
        assert(w.subrange(8, 12) =~= spec_u32_to_le_bytes(x.attr_valid_nsec));
        assert(w.subrange(12, 16) =~= spec_u32_to_le_bytes(x.dummy));
        assert(w.subrange(16, 104) =~= x.attr.as_wire());
        fuse_attr::lemma_of_as(x.attr);
        assert(Self::of_wire(w) == x);
    }

    proof fn lemma_as_of(bytes: Seq<u8>) {
        lemma_auto_spec_u32_to_from_le_bytes();
        lemma_auto_spec_u64_to_from_le_bytes();
        assert(spec_u64_to_le_bytes(spec_u64_from_le_bytes(bytes.subrange(0, 8))) == bytes.subrange(0, 8));
        assert(spec_u32_to_le_bytes(spec_u32_from_le_bytes(bytes.subrange(8, 12))) == bytes.subrange(8, 12));
        assert(spec_u32_to_le_bytes(spec_u32_from_le_bytes(bytes.subrange(12, 16))) == bytes.subrange(12, 16));
        fuse_attr::lemma_as_of(bytes.subrange(16, 104));
        assert(Self::of_wire(bytes).as_wire() =~= bytes);
    }

    fn wire_size_exec() -> usize {
        104
    }

    fn wire_align_exec() -> usize {
        8
    }

    fn read_wire(bytes: &[u8], off: usize) -> (r: Self) {
        proof {
            assert(Self::wire_size() == 104);
            assert(bytes.len() == bytes@.len());
        }
        let r = fuse_attr_out {
            attr_valid: crate::wire::read_u64_at(bytes, off),
            attr_valid_nsec: crate::wire::read_u32_at(bytes, off + 8),
            dummy: crate::wire::read_u32_at(bytes, off + 12),
            attr: fuse_attr::read_wire(bytes, off + 16),
        };
        proof {
            let s = bytes@.subrange(off as int, off as int + 104);
            assert(s.subrange(0, 8) =~= bytes@.subrange(off as int + 0, off as int + 8));
            assert(s.subrange(8, 12) =~= bytes@.subrange(off as int + 8, off as int + 12));
            assert(s.subrange(12, 16) =~= bytes@.subrange(off as int + 12, off as int + 16));
            assert(s.subrange(16, 104) =~= bytes@.subrange(off as int + 16, off as int + 104));
            assert(r == Self::of_wire(s));
        }
        r
    }

    fn write_wire(&self, out: &mut Vec<u8>) {
        crate::wire::write_u64(out, self.attr_valid);
        crate::wire::write_u32(out, self.attr_valid_nsec);
        crate::wire::write_u32(out, self.dummy);
        self.attr.write_wire(out);
        proof {
            lemma_auto_spec_u32_to_from_le_bytes();
            lemma_auto_spec_u64_to_from_le_bytes();
            assert(spec_u64_to_le_bytes(self.attr_valid).len() == 8);
            assert(spec_u32_to_le_bytes(self.attr_valid_nsec).len() == 4);
            assert(spec_u32_to_le_bytes(self.dummy).len() == 4);
            fuse_attr::lemma_wire_len(self.attr);
            assert(out@ =~= old(out)@ + self.as_wire());
        }
    }
}

#[allow(non_camel_case_types)]
#[derive(Debug, Clone, Copy, PartialEq, Eq, Structural)]
pub struct fuse_mknod_in {
    pub mode: u32,
    pub rdev: u32,
    pub umask: u32,
    pub padding: u32,
}

impl Sealed for fuse_mknod_in {}

impl FuseAbiData for fuse_mknod_in {
    open spec fn wire_size() -> nat {
        16
    }

    open spec fn wire_align() -> nat {
        4
    }

    open spec fn as_wire(self) -> Seq<u8> {
        spec_u32_to_le_bytes(self.mode)
            + spec_u32_to_le_bytes(self.rdev)
            + spec_u32_to_le_bytes(self.umask)
            + spec_u32_to_le_bytes(self.padding)
    }

    open spec fn of_wire(bytes: Seq<u8>) -> Self {
        fuse_mknod_in {
            mode: spec_u32_from_le_bytes(bytes.subrange(0, 4)),
            rdev: spec_u32_from_le_bytes(bytes.subrange(4, 8)),
            umask: spec_u32_from_le_bytes(bytes.subrange(8, 12)),
            padding: spec_u32_from_le_bytes(bytes.subrange(12, 16)),
        }
    }

    proof fn lemma_wire_len(x: Self) {
        lemma_auto_spec_u32_to_from_le_bytes();
        assert(spec_u32_to_le_bytes(x.mode).len() == 4);
        assert(spec_u32_to_le_bytes(x.rdev).len() == 4);
        assert(spec_u32_to_le_bytes(x.umask).len() == 4);
        assert(spec_u32_to_le_bytes(x.padding).len() == 4);
    }

    proof fn lemma_size_align() {
    }

    proof fn lemma_of_as(x: Self) {
        lemma_auto_spec_u32_to_from_le_bytes();
        let w = x.as_wire();
        assert(w.subrange(0, 4) =~= spec_u32_to_le_bytes(x.mode));
        assert(w.subrange(4, 8) =~= spec_u32_to_le_bytes(x.rdev));
        assert(w.subrange(8, 12) =~= spec_u32_to_le_bytes(x.umask));
        assert(w.subrange(12, 16) =~= spec_u32_to_le_bytes(x.padding));
        assert(Self::of_wire(w) == x);
    }

    proof fn lemma_as_of(bytes: Seq<u8>) {
        lemma_auto_spec_u32_to_from_le_bytes();
        assert(spec_u32_to_le_bytes(spec_u32_from_le_bytes(bytes.subrange(0, 4))) == bytes.subrange(0, 4));
        assert(spec_u32_to_le_bytes(spec_u32_from_le_bytes(bytes.subrange(4, 8))) == bytes.subrange(4, 8));
        assert(spec_u32_to_le_bytes(spec_u32_from_le_bytes(bytes.subrange(8, 12))) == bytes.subrange(8, 12));
        assert(spec_u32_to_le_bytes(spec_u32_from_le_bytes(bytes.subrange(12, 16))) == bytes.subrange(12, 16));
        assert(Self::of_wire(bytes).as_wire() =~= bytes);
    }

    fn wire_size_exec() -> usize {
        16
    }

    fn wire_align_exec() -> usize {
        4
    }

    fn read_wire(bytes: &[u8], off: usize) -> (r: Self) {
        proof {
            assert(Self::wire_size() == 16);
            assert(bytes.len() == bytes@.len());
        }
        let r = fuse_mknod_in {
            mode: crate::wire::read_u32_at(bytes, off),
            rdev: crate::wire::read_u32_at(bytes, off + 4),
            umask: crate::wire::read_u32_at(bytes, off + 8),
            padding: crate::wire::read_u32_at(bytes, off + 12),
        };
        proof {
            let s = bytes@.subrange(off as int, off as int + 16);
            assert(s.subrange(0, 4) =~= bytes@.subrange(off as int + 0, off as int + 4));
            assert(s.subrange(4, 8) =~= bytes@.subrange(off as int + 4, off as int + 8));
            assert(s.subrange(8, 12) =~= bytes@.subrange(off as int + 8, off as int + 12));
            assert(s.subrange(12, 16) =~= bytes@.subrange(off as int + 12, off as int + 16));
            assert(r == Self::of_wire(s));
        }
        r
    }

    fn write_wire(&self, out: &mut Vec<u8>) {
        crate::wire::write_u32(out, self.mode);
        crate::wire::write_u32(out, self.rdev);
        crate::wire::write_u32(out, self.umask);
        crate::wire::write_u32(out, self.padding);
        proof {
            lemma_auto_spec_u32_to_from_le_bytes();
            assert(spec_u32_to_le_bytes(self.mode).len() == 4);
            assert(spec_u32_to_le_bytes(self.rdev).len() == 4);
            assert(spec_u32_to_le_bytes(self.umask).len() == 4);
            assert(spec_u32_to_le_bytes(self.padding).len() == 4);
            assert(out@ =~= old(out)@ + self.as_wire());
        }
    }
}

#[allow(non_camel_case_types)]
#[derive(Debug, Clone, Copy, PartialEq, Eq, Structural)]
pub struct fuse_mkdir_in {
    pub mode: u32,
    pub umask: u32,
}

impl Sealed for fuse_mkdir_in {}

impl FuseAbiData for fuse_mkdir_in {
    open spec fn wire_size() -> nat {
        8
    }

    open spec fn wire_align() -> nat {
        4
    }

    open spec fn as_wire(self) -> Seq<u8> {
        spec_u32_to_le_bytes(self.mode)
            + spec_u32_to_le_bytes(self.umask)
    }

    open spec fn of_wire(bytes: Seq<u8>) -> Self {
        fuse_mkdir_in {
            mode: spec_u32_from_le_bytes(bytes.subrange(0, 4)),
            umask: spec_u32_from_le_bytes(bytes.subrange(4, 8)),
        }
    }

    proof fn lemma_wire_len(x: Self) {
        lemma_auto_spec_u32_to_from_le_bytes();
        assert(spec_u32_to_le_bytes(x.mode).len() == 4);
        assert(spec_u32_to_le_bytes(x.umask).len() == 4);
    }

    proof fn lemma_size_align() {
    }

    proof fn lemma_of_as(x: Self) {
        lemma_auto_spec_u32_to_from_le_bytes();
        let w = x.as_wire();
        assert(w.subrange(0, 4) =~= spec_u32_to_le_bytes(x.mode));
        assert(w.subrange(4, 8) =~= spec_u32_to_le_bytes(x.umask));
        assert(Self::of_wire(w) == x);
    }

    proof fn lemma_as_of(bytes: Seq<u8>) {
        lemma_auto_spec_u32_to_from_le_bytes();
        assert(spec_u32_to_le_bytes(spec_u32_from_le_bytes(bytes.subrange(0, 4))) == bytes.subrange(0, 4));
        assert(spec_u32_to_le_bytes(spec_u32_from_le_bytes(bytes.subrange(4, 8))) == bytes.subrange(4, 8));
        assert(Self::of_wire(bytes).as_wire() =~= bytes);
    }

    fn wire_size_exec() -> usize {
        8
    }

    fn wire_align_exec() -> usize {
        4
    }

    fn read_wire(bytes: &[u8], off: usize) -> (r: Self) {
        proof {
            assert(Self::wire_size() == 8);
            assert(bytes.len() == bytes@.len());
        }
        let r = fuse_mkdir_in {
            mode: crate::wire::read_u32_at(bytes, off),
            umask: crate::wire::read_u32_at(bytes, off + 4),
        };
        proof {
            let s = bytes@.subrange(off as int, off as int + 8);
            assert(s.subrange(0, 4) =~= bytes@.subrange(off as int + 0, off as int + 4));
            assert(s.subrange(4, 8) =~= bytes@.subrange(off as int + 4, off as int + 8));
            assert(r == Self::of_wire(s));
        }
        r
    }

    fn write_wire(&self, out: &mut Vec<u8>) {
        crate::wire::write_u32(out, self.mode);
        crate::wire::write_u32(out, self.umask);
        proof {
            lemma_auto_spec_u32_to_from_le_bytes();
            assert(spec_u32_to_le_bytes(self.mode).len() == 4);
            assert(spec_u32_to_le_bytes(self.umask).len() == 4);
            assert(out@ =~= old(out)@ + self.as_wire());
        }
    }
}

#[allow(non_camel_case_types)]
#[derive(Debug, Clone, Copy, PartialEq, Eq, Structural)]
pub struct fuse_rename_in {
    pub newdir: u64,
}

impl Sealed for fuse_rename_in {}

impl FuseAbiData for fuse_rename_in {
    open spec fn wire_size() -> nat {
        8
    }

    open spec fn wire_align() -> nat {
        8
    }

    open spec fn as_wire(self) -> Seq<u8> {
        spec_u64_to_le_bytes(self.newdir)
    }

    open spec fn of_wire(bytes: Seq<u8>) -> Self {
        fuse_rename_in {
            newdir: spec_u64_from_le_bytes(bytes.subrange(0, 8)),
        }
    }

    proof fn lemma_wire_len(x: Self) {
        lemma_auto_spec_u64_to_from_le_bytes();
        assert(spec_u64_to_le_bytes(x.newdir).len() == 8);
    }

    proof fn lemma_size_align() {
    }

    proof fn lemma_of_as(x: Self) {
        lemma_auto_spec_u64_to_from_le_bytes();
        let w = x.as_wire();
        assert(w.subrange(0, 8) =~= spec_u64_to_le_bytes(x.newdir));
        assert(Self::of_wire(w) == x);
    }

    proof fn lemma_as_of(bytes: Seq<u8>) {
        lemma_auto_spec_u64_to_from_le_bytes();
        assert(spec_u64_to_le_bytes(spec_u64_from_le_bytes(bytes.subrange(0, 8))) == bytes.subrange(0, 8));
        assert(Self::of_wire(bytes).as_wire() =~= bytes);
    }

    fn wire_size_exec() -> usize {
        8
    }

    fn wire_align_exec() -> usize {
        8
    }

    fn read_wire(bytes: &[u8], off: usize) -> (r: Self) {
        proof {
            assert(Self::wire_size() == 8);
            assert(bytes.len() == bytes@.len());
        }
        let r = fuse_rename_in {
            newdir: crate::wire::read_u64_at(bytes, off),
        };
        proof {
            let s = bytes@.subrange(off as int, off as int + 8);
            assert(s.subrange(0, 8) =~= bytes@.subrange(off as int + 0, off as int + 8));
            assert(r == Self::of_wire(s));
        }
        r
    }

    fn write_wire(&self, out: &mut Vec<u8>) {
        crate::wire::write_u64(out, self.newdir);
        proof {
            lemma_auto_spec_u64_to_from_le_bytes();
            assert(spec_u64_to_le_bytes(self.newdir).len() == 8);
            assert(out@ =~= old(out)@ + self.as_wire());
        }
    }
}

#[allow(non_camel_case_types)]
#[derive(Debug, Clone, Copy, PartialEq, Eq, Structural)]
pub struct fuse_rename2_in {
    pub newdir: u64,
    pub flags: u32,
    pub padding: u32,
}

impl Sealed for fuse_rename2_in {}

impl FuseAbiData for fuse_rename2_in {
    open spec fn wire_size() -> nat {
        16
    }

    open spec fn wire_align() -> nat {
        8
    }

    open spec fn as_wire(self) -> Seq<u8> {
        spec_u64_to_le_bytes(self.newdir)
            + spec_u32_to_le_bytes(self.flags)
            + spec_u32_to_le_bytes(self.padding)
    }

    open spec fn of_wire(bytes: Seq<u8>) -> Self {
        fuse_rename2_in {
            newdir: spec_u64_from_le_bytes(bytes.subrange(0, 8)),
            flags: spec_u32_from_le_bytes(bytes.subrange(8, 12)),
            padding: spec_u32_from_le_bytes(bytes.subrange(12, 16)),
        }
    }

    proof fn lemma_wire_len(x: Self) {
        lemma_auto_spec_u32_to_from_le_bytes();
        lemma_auto_spec_u64_to_from_le_bytes();
        assert(spec_u64_to_le_bytes(x.newdir).len() == 8);
        assert(spec_u32_to_le_bytes(x.flags).len() == 4);
        assert(spec_u32_to_le_bytes(x.padding).len() == 4);
    }

    proof fn lemma_size_align() {
    }

    proof fn lemma_of_as(x: Self) {
        lemma_auto_spec_u32_to_from_le_bytes();
        lemma_auto_spec_u64_to_from_le_bytes();
        let w = x.as_wire();
        assert(w.subrange(0, 8) =~= spec_u64_to_le_bytes(x.newdir));
        assert(w.subrange(8, 12) =~= spec_u32_to_le_bytes(x.flags));
        assert(w.subrange(12, 16) =~= spec_u32_to_le_bytes(x.padding));
        assert(Self::of_wire(w) == x);
    }

    proof fn lemma_as_of(bytes: Seq<u8>) {
        lemma_auto_spec_u32_to_from_le_bytes();
        lemma_auto_spec_u64_to_from_le_bytes();
        assert(spec_u64_to_le_bytes(spec_u64_from_le_bytes(bytes.subrange(0, 8))) == bytes.subrange(0, 8));
        assert(spec_u32_to_le_bytes(spec_u32_from_le_bytes(bytes.subrange(8, 12))) == bytes.subrange(8, 12));
        assert(spec_u32_to_le_bytes(spec_u32_from_le_bytes(bytes.subrange(12, 16))) == bytes.subrange(12, 16));
        assert(Self::of_wire(bytes).as_wire() =~= bytes);
    }

    fn wire_size_exec() -> usize {
        16
    }

    fn wire_align_exec() -> usize {
        8
    }

    fn read_wire(bytes: &[u8], off: usize) -> (r: Self) {
        proof {
            assert(Self::wire_size() == 16);
            assert(bytes.len() == bytes@.len());
        }
        let r = fuse_rename2_in {
            newdir: crate::wire::read_u64_at(bytes, off),
            flags: crate::wire::read_u32_at(bytes, off + 8),
            padding: crate::wire::read_u32_at(bytes, off + 12),
        };
        proof {
            let s = bytes@.subrange(off as int, off as int + 16);
            assert(s.subrange(0, 8) =~= bytes@.subrange(off as int + 0, off as int + 8));
            assert(s.subrange(8, 12) =~= bytes@.subrange(off as int + 8, off as int + 12));
            assert(s.subrange(12, 16) =~= bytes@.subrange(off as int + 12, off as int + 16));
            assert(r == Self::of_wire(s));
        }
        r
    }

    fn write_wire(&self, out: &mut Vec<u8>) {
        crate::wire::write_u64(out, self.newdir);
        crate::wire::write_u32(out, self.flags);
        crate::wire::write_u32(out, self.padding);
        proof {
            lemma_auto_spec_u32_to_from_le_bytes();
            lemma_auto_spec_u64_to_from_le_bytes();
            assert(spec_u64_to_le_bytes(self.newdir).len() == 8);
            assert(spec_u32_to_le_bytes(self.flags).len() == 4);
            assert(spec_u32_to_le_bytes(self.padding).len() == 4);
            assert(out@ =~= old(out)@ + self.as_wire());
        }
    }
}

#[allow(non_camel_case_types)]
#[derive(Debug, Clone, Copy, PartialEq, Eq, Structural)]
pub struct fuse_link_in {
    pub oldnodeid: u64,
}

impl Sealed for fuse_link_in {}

impl FuseAbiData for fuse_link_in {
    open spec fn wire_size() -> nat {
        8
    }

    open spec fn wire_align() -> nat {
        8
    }

    open spec fn as_wire(self) -> Seq<u8> {
        spec_u64_to_le_bytes(self.oldnodeid)
    }

    open spec fn of_wire(bytes: Seq<u8>) -> Self {
        fuse_link_in {
            oldnodeid: spec_u64_from_le_bytes(bytes.subrange(0, 8)),
        }
    }

    proof fn lemma_wire_len(x: Self) {
        lemma_auto_spec_u64_to_from_le_bytes();
        assert(spec_u64_to_le_bytes(x.oldnodeid).len() == 8);
    }

    proof fn lemma_size_align() {
    }

    proof fn lemma_of_as(x: Self) {
        lemma_auto_spec_u64_to_from_le_bytes();
        let w = x.as_wire();
        assert(w.subrange(0, 8) =~= spec_u64_to_le_bytes(x.oldnodeid));
        assert(Self::of_wire(w) == x);
    }

    proof fn lemma_as_of(bytes: Seq<u8>) {
        lemma_auto_spec_u64_to_from_le_bytes();
        assert(spec_u64_to_le_bytes(spec_u64_from_le_bytes(bytes.subrange(0, 8))) == bytes.subrange(0, 8));
        assert(Self::of_wire(bytes).as_wire() =~= bytes);
    }

    fn wire_size_exec() -> usize {
        8
    }

    fn wire_align_exec() -> usize {
        8
    }

    fn read_wire(bytes: &[u8], off: usize) -> (r: Self) {
        proof {
            assert(Self::wire_size() == 8);
            assert(bytes.len() == bytes@.len());
        }
        let r = fuse_link_in {
            oldnodeid: crate::wire::read_u64_at(bytes, off),
        };
        proof {
            let s = bytes@.subrange(off as int, off as int + 8);
            assert(s.subrange(0, 8) =~= bytes@.subrange(off as int + 0, off as int + 8));
            assert(r == Self::of_wire(s));
        }
        r
    }

    fn write_wire(&self, out: &mut Vec<u8>) {
        crate::wire::write_u64(out, self.oldnodeid);
        proof {
            lemma_auto_spec_u64_to_from_le_bytes();
            assert(spec_u64_to_le_bytes(self.oldnodeid).len() == 8);
            assert(out@ =~= old(out)@ + self.as_wire());
        }
    }
}

#[allow(non_camel_case_types)]
#[derive(Debug, Clone, Copy, PartialEq, Eq, Structural)]
pub struct fuse_setattr_in {
    pub valid: u32,
    pub padding: u32,
    pub fh: u64,
    pub size: u64,
    pub lock_owner: u64,
    pub atime: u64,
    pub mtime: u64,
    pub ctime: u64,
    pub atimensec: u32,
    pub mtimensec: u32,
    pub ctimensec: u32,
    pub mode: u32,
    pub unused4: u32,
    pub uid: u32,
    pub gid: u32,
    pub unused5: u32,
}

impl Sealed for fuse_setattr_in {}

impl FuseAbiData for fuse_setattr_in {
    open spec fn wire_size() -> nat {
        88
    }

    open spec fn wire_align() -> nat {
        8
    }

    open spec fn as_wire(self) -> Seq<u8> {
        spec_u32_to_le_bytes(self.valid)
            + spec_u32_to_le_bytes(self.padding)
            + spec_u64_to_le_bytes(self.fh)
            + spec_u64_to_le_bytes(self.size)
            + spec_u64_to_le_bytes(self.lock_owner)
            + spec_u64_to_le_bytes(self.atime)
            + spec_u64_to_le_bytes(self.mtime)
            + spec_u64_to_le_bytes(self.ctime)
            + spec_u32_to_le_bytes(self.atimensec)
            + spec_u32_to_le_bytes(self.mtimensec)
            + spec_u32_to_le_bytes(self.ctimensec)
            + spec_u32_to_le_bytes(self.mode)
            + spec_u32_to_le_bytes(self.unused4)
            + spec_u32_to_le_bytes(self.uid)
            + spec_u32_to_le_bytes(self.gid)
            + spec_u32_to_le_bytes(self.unused5)
    }

    open spec fn of_wire(bytes: Seq<u8>) -> Self {
        fuse_setattr_in {
            valid: spec_u32_from_le_bytes(bytes.subrange(0, 4)),
            padding: spec_u32_from_le_bytes(bytes.subrange(4, 8)),
            fh: spec_u64_from_le_bytes(bytes.subrange(8, 16)),
            size: spec_u64_from_le_bytes(bytes.subrange(16, 24)),
            lock_owner: spec_u64_from_le_bytes(bytes.subrange(24, 32)),
            atime: spec_u64_from_le_bytes(bytes.subrange(32, 40)),
            mtime: spec_u64_from_le_bytes(bytes.subrange(40, 48)),
            ctime: spec_u64_from_le_bytes(bytes.subrange(48, 56)),
            atimensec: spec_u32_from_le_bytes(bytes.subrange(56, 60)),
            mtimensec: spec_u32_from_le_bytes(bytes.subrange(60, 64)),
            ctimensec: spec_u32_from_le_bytes(bytes.subrange(64, 68)),
            mode: spec_u32_from_le_bytes(bytes.subrange(68, 72)),
            unused4: spec_u32_from_le_bytes(bytes.subrange(72, 76)),
            uid: spec_u32_from_le_bytes(bytes.subrange(76, 80)),
            gid: spec_u32_from_le_bytes(bytes.subrange(80, 84)),
            unused5: spec_u32_from_le_bytes(bytes.subrange(84, 88)),
        }
    }

    proof fn lemma_wire_len(x: Self) {
        lemma_auto_spec_u32_to_from_le_bytes();
        lemma_auto_spec_u64_to_from_le_bytes();
        assert(spec_u32_to_le_bytes(x.valid).len() == 4);
        assert(spec_u32_to_le_bytes(x.padding).len() == 4);
        assert(spec_u64_to_le_bytes(x.fh).len() == 8);
        assert(spec_u64_to_le_bytes(x.size).len() == 8);
        assert(spec_u64_to_le_bytes(x.lock_owner).len() == 8);
        assert(spec_u64_to_le_bytes(x.atime).len() == 8);
        assert(spec_u64_to_le_bytes(x.mtime).len() == 8);
        assert(spec_u64_to_le_bytes(x.ctime).len() == 8);
        assert(spec_u32_to_le_bytes(x.atimensec).len() == 4);
        assert(spec_u32_to_le_bytes(x.mtimensec).len() == 4);
        assert(spec_u32_to_le_bytes(x.ctimensec).len() == 4);
        assert(spec_u32_to_le_bytes(x.mode).len() == 4);
        assert(spec_u32_to_le_bytes(x.unused4).len() == 4);
        assert(spec_u32_to_le_bytes(x.uid).len() == 4);
        assert(spec_u32_to_le_bytes(x.gid).len() == 4);
        assert(spec_u32_to_le_bytes(x.unused5).len() == 4);
    }

    proof fn lemma_size_align() {
    }

    proof fn lemma_of_as(x: Self) {
        lemma_auto_spec_u32_to_from_le_bytes();
        lemma_auto_spec_u64_to_from_le_bytes();
        let w = x.as_wire();
        assert(w.subrange(0, 4) =~= spec_u32_to_le_bytes(x.valid));
        assert(w.subrange(4, 8) =~= spec_u32_to_le_bytes(x.padding));
        assert(w.subrange(8, 16) =~= spec_u64_to_le_bytes(x.fh));
        assert(w.subrange(16, 24) =~= spec_u64_to_le_bytes(x.size));
        assert(w.subrange(24, 32) =~= spec_u64_to_le_bytes(x.lock_owner));
        assert(w.subrange(32, 40) =~= spec_u64_to_le_bytes(x.atime));
        assert(w.subrange(40, 48) =~= spec_u64_to_le_bytes(x.mtime));
        assert(w.subrange(48, 56) =~= spec_u64_to_le_bytes(x.ctime));
        assert(w.subrange(56, 60) =~= spec_u32_to_le_bytes(x.atimensec));
        assert(w.subrange(60, 64) =~= spec_u32_to_le_bytes(x.mtimensec));
        assert(w.subrange(64, 68) =~= spec_u32_to_le_bytes(x.ctimensec));
        assert(w.subrange(68, 72) =~= spec_u32_to_le_bytes(x.mode));
        assert(w.subrange(72, 76) =~= spec_u32_to_le_bytes(x.unused4));
        assert(w.subrange(76, 80) =~= spec_u32_to_le_bytes(x.uid));
        assert(w.subrange(80, 84) =~= spec_u32_to_le_bytes(x.gid));
        assert(w.subrange(84, 88) =~= spec_u32_to_le_bytes(x.unused5));
        assert(Self::of_wire(w) == x);
    }

    proof fn lemma_as_of(bytes: Seq<u8>) {
        lemma_auto_spec_u32_to_from_le_bytes();
        lemma_auto_spec_u64_to_from_le_bytes();
        assert(spec_u32_to_le_bytes(spec_u32_from_le_bytes(bytes.subrange(0, 4))) == bytes.subrange(0, 4));
        assert(spec_u32_to_le_bytes(spec_u32_from_le_bytes(bytes.subrange(4, 8))) == bytes.subrange(4, 8));
        assert(spec_u64_to_le_bytes(spec_u64_from_le_bytes(bytes.subrange(8, 16))) == bytes.subrange(8, 16));
        assert(spec_u64_to_le_bytes(spec_u64_from_le_bytes(bytes.subrange(16, 24))) == bytes.subrange(16, 24));
        assert(spec_u64_to_le_bytes(spec_u64_from_le_bytes(bytes.subrange(24, 32))) == bytes.subrange(24, 32));
        assert(spec_u64_to_le_bytes(spec_u64_from_le_bytes(bytes.subrange(32, 40))) == bytes.subrange(32, 40));
        assert(spec_u64_to_le_bytes(spec_u64_from_le_bytes(bytes.subrange(40, 48))) == bytes.subrange(40, 48));
        assert(spec_u64_to_le_bytes(spec_u64_from_le_bytes(bytes.subrange(48, 56))) == bytes.subrange(48, 56));
        assert(spec_u32_to_le_bytes(spec_u32_from_le_bytes(bytes.subrange(56, 60))) == bytes.subrange(56, 60));
        assert(spec_u32_to_le_bytes(spec_u32_from_le_bytes(bytes.subrange(60, 64))) == bytes.subrange(60, 64));
        assert(spec_u32_to_le_bytes(spec_u32_from_le_bytes(bytes.subrange(64, 68))) == bytes.subrange(64, 68));
        assert(spec_u32_to_le_bytes(spec_u32_from_le_bytes(bytes.subrange(68, 72))) == bytes.subrange(68, 72));
        assert(spec_u32_to_le_bytes(spec_u32_from_le_bytes(bytes.subrange(72, 76))) == bytes.subrange(72, 76));
        assert(spec_u32_to_le_bytes(spec_u32_from_le_bytes(bytes.subrange(76, 80))) == bytes.subrange(76, 80));
        assert(spec_u32_to_le_bytes(spec_u32_from_le_bytes(bytes.subrange(80, 84))) == bytes.subrange(80, 84));
        assert(spec_u32_to_le_bytes(spec_u32_from_le_bytes(bytes.subrange(84, 88))) == bytes.subrange(84, 88));
        assert(Self::of_wire(bytes).as_wire() =~= bytes);
    }

    fn wire_size_exec() -> usize {
        88
    }

    fn wire_align_exec() -> usize {
        8
    }

    fn read_wire(bytes: &[u8], off: usize) -> (r: Self) {
        proof {
            assert(Self::wire_size() == 88);
            assert(bytes.len() == bytes@.len());
        }
        let r = fuse_setattr_in {
            valid: crate::wire::read_u32_at(bytes, off),
            padding: crate::wire::read_u32_at(bytes, off + 4),
            fh: crate::wire::read_u64_at(bytes, off + 8),
            size: crate::wire::read_u64_at(bytes, off + 16),
            lock_owner: crate::wire::read_u64_at(bytes, off + 24),
            atime: crate::wire::read_u64_at(bytes, off + 32),
            mtime: crate::wire::read_u64_at(bytes, off + 40),
            ctime: crate::wire::read_u64_at(bytes, off + 48),
            atimensec: crate::wire::read_u32_at(bytes, off + 56),
            mtimensec: crate::wire::read_u32_at(bytes, off + 60),
            ctimensec: crate::wire::read_u32_at(bytes, off + 64),
            mode: crate::wire::read_u32_at(bytes, off + 68),
            unused4: crate::wire::read_u32_at(bytes, off + 72),
            uid: crate::wire::read_u32_at(bytes, off + 76),
            gid: crate::wire::read_u32_at(bytes, off + 80),
            unused5: crate::wire::read_u32_at(bytes, off + 84),
        };
        proof {
            let s = bytes@.subrange(off as int, off as int + 88);
            assert(s.subrange(0, 4) =~= bytes@.subrange(off as int + 0, off as int + 4));
            assert(s.subrange(4, 8) =~= bytes@.subrange(off as int + 4, off as int + 8));
            assert(s.subrange(8, 16) =~= bytes@.subrange(off as int + 8, off as int + 16));
            assert(s.subrange(16, 24) =~= bytes@.subrange(off as int + 16, off as int + 24));
            assert(s.subrange(24, 32) =~= bytes@.subrange(off as int + 24, off as int + 32));
            assert(s.subrange(32, 40) =~= bytes@.subrange(off as int + 32, off as int + 40));
            assert(s.subrange(40, 48) =~= bytes@.subrange(off as int + 40, off as int + 48));
            assert(s.subrange(48, 56) =~= bytes@.subrange(off as int + 48, off as int + 56));
            assert(s.subrange(56, 60) =~= bytes@.subrange(off as int + 56, off as int + 60));
            assert(s.subrange(60, 64) =~= bytes@.subrange(off as int + 60, off as int + 64));
            assert(s.subrange(64, 68) =~= bytes@.subrange(off as int + 64, off as int + 68));
            assert(s.subrange(68, 72) =~= bytes@.subrange(off as int + 68, off as int + 72));
            assert(s.subrange(72, 76) =~= bytes@.subrange(off as int + 72, off as int + 76));
            assert(s.subrange(76, 80) =~= bytes@.subrange(off as int + 76, off as int + 80));
            assert(s.subrange(80, 84) =~= bytes@.subrange(off as int + 80, off as int + 84));
            assert(s.subrange(84, 88) =~= bytes@.subrange(off as int + 84, off as int + 88));
            assert(r == Self::of_wire(s));
        }
        r
    }

    fn write_wire(&self, out: &mut Vec<u8>) {
        crate::wire::write_u32(out, self.valid);
        crate::wire::write_u32(out, self.padding);
        crate::wire::write_u64(out, self.fh);
        crate::wire::write_u64(out, self.size);
        crate::wire::write_u64(out, self.lock_owner);
        crate::wire::write_u64(out, self.atime);
        crate::wire::write_u64(out, self.mtime);
        crate::wire::write_u64(out, self.ctime);
        crate::wire::write_u32(out, self.atimensec);
        crate::wire::write_u32(out, self.mtimensec);
        crate::wire::write_u32(out, self.ctimensec);
        crate::wire::write_u32(out, self.mode);
        crate::wire::write_u32(out, self.unused4);
        crate::wire::write_u32(out, self.uid);
        crate::wire::write_u32(out, self.gid);
        crate::wire::write_u32(out, self.unused5);
        proof {
            lemma_auto_spec_u32_to_from_le_bytes();
            lemma_auto_spec_u64_to_from_le_bytes();
            assert(spec_u32_to_le_bytes(self.valid).len() == 4);
            assert(spec_u32_to_le_bytes(self.padding).len() == 4);
            assert(spec_u64_to_le_bytes(self.fh).len() == 8);
            assert(spec_u64_to_le_bytes(self.size).len() == 8);
            assert(spec_u64_to_le_bytes(self.lock_owner).len() == 8);
            assert(spec_u64_to_le_bytes(self.atime).len() == 8);
            assert(spec_u64_to_le_bytes(self.mtime).len() == 8);
            assert(spec_u64_to_le_bytes(self.ctime).len() == 8);
            assert(spec_u32_to_le_bytes(self.atimensec).len() == 4);
            assert(spec_u32_to_le_bytes(self.mtimensec).len() == 4);
            assert(spec_u32_to_le_bytes(self.ctimensec).len() == 4);
            assert(spec_u32_to_le_bytes(self.mode).len() == 4);
            assert(spec_u32_to_le_bytes(self.unused4).len() == 4);
            assert(spec_u32_to_le_bytes(self.uid).len() == 4);
            assert(spec_u32_to_le_bytes(self.gid).len() == 4);
            assert(spec_u32_to_le_bytes(self.unused5).len() == 4);
            assert(out@ =~= old(out)@ + self.as_wire());
        }
    }
}

#[allow(non_camel_case_types)]
#[derive(Debug, Clone, Copy, PartialEq, Eq, Structural)]
pub struct fuse_open_in {
    pub flags: u32,
    pub unused: u32,
}

impl Sealed for fuse_open_in {}

impl FuseAbiData for fuse_open_in {
    open spec fn wire_size() -> nat {
        8
    }

    open spec fn wire_align() -> nat {
        4
    }

    open spec fn as_wire(self) -> Seq<u8> {
        spec_u32_to_le_bytes(self.flags)
            + spec_u32_to_le_bytes(self.unused)
    }

    open spec fn of_wire(bytes: Seq<u8>) -> Self {
        fuse_open_in {
            flags: spec_u32_from_le_bytes(bytes.subrange(0, 4)),
            unused: spec_u32_from_le_bytes(bytes.subrange(4, 8)),
        }
    }

    proof fn lemma_wire_len(x: Self) {
        lemma_auto_spec_u32_to_from_le_bytes();
        assert(spec_u32_to_le_bytes(x.flags).len() == 4);
        assert(spec_u32_to_le_bytes(x.unused).len() == 4);
    }

    proof fn lemma_size_align() {
    }

    proof fn lemma_of_as(x: Self) {
        lemma_auto_spec_u32_to_from_le_bytes();
        let w = x.as_wire();
        assert(w.subrange(0, 4) =~= spec_u32_to_le_bytes(x.flags));
        assert(w.subrange(4, 8) =~= spec_u32_to_le_bytes(x.unused));
        assert(Self::of_wire(w) == x);
    }

    proof fn lemma_as_of(bytes: Seq<u8>) {
        lemma_auto_spec_u32_to_from_le_bytes();
        assert(spec_u32_to_le_bytes(spec_u32_from_le_bytes(bytes.subrange(0, 4))) == bytes.subrange(0, 4));
        assert(spec_u32_to_le_bytes(spec_u32_from_le_bytes(bytes.subrange(4, 8))) == bytes.subrange(4, 8));
        assert(Self::of_wire(bytes).as_wire() =~= bytes);
    }

    fn wire_size_exec() -> usize {
        8
    }

    fn wire_align_exec() -> usize {
        4
    }

    fn read_wire(bytes: &[u8], off: usize) -> (r: Self) {
        proof {
            assert(Self::wire_size() == 8);
            assert(bytes.len() == bytes@.len());
        }
        let r = fuse_open_in {
            flags: crate::wire::read_u32_at(bytes, off),
            unused: crate::wire::read_u32_at(bytes, off + 4),
        };
        proof {
            let s = bytes@.subrange(off as int, off as int + 8);
            assert(s.subrange(0, 4) =~= bytes@.subrange(off as int + 0, off as int + 4));
            assert(s.subrange(4, 8) =~= bytes@.subrange(off as int + 4, off as int + 8));
            assert(r == Self::of_wire(s));
        }
        r
    }

    fn write_wire(&self, out: &mut Vec<u8>) {
        crate::wire::write_u32(out, self.flags);
        crate::wire::write_u32(out, self.unused);
        proof {
            lemma_auto_spec_u32_to_from_le_bytes();
            assert(spec_u32_to_le_bytes(self.flags).len() == 4);
            assert(spec_u32_to_le_bytes(self.unused).len() == 4);
            assert(out@ =~= old(out)@ + self.as_wire());
        }
    }
}

#[allow(non_camel_case_types)]
#[derive(Debug, Clone, Copy, PartialEq, Eq, Structural)]
pub struct fuse_create_in {
    pub flags: u32,
    pub mode: u32,
    pub umask: u32,
    pub padding: u32,
}

impl Sealed for fuse_create_in {}

impl FuseAbiData for fuse_create_in {
    open spec fn wire_size() -> nat {
        16
    }

    open spec fn wire_align() -> nat {
        4
    }

    open spec fn as_wire(self) -> Seq<u8> {
        spec_u32_to_le_bytes(self.flags)
            + spec_u32_to_le_bytes(self.mode)
            + spec_u32_to_le_bytes(self.umask)
            + spec_u32_to_le_bytes(self.padding)
    }

    open spec fn of_wire(bytes: Seq<u8>) -> Self {
        fuse_create_in {
            flags: spec_u32_from_le_bytes(bytes.subrange(0, 4)),
            mode: spec_u32_from_le_bytes(bytes.subrange(4, 8)),
            umask: spec_u32_from_le_bytes(bytes.subrange(8, 12)),
            padding: spec_u32_from_le_bytes(bytes.subrange(12, 16)),
        }
    }

    proof fn lemma_wire_len(x: Self) {
        lemma_auto_spec_u32_to_from_le_bytes();
        assert(spec_u32_to_le_bytes(x.flags).len() == 4);
        assert(spec_u32_to_le_bytes(x.mode).len() == 4);
        assert(spec_u32_to_le_bytes(x.umask).len() == 4);
        assert(spec_u32_to_le_bytes(x.padding).len() == 4);
    }

    proof fn lemma_size_align() {
    }

    proof fn lemma_of_as(x: Self) {
        lemma_auto_spec_u32_to_from_le_bytes();
        let w = x.as_wire();
        assert(w.subrange(0, 4) =~= spec_u32_to_le_bytes(x.flags));
        assert(w.subrange(4, 8) =~= spec_u32_to_le_bytes(x.mode));
        assert(w.subrange(8, 12) =~= spec_u32_to_le_bytes(x.umask));
        assert(w.subrange(12, 16) =~= spec_u32_to_le_bytes(x.padding));
        assert(Self::of_wire(w) == x);
    }

    proof fn lemma_as_of(bytes: Seq<u8>) {
        lemma_auto_spec_u32_to_from_le_bytes();
        assert(spec_u32_to_le_bytes(spec_u32_from_le_bytes(bytes.subrange(0, 4))) == bytes.subrange(0, 4));
        assert(spec_u32_to_le_bytes(spec_u32_from_le_bytes(bytes.subrange(4, 8))) == bytes.subrange(4, 8));
        assert(spec_u32_to_le_bytes(spec_u32_from_le_bytes(bytes.subrange(8, 12))) == bytes.subrange(8, 12));
        assert(spec_u32_to_le_bytes(spec_u32_from_le_bytes(bytes.subrange(12, 16))) == bytes.subrange(12, 16));
        assert(Self::of_wire(bytes).as_wire() =~= bytes);
    }

    fn wire_size_exec() -> usize {
        16
    }

    fn wire_align_exec() -> usize {
        4
    }

    fn read_wire(bytes: &[u8], off: usize) -> (r: Self) {
        proof {
            assert(Self::wire_size() == 16);
            assert(bytes.len() == bytes@.len());
        }
        let r = fuse_create_in {
            flags: crate::wire::read_u32_at(bytes, off),
            mode: crate::wire::read_u32_at(bytes, off + 4),
            umask: crate::wire::read_u32_at(bytes, off + 8),
            padding: crate::wire::read_u32_at(bytes, off + 12),
        };
        proof {
            let s = bytes@.subrange(off as int, off as int + 16);
            assert(s.subrange(0, 4) =~= bytes@.subrange(off as int + 0, off as int + 4));
            assert(s.subrange(4, 8) =~= bytes@.subrange(off as int + 4, off as int + 8));
            assert(s.subrange(8, 12) =~= bytes@.subrange(off as int + 8, off as int + 12));
            assert(s.subrange(12, 16) =~= bytes@.subrange(off as int + 12, off as int + 16));
            assert(r == Self::of_wire(s));
        }
        r
    }

    fn write_wire(&self, out: &mut Vec<u8>) {
        crate::wire::write_u32(out, self.flags);
        crate::wire::write_u32(out, self.mode);
        crate::wire::write_u32(out, self.umask);
        crate::wire::write_u32(out, self.padding);
        proof {
            lemma_auto_spec_u32_to_from_le_bytes();
            assert(spec_u32_to_le_bytes(self.flags).len() == 4);
            assert(spec_u32_to_le_bytes(self.mode).len() == 4);
            assert(spec_u32_to_le_bytes(self.umask).len() == 4);
            assert(spec_u32_to_le_bytes(self.padding).len() == 4);
            assert(out@ =~= old(out)@ + self.as_wire());
        }
    }
}

#[allow(non_camel_case_types)]
#[derive(Debug, Clone, Copy, PartialEq, Eq, Structural)]
pub struct fuse_open_out {
    pub fh: u64,
    pub open_flags: u32,
    pub padding: u32,
}

impl fuse_open_out {
    /// The all-zero record, the starting point of every reply builder.
    pub open spec fn zeroed() -> Self {
        fuse_open_out {
            fh: 0,
            open_flags: 0,
            padding: 0,
        }
    }
}

impl Default for fuse_open_out {
    fn default() -> (r: Self)
        ensures
            r == fuse_open_out::zeroed(),
    {
        fuse_open_out {
            fh: 0,
            open_flags: 0,
            padding: 0,
        }
    }
}

impl Sealed for fuse_open_out {}

impl FuseAbiData for fuse_open_out {
    open spec fn wire_size() -> nat {
        16
    }

    open spec fn wire_align() -> nat {
        8
    }

    open spec fn as_wire(self) -> Seq<u8> {
        spec_u64_to_le_bytes(self.fh)
            + spec_u32_to_le_bytes(self.open_flags)
            + spec_u32_to_le_bytes(self.padding)
    }

    open spec fn of_wire(bytes: Seq<u8>) -> Self {
        fuse_open_out {
            fh: spec_u64_from_le_bytes(bytes.subrange(0, 8)),
            open_flags: spec_u32_from_le_bytes(bytes.subrange(8, 12)),
            padding: spec_u32_from_le_bytes(bytes.subrange(12, 16)),
        }
    }

    proof fn lemma_wire_len(x: Self) {
        lemma_auto_spec_u32_to_from_le_bytes();
        lemma_auto_spec_u64_to_from_le_bytes();
        assert(spec_u64_to_le_bytes(x.fh).len() == 8);
        assert(spec_u32_to_le_bytes(x.open_flags).len() == 4);
        assert(spec_u32_to_le_bytes(x.padding).len() == 4);
    }

    proof fn lemma_size_align() {
    }

    proof fn lemma_of_as(x: Self) {
        lemma_auto_spec_u32_to_from_le_bytes();
        lemma_auto_spec_u64_to_from_le_bytes();
        let w = x.as_wire();
        assert(w.subrange(0, 8) =~= spec_u64_to_le_bytes(x.fh));
        assert(w.subrange(8, 12) =~= spec_u32_to_le_bytes(x.open_flags));
        assert(w.subrange(12, 16) =~= spec_u32_to_le_bytes(x.padding));
        assert(Self::of_wire(w) == x);
    }

    proof fn lemma_as_of(bytes: Seq<u8>) {
        lemma_auto_spec_u32_to_from_le_bytes();
        lemma_auto_spec_u64_to_from_le_bytes();
        assert(spec_u64_to_le_bytes(spec_u64_from_le_bytes(bytes.subrange(0, 8))) == bytes.subrange(0, 8));
        assert(spec_u32_to_le_bytes(spec_u32_from_le_bytes(bytes.subrange(8, 12))) == bytes.subrange(8, 12));
        assert(spec_u32_to_le_bytes(spec_u32_from_le_bytes(bytes.subrange(12, 16))) == bytes.subrange(12, 16));
        assert(Self::of_wire(bytes).as_wire() =~= bytes);
    }

    fn wire_size_exec() -> usize {
        16
    }

    fn wire_align_exec() -> usize {
        8
    }

    fn read_wire(bytes: &[u8], off: usize) -> (r: Self) {
        proof {
            assert(Self::wire_size() == 16);
            assert(bytes.len() == bytes@.len());
        }
        let r = fuse_open_out {
            fh: crate::wire::read_u64_at(bytes, off),
            open_flags: crate::wire::read_u32_at(bytes, off + 8),
            padding: crate::wire::read_u32_at(bytes, off + 12),
        };
        proof {
            let s = bytes@.subrange(off as int, off as int + 16);
            assert(s.subrange(0, 8) =~= bytes@.subrange(off as int + 0, off as int + 8));
            assert(s.subrange(8, 12) =~= bytes@.subrange(off as int + 8, off as int + 12));
            assert(s.subrange(12, 16) =~= bytes@.subrange(off as int + 12, off as int + 16));
            assert(r == Self::of_wire(s));
        }
        r
    }

    fn write_wire(&self, out: &mut Vec<u8>) {
        crate::wire::write_u64(out, self.fh);
        crate::wire::write_u32(out, self.open_flags);
        crate::wire::write_u32(out, self.padding);
        proof {
            lemma_auto_spec_u32_to_from_le_bytes();
            lemma_auto_spec_u64_to_from_le_bytes();
            assert(spec_u64_to_le_bytes(self.fh).len() == 8);
            assert(spec_u32_to_le_bytes(self.open_flags).len() == 4);
            assert(spec_u32_to_le_bytes(self.padding).len() == 4);
            assert(out@ =~= old(out)@ + self.as_wire());
        }
    }
}

#[allow(non_camel_case_types)]
#[derive(Debug, Clone, Copy, PartialEq, Eq, Structural)]
pub struct fuse_release_in {
    pub fh: u64,
    pub flags: u32,
    pub release_flags: u32,
    pub lock_owner: u64,
}

impl Sealed for fuse_release_in {}

impl FuseAbiData for fuse_release_in {
    open spec fn wire_size() -> nat {
        24
    }

    open spec fn wire_align() -> nat {
        8
    }

    open spec fn as_wire(self) -> Seq<u8> {
        spec_u64_to_le_bytes(self.fh)
            + spec_u32_to_le_bytes(self.flags)
            + spec_u32_to_le_bytes(self.release_flags)
            + spec_u64_to_le_bytes(self.lock_owner)
    }

    open spec fn of_wire(bytes: Seq<u8>) -> Self {
        fuse_release_in {
            fh: spec_u64_from_le_bytes(bytes.subrange(0, 8)),
            flags: spec_u32_from_le_bytes(bytes.subrange(8, 12)),
            release_flags: spec_u32_from_le_bytes(bytes.subrange(12, 16)),
            lock_owner: spec_u64_from_le_bytes(bytes.subrange(16, 24)),
        }
    }

    proof fn lemma_wire_len(x: Self) {
        lemma_auto_spec_u32_to_from_le_bytes();
        lemma_auto_spec_u64_to_from_le_bytes();
        assert(spec_u64_to_le_bytes(x.fh).len() == 8);
        assert(spec_u32_to_le_bytes(x.flags).len() == 4);
        assert(spec_u32_to_le_bytes(x.release_flags).len() == 4);
        assert(spec_u64_to_le_bytes(x.lock_owner).len() == 8);
    }

    proof fn lemma_size_align() {
    }

    proof fn lemma_of_as(x: Self) {
        lemma_auto_spec_u32_to_from_le_bytes();
        lemma_auto_spec_u64_to_from_le_bytes();
        let w = x.as_wire();
        assert(w.subrange(0, 8) =~= spec_u64_to_le_bytes(x.fh));
        assert(w.subrange(8, 12) =~= spec_u32_to_le_bytes(x.flags));
        assert(w.subrange(12, 16) =~= spec_u32_to_le_bytes(x.release_flags));
        assert(w.subrange(16, 24) =~= spec_u64_to_le_bytes(x.lock_owner));
        assert(Self::of_wire(w) == x);
    }

    proof fn lemma_as_of(bytes: Seq<u8>) {
        lemma_auto_spec_u32_to_from_le_bytes();
        lemma_auto_spec_u64_to_from_le_bytes();
        assert(spec_u64_to_le_bytes(spec_u64_from_le_bytes(bytes.subrange(0, 8))) == bytes.subrange(0, 8));
        assert(spec_u32_to_le_bytes(spec_u32_from_le_bytes(bytes.subrange(8, 12))) == bytes.subrange(8, 12));
        assert(spec_u32_to_le_bytes(spec_u32_from_le_bytes(bytes.subrange(12, 16))) == bytes.subrange(12, 16));
        assert(spec_u64_to_le_bytes(spec_u64_from_le_bytes(bytes.subrange(16, 24))) == bytes.subrange(16, 24));
        assert(Self::of_wire(bytes).as_wire() =~= bytes);
    }

    fn wire_size_exec() -> usize {
        24
    }

    fn wire_align_exec() -> usize {
        8
    }

    fn read_wire(bytes: &[u8], off: usize) -> (r: Self) {
        proof {
            assert(Self::wire_size() == 24);
            assert(bytes.len() == bytes@.len());
        }
        let r = fuse_release_in {
            fh: crate::wire::read_u64_at(bytes, off),
            flags: crate::wire::read_u32_at(bytes, off + 8),
            release_flags: crate::wire::read_u32_at(bytes, off + 12),
            lock_owner: crate::wire::read_u64_at(bytes, off + 16),
        };
        proof {
            let s = bytes@.subrange(off as int, off as int + 24);
            assert(s.subrange(0, 8) =~= bytes@.subrange(off as int + 0, off as int + 8));
            assert(s.subrange(8, 12) =~= bytes@.subrange(off as int + 8, off as int + 12));
            assert(s.subrange(12, 16) =~= bytes@.subrange(off as int + 12, off as int + 16));
            assert(s.subrange(16, 24) =~= bytes@.subrange(off as int + 16, off as int + 24));
            assert(r == Self::of_wire(s));
        }
        r
    }

    fn write_wire(&self, out: &mut Vec<u8>) {
        crate::wire::write_u64(out, self.fh);
        crate::wire::write_u32(out, self.flags);
        crate::wire::write_u32(out, self.release_flags);
        crate::wire::write_u64(out, self.lock_owner);
        proof {
            lemma_auto_spec_u32_to_from_le_bytes();
            lemma_auto_spec_u64_to_from_le_bytes();
            assert(spec_u64_to_le_bytes(self.fh).len() == 8);
            assert(spec_u32_to_le_bytes(self.flags).len() == 4);
            assert(spec_u32_to_le_bytes(self.release_flags).len() == 4);
            assert(spec_u64_to_le_bytes(self.lock_owner).len() == 8);
            assert(out@ =~= old(out)@ + self.as_wire());
        }
    }
}

#[allow(non_camel_case_types)]
#[derive(Debug, Clone, Copy, PartialEq, Eq, Structural)]
pub struct fuse_flush_in {
    pub fh: u64,
    pub unused: u32,
    pub padding: u32,
    pub lock_owner: u64,
}

impl Sealed for fuse_flush_in {}

impl FuseAbiData for fuse_flush_in {
    open spec fn wire_size() -> nat {
        24
    }

    open spec fn wire_align() -> nat {
        8
    }

    open spec fn as_wire(self) -> Seq<u8> {
        spec_u64_to_le_bytes(self.fh)
            + spec_u32_to_le_bytes(self.unused)
            + spec_u32_to_le_bytes(self.padding)
            + spec_u64_to_le_bytes(self.lock_owner)
    }

    open spec fn of_wire(bytes: Seq<u8>) -> Self {
        fuse_flush_in {
            fh: spec_u64_from_le_bytes(bytes.subrange(0, 8)),
            unused: spec_u32_from_le_bytes(bytes.subrange(8, 12)),
            padding: spec_u32_from_le_bytes(bytes.subrange(12, 16)),
            lock_owner: spec_u64_from_le_bytes(bytes.subrange(16, 24)),
        }
    }

    proof fn lemma_wire_len(x: Self) {
        lemma_auto_spec_u32_to_from_le_bytes();
        lemma_auto_spec_u64_to_from_le_bytes();
        assert(spec_u64_to_le_bytes(x.fh).len() == 8);
        assert(spec_u32_to_le_bytes(x.unused).len() == 4);
        assert(spec_u32_to_le_bytes(x.padding).len() == 4);
        assert(spec_u64_to_le_bytes(x.lock_owner).len() == 8);
    }

    proof fn lemma_size_align() {
    }

    proof fn lemma_of_as(x: Self) {
        lemma_auto_spec_u32_to_from_le_bytes();
        lemma_auto_spec_u64_to_from_le_bytes();
        let w = x.as_wire();
        assert(w.subrange(0, 8) =~= spec_u64_to_le_bytes(x.fh));
        assert(w.subrange(8, 12) =~= spec_u32_to_le_bytes(x.unused));
        assert(w.subrange(12, 16) =~= spec_u32_to_le_bytes(x.padding));
        assert(w.subrange(16, 24) =~= spec_u64_to_le_bytes(x.lock_owner));
        assert(Self::of_wire(w) == x);
    }

    proof fn lemma_as_of(bytes: Seq<u8>) {
        lemma_auto_spec_u32_to_from_le_bytes();
        lemma_auto_spec_u64_to_from_le_bytes();
        assert(spec_u64_to_le_bytes(spec_u64_from_le_bytes(bytes.subrange(0, 8))) == bytes.subrange(0, 8));
        assert(spec_u32_to_le_bytes(spec_u32_from_le_bytes(bytes.subrange(8, 12))) == bytes.subrange(8, 12));
        assert(spec_u32_to_le_bytes(spec_u32_from_le_bytes(bytes.subrange(12, 16))) == bytes.subrange(12, 16));
        assert(spec_u64_to_le_bytes(spec_u64_from_le_bytes(bytes.subrange(16, 24))) == bytes.subrange(16, 24));
        assert(Self::of_wire(bytes).as_wire() =~= bytes);
    }

    fn wire_size_exec() -> usize {
        24
    }

    fn wire_align_exec() -> usize {
        8
    }

    fn read_wire(bytes: &[u8], off: usize) -> (r: Self) {
        proof {
            assert(Self::wire_size() == 24);
            assert(bytes.len() == bytes@.len());
        }
        let r = fuse_flush_in {
            fh: crate::wire::read_u64_at(bytes, off),
            unused: crate::wire::read_u32_at(bytes, off + 8),
            padding: crate::wire::read_u32_at(bytes, off + 12),
            lock_owner: crate::wire::read_u64_at(bytes, off + 16),
        };
        proof {
            let s = bytes@.subrange(off as int, off as int + 24);
            assert(s.subrange(0, 8) =~= bytes@.subrange(off as int + 0, off as int + 8));
            assert(s.subrange(8, 12) =~= bytes@.subrange(off as int + 8, off as int + 12));
            assert(s.subrange(12, 16) =~= bytes@.subrange(off as int + 12, off as int + 16));
            assert(s.subrange(16, 24) =~= bytes@.subrange(off as int + 16, off as int + 24));
            assert(r == Self::of_wire(s));
        }
        r
    }

    fn write_wire(&self, out: &mut Vec<u8>) {
        crate::wire::write_u64(out, self.fh);
        crate::wire::write_u32(out, self.unused);
        crate::wire::write_u32(out, self.padding);
        crate::wire::write_u64(out, self.lock_owner);
        proof {
            lemma_auto_spec_u32_to_from_le_bytes();
            lemma_auto_spec_u64_to_from_le_bytes();
            assert(spec_u64_to_le_bytes(self.fh).len() == 8);
            assert(spec_u32_to_le_bytes(self.unused).len() == 4);
            assert(spec_u32_to_le_bytes(self.padding).len() == 4);
            assert(spec_u64_to_le_bytes(self.lock_owner).len() == 8);
            assert(out@ =~= old(out)@ + self.as_wire());
        }
    }
}

#[allow(non_camel_case_types)]
#[derive(Debug, Clone, Copy, PartialEq, Eq, Structural)]
pub struct fuse_read_in {
    pub fh: u64,
    pub offset: u64,
    pub size: u32,
    pub read_flags: u32,
    pub lock_owner: u64,
    pub flags: u32,
    pub padding: u32,
}

impl Sealed for fuse_read_in {}

impl FuseAbiData for fuse_read_in {
    open spec fn wire_size() -> nat {
        40
    }

    open spec fn wire_align() -> nat {
        8
    }

    open spec fn as_wire(self) -> Seq<u8> {
        spec_u64_to_le_bytes(self.fh)
            + spec_u64_to_le_bytes(self.offset)
            + spec_u32_to_le_bytes(self.size)
            + spec_u32_to_le_bytes(self.read_flags)
            + spec_u64_to_le_bytes(self.lock_owner)
            + spec_u32_to_le_bytes(self.flags)
            + spec_u32_to_le_bytes(self.padding)
    }

    open spec fn of_wire(bytes: Seq<u8>) -> Self {
        fuse_read_in {
            fh: spec_u64_from_le_bytes(bytes.subrange(0, 8)),
            offset: spec_u64_from_le_bytes(bytes.subrange(8, 16)),
            size: spec_u32_from_le_bytes(bytes.subrange(16, 20)),
            read_flags: spec_u32_from_le_bytes(bytes.subrange(20, 24)),
            lock_owner: spec_u64_from_le_bytes(bytes.subrange(24, 32)),
            flags: spec_u32_from_le_bytes(bytes.subrange(32, 36)),
            padding: spec_u32_from_le_bytes(bytes.subrange(36, 40)),
        }
    }

    proof fn lemma_wire_len(x: Self) {
        lemma_auto_spec_u32_to_from_le_bytes();
        lemma_auto_spec_u64_to_from_le_bytes();
        assert(spec_u64_to_le_bytes(x.fh).len() == 8);
        assert(spec_u64_to_le_bytes(x.offset).len() == 8);
        assert(spec_u32_to_le_bytes(x.size).len() == 4);
        assert(spec_u32_to_le_bytes(x.read_flags).len() == 4);
        assert(spec_u64_to_le_bytes(x.lock_owner).len() == 8);
        assert(spec_u32_to_le_bytes(x.flags).len() == 4);
        assert(spec_u32_to_le_bytes(x.padding).len() == 4);
    }

    proof fn lemma_size_align() {
    }

    proof fn lemma_of_as(x: Self) {
        lemma_auto_spec_u32_to_from_le_bytes();
        lemma_auto_spec_u64_to_from_le_bytes();
        let w = x.as_wire();
        assert(w.subrange(0, 8) =~= spec_u64_to_le_bytes(x.fh));
        assert(w.subrange(8, 16) =~= spec_u64_to_le_bytes(x.offset));
        assert(w.subrange(16, 20) =~= spec_u32_to_le_bytes(x.size));
        assert(w.subrange(20, 24) =~= spec_u32_to_le_bytes(x.read_flags));
        assert(w.subrange(24, 32) =~= spec_u64_to_le_bytes(x.lock_owner));
        assert(w.subrange(32, 36) =~= spec_u32_to_le_bytes(x.flags));
        assert(w.subrange(36, 40) =~= spec_u32_to_le_bytes(x.padding));
        assert(Self::of_wire(w) == x);
    }

    proof fn lemma_as_of(bytes: Seq<u8>) {
        lemma_auto_spec_u32_to_from_le_bytes();
        lemma_auto_spec_u64_to_from_le_bytes();
        assert(spec_u64_to_le_bytes(spec_u64_from_le_bytes(bytes.subrange(0, 8))) == bytes.subrange(0, 8));
        assert(spec_u64_to_le_bytes(spec_u64_from_le_bytes(bytes.subrange(8, 16))) == bytes.subrange(8, 16));
        assert(spec_u32_to_le_bytes(spec_u32_from_le_bytes(bytes.subrange(16, 20))) == bytes.subrange(16, 20));
        assert(spec_u32_to_le_bytes(spec_u32_from_le_bytes(bytes.subrange(20, 24))) == bytes.subrange(20, 24));
        assert(spec_u64_to_le_bytes(spec_u64_from_le_bytes(bytes.subrange(24, 32))) == bytes.subrange(24, 32));
        assert(spec_u32_to_le_bytes(spec_u32_from_le_bytes(bytes.subrange(32, 36))) == bytes.subrange(32, 36));
        assert(spec_u32_to_le_bytes(spec_u32_from_le_bytes(bytes.subrange(36, 40))) == bytes.subrange(36, 40));
        assert(Self::of_wire(bytes).as_wire() =~= bytes);
    }

    fn wire_size_exec() -> usize {
        40
    }

    fn wire_align_exec() -> usize {
        8
    }

    fn read_wire(bytes: &[u8], off: usize) -> (r: Self) {
        proof {
            assert(Self::wire_size() == 40);
            assert(bytes.len() == bytes@.len());
        }
        let r = fuse_read_in {
            fh: crate::wire::read_u64_at(bytes, off),
            offset: crate::wire::read_u64_at(bytes, off + 8),
            size: crate::wire::read_u32_at(bytes, off + 16),
            read_flags: crate::wire::read_u32_at(bytes, off + 20),
            lock_owner: crate::wire::read_u64_at(bytes, off + 24),
            flags: crate::wire::read_u32_at(bytes, off + 32),
            padding: crate::wire::read_u32_at(bytes, off + 36),
        };
        proof {
            let s = bytes@.subrange(off as int, off as int + 40);
            assert(s.subrange(0, 8) =~= bytes@.subrange(off as int + 0, off as int + 8));
            assert(s.subrange(8, 16) =~= bytes@.subrange(off as int + 8, off as int + 16));
            assert(s.subrange(16, 20) =~= bytes@.subrange(off as int + 16, off as int + 20));
            assert(s.subrange(20, 24) =~= bytes@.subrange(off as int + 20, off as int + 24));
            assert(s.subrange(24, 32) =~= bytes@.subrange(off as int + 24, off as int + 32));
            assert(s.subrange(32, 36) =~= bytes@.subrange(off as int + 32, off as int + 36));
            assert(s.subrange(36, 40) =~= bytes@.subrange(off as int + 36, off as int + 40));
            assert(r == Self::of_wire(s));
        }
        r
    }

    fn write_wire(&self, out: &mut Vec<u8>) {
        crate::wire::write_u64(out, self.fh);
        crate::wire::write_u64(out, self.offset);
        crate::wire::write_u32(out, self.size);
        crate::wire::write_u32(out, self.read_flags);
        crate::wire::write_u64(out, self.lock_owner);
        crate::wire::write_u32(out, self.flags);
        crate::wire::write_u32(out, self.padding);
        proof {
            lemma_auto_spec_u32_to_from_le_bytes();
            lemma_auto_spec_u64_to_from_le_bytes();
            assert(spec_u64_to_le_bytes(self.fh).len() == 8);
            assert(spec_u64_to_le_bytes(self.offset).len() == 8);
            assert(spec_u32_to_le_bytes(self.size).len() == 4);
            assert(spec_u32_to_le_bytes(self.read_flags).len() == 4);
            assert(spec_u64_to_le_bytes(self.lock_owner).len() == 8);
            assert(spec_u32_to_le_bytes(self.flags).len() == 4);
            assert(spec_u32_to_le_bytes(self.padding).len() == 4);
            assert(out@ =~= old(out)@ + self.as_wire());
        }
    }
}

#[allow(non_camel_case_types)]
#[derive(Debug, Clone, Copy, PartialEq, Eq, Structural)]
pub struct fuse_write_in {
    pub fh: u64,
    pub offset: u64,
    pub size: u32,
    pub write_flags: u32,
    pub lock_owner: u64,
    pub flags: u32,
    pub padding: u32,
}

impl Sealed for fuse_write_in {}

impl FuseAbiData for fuse_write_in {
    open spec fn wire_size() -> nat {
        40
    }

    open spec fn wire_align() -> nat {
        8
    }

    open spec fn as_wire(self) -> Seq<u8> {
        spec_u64_to_le_bytes(self.fh)
            + spec_u64_to_le_bytes(self.offset)
            + spec_u32_to_le_bytes(self.size)
            + spec_u32_to_le_bytes(self.write_flags)
            + spec_u64_to_le_bytes(self.lock_owner)
            + spec_u32_to_le_bytes(self.flags)
            + spec_u32_to_le_bytes(self.padding)
    }

    open spec fn of_wire(bytes: Seq<u8>) -> Self {
        fuse_write_in {
            fh: spec_u64_from_le_bytes(bytes.subrange(0, 8)),
            offset: spec_u64_from_le_bytes(bytes.subrange(8, 16)),
            size: spec_u32_from_le_bytes(bytes.subrange(16, 20)),
            write_flags: spec_u32_from_le_bytes(bytes.subrange(20, 24)),
            lock_owner: spec_u64_from_le_bytes(bytes.subrange(24, 32)),
            flags: spec_u32_from_le_bytes(bytes.subrange(32, 36)),
            padding: spec_u32_from_le_bytes(bytes.subrange(36, 40)),
        }
    }

    proof fn lemma_wire_len(x: Self) {
        lemma_auto_spec_u32_to_from_le_bytes();
        lemma_auto_spec_u64_to_from_le_bytes();
        assert(spec_u64_to_le_bytes(x.fh).len() == 8);
        assert(spec_u64_to_le_bytes(x.offset).len() == 8);
        assert(spec_u32_to_le_bytes(x.size).len() == 4);
        assert(spec_u32_to_le_bytes(x.write_flags).len() == 4);
        assert(spec_u64_to_le_bytes(x.lock_owner).len() == 8);
        assert(spec_u32_to_le_bytes(x.flags).len() == 4);
        assert(spec_u32_to_le_bytes(x.padding).len() == 4);
    }

    proof fn lemma_size_align() {
    }

    proof fn lemma_of_as(x: Self) {
        lemma_auto_spec_u32_to_from_le_bytes();
        lemma_auto_spec_u64_to_from_le_bytes();
        let w = x.as_wire();
        assert(w.subrange(0, 8) =~= spec_u64_to_le_bytes(x.fh));
        assert(w.subrange(8, 16) =~= spec_u64_to_le_bytes(x.offset));
        assert(w.subrange(16, 20) =~= spec_u32_to_le_bytes(x.size));
        assert(w.subrange(20, 24) =~= spec_u32_to_le_bytes(x.write_flags));
        assert(w.subrange(24, 32) =~= spec_u64_to_le_bytes(x.lock_owner));
        assert(w.subrange(32, 36) =~= spec_u32_to_le_bytes(x.flags));
        assert(w.subrange(36, 40) =~= spec_u32_to_le_bytes(x.padding));
        assert(Self::of_wire(w) == x);
    }

    proof fn lemma_as_of(bytes: Seq<u8>) {
        lemma_auto_spec_u32_to_from_le_bytes();
        lemma_auto_spec_u64_to_from_le_bytes();
        assert(spec_u64_to_le_bytes(spec_u64_from_le_bytes(bytes.subrange(0, 8))) == bytes.subrange(0, 8));
        assert(spec_u64_to_le_bytes(spec_u64_from_le_bytes(bytes.subrange(8, 16))) == bytes.subrange(8, 16));
        assert(spec_u32_to_le_bytes(spec_u32_from_le_bytes(bytes.subrange(16, 20))) == bytes.subrange(16, 20));
        assert(spec_u32_to_le_bytes(spec_u32_from_le_bytes(bytes.subrange(20, 24))) == bytes.subrange(20, 24));
        assert(spec_u64_to_le_bytes(spec_u64_from_le_bytes(bytes.subrange(24, 32))) == bytes.subrange(24, 32));
        assert(spec_u32_to_le_bytes(spec_u32_from_le_bytes(bytes.subrange(32, 36))) == bytes.subrange(32, 36));
        assert(spec_u32_to_le_bytes(spec_u32_from_le_bytes(bytes.subrange(36, 40))) == bytes.subrange(36, 40));
        assert(Self::of_wire(bytes).as_wire() =~= bytes);
    }

    fn wire_size_exec() -> usize {
        40
    }

    fn wire_align_exec() -> usize {
        8
    }

    fn read_wire(bytes: &[u8], off: usize) -> (r: Self) {
        proof {
            assert(Self::wire_size() == 40);
            assert(bytes.len() == bytes@.len());
        }
        let r = fuse_write_in {
            fh: crate::wire::read_u64_at(bytes, off),
            offset: crate::wire::read_u64_at(bytes, off + 8),
            size: crate::wire::read_u32_at(bytes, off + 16),
            write_flags: crate::wire::read_u32_at(bytes, off + 20),
            lock_owner: crate::wire::read_u64_at(bytes, off + 24),
            flags: crate::wire::read_u32_at(bytes, off + 32),
            padding: crate::wire::read_u32_at(bytes, off + 36),
        };
        proof {
            let s = bytes@.subrange(off as int, off as int + 40);
            assert(s.subrange(0, 8) =~= bytes@.subrange(off as int + 0, off as int + 8));
            assert(s.subrange(8, 16) =~= bytes@.subrange(off as int + 8, off as int + 16));
            assert(s.subrange(16, 20) =~= bytes@.subrange(off as int + 16, off as int + 20));
            assert(s.subrange(20, 24) =~= bytes@.subrange(off as int + 20, off as int + 24));
            assert(s.subrange(24, 32) =~= bytes@.subrange(off as int + 24, off as int + 32));
            assert(s.subrange(32, 36) =~= bytes@.subrange(off as int + 32, off as int + 36));
            assert(s.subrange(36, 40) =~= bytes@.subrange(off as int + 36, off as int + 40));
            assert(r == Self::of_wire(s));
        }
        r
    }

    fn write_wire(&self, out: &mut Vec<u8>) {
        crate::wire::write_u64(out, self.fh);
        crate::wire::write_u64(out, self.offset);
        crate::wire::write_u32(out, self.size);
        crate::wire::write_u32(out, self.write_flags);
        crate::wire::write_u64(out, self.lock_owner);
        crate::wire::write_u32(out, self.flags);
        crate::wire::write_u32(out, self.padding);
        proof {
            lemma_auto_spec_u32_to_from_le_bytes();
            lemma_auto_spec_u64_to_from_le_bytes();
            assert(spec_u64_to_le_bytes(self.fh).len() == 8);
            assert(spec_u64_to_le_bytes(self.offset).len() == 8);
            assert(spec_u32_to_le_bytes(self.size).len() == 4);
            assert(spec_u32_to_le_bytes(self.write_flags).len() == 4);
            assert(spec_u64_to_le_bytes(self.lock_owner).len() == 8);
            assert(spec_u32_to_le_bytes(self.flags).len() == 4);
            assert(spec_u32_to_le_bytes(self.padding).len() == 4);
            assert(out@ =~= old(out)@ + self.as_wire());
        }
    }
}

#[allow(non_camel_case_types)]
#[derive(Debug, Clone, Copy, PartialEq, Eq, Structural)]
pub struct fuse_write_out {
    pub size: u32,
    pub padding: u32,
}

impl fuse_write_out {
    /// The all-zero record, the starting point of every reply builder.
    pub open spec fn zeroed() -> Self {
        fuse_write_out {
            size: 0,
            padding: 0,
        }
    }
}

impl Default for fuse_write_out {
    fn default() -> (r: Self)
        ensures
            r == fuse_write_out::zeroed(),
    {
        fuse_write_out {
            size: 0,
            padding: 0,
        }
    }
}

impl Sealed for fuse_write_out {}

impl FuseAbiData for fuse_write_out {
    open spec fn wire_size() -> nat {
        8
    }

    open spec fn wire_align() -> nat {
        4
    }

    open spec fn as_wire(self) -> Seq<u8> {
        spec_u32_to_le_bytes(self.size)
            + spec_u32_to_le_bytes(self.padding)
    }

    open spec fn of_wire(bytes: Seq<u8>) -> Self {
        fuse_write_out {
            size: spec_u32_from_le_bytes(bytes.subrange(0, 4)),
            padding: spec_u32_from_le_bytes(bytes.subrange(4, 8)),
        }
    }

    proof fn lemma_wire_len(x: Self) {
        lemma_auto_spec_u32_to_from_le_bytes();
        assert(spec_u32_to_le_bytes(x.size).len() == 4);
        assert(spec_u32_to_le_bytes(x.padding).len() == 4);
    }

    proof fn lemma_size_align() {
    }

    proof fn lemma_of_as(x: Self) {
        lemma_auto_spec_u32_to_from_le_bytes();
        let w = x.as_wire();
        assert(w.subrange(0, 4) =~= spec_u32_to_le_bytes(x.size));
        assert(w.subrange(4, 8) =~= spec_u32_to_le_bytes(x.padding));
        assert(Self::of_wire(w) == x);
    }

    proof fn lemma_as_of(bytes: Seq<u8>) {
        lemma_auto_spec_u32_to_from_le_bytes();
        assert(spec_u32_to_le_bytes(spec_u32_from_le_bytes(bytes.subrange(0, 4))) == bytes.subrange(0, 4));
        assert(spec_u32_to_le_bytes(spec_u32_from_le_bytes(bytes.subrange(4, 8))) == bytes.subrange(4, 8));
        assert(Self::of_wire(bytes).as_wire() =~= bytes);
    }

    fn wire_size_exec() -> usize {
        8
    }

    fn wire_align_exec() -> usize {
        4
    }

    fn read_wire(bytes: &[u8], off: usize) -> (r: Self) {
        proof {
            assert(Self::wire_size() == 8);
            assert(bytes.len() == bytes@.len());
        }
        let r = fuse_write_out {
            size: crate::wire::read_u32_at(bytes, off),
            padding: crate::wire::read_u32_at(bytes, off + 4),
        };
        proof {
            let s = bytes@.subrange(off as int, off as int + 8);
            assert(s.subrange(0, 4) =~= bytes@.subrange(off as int + 0, off as int + 4));
            assert(s.subrange(4, 8) =~= bytes@.subrange(off as int + 4, off as int + 8));
            assert(r == Self::of_wire(s));
        }
        r
    }

    fn write_wire(&self, out: &mut Vec<u8>) {
        crate::wire::write_u32(out, self.size);
        crate::wire::write_u32(out, self.padding);
        proof {
            lemma_auto_spec_u32_to_from_le_bytes();
            assert(spec_u32_to_le_bytes(self.size).len() == 4);
            assert(spec_u32_to_le_bytes(self.padding).len() == 4);
            assert(out@ =~= old(out)@ + self.as_wire());
        }
    }
}

#[allow(non_camel_case_types)]
#[derive(Debug, Clone, Copy, PartialEq, Eq, Structural)]
pub struct fuse_statfs_out {
    pub st: fuse_kstatfs,
}

impl fuse_statfs_out {
    /// The all-zero record, the starting point of every reply builder.
    pub open spec fn zeroed() -> Self {
        fuse_statfs_out {
            st: fuse_kstatfs::zeroed(),
        }
    }
}

impl Default for fuse_statfs_out {
    fn default() -> (r: Self)
        ensures
            r == fuse_statfs_out::zeroed(),
    {
        fuse_statfs_out {
            st: fuse_kstatfs::default(),
        }
    }
}

impl Sealed for fuse_statfs_out {}

impl FuseAbiData for fuse_statfs_out {
    open spec fn wire_size() -> nat {
        80
    }

    open spec fn wire_align() -> nat {
        8
    }

    open spec fn as_wire(self) -> Seq<u8> {
        self.st.as_wire()
    }

    open spec fn of_wire(bytes: Seq<u8>) -> Self {
        fuse_statfs_out {
            st: fuse_kstatfs::of_wire(bytes.subrange(0, 80)),
        }
    }

    proof fn lemma_wire_len(x: Self) {
        fuse_kstatfs::lemma_wire_len(x.st);
    }

    proof fn lemma_size_align() {
    }

    proof fn lemma_of_as(x: Self) {
        fuse_kstatfs::lemma_wire_len(x.st);
        let w = x.as_wire();
        assert(w.subrange(0, 80) =~= x.st.as_wire());
        fuse_kstatfs::lemma_of_as(x.st);
        assert(Self::of_wire(w) == x);
    }

    proof fn lemma_as_of(bytes: Seq<u8>) {
        fuse_kstatfs::lemma_as_of(bytes.subrange(0, 80));
        assert(Self::of_wire(bytes).as_wire() =~= bytes);
    }

    fn wire_size_exec() -> usize {
        80
    }

    fn wire_align_exec() -> usize {
        8
    }

    fn read_wire(bytes: &[u8], off: usize) -> (r: Self) {
        proof {
            assert(Self::wire_size() == 80);
            assert(bytes.len() == bytes@.len());
        }
        let r = fuse_statfs_out {
            st: fuse_kstatfs::read_wire(bytes, off),
        };
        proof {
            let s = bytes@.subrange(off as int, off as int + 80);
            assert(s.subrange(0, 80) =~= bytes@.subrange(off as int + 0, off as int + 80));
            assert(r == Self::of_wire(s));
        }
        r
    }

    fn write_wire(&self, out: &mut Vec<u8>) {
        self.st.write_wire(out);
        proof {
            fuse_kstatfs::lemma_wire_len(self.st);
            assert(out@ =~= old(out)@ + self.as_wire());
        }
    }
}

#[allow(non_camel_case_types)]
#[derive(Debug, Clone, Copy, PartialEq, Eq, Structural)]
pub struct fuse_fsync_in {
    pub fh: u64,
    pub fsync_flags: u32,
    pub padding: u32,
}

impl Sealed for fuse_fsync_in {}

impl FuseAbiData for fuse_fsync_in {
    open spec fn wire_size() -> nat {
        16
    }

    open spec fn wire_align() -> nat {
        8
    }

    open spec fn as_wire(self) -> Seq<u8> {
        spec_u64_to_le_bytes(self.fh)
            + spec_u32_to_le_bytes(self.fsync_flags)
            + spec_u32_to_le_bytes(self.padding)
    }

    open spec fn of_wire(bytes: Seq<u8>) -> Self {
        fuse_fsync_in {
            fh: spec_u64_from_le_bytes(bytes.subrange(0, 8)),
            fsync_flags: spec_u32_from_le_bytes(bytes.subrange(8, 12)),
            padding: spec_u32_from_le_bytes(bytes.subrange(12, 16)),
        }
    }

    proof fn lemma_wire_len(x: Self) {
        lemma_auto_spec_u32_to_from_le_bytes();
        lemma_auto_spec_u64_to_from_le_bytes();
        assert(spec_u64_to_le_bytes(x.fh).len() == 8);
        assert(spec_u32_to_le_bytes(x.fsync_flags).len() == 4);
        assert(spec_u32_to_le_bytes(x.padding).len() == 4);
    }

    proof fn lemma_size_align() {
    }

    proof fn lemma_of_as(x: Self) {
        lemma_auto_spec_u32_to_from_le_bytes();
        lemma_auto_spec_u64_to_from_le_bytes();
        let w = x.as_wire();
        assert(w.subrange(0, 8) =~= spec_u64_to_le_bytes(x.fh));
        assert(w.subrange(8, 12) =~= spec_u32_to_le_bytes(x.fsync_flags));
        assert(w.subrange(12, 16) =~= spec_u32_to_le_bytes(x.padding));
        assert(Self::of_wire(w) == x);
    }

    proof fn lemma_as_of(bytes: Seq<u8>) {
        lemma_auto_spec_u32_to_from_le_bytes();
        lemma_auto_spec_u64_to_from_le_bytes();
        assert(spec_u64_to_le_bytes(spec_u64_from_le_bytes(bytes.subrange(0, 8))) == bytes.subrange(0, 8));
        assert(spec_u32_to_le_bytes(spec_u32_from_le_bytes(bytes.subrange(8, 12))) == bytes.subrange(8, 12));
        assert(spec_u32_to_le_bytes(spec_u32_from_le_bytes(bytes.subrange(12, 16))) == bytes.subrange(12, 16));
        assert(Self::of_wire(bytes).as_wire() =~= bytes);
    }

    fn wire_size_exec() -> usize {
        16
    }

    fn wire_align_exec() -> usize {
        8
    }

    fn read_wire(bytes: &[u8], off: usize) -> (r: Self) {
        proof {
            assert(Self::wire_size() == 16);
            assert(bytes.len() == bytes@.len());
        }
        let r = fuse_fsync_in {
            fh: crate::wire::read_u64_at(bytes, off),
            fsync_flags: crate::wire::read_u32_at(bytes, off + 8),
            padding: crate::wire::read_u32_at(bytes, off + 12),
        };
        proof {
            let s = bytes@.subrange(off as int, off as int + 16);
            assert(s.subrange(0, 8) =~= bytes@.subrange(off as int + 0, off as int + 8));
            assert(s.subrange(8, 12) =~= bytes@.subrange(off as int + 8, off as int + 12));
            assert(s.subrange(12, 16) =~= bytes@.subrange(off as int + 12, off as int + 16));
            assert(r == Self::of_wire(s));
        }
        r
    }

    fn write_wire(&self, out: &mut Vec<u8>) {
        crate::wire::write_u64(out, self.fh);
        crate::wire::write_u32(out, self.fsync_flags);
        crate::wire::write_u32(out, self.padding);
        proof {
            lemma_auto_spec_u32_to_from_le_bytes();
            lemma_auto_spec_u64_to_from_le_bytes();
            assert(spec_u64_to_le_bytes(self.fh).len() == 8);
            assert(spec_u32_to_le_bytes(self.fsync_flags).len() == 4);
            assert(spec_u32_to_le_bytes(self.padding).len() == 4);
            assert(out@ =~= old(out)@ + self.as_wire());
        }
    }
}

#[allow(non_camel_case_types)]
#[derive(Debug, Clone, Copy, PartialEq, Eq, Structural)]
pub struct fuse_setxattr_in {
    pub size: u32,
    pub flags: u32,
}

impl Sealed for fuse_setxattr_in {}

impl FuseAbiData for fuse_setxattr_in {
    open spec fn wire_size() -> nat {
        8
    }

    open spec fn wire_align() -> nat {
        4
    }

    open spec fn as_wire(self) -> Seq<u8> {
        spec_u32_to_le_bytes(self.size)
            + spec_u32_to_le_bytes(self.flags)
    }

    open spec fn of_wire(bytes: Seq<u8>) -> Self {
        fuse_setxattr_in {
            size: spec_u32_from_le_bytes(bytes.subrange(0, 4)),
            flags: spec_u32_from_le_bytes(bytes.subrange(4, 8)),
        }
    }

    proof fn lemma_wire_len(x: Self) {
        lemma_auto_spec_u32_to_from_le_bytes();
        assert(spec_u32_to_le_bytes(x.size).len() == 4);
        assert(spec_u32_to_le_bytes(x.flags).len() == 4);
    }

    proof fn lemma_size_align() {
    }

    proof fn lemma_of_as(x: Self) {
        lemma_auto_spec_u32_to_from_le_bytes();
        let w = x.as_wire();
        assert(w.subrange(0, 4) =~= spec_u32_to_le_bytes(x.size));
        assert(w.subrange(4, 8) =~= spec_u32_to_le_bytes(x.flags));
        assert(Self::of_wire(w) == x);
    }

    proof fn lemma_as_of(bytes: Seq<u8>) {
        lemma_auto_spec_u32_to_from_le_bytes();
        assert(spec_u32_to_le_bytes(spec_u32_from_le_bytes(bytes.subrange(0, 4))) == bytes.subrange(0, 4));
        assert(spec_u32_to_le_bytes(spec_u32_from_le_bytes(bytes.subrange(4, 8))) == bytes.subrange(4, 8));
        assert(Self::of_wire(bytes).as_wire() =~= bytes);
    }

    fn wire_size_exec() -> usize {
        8
    }

    fn wire_align_exec() -> usize {
        4
    }

    fn read_wire(bytes: &[u8], off: usize) -> (r: Self) {
        proof {
            assert(Self::wire_size() == 8);
            assert(bytes.len() == bytes@.len());
        }
        let r = fuse_setxattr_in {
            size: crate::wire::read_u32_at(bytes, off),
            flags: crate::wire::read_u32_at(bytes, off + 4),
        };
        proof {
            let s = bytes@.subrange(off as int, off as int + 8);
            assert(s.subrange(0, 4) =~= bytes@.subrange(off as int + 0, off as int + 4));
            assert(s.subrange(4, 8) =~= bytes@.subrange(off as int + 4, off as int + 8));
            assert(r == Self::of_wire(s));
        }
        r
    }

    fn write_wire(&self, out: &mut Vec<u8>) {
        crate::wire::write_u32(out, self.size);
        crate::wire::write_u32(out, self.flags);
        proof {
            lemma_auto_spec_u32_to_from_le_bytes();
            assert(spec_u32_to_le_bytes(self.size).len() == 4);
            assert(spec_u32_to_le_bytes(self.flags).len() == 4);
            assert(out@ =~= old(out)@ + self.as_wire());
        }
    }
}

#[allow(non_camel_case_types)]
#[derive(Debug, Clone, Copy, PartialEq, Eq, Structural)]
pub struct fuse_getxattr_in {
    pub size: u32,
    pub padding: u32,
}

impl Sealed for fuse_getxattr_in {}

impl FuseAbiData for fuse_getxattr_in {
    open spec fn wire_size() -> nat {
        8
    }

    open spec fn wire_align() -> nat {
        4
    }

    open spec fn as_wire(self) -> Seq<u8> {
        spec_u32_to_le_bytes(self.size)
            + spec_u32_to_le_bytes(self.padding)
    }

    open spec fn of_wire(bytes: Seq<u8>) -> Self {
        fuse_getxattr_in {
            size: spec_u32_from_le_bytes(bytes.subrange(0, 4)),
            padding: spec_u32_from_le_bytes(bytes.subrange(4, 8)),
        }
    }

    proof fn lemma_wire_len(x: Self) {
        lemma_auto_spec_u32_to_from_le_bytes();
        assert(spec_u32_to_le_bytes(x.size).len() == 4);
        assert(spec_u32_to_le_bytes(x.padding).len() == 4);
    }

    proof fn lemma_size_align() {
    }

    proof fn lemma_of_as(x: Self) {
        lemma_auto_spec_u32_to_from_le_bytes();
        let w = x.as_wire();
        assert(w.subrange(0, 4) =~= spec_u32_to_le_bytes(x.size));
        assert(w.subrange(4, 8) =~= spec_u32_to_le_bytes(x.padding));
        assert(Self::of_wire(w) == x);
    }

    proof fn lemma_as_of(bytes: Seq<u8>) {
        lemma_auto_spec_u32_to_from_le_bytes();
        assert(spec_u32_to_le_bytes(spec_u32_from_le_bytes(bytes.subrange(0, 4))) == bytes.subrange(0, 4));
        assert(spec_u32_to_le_bytes(spec_u32_from_le_bytes(bytes.subrange(4, 8))) == bytes.subrange(4, 8));
        assert(Self::of_wire(bytes).as_wire() =~= bytes);
    }

    fn wire_size_exec() -> usize {
        8
    }

    fn wire_align_exec() -> usize {
        4
    }

    fn read_wire(bytes: &[u8], off: usize) -> (r: Self) {
        proof {
            assert(Self::wire_size() == 8);
            assert(bytes.len() == bytes@.len());
        }
        let r = fuse_getxattr_in {
            size: crate::wire::read_u32_at(bytes, off),
            padding: crate::wire::read_u32_at(bytes, off + 4),
        };
        proof {
            let s = bytes@.subrange(off as int, off as int + 8);
            assert(s.subrange(0, 4) =~= bytes@.subrange(off as int + 0, off as int + 4));
            assert(s.subrange(4, 8) =~= bytes@.subrange(off as int + 4, off as int + 8));
            assert(r == Self::of_wire(s));
        }
        r
    }

    fn write_wire(&self, out: &mut Vec<u8>) {
        crate::wire::write_u32(out, self.size);
        crate::wire::write_u32(out, self.padding);
        proof {
            lemma_auto_spec_u32_to_from_le_bytes();
            assert(spec_u32_to_le_bytes(self.size).len() == 4);
            assert(spec_u32_to_le_bytes(self.padding).len() == 4);
            assert(out@ =~= old(out)@ + self.as_wire());
        }
    }
}

#[allow(non_camel_case_types)]
#[derive(Debug, Clone, Copy, PartialEq, Eq, Structural)]
pub struct fuse_getxattr_out {
    pub size: u32,
    pub padding: u32,
}

impl fuse_getxattr_out {
    /// The all-zero record, the starting point of every reply builder.
    pub open spec fn zeroed() -> Self {
        fuse_getxattr_out {
            size: 0,
            padding: 0,
        }
    }
}

impl Default for fuse_getxattr_out {
    fn default() -> (r: Self)
        ensures
            r == fuse_getxattr_out::zeroed(),
    {
        fuse_getxattr_out {
            size: 0,
            padding: 0,
        }
    }
}

impl Sealed for fuse_getxattr_out {}

impl FuseAbiData for fuse_getxattr_out {
    open spec fn wire_size() -> nat {
        8
    }

    open spec fn wire_align() -> nat {
        4
    }

    open spec fn as_wire(self) -> Seq<u8> {
        spec_u32_to_le_bytes(self.size)
            + spec_u32_to_le_bytes(self.padding)
    }

    open spec fn of_wire(bytes: Seq<u8>) -> Self {
        fuse_getxattr_out {
            size: spec_u32_from_le_bytes(bytes.subrange(0, 4)),
            padding: spec_u32_from_le_bytes(bytes.subrange(4, 8)),
        }
    }

    proof fn lemma_wire_len(x: Self) {
        lemma_auto_spec_u32_to_from_le_bytes();
        assert(spec_u32_to_le_bytes(x.size).len() == 4);
        assert(spec_u32_to_le_bytes(x.padding).len() == 4);
    }

    proof fn lemma_size_align() {
    }

    proof fn lemma_of_as(x: Self) {
        lemma_auto_spec_u32_to_from_le_bytes();
        let w = x.as_wire();
        assert(w.subrange(0, 4) =~= spec_u32_to_le_bytes(x.size));
        assert(w.subrange(4, 8) =~= spec_u32_to_le_bytes(x.padding));
        assert(Self::of_wire(w) == x);
    }

    proof fn lemma_as_of(bytes: Seq<u8>) {
        lemma_auto_spec_u32_to_from_le_bytes();
        assert(spec_u32_to_le_bytes(spec_u32_from_le_bytes(bytes.subrange(0, 4))) == bytes.subrange(0, 4));
        assert(spec_u32_to_le_bytes(spec_u32_from_le_bytes(bytes.subrange(4, 8))) == bytes.subrange(4, 8));
        assert(Self::of_wire(bytes).as_wire() =~= bytes);
    }

    fn wire_size_exec() -> usize {
        8
    }

    fn wire_align_exec() -> usize {
        4
    }

    fn read_wire(bytes: &[u8], off: usize) -> (r: Self) {
        proof {
            assert(Self::wire_size() == 8);
            assert(bytes.len() == bytes@.len());
        }
        let r = fuse_getxattr_out {
            size: crate::wire::read_u32_at(bytes, off),
            padding: crate::wire::read_u32_at(bytes, off + 4),
        };
        proof {
            let s = bytes@.subrange(off as int, off as int + 8);
            assert(s.subrange(0, 4) =~= bytes@.subrange(off as int + 0, off as int + 4));
            assert(s.subrange(4, 8) =~= bytes@.subrange(off as int + 4, off as int + 8));
            assert(r == Self::of_wire(s));
        }
        r
    }

    fn write_wire(&self, out: &mut Vec<u8>) {
        crate::wire::write_u32(out, self.size);
        crate::wire::write_u32(out, self.padding);
        proof {
            lemma_auto_spec_u32_to_from_le_bytes();
            assert(spec_u32_to_le_bytes(self.size).len() == 4);
            assert(spec_u32_to_le_bytes(self.padding).len() == 4);
            assert(out@ =~= old(out)@ + self.as_wire());
        }
    }
}

#[allow(non_camel_case_types)]
#[derive(Debug, Clone, Copy, PartialEq, Eq, Structural)]
pub struct fuse_lk_in {
    pub fh: u64,
    pub owner: u64,
    pub lk: fuse_file_lock,
    pub lk_flags: u32,
    pub padding: u32,
}

impl Sealed for fuse_lk_in {}

impl FuseAbiData for fuse_lk_in {
    open spec fn wire_size() -> nat {
        48
    }

    open spec fn wire_align() -> nat {
        8
    }

    open spec fn as_wire(self) -> Seq<u8> {
        spec_u64_to_le_bytes(self.fh)
            + spec_u64_to_le_bytes(self.owner)
            + self.lk.as_wire()
            + spec_u32_to_le_bytes(self.lk_flags)
            + spec_u32_to_le_bytes(self.padding)
    }

    open spec fn of_wire(bytes: Seq<u8>) -> Self {
        fuse_lk_in {
            fh: spec_u64_from_le_bytes(bytes.subrange(0, 8)),
            owner: spec_u64_from_le_bytes(bytes.subrange(8, 16)),
            lk: fuse_file_lock::of_wire(bytes.subrange(16, 40)),
            lk_flags: spec_u32_from_le_bytes(bytes.subrange(40, 44)),
            padding: spec_u32_from_le_bytes(bytes.subrange(44, 48)),
        }
    }

    proof fn lemma_wire_len(x: Self) {
        lemma_auto_spec_u32_to_from_le_bytes();
        lemma_auto_spec_u64_to_from_le_bytes();
        assert(spec_u64_to_le_bytes(x.fh).len() == 8);
        assert(spec_u64_to_le_bytes(x.owner).len() == 8);
        fuse_file_lock::lemma_wire_len(x.lk);
        assert(spec_u32_to_le_bytes(x.lk_flags).len() == 4);
        assert(spec_u32_to_le_bytes(x.padding).len() == 4);
    }

    proof fn lemma_size_align() {
    }

    proof fn lemma_of_as(x: Self) {
        lemma_auto_spec_u32_to_from_le_bytes();
        lemma_auto_spec_u64_to_from_le_bytes();
        fuse_file_lock::lemma_wire_len(x.lk);
        let w = x.as_wire();
        assert(w.subrange(0, 8) =~= spec_u64_to_le_bytes(x.fh));
        assert(w.subrange(8, 16) =~= spec_u64_to_le_bytes(x.owner));
        assert(w.subrange(16, 40) =~= x.lk.as_wire());
        fuse_file_lock::lemma_of_as(x.lk);
        assert(w.subrange(40, 44) =~= spec_u32_to_le_bytes(x.lk_flags));
        assert(w.subrange(44, 48) =~= spec_u32_to_le_bytes(x.padding));
        assert(Self::of_wire(w) == x);
    }

    proof fn lemma_as_of(bytes: Seq<u8>) {
        lemma_auto_spec_u32_to_from_le_bytes();
        lemma_auto_spec_u64_to_from_le_bytes();
        assert(spec_u64_to_le_bytes(spec_u64_from_le_bytes(bytes.subrange(0, 8))) == bytes.subrange(0, 8));
        assert(spec_u64_to_le_bytes(spec_u64_from_le_bytes(bytes.subrange(8, 16))) == bytes.subrange(8, 16));
        fuse_file_lock::lemma_as_of(bytes.subrange(16, 40));
        assert(spec_u32_to_le_bytes(spec_u32_from_le_bytes(bytes.subrange(40, 44))) == bytes.subrange(40, 44));
        assert(spec_u32_to_le_bytes(spec_u32_from_le_bytes(bytes.subrange(44, 48))) == bytes.subrange(44, 48));
        assert(Self::of_wire(bytes).as_wire() =~= bytes);
    }

    fn wire_size_exec() -> usize {
        48
    }

    fn wire_align_exec() -> usize {
        8
    }

    fn read_wire(bytes: &[u8], off: usize) -> (r: Self) {
        proof {
            assert(Self::wire_size() == 48);
            assert(bytes.len() == bytes@.len());
        }
        let r = fuse_lk_in {
            fh: crate::wire::read_u64_at(bytes, off),
            owner: crate::wire::read_u64_at(bytes, off + 8),
            lk: fuse_file_lock::read_wire(bytes, off + 16),
            lk_flags: crate::wire::read_u32_at(bytes, off + 40),
            padding: crate::wire::read_u32_at(bytes, off + 44),
        };
        proof {
            let s = bytes@.subrange(off as int, off as int + 48);
            assert(s.subrange(0, 8) =~= bytes@.subrange(off as int + 0, off as int + 8));
            assert(s.subrange(8, 16) =~= bytes@.subrange(off as int + 8, off as int + 16));
            assert(s.subrange(16, 40) =~= bytes@.subrange(off as int + 16, off as int + 40));
            assert(s.subrange(40, 44) =~= bytes@.subrange(off as int + 40, off as int + 44));
            assert(s.subrange(44, 48) =~= bytes@.subrange(off as int + 44, off as int + 48));
            assert(r == Self::of_wire(s));
        }
        r
    }

    fn write_wire(&self, out: &mut Vec<u8>) {
        crate::wire::write_u64(out, self.fh);
        crate::wire::write_u64(out, self.owner);
        self.lk.write_wire(out);
        crate::wire::write_u32(out, self.lk_flags);
        crate::wire::write_u32(out, self.padding);
        proof {
            lemma_auto_spec_u32_to_from_le_bytes();
            lemma_auto_spec_u64_to_from_le_bytes();
            assert(spec_u64_to_le_bytes(self.fh).len() == 8);
            assert(spec_u64_to_le_bytes(self.owner).len() == 8);
            fuse_file_lock::lemma_wire_len(self.lk);
            assert(spec_u32_to_le_bytes(self.lk_flags).len() == 4);
            assert(spec_u32_to_le_bytes(self.padding).len() == 4);
            assert(out@ =~= old(out)@ + self.as_wire());
        }
    }
}

#[allow(non_camel_case_types)]
#[derive(Debug, Clone, Copy, PartialEq, Eq, Structural)]
pub struct fuse_lk_out {
    pub lk: fuse_file_lock,
}

impl Sealed for fuse_lk_out {}

impl FuseAbiData for fuse_lk_out {
    open spec fn wire_size() -> nat {
        24
    }

    open spec fn wire_align() -> nat {
        8
    }

    open spec fn as_wire(self) -> Seq<u8> {
        self.lk.as_wire()
    }

    open spec fn of_wire(bytes: Seq<u8>) -> Self {
        fuse_lk_out {
            lk: fuse_file_lock::of_wire(bytes.subrange(0, 24)),
        }
    }

    proof fn lemma_wire_len(x: Self) {
        fuse_file_lock::lemma_wire_len(x.lk);
    }

    proof fn lemma_size_align() {
    }

    proof fn lemma_of_as(x: Self) {
        fuse_file_lock::lemma_wire_len(x.lk);
        let w = x.as_wire();
        assert(w.subrange(0, 24) =~= x.lk.as_wire());
        fuse_file_lock::lemma_of_as(x.lk);
        assert(Self::of_wire(w) == x);
    }

    proof fn lemma_as_of(bytes: Seq<u8>) {
        fuse_file_lock::lemma_as_of(bytes.subrange(0, 24));
        assert(Self::of_wire(bytes).as_wire() =~= bytes);
    }

    fn wire_size_exec() -> usize {
        24
    }

    fn wire_align_exec() -> usize {
        8
    }

    fn read_wire(bytes: &[u8], off: usize) -> (r: Self) {
        proof {
            assert(Self::wire_size() == 24);
            assert(bytes.len() == bytes@.len());
        }
        let r = fuse_lk_out {
            lk: fuse_file_lock::read_wire(bytes, off),
        };
        proof {
            let s = bytes@.subrange(off as int, off as int + 24);
            assert(s.subrange(0, 24) =~= bytes@.subrange(off as int + 0, off as int + 24));
            assert(r == Self::of_wire(s));
        }
        r
    }

    fn write_wire(&self, out: &mut Vec<u8>) {
        self.lk.write_wire(out);
        proof {
            fuse_file_lock::lemma_wire_len(self.lk);
            assert(out@ =~= old(out)@ + self.as_wire());
        }
    }
}

#[allow(non_camel_case_types)]
#[derive(Debug, Clone, Copy, PartialEq, Eq, Structural)]
pub struct fuse_access_in {
    pub mask: u32,
    pub padding: u32,
}

impl Sealed for fuse_access_in {}

impl FuseAbiData for fuse_access_in {
    open spec fn wire_size() -> nat {
        8
    }

    open spec fn wire_align() -> nat {
        4
    }

    open spec fn as_wire(self) -> Seq<u8> {
        spec_u32_to_le_bytes(self.mask)
            + spec_u32_to_le_bytes(self.padding)
    }

    open spec fn of_wire(bytes: Seq<u8>) -> Self {
        fuse_access_in {
            mask: spec_u32_from_le_bytes(bytes.subrange(0, 4)),
            padding: spec_u32_from_le_bytes(bytes.subrange(4, 8)),
        }
    }

    proof fn lemma_wire_len(x: Self) {
        lemma_auto_spec_u32_to_from_le_bytes();
        assert(spec_u32_to_le_bytes(x.mask).len() == 4);
        assert(spec_u32_to_le_bytes(x.padding).len() == 4);
    }

    proof fn lemma_size_align() {
    }

    proof fn lemma_of_as(x: Self) {
        lemma_auto_spec_u32_to_from_le_bytes();
        let w = x.as_wire();
        assert(w.subrange(0, 4) =~= spec_u32_to_le_bytes(x.mask));
        assert(w.subrange(4, 8) =~= spec_u32_to_le_bytes(x.padding));
        assert(Self::of_wire(w) == x);
    }

    proof fn lemma_as_of(bytes: Seq<u8>) {
        lemma_auto_spec_u32_to_from_le_bytes();
        assert(spec_u32_to_le_bytes(spec_u32_from_le_bytes(bytes.subrange(0, 4))) == bytes.subrange(0, 4));
        assert(spec_u32_to_le_bytes(spec_u32_from_le_bytes(bytes.subrange(4, 8))) == bytes.subrange(4, 8));
        assert(Self::of_wire(bytes).as_wire() =~= bytes);
    }

    fn wire_size_exec() -> usize {
        8
    }

    fn wire_align_exec() -> usize {
        4
    }

    fn read_wire(bytes: &[u8], off: usize) -> (r: Self) {
        proof {
            assert(Self::wire_size() == 8);
            assert(bytes.len() == bytes@.len());
        }
        let r = fuse_access_in {
            mask: crate::wire::read_u32_at(bytes, off),
            padding: crate::wire::read_u32_at(bytes, off + 4),
        };
        proof {
            let s = bytes@.subrange(off as int, off as int + 8);
            assert(s.subrange(0, 4) =~= bytes@.subrange(off as int + 0, off as int + 4));
            assert(s.subrange(4, 8) =~= bytes@.subrange(off as int + 4, off as int + 8));
            assert(r == Self::of_wire(s));
        }
        r
    }

    fn write_wire(&self, out: &mut Vec<u8>) {
        crate::wire::write_u32(out, self.mask);
        crate::wire::write_u32(out, self.padding);
        proof {
            lemma_auto_spec_u32_to_from_le_bytes();
            assert(spec_u32_to_le_bytes(self.mask).len() == 4);
            assert(spec_u32_to_le_bytes(self.padding).len() == 4);
            assert(out@ =~= old(out)@ + self.as_wire());
        }
    }
}

#[allow(non_camel_case_types)]
#[derive(Debug, Clone, Copy, PartialEq, Eq, Structural)]
pub struct fuse_init_in {
    pub major: u32,
    pub minor: u32,
    pub max_readahead: u32,
    pub flags: u32,
}

impl Sealed for fuse_init_in {}

impl FuseAbiData for fuse_init_in {
    open spec fn wire_size() -> nat {
        16
    }

    open spec fn wire_align() -> nat {
        4
    }

    open spec fn as_wire(self) -> Seq<u8> {
        spec_u32_to_le_bytes(self.major)
            + spec_u32_to_le_bytes(self.minor)
            + spec_u32_to_le_bytes(self.max_readahead)
            + spec_u32_to_le_bytes(self.flags)
    }

    open spec fn of_wire(bytes: Seq<u8>) -> Self {
        fuse_init_in {
            major: spec_u32_from_le_bytes(bytes.subrange(0, 4)),
            minor: spec_u32_from_le_bytes(bytes.subrange(4, 8)),
            max_readahead: spec_u32_from_le_bytes(bytes.subrange(8, 12)),
            flags: spec_u32_from_le_bytes(bytes.subrange(12, 16)),
        }
    }

    proof fn lemma_wire_len(x: Self) {
        lemma_auto_spec_u32_to_from_le_bytes();
        assert(spec_u32_to_le_bytes(x.major).len() == 4);
        assert(spec_u32_to_le_bytes(x.minor).len() == 4);
        assert(spec_u32_to_le_bytes(x.max_readahead).len() == 4);
        assert(spec_u32_to_le_bytes(x.flags).len() == 4);
    }

    proof fn lemma_size_align() {
    }

    proof fn lemma_of_as(x: Self) {
        lemma_auto_spec_u32_to_from_le_bytes();
        let w = x.as_wire();
        assert(w.subrange(0, 4) =~= spec_u32_to_le_bytes(x.major));
        assert(w.subrange(4, 8) =~= spec_u32_to_le_bytes(x.minor));
        assert(w.subrange(8, 12) =~= spec_u32_to_le_bytes(x.max_readahead));
        assert(w.subrange(12, 16) =~= spec_u32_to_le_bytes(x.flags));
        assert(Self::of_wire(w) == x);
    }

    proof fn lemma_as_of(bytes: Seq<u8>) {
        lemma_auto_spec_u32_to_from_le_bytes();
        assert(spec_u32_to_le_bytes(spec_u32_from_le_bytes(bytes.subrange(0, 4))) == bytes.subrange(0, 4));
        assert(spec_u32_to_le_bytes(spec_u32_from_le_bytes(bytes.subrange(4, 8))) == bytes.subrange(4, 8));
        assert(spec_u32_to_le_bytes(spec_u32_from_le_bytes(bytes.subrange(8, 12))) == bytes.subrange(8, 12));
        assert(spec_u32_to_le_bytes(spec_u32_from_le_bytes(bytes.subrange(12, 16))) == bytes.subrange(12, 16));
        assert(Self::of_wire(bytes).as_wire() =~= bytes);
    }

    fn wire_size_exec() -> usize {
        16
    }

    fn wire_align_exec() -> usize {
        4
    }

    fn read_wire(bytes: &[u8], off: usize) -> (r: Self) {
        proof {
            assert(Self::wire_size() == 16);
            assert(bytes.len() == bytes@.len());
        }
        let r = fuse_init_in {
            major: crate::wire::read_u32_at(bytes, off),
            minor: crate::wire::read_u32_at(bytes, off + 4),
            max_readahead: crate::wire::read_u32_at(bytes, off + 8),
            flags: crate::wire::read_u32_at(bytes, off + 12),
        };
        proof {
            let s = bytes@.subrange(off as int, off as int + 16);
            assert(s.subrange(0, 4) =~= bytes@.subrange(off as int + 0, off as int + 4));
            assert(s.subrange(4, 8) =~= bytes@.subrange(off as int + 4, off as int + 8));
            assert(s.subrange(8, 12) =~= bytes@.subrange(off as int + 8, off as int + 12));
            assert(s.subrange(12, 16) =~= bytes@.subrange(off as int + 12, off as int + 16));
            assert(r == Self::of_wire(s));
        }
        r
    }

    fn write_wire(&self, out: &mut Vec<u8>) {
        crate::wire::write_u32(out, self.major);
        crate::wire::write_u32(out, self.minor);
        crate::wire::write_u32(out, self.max_readahead);
        crate::wire::write_u32(out, self.flags);
        proof {
            lemma_auto_spec_u32_to_from_le_bytes();
            assert(spec_u32_to_le_bytes(self.major).len() == 4);
            assert(spec_u32_to_le_bytes(self.minor).len() == 4);
            assert(spec_u32_to_le_bytes(self.max_readahead).len() == 4);
            assert(spec_u32_to_le_bytes(self.flags).len() == 4);
            assert(out@ =~= old(out)@ + self.as_wire());
        }
    }
}

#[allow(non_camel_case_types)]
#[derive(Debug, Clone, Copy, PartialEq, Eq, Structural)]
pub struct fuse_init_out {
    pub major: u32,
    pub minor: u32,
    pub max_readahead: u32,
    pub flags: u32,
    pub max_background: u16,
    pub congestion_threshold: u16,
    pub max_write: u32,
    pub time_gran: u32,
    pub max_pages: u16,
    pub padding: u16,
    pub unused0: u32,
    pub unused1: u32,
    pub unused2: u32,
    pub unused3: u32,
    pub unused4: u32,
    pub unused5: u32,
    pub unused6: u32,
    pub unused7: u32,
}

impl fuse_init_out {
    /// The all-zero record, the starting point of every reply builder.
    pub open spec fn zeroed() -> Self {
        fuse_init_out {
            major: 0,
            minor: 0,
            max_readahead: 0,
            flags: 0,
            max_background: 0,
            congestion_threshold: 0,
            max_write: 0,
            time_gran: 0,
            max_pages: 0,
            padding: 0,
            unused0: 0,
            unused1: 0,
            unused2: 0,
            unused3: 0,
            unused4: 0,
            unused5: 0,
            unused6: 0,
            unused7: 0,
        }
    }
}

impl Default for fuse_init_out {
    fn default() -> (r: Self)
        ensures
            r == fuse_init_out::zeroed(),
    {
        fuse_init_out {
            major: 0,
            minor: 0,
            max_readahead: 0,
            flags: 0,
            max_background: 0,
            congestion_threshold: 0,
            max_write: 0,
            time_gran: 0,
            max_pages: 0,
            padding: 0,
            unused0: 0,
            unused1: 0,
            unused2: 0,
            unused3: 0,
            unused4: 0,
            unused5: 0,
            unused6: 0,
            unused7: 0,
        }
    }
}

impl Sealed for fuse_init_out {}

impl FuseAbiData for fuse_init_out {
    open spec fn wire_size() -> nat {
        64
    }

    open spec fn wire_align() -> nat {
        4
    }

    open spec fn as_wire(self) -> Seq<u8> {
        spec_u32_to_le_bytes(self.major)
            + spec_u32_to_le_bytes(self.minor)
            + spec_u32_to_le_bytes(self.max_readahead)
            + spec_u32_to_le_bytes(self.flags)
            + spec_u16_to_le_bytes(self.max_background)
            + spec_u16_to_le_bytes(self.congestion_threshold)
            + spec_u32_to_le_bytes(self.max_write)
            + spec_u32_to_le_bytes(self.time_gran)
            + spec_u16_to_le_bytes(self.max_pages)
            + spec_u16_to_le_bytes(self.padding)
            + spec_u32_to_le_bytes(self.unused0)
            + spec_u32_to_le_bytes(self.unused1)
            + spec_u32_to_le_bytes(self.unused2)
            + spec_u32_to_le_bytes(self.unused3)
            + spec_u32_to_le_bytes(self.unused4)
            + spec_u32_to_le_bytes(self.unused5)
            + spec_u32_to_le_bytes(self.unused6)
            + spec_u32_to_le_bytes(self.unused7)
    }

    open spec fn of_wire(bytes: Seq<u8>) -> Self {
        fuse_init_out {
            major: spec_u32_from_le_bytes(bytes.subrange(0, 4)),
            minor: spec_u32_from_le_bytes(bytes.subrange(4, 8)),
            max_readahead: spec_u32_from_le_bytes(bytes.subrange(8, 12)),
            flags: spec_u32_from_le_bytes(bytes.subrange(12, 16)),
            max_background: spec_u16_from_le_bytes(bytes.subrange(16, 18)),
            congestion_threshold: spec_u16_from_le_bytes(bytes.subrange(18, 20)),
            max_write: spec_u32_from_le_bytes(bytes.subrange(20, 24)),
            time_gran: spec_u32_from_le_bytes(bytes.subrange(24, 28)),
            max_pages: spec_u16_from_le_bytes(bytes.subrange(28, 30)),
            padding: spec_u16_from_le_bytes(bytes.subrange(30, 32)),
            unused0: spec_u32_from_le_bytes(bytes.subrange(32, 36)),
            unused1: spec_u32_from_le_bytes(bytes.subrange(36, 40)),
            unused2: spec_u32_from_le_bytes(bytes.subrange(40, 44)),
            unused3: spec_u32_from_le_bytes(bytes.subrange(44, 48)),
            unused4: spec_u32_from_le_bytes(bytes.subrange(48, 52)),
            unused5: spec_u32_from_le_bytes(bytes.subrange(52, 56)),
            unused6: spec_u32_from_le_bytes(bytes.subrange(56, 60)),
            unused7: spec_u32_from_le_bytes(bytes.subrange(60, 64)),
        }
    }

    proof fn lemma_wire_len(x: Self) {
        lemma_auto_spec_u16_to_from_le_bytes();
        lemma_auto_spec_u32_to_from_le_bytes();
        assert(spec_u32_to_le_bytes(x.major).len() == 4);
        assert(spec_u32_to_le_bytes(x.minor).len() == 4);
        assert(spec_u32_to_le_bytes(x.max_readahead).len() == 4);
        assert(spec_u32_to_le_bytes(x.flags).len() == 4);
        assert(spec_u16_to_le_bytes(x.max_background).len() == 2);
        assert(spec_u16_to_le_bytes(x.congestion_threshold).len() == 2);
        assert(spec_u32_to_le_bytes(x.max_write).len() == 4);
        assert(spec_u32_to_le_bytes(x.time_gran).len() == 4);
        assert(spec_u16_to_le_bytes(x.max_pages).len() == 2);
        assert(spec_u16_to_le_bytes(x.padding).len() == 2);
        assert(spec_u32_to_le_bytes(x.unused0).len() == 4);
        assert(spec_u32_to_le_bytes(x.unused1).len() == 4);
        assert(spec_u32_to_le_bytes(x.unused2).len() == 4);
        assert(spec_u32_to_le_bytes(x.unused3).len() == 4);
        assert(spec_u32_to_le_bytes(x.unused4).len() == 4);
        assert(spec_u32_to_le_bytes(x.unused5).len() == 4);
        assert(spec_u32_to_le_bytes(x.unused6).len() == 4);
        assert(spec_u32_to_le_bytes(x.unused7).len() == 4);
    }

    proof fn lemma_size_align() {
    }

    proof fn lemma_of_as(x: Self) {
        lemma_auto_spec_u16_to_from_le_bytes();
        lemma_auto_spec_u32_to_from_le_bytes();
        let w = x.as_wire();
        assert(w.subrange(0, 4) =~= spec_u32_to_le_bytes(x.major));
        assert(w.subrange(4, 8) =~= spec_u32_to_le_bytes(x.minor));
        assert(w.subrange(8, 12) =~= spec_u32_to_le_bytes(x.max_readahead));
        assert(w.subrange(12, 16) =~= spec_u32_to_le_bytes(x.flags));
        assert(w.subrange(16, 18) =~= spec_u16_to_le_bytes(x.max_background));
        assert(w.subrange(18, 20) =~= spec_u16_to_le_bytes(x.congestion_threshold));
        assert(w.subrange(20, 24) =~= spec_u32_to_le_bytes(x.max_write));
        assert(w.subrange(24, 28) =~= spec_u32_to_le_bytes(x.time_gran));
        assert(w.subrange(28, 30) =~= spec_u16_to_le_bytes(x.max_pages));
        assert(w.subrange(30, 32) =~= spec_u16_to_le_bytes(x.padding));
        assert(w.subrange(32, 36) =~= spec_u32_to_le_bytes(x.unused0));
        assert(w.subrange(36, 40) =~= spec_u32_to_le_bytes(x.unused1));
        assert(w.subrange(40, 44) =~= spec_u32_to_le_bytes(x.unused2));
        assert(w.subrange(44, 48) =~= spec_u32_to_le_bytes(x.unused3));
        assert(w.subrange(48, 52) =~= spec_u32_to_le_bytes(x.unused4));
        assert(w.subrange(52, 56) =~= spec_u32_to_le_bytes(x.unused5));
        assert(w.subrange(56, 60) =~= spec_u32_to_le_bytes(x.unused6));
        assert(w.subrange(60, 64) =~= spec_u32_to_le_bytes(x.unused7));
        assert(Self::of_wire(w) == x);
    }

    proof fn lemma_as_of(bytes: Seq<u8>) {
        lemma_auto_spec_u16_to_from_le_bytes();
        lemma_auto_spec_u32_to_from_le_bytes();
        assert(spec_u32_to_le_bytes(spec_u32_from_le_bytes(bytes.subrange(0, 4))) == bytes.subrange(0, 4));
        assert(spec_u32_to_le_bytes(spec_u32_from_le_bytes(bytes.subrange(4, 8))) == bytes.subrange(4, 8));
        assert(spec_u32_to_le_bytes(spec_u32_from_le_bytes(bytes.subrange(8, 12))) == bytes.subrange(8, 12));
        assert(spec_u32_to_le_bytes(spec_u32_from_le_bytes(bytes.subrange(12, 16))) == bytes.subrange(12, 16));
        assert(spec_u16_to_le_bytes(spec_u16_from_le_bytes(bytes.subrange(16, 18))) == bytes.subrange(16, 18));
        assert(spec_u16_to_le_bytes(spec_u16_from_le_bytes(bytes.subrange(18, 20))) == bytes.subrange(18, 20));
        assert(spec_u32_to_le_bytes(spec_u32_from_le_bytes(bytes.subrange(20, 24))) == bytes.subrange(20, 24));
        assert(spec_u32_to_le_bytes(spec_u32_from_le_bytes(bytes.subrange(24, 28))) == bytes.subrange(24, 28));
        assert(spec_u16_to_le_bytes(spec_u16_from_le_bytes(bytes.subrange(28, 30))) == bytes.subrange(28, 30));
        assert(spec_u16_to_le_bytes(spec_u16_from_le_bytes(bytes.subrange(30, 32))) == bytes.subrange(30, 32));
        assert(spec_u32_to_le_bytes(spec_u32_from_le_bytes(bytes.subrange(32, 36))) == bytes.subrange(32, 36));
        assert(spec_u32_to_le_bytes(spec_u32_from_le_bytes(bytes.subrange(36, 40))) == bytes.subrange(36, 40));
        assert(spec_u32_to_le_bytes(spec_u32_from_le_bytes(bytes.subrange(40, 44))) == bytes.subrange(40, 44));
        assert(spec_u32_to_le_bytes(spec_u32_from_le_bytes(bytes.subrange(44, 48))) == bytes.subrange(44, 48));
        assert(spec_u32_to_le_bytes(spec_u32_from_le_bytes(bytes.subrange(48, 52))) == bytes.subrange(48, 52));
        assert(spec_u32_to_le_bytes(spec_u32_from_le_bytes(bytes.subrange(52, 56))) == bytes.subrange(52, 56));
        assert(spec_u32_to_le_bytes(spec_u32_from_le_bytes(bytes.subrange(56, 60))) == bytes.subrange(56, 60));
        assert(spec_u32_to_le_bytes(spec_u32_from_le_bytes(bytes.subrange(60, 64))) == bytes.subrange(60, 64));
        assert(Self::of_wire(bytes).as_wire() =~= bytes);
    }

    fn wire_size_exec() -> usize {
        64
    }

    fn wire_align_exec() -> usize {
        4
    }

    fn read_wire(bytes: &[u8], off: usize) -> (r: Self) {
        proof {
            assert(Self::wire_size() == 64);
            assert(bytes.len() == bytes@.len());
        }
        let r = fuse_init_out {
            major: crate::wire::read_u32_at(bytes, off),
            minor: crate::wire::read_u32_at(bytes, off + 4),
            max_readahead: crate::wire::read_u32_at(bytes, off + 8),
            flags: crate::wire::read_u32_at(bytes, off + 12),
            max_background: crate::wire::read_u16_at(bytes, off + 16),
            congestion_threshold: crate::wire::read_u16_at(bytes, off + 18),
            max_write: crate::wire::read_u32_at(bytes, off + 20),
            time_gran: crate::wire::read_u32_at(bytes, off + 24),
            max_pages: crate::wire::read_u16_at(bytes, off + 28),
            padding: crate::wire::read_u16_at(bytes, off + 30),
            unused0: crate::wire::read_u32_at(bytes, off + 32),
            unused1: crate::wire::read_u32_at(bytes, off + 36),
            unused2: crate::wire::read_u32_at(bytes, off + 40),
            unused3: crate::wire::read_u32_at(bytes, off + 44),
            unused4: crate::wire::read_u32_at(bytes, off + 48),
            unused5: crate::wire::read_u32_at(bytes, off + 52),
            unused6: crate::wire::read_u32_at(bytes, off + 56),
            unused7: crate::wire::read_u32_at(bytes, off + 60),
        };
        proof {
            let s = bytes@.subrange(off as int, off as int + 64);
            assert(s.subrange(0, 4) =~= bytes@.subrange(off as int + 0, off as int + 4));
            assert(s.subrange(4, 8) =~= bytes@.subrange(off as int + 4, off as int + 8));
            assert(s.subrange(8, 12) =~= bytes@.subrange(off as int + 8, off as int + 12));
            assert(s.subrange(12, 16) =~= bytes@.subrange(off as int + 12, off as int + 16));
            assert(s.subrange(16, 18) =~= bytes@.subrange(off as int + 16, off as int + 18));
            assert(s.subrange(18, 20) =~= bytes@.subrange(off as int + 18, off as int + 20));
            assert(s.subrange(20, 24) =~= bytes@.subrange(off as int + 20, off as int + 24));
            assert(s.subrange(24, 28) =~= bytes@.subrange(off as int + 24, off as int + 28));
            assert(s.subrange(28, 30) =~= bytes@.subrange(off as int + 28, off as int + 30));
            assert(s.subrange(30, 32) =~= bytes@.subrange(off as int + 30, off as int + 32));
            assert(s.subrange(32, 36) =~= bytes@.subrange(off as int + 32, off as int + 36));
            assert(s.subrange(36, 40) =~= bytes@.subrange(off as int + 36, off as int + 40));
            assert(s.subrange(40, 44) =~= bytes@.subrange(off as int + 40, off as int + 44));
            assert(s.subrange(44, 48) =~= bytes@.subrange(off as int + 44, off as int + 48));
            assert(s.subrange(48, 52) =~= bytes@.subrange(off as int + 48, off as int + 52));
            assert(s.subrange(52, 56) =~= bytes@.subrange(off as int + 52, off as int + 56));
            assert(s.subrange(56, 60) =~= bytes@.subrange(off as int + 56, off as int + 60));
            assert(s.subrange(60, 64) =~= bytes@.subrange(off as int + 60, off as int + 64));
            assert(r == Self::of_wire(s));
        }
        r
    }

    fn write_wire(&self, out: &mut Vec<u8>) {
        crate::wire::write_u32(out, self.major);
        crate::wire::write_u32(out, self.minor);
        crate::wire::write_u32(out, self.max_readahead);
        crate::wire::write_u32(out, self.flags);
        crate::wire::write_u16(out, self.max_background);
        crate::wire::write_u16(out, self.congestion_threshold);
        crate::wire::write_u32(out, self.max_write);
        crate::wire::write_u32(out, self.time_gran);
        crate::wire::write_u16(out, self.max_pages);
        crate::wire::write_u16(out, self.padding);
        crate::wire::write_u32(out, self.unused0);
        crate::wire::write_u32(out, self.unused1);
        crate::wire::write_u32(out, self.unused2);
        crate::wire::write_u32(out, self.unused3);
        crate::wire::write_u32(out, self.unused4);
        crate::wire::write_u32(out, self.unused5);
        crate::wire::write_u32(out, self.unused6);
        crate::wire::write_u32(out, self.unused7);
        proof {
            lemma_auto_spec_u16_to_from_le_bytes();
            lemma_auto_spec_u32_to_from_le_bytes();
            assert(spec_u32_to_le_bytes(self.major).len() == 4);
            assert(spec_u32_to_le_bytes(self.minor).len() == 4);
            assert(spec_u32_to_le_bytes(self.max_readahead).len() == 4);
            assert(spec_u32_to_le_bytes(self.flags).len() == 4);
            assert(spec_u16_to_le_bytes(self.max_background).len() == 2);
            assert(spec_u16_to_le_bytes(self.congestion_threshold).len() == 2);
            assert(spec_u32_to_le_bytes(self.max_write).len() == 4);
            assert(spec_u32_to_le_bytes(self.time_gran).len() == 4);
            assert(spec_u16_to_le_bytes(self.max_pages).len() == 2);
            assert(spec_u16_to_le_bytes(self.padding).len() == 2);
            assert(spec_u32_to_le_bytes(self.unused0).len() == 4);
            assert(spec_u32_to_le_bytes(self.unused1).len() == 4);
            assert(spec_u32_to_le_bytes(self.unused2).len() == 4);
            assert(spec_u32_to_le_bytes(self.unused3).len() == 4);
            assert(spec_u32_to_le_bytes(self.unused4).len() == 4);
            assert(spec_u32_to_le_bytes(self.unused5).len() == 4);
            assert(spec_u32_to_le_bytes(self.unused6).len() == 4);
            assert(spec_u32_to_le_bytes(self.unused7).len() == 4);
            assert(out@ =~= old(out)@ + self.as_wire());
        }
    }
}

#[allow(non_camel_case_types)]
#[derive(Debug, Clone, Copy, PartialEq, Eq, Structural)]
pub struct cuse_init_in {
    pub major: u32,
    pub minor: u32,
    pub unused: u32,
    pub flags: u32,
}

impl Sealed for cuse_init_in {}

impl FuseAbiData for cuse_init_in {
    open spec fn wire_size() -> nat {
        16
    }

    open spec fn wire_align() -> nat {
        4
    }

    open spec fn as_wire(self) -> Seq<u8> {
        spec_u32_to_le_bytes(self.major)
            + spec_u32_to_le_bytes(self.minor)
            + spec_u32_to_le_bytes(self.unused)
            + spec_u32_to_le_bytes(self.flags)
    }

    open spec fn of_wire(bytes: Seq<u8>) -> Self {
        cuse_init_in {
            major: spec_u32_from_le_bytes(bytes.subrange(0, 4)),
            minor: spec_u32_from_le_bytes(bytes.subrange(4, 8)),
            unused: spec_u32_from_le_bytes(bytes.subrange(8, 12)),
            flags: spec_u32_from_le_bytes(bytes.subrange(12, 16)),
        }
    }

    proof fn lemma_wire_len(x: Self) {
        lemma_auto_spec_u32_to_from_le_bytes();
        assert(spec_u32_to_le_bytes(x.major).len() == 4);
        assert(spec_u32_to_le_bytes(x.minor).len() == 4);
        assert(spec_u32_to_le_bytes(x.unused).len() == 4);
        assert(spec_u32_to_le_bytes(x.flags).len() == 4);
    }

    proof fn lemma_size_align() {
    }

    proof fn lemma_of_as(x: Self) {
        lemma_auto_spec_u32_to_from_le_bytes();
        let w = x.as_wire();
        assert(w.subrange(0, 4) =~= spec_u32_to_le_bytes(x.major));
        assert(w.subrange(4, 8) =~= spec_u32_to_le_bytes(x.minor));
        assert(w.subrange(8, 12) =~= spec_u32_to_le_bytes(x.unused));
        assert(w.subrange(12, 16) =~= spec_u32_to_le_bytes(x.flags));
        assert(Self::of_wire(w) == x);
    }

    proof fn lemma_as_of(bytes: Seq<u8>) {
        lemma_auto_spec_u32_to_from_le_bytes();
        assert(spec_u32_to_le_bytes(spec_u32_from_le_bytes(bytes.subrange(0, 4))) == bytes.subrange(0, 4));
        assert(spec_u32_to_le_bytes(spec_u32_from_le_bytes(bytes.subrange(4, 8))) == bytes.subrange(4, 8));
        assert(spec_u32_to_le_bytes(spec_u32_from_le_bytes(bytes.subrange(8, 12))) == bytes.subrange(8, 12));
        assert(spec_u32_to_le_bytes(spec_u32_from_le_bytes(bytes.subrange(12, 16))) == bytes.subrange(12, 16));
        assert(Self::of_wire(bytes).as_wire() =~= bytes);
    }

    fn wire_size_exec() -> usize {
        16
    }

    fn wire_align_exec() -> usize {
        4
    }

    fn read_wire(bytes: &[u8], off: usize) -> (r: Self) {
        proof {
            assert(Self::wire_size() == 16);
            assert(bytes.len() == bytes@.len());
        }
        let r = cuse_init_in {
            major: crate::wire::read_u32_at(bytes, off),
            minor: crate::wire::read_u32_at(bytes, off + 4),
            unused: crate::wire::read_u32_at(bytes, off + 8),
            flags: crate::wire::read_u32_at(bytes, off + 12),
        };
        proof {
            let s = bytes@.subrange(off as int, off as int + 16);
            assert(s.subrange(0, 4) =~= bytes@.subrange(off as int + 0, off as int + 4));
            assert(s.subrange(4, 8) =~= bytes@.subrange(off as int + 4, off as int + 8));
            assert(s.subrange(8, 12) =~= bytes@.subrange(off as int + 8, off as int + 12));
            assert(s.subrange(12, 16) =~= bytes@.subrange(off as int + 12, off as int + 16));
            assert(r == Self::of_wire(s));
        }
        r
    }

    fn write_wire(&self, out: &mut Vec<u8>) {
        crate::wire::write_u32(out, self.major);
        crate::wire::write_u32(out, self.minor);
        crate::wire::write_u32(out, self.unused);
        crate::wire::write_u32(out, self.flags);
        proof {
            lemma_auto_spec_u32_to_from_le_bytes();
            assert(spec_u32_to_le_bytes(self.major).len() == 4);
            assert(spec_u32_to_le_bytes(self.minor).len() == 4);
            assert(spec_u32_to_le_bytes(self.unused).len() == 4);
            assert(spec_u32_to_le_bytes(self.flags).len() == 4);
            assert(out@ =~= old(out)@ + self.as_wire());
        }
    }
}

#[allow(non_camel_case_types)]
#[derive(Debug, Clone, Copy, PartialEq, Eq, Structural)]
pub struct cuse_init_out {
    pub major: u32,
    pub minor: u32,
    pub unused: u32,
    pub flags: u32,
    pub max_read: u32,
    pub max_write: u32,
    pub dev_major: u32,
    pub dev_minor: u32,
    pub spare0: u32,
    pub spare1: u32,
    pub spare2: u32,
    pub spare3: u32,
    pub spare4: u32,
    pub spare5: u32,
    pub spare6: u32,
    pub spare7: u32,
    pub spare8: u32,
    pub spare9: u32,
}

impl Sealed for cuse_init_out {}

impl FuseAbiData for cuse_init_out {
    open spec fn wire_size() -> nat {
        72
    }

    open spec fn wire_align() -> nat {
        4
    }

    open spec fn as_wire(self) -> Seq<u8> {
        spec_u32_to_le_bytes(self.major)
            + spec_u32_to_le_bytes(self.minor)
            + spec_u32_to_le_bytes(self.unused)
            + spec_u32_to_le_bytes(self.flags)
            + spec_u32_to_le_bytes(self.max_read)
            + spec_u32_to_le_bytes(self.max_write)
            + spec_u32_to_le_bytes(self.dev_major)
            + spec_u32_to_le_bytes(self.dev_minor)
            + spec_u32_to_le_bytes(self.spare0)
            + spec_u32_to_le_bytes(self.spare1)
            + spec_u32_to_le_bytes(self.spare2)
            + spec_u32_to_le_bytes(self.spare3)
            + spec_u32_to_le_bytes(self.spare4)
            + spec_u32_to_le_bytes(self.spare5)
            + spec_u32_to_le_bytes(self.spare6)
            + spec_u32_to_le_bytes(self.spare7)
            + spec_u32_to_le_bytes(self.spare8)
            + spec_u32_to_le_bytes(self.spare9)
    }

    open spec fn of_wire(bytes: Seq<u8>) -> Self {
        cuse_init_out {
            major: spec_u32_from_le_bytes(bytes.subrange(0, 4)),
            minor: spec_u32_from_le_bytes(bytes.subrange(4, 8)),
            unused: spec_u32_from_le_bytes(bytes.subrange(8, 12)),
            flags: spec_u32_from_le_bytes(bytes.subrange(12, 16)),
            max_read: spec_u32_from_le_bytes(bytes.subrange(16, 20)),
            max_write: spec_u32_from_le_bytes(bytes.subrange(20, 24)),
            dev_major: spec_u32_from_le_bytes(bytes.subrange(24, 28)),
            dev_minor: spec_u32_from_le_bytes(bytes.subrange(28, 32)),
            spare0: spec_u32_from_le_bytes(bytes.subrange(32, 36)),
            spare1: spec_u32_from_le_bytes(bytes.subrange(36, 40)),
            spare2: spec_u32_from_le_bytes(bytes.subrange(40, 44)),
            spare3: spec_u32_from_le_bytes(bytes.subrange(44, 48)),
            spare4: spec_u32_from_le_bytes(bytes.subrange(48, 52)),
            spare5: spec_u32_from_le_bytes(bytes.subrange(52, 56)),
            spare6: spec_u32_from_le_bytes(bytes.subrange(56, 60)),
            spare7: spec_u32_from_le_bytes(bytes.subrange(60, 64)),
            spare8: spec_u32_from_le_bytes(bytes.subrange(64, 68)),
            spare9: spec_u32_from_le_bytes(bytes.subrange(68, 72)),
        }
    }

    proof fn lemma_wire_len(x: Self) {
        lemma_auto_spec_u32_to_from_le_bytes();
        assert(spec_u32_to_le_bytes(x.major).len() == 4);
        assert(spec_u32_to_le_bytes(x.minor).len() == 4);
        assert(spec_u32_to_le_bytes(x.unused).len() == 4);
        assert(spec_u32_to_le_bytes(x.flags).len() == 4);
        assert(spec_u32_to_le_bytes(x.max_read).len() == 4);
        assert(spec_u32_to_le_bytes(x.max_write).len() == 4);
        assert(spec_u32_to_le_bytes(x.dev_major).len() == 4);
        assert(spec_u32_to_le_bytes(x.dev_minor).len() == 4);
        assert(spec_u32_to_le_bytes(x.spare0).len() == 4);
        assert(spec_u32_to_le_bytes(x.spare1).len() == 4);
        assert(spec_u32_to_le_bytes(x.spare2).len() == 4);
        assert(spec_u32_to_le_bytes(x.spare3).len() == 4);
        assert(spec_u32_to_le_bytes(x.spare4).len() == 4);
        assert(spec_u32_to_le_bytes(x.spare5).len() == 4);
        assert(spec_u32_to_le_bytes(x.spare6).len() == 4);
        assert(spec_u32_to_le_bytes(x.spare7).len() == 4);
        assert(spec_u32_to_le_bytes(x.spare8).len() == 4);
        assert(spec_u32_to_le_bytes(x.spare9).len() == 4);
    }

    proof fn lemma_size_align() {
    }

    proof fn lemma_of_as(x: Self) {
        lemma_auto_spec_u32_to_from_le_bytes();
        let w = x.as_wire();
        assert(w.subrange(0, 4) =~= spec_u32_to_le_bytes(x.major));
        assert(w.subrange(4, 8) =~= spec_u32_to_le_bytes(x.minor));
        assert(w.subrange(8, 12) =~= spec_u32_to_le_bytes(x.unused));
        assert(w.subrange(12, 16) =~= spec_u32_to_le_bytes(x.flags));
        assert(w.subrange(16, 20) =~= spec_u32_to_le_bytes(x.max_read));
        assert(w.subrange(20, 24) =~= spec_u32_to_le_bytes(x.max_write));
        assert(w.subrange(24, 28) =~= spec_u32_to_le_bytes(x.dev_major));
        assert(w.subrange(28, 32) =~= spec_u32_to_le_bytes(x.dev_minor));
        assert(w.subrange(32, 36) =~= spec_u32_to_le_bytes(x.spare0));
        assert(w.subrange(36, 40) =~= spec_u32_to_le_bytes(x.spare1));
        assert(w.subrange(40, 44) =~= spec_u32_to_le_bytes(x.spare2));
        assert(w.subrange(44, 48) =~= spec_u32_to_le_bytes(x.spare3));
        assert(w.subrange(48, 52) =~= spec_u32_to_le_bytes(x.spare4));
        assert(w.subrange(52, 56) =~= spec_u32_to_le_bytes(x.spare5));
        assert(w.subrange(56, 60) =~= spec_u32_to_le_bytes(x.spare6));
        assert(w.subrange(60, 64) =~= spec_u32_to_le_bytes(x.spare7));
        assert(w.subrange(64, 68) =~= spec_u32_to_le_bytes(x.spare8));
        assert(w.subrange(68, 72) =~= spec_u32_to_le_bytes(x.spare9));
        assert(Self::of_wire(w) == x);
    }

    proof fn lemma_as_of(bytes: Seq<u8>) {
        lemma_auto_spec_u32_to_from_le_bytes();
        assert(spec_u32_to_le_bytes(spec_u32_from_le_bytes(bytes.subrange(0, 4))) == bytes.subrange(0, 4));
        assert(spec_u32_to_le_bytes(spec_u32_from_le_bytes(bytes.subrange(4, 8))) == bytes.subrange(4, 8));
        assert(spec_u32_to_le_bytes(spec_u32_from_le_bytes(bytes.subrange(8, 12))) == bytes.subrange(8, 12));
        assert(spec_u32_to_le_bytes(spec_u32_from_le_bytes(bytes.subrange(12, 16))) == bytes.subrange(12, 16));
        assert(spec_u32_to_le_bytes(spec_u32_from_le_bytes(bytes.subrange(16, 20))) == bytes.subrange(16, 20));
        assert(spec_u32_to_le_bytes(spec_u32_from_le_bytes(bytes.subrange(20, 24))) == bytes.subrange(20, 24));
        assert(spec_u32_to_le_bytes(spec_u32_from_le_bytes(bytes.subrange(24, 28))) == bytes.subrange(24, 28));
        assert(spec_u32_to_le_bytes(spec_u32_from_le_bytes(bytes.subrange(28, 32))) == bytes.subrange(28, 32));
        assert(spec_u32_to_le_bytes(spec_u32_from_le_bytes(bytes.subrange(32, 36))) == bytes.subrange(32, 36));
        assert(spec_u32_to_le_bytes(spec_u32_from_le_bytes(bytes.subrange(36, 40))) == bytes.subrange(36, 40));
        assert(spec_u32_to_le_bytes(spec_u32_from_le_bytes(bytes.subrange(40, 44))) == bytes.subrange(40, 44));
        assert(spec_u32_to_le_bytes(spec_u32_from_le_bytes(bytes.subrange(44, 48))) == bytes.subrange(44, 48));
        assert(spec_u32_to_le_bytes(spec_u32_from_le_bytes(bytes.subrange(48, 52))) == bytes.subrange(48, 52));
        assert(spec_u32_to_le_bytes(spec_u32_from_le_bytes(bytes.subrange(52, 56))) == bytes.subrange(52, 56));
        assert(spec_u32_to_le_bytes(spec_u32_from_le_bytes(bytes.subrange(56, 60))) == bytes.subrange(56, 60));
        assert(spec_u32_to_le_bytes(spec_u32_from_le_bytes(bytes.subrange(60, 64))) == bytes.subrange(60, 64));
        assert(spec_u32_to_le_bytes(spec_u32_from_le_bytes(bytes.subrange(64, 68))) == bytes.subrange(64, 68));
        assert(spec_u32_to_le_bytes(spec_u32_from_le_bytes(bytes.subrange(68, 72))) == bytes.subrange(68, 72));
        assert(Self::of_wire(bytes).as_wire() =~= bytes);
    }

    fn wire_size_exec() -> usize {
        72
    }

    fn wire_align_exec() -> usize {
        4
    }

    fn read_wire(bytes: &[u8], off: usize) -> (r: Self) {
        proof {
            assert(Self::wire_size() == 72);
            assert(bytes.len() == bytes@.len());
        }
        let r = cuse_init_out {
            major: crate::wire::read_u32_at(bytes, off),
            minor: crate::wire::read_u32_at(bytes, off + 4),
            unused: crate::wire::read_u32_at(bytes, off + 8),
            flags: crate::wire::read_u32_at(bytes, off + 12),
            max_read: crate::wire::read_u32_at(bytes, off + 16),
            max_write: crate::wire::read_u32_at(bytes, off + 20),
            dev_major: crate::wire::read_u32_at(bytes, off + 24),
            dev_minor: crate::wire::read_u32_at(bytes, off + 28),
            spare0: crate::wire::read_u32_at(bytes, off + 32),
            spare1: crate::wire::read_u32_at(bytes, off + 36),
            spare2: crate::wire::read_u32_at(bytes, off + 40),
            spare3: crate::wire::read_u32_at(bytes, off + 44),
            spare4: crate::wire::read_u32_at(bytes, off + 48),
            spare5: crate::wire::read_u32_at(bytes, off + 52),
            spare6: crate::wire::read_u32_at(bytes, off + 56),
            spare7: crate::wire::read_u32_at(bytes, off + 60),
            spare8: crate::wire::read_u32_at(bytes, off + 64),
            spare9: crate::wire::read_u32_at(bytes, off + 68),
        };
        proof {
            let s = bytes@.subrange(off as int, off as int + 72);
            assert(s.subrange(0, 4) =~= bytes@.subrange(off as int + 0, off as int + 4));
            assert(s.subrange(4, 8) =~= bytes@.subrange(off as int + 4, off as int + 8));
            assert(s.subrange(8, 12) =~= bytes@.subrange(off as int + 8, off as int + 12));
            assert(s.subrange(12, 16) =~= bytes@.subrange(off as int + 12, off as int + 16));
            assert(s.subrange(16, 20) =~= bytes@.subrange(off as int + 16, off as int + 20));
            assert(s.subrange(20, 24) =~= bytes@.subrange(off as int + 20, off as int + 24));
            assert(s.subrange(24, 28) =~= bytes@.subrange(off as int + 24, off as int + 28));
            assert(s.subrange(28, 32) =~= bytes@.subrange(off as int + 28, off as int + 32));
            assert(s.subrange(32, 36) =~= bytes@.subrange(off as int + 32, off as int + 36));
            assert(s.subrange(36, 40) =~= bytes@.subrange(off as int + 36, off as int + 40));
            assert(s.subrange(40, 44) =~= bytes@.subrange(off as int + 40, off as int + 44));
            assert(s.subrange(44, 48) =~= bytes@.subrange(off as int + 44, off as int + 48));
            assert(s.subrange(48, 52) =~= bytes@.subrange(off as int + 48, off as int + 52));
            assert(s.subrange(52, 56) =~= bytes@.subrange(off as int + 52, off as int + 56));
            assert(s.subrange(56, 60) =~= bytes@.subrange(off as int + 56, off as int + 60));
            assert(s.subrange(60, 64) =~= bytes@.subrange(off as int + 60, off as int + 64));
            assert(s.subrange(64, 68) =~= bytes@.subrange(off as int + 64, off as int + 68));
            assert(s.subrange(68, 72) =~= bytes@.subrange(off as int + 68, off as int + 72));
            assert(r == Self::of_wire(s));
        }
        r
    }

    fn write_wire(&self, out: &mut Vec<u8>) {
        crate::wire::write_u32(out, self.major);
        crate::wire::write_u32(out, self.minor);
        crate::wire::write_u32(out, self.unused);
        crate::wire::write_u32(out, self.flags);
        crate::wire::write_u32(out, self.max_read);
        crate::wire::write_u32(out, self.max_write);
        crate::wire::write_u32(out, self.dev_major);
        crate::wire::write_u32(out, self.dev_minor);
        crate::wire::write_u32(out, self.spare0);
        crate::wire::write_u32(out, self.spare1);
        crate::wire::write_u32(out, self.spare2);
        crate::wire::write_u32(out, self.spare3);
        crate::wire::write_u32(out, self.spare4);
        crate::wire::write_u32(out, self.spare5);
        crate::wire::write_u32(out, self.spare6);
        crate::wire::write_u32(out, self.spare7);
        crate::wire::write_u32(out, self.spare8);
        crate::wire::write_u32(out, self.spare9);
        proof {
            lemma_auto_spec_u32_to_from_le_bytes();
            assert(spec_u32_to_le_bytes(self.major).len() == 4);
            assert(spec_u32_to_le_bytes(self.minor).len() == 4);
            assert(spec_u32_to_le_bytes(self.unused).len() == 4);
            assert(spec_u32_to_le_bytes(self.flags).len() == 4);
            assert(spec_u32_to_le_bytes(self.max_read).len() == 4);
            assert(spec_u32_to_le_bytes(self.max_write).len() == 4);
            assert(spec_u32_to_le_bytes(self.dev_major).len() == 4);
            assert(spec_u32_to_le_bytes(self.dev_minor).len() == 4);
            assert(spec_u32_to_le_bytes(self.spare0).len() == 4);
            assert(spec_u32_to_le_bytes(self.spare1).len() == 4);
            assert(spec_u32_to_le_bytes(self.spare2).len() == 4);
            assert(spec_u32_to_le_bytes(self.spare3).len() == 4);
            assert(spec_u32_to_le_bytes(self.spare4).len() == 4);
            assert(spec_u32_to_le_bytes(self.spare5).len() == 4);
            assert(spec_u32_to_le_bytes(self.spare6).len() == 4);
            assert(spec_u32_to_le_bytes(self.spare7).len() == 4);
            assert(spec_u32_to_le_bytes(self.spare8).len() == 4);
            assert(spec_u32_to_le_bytes(self.spare9).len() == 4);
            assert(out@ =~= old(out)@ + self.as_wire());
        }
    }
}

#[allow(non_camel_case_types)]
#[derive(Debug, Clone, Copy, PartialEq, Eq, Structural)]
pub struct fuse_interrupt_in {
    pub unique: u64,
}

impl Sealed for fuse_interrupt_in {}

impl FuseAbiData for fuse_interrupt_in {
    open spec fn wire_size() -> nat {
        8
    }

    open spec fn wire_align() -> nat {
        8
    }

    open spec fn as_wire(self) -> Seq<u8> {
        spec_u64_to_le_bytes(self.unique)
    }

    open spec fn of_wire(bytes: Seq<u8>) -> Self {
        fuse_interrupt_in {
            unique: spec_u64_from_le_bytes(bytes.subrange(0, 8)),
        }
    }

    proof fn lemma_wire_len(x: Self) {
        lemma_auto_spec_u64_to_from_le_bytes();
        assert(spec_u64_to_le_bytes(x.unique).len() == 8);
    }

    proof fn lemma_size_align() {
    }

    proof fn lemma_of_as(x: Self) {
        lemma_auto_spec_u64_to_from_le_bytes();
        let w = x.as_wire();
        assert(w.subrange(0, 8) =~= spec_u64_to_le_bytes(x.unique));
        assert(Self::of_wire(w) == x);
    }

    proof fn lemma_as_of(bytes: Seq<u8>) {
        lemma_auto_spec_u64_to_from_le_bytes();
        assert(spec_u64_to_le_bytes(spec_u64_from_le_bytes(bytes.subrange(0, 8))) == bytes.subrange(0, 8));
        assert(Self::of_wire(bytes).as_wire() =~= bytes);
    }

    fn wire_size_exec() -> usize {
        8
    }

    fn wire_align_exec() -> usize {
        8
    }

    fn read_wire(bytes: &[u8], off: usize) -> (r: Self) {
        proof {
            assert(Self::wire_size() == 8);
            assert(bytes.len() == bytes@.len());
        }
        let r = fuse_interrupt_in {
            unique: crate::wire::read_u64_at(bytes, off),
        };
        proof {
            let s = bytes@.subrange(off as int, off as int + 8);
            assert(s.subrange(0, 8) =~= bytes@.subrange(off as int + 0, off as int + 8));
            assert(r == Self::of_wire(s));
        }
        r
    }

    fn write_wire(&self, out: &mut Vec<u8>) {
        crate::wire::write_u64(out, self.unique);
        proof {
            lemma_auto_spec_u64_to_from_le_bytes();
            assert(spec_u64_to_le_bytes(self.unique).len() == 8);
            assert(out@ =~= old(out)@ + self.as_wire());
        }
    }
}

#[allow(non_camel_case_types)]
#[derive(Debug, Clone, Copy, PartialEq, Eq, Structural)]
pub struct fuse_bmap_in {
    pub block: u64,
    pub blocksize: u32,
    pub padding: u32,
}

impl Sealed for fuse_bmap_in {}

impl FuseAbiData for fuse_bmap_in {
    open spec fn wire_size() -> nat {
        16
    }

    open spec fn wire_align() -> nat {
        8
    }

    open spec fn as_wire(self) -> Seq<u8> {
        spec_u64_to_le_bytes(self.block)
            + spec_u32_to_le_bytes(self.blocksize)
            + spec_u32_to_le_bytes(self.padding)
    }

    open spec fn of_wire(bytes: Seq<u8>) -> Self {
        fuse_bmap_in {
            block: spec_u64_from_le_bytes(bytes.subrange(0, 8)),
            blocksize: spec_u32_from_le_bytes(bytes.subrange(8, 12)),
            padding: spec_u32_from_le_bytes(bytes.subrange(12, 16)),
        }
    }

    proof fn lemma_wire_len(x: Self) {
        lemma_auto_spec_u32_to_from_le_bytes();
        lemma_auto_spec_u64_to_from_le_bytes();
        assert(spec_u64_to_le_bytes(x.block).len() == 8);
        assert(spec_u32_to_le_bytes(x.blocksize).len() == 4);
        assert(spec_u32_to_le_bytes(x.padding).len() == 4);
    }

    proof fn lemma_size_align() {
    }

    proof fn lemma_of_as(x: Self) {
        lemma_auto_spec_u32_to_from_le_bytes();
        lemma_auto_spec_u64_to_from_le_bytes();
        let w = x.as_wire();
        assert(w.subrange(0, 8) =~= spec_u64_to_le_bytes(x.block));
        assert(w.subrange(8, 12) =~= spec_u32_to_le_bytes(x.blocksize));
        assert(w.subrange(12, 16) =~= spec_u32_to_le_bytes(x.padding));
        assert(Self::of_wire(w) == x);
    }

    proof fn lemma_as_of(bytes: Seq<u8>) {
        lemma_auto_spec_u32_to_from_le_bytes();
        lemma_auto_spec_u64_to_from_le_bytes();
        assert(spec_u64_to_le_bytes(spec_u64_from_le_bytes(bytes.subrange(0, 8))) == bytes.subrange(0, 8));
        assert(spec_u32_to_le_bytes(spec_u32_from_le_bytes(bytes.subrange(8, 12))) == bytes.subrange(8, 12));
        assert(spec_u32_to_le_bytes(spec_u32_from_le_bytes(bytes.subrange(12, 16))) == bytes.subrange(12, 16));
        assert(Self::of_wire(bytes).as_wire() =~= bytes);
    }

    fn wire_size_exec() -> usize {
        16
    }

    fn wire_align_exec() -> usize {
        8
    }

    fn read_wire(bytes: &[u8], off: usize) -> (r: Self) {
        proof {
            assert(Self::wire_size() == 16);
            assert(bytes.len() == bytes@.len());
        }
        let r = fuse_bmap_in {
            block: crate::wire::read_u64_at(bytes, off),
            blocksize: crate::wire::read_u32_at(bytes, off + 8),
            padding: crate::wire::read_u32_at(bytes, off + 12),
        };
        proof {
            let s = bytes@.subrange(off as int, off as int + 16);
            assert(s.subrange(0, 8) =~= bytes@.subrange(off as int + 0, off as int + 8));
            assert(s.subrange(8, 12) =~= bytes@.subrange(off as int + 8, off as int + 12));
            assert(s.subrange(12, 16) =~= bytes@.subrange(off as int + 12, off as int + 16));
            assert(r == Self::of_wire(s));
        }
        r
    }

    fn write_wire(&self, out: &mut Vec<u8>) {
        crate::wire::write_u64(out, self.block);
        crate::wire::write_u32(out, self.blocksize);
        crate::wire::write_u32(out, self.padding);
        proof {
            lemma_auto_spec_u32_to_from_le_bytes();
            lemma_auto_spec_u64_to_from_le_bytes();
            assert(spec_u64_to_le_bytes(self.block).len() == 8);
            assert(spec_u32_to_le_bytes(self.blocksize).len() == 4);
            assert(spec_u32_to_le_bytes(self.padding).len() == 4);
            assert(out@ =~= old(out)@ + self.as_wire());
        }
    }
}

#[allow(non_camel_case_types)]
#[derive(Debug, Clone, Copy, PartialEq, Eq, Structural)]
pub struct fuse_bmap_out {
    pub block: u64,
}

impl Sealed for fuse_bmap_out {}

impl FuseAbiData for fuse_bmap_out {
    open spec fn wire_size() -> nat {
        8
    }

    open spec fn wire_align() -> nat {
        8
    }

    open spec fn as_wire(self) -> Seq<u8> {
        spec_u64_to_le_bytes(self.block)
    }

    open spec fn of_wire(bytes: Seq<u8>) -> Self {
        fuse_bmap_out {
            block: spec_u64_from_le_bytes(bytes.subrange(0, 8)),
        }
    }

    proof fn lemma_wire_len(x: Self) {
        lemma_auto_spec_u64_to_from_le_bytes();
        assert(spec_u64_to_le_bytes(x.block).len() == 8);
    }

    proof fn lemma_size_align() {
    }

    proof fn lemma_of_as(x: Self) {
        lemma_auto_spec_u64_to_from_le_bytes();
        let w = x.as_wire();
        assert(w.subrange(0, 8) =~= spec_u64_to_le_bytes(x.block));
        assert(Self::of_wire(w) == x);
    }

    proof fn lemma_as_of(bytes: Seq<u8>) {
        lemma_auto_spec_u64_to_from_le_bytes();
        assert(spec_u64_to_le_bytes(spec_u64_from_le_bytes(bytes.subrange(0, 8))) == bytes.subrange(0, 8));
        assert(Self::of_wire(bytes).as_wire() =~= bytes);
    }

    fn wire_size_exec() -> usize {
        8
    }

    fn wire_align_exec() -> usize {
        8
    }

    fn read_wire(bytes: &[u8], off: usize) -> (r: Self) {
        proof {
            assert(Self::wire_size() == 8);
            assert(bytes.len() == bytes@.len());
        }
        let r = fuse_bmap_out {
            block: crate::wire::read_u64_at(bytes, off),
        };
        proof {
            let s = bytes@.subrange(off as int, off as int + 8);
            assert(s.subrange(0, 8) =~= bytes@.subrange(off as int + 0, off as int + 8));
            assert(r == Self::of_wire(s));
        }
        r
    }

    fn write_wire(&self, out: &mut Vec<u8>) {
        crate::wire::write_u64(out, self.block);
        proof {
            lemma_auto_spec_u64_to_from_le_bytes();
            assert(spec_u64_to_le_bytes(self.block).len() == 8);
            assert(out@ =~= old(out)@ + self.as_wire());
        }
    }
}

#[allow(non_camel_case_types)]
#[derive(Debug, Clone, Copy, PartialEq, Eq, Structural)]
pub struct fuse_ioctl_in {
    pub fh: u64,
    pub flags: u32,
    pub cmd: u32,
    pub arg: u64,
    pub in_size: u32,
    pub out_size: u32,
}

impl Sealed for fuse_ioctl_in {}

impl FuseAbiData for fuse_ioctl_in {
    open spec fn wire_size() -> nat {
        32
    }

    open spec fn wire_align() -> nat {
        8
    }

    open spec fn as_wire(self) -> Seq<u8> {
        spec_u64_to_le_bytes(self.fh)
            + spec_u32_to_le_bytes(self.flags)
            + spec_u32_to_le_bytes(self.cmd)
            + spec_u64_to_le_bytes(self.arg)
            + spec_u32_to_le_bytes(self.in_size)
            + spec_u32_to_le_bytes(self.out_size)
    }

    open spec fn of_wire(bytes: Seq<u8>) -> Self {
        fuse_ioctl_in {
            fh: spec_u64_from_le_bytes(bytes.subrange(0, 8)),
            flags: spec_u32_from_le_bytes(bytes.subrange(8, 12)),
            cmd: spec_u32_from_le_bytes(bytes.subrange(12, 16)),
            arg: spec_u64_from_le_bytes(bytes.subrange(16, 24)),
            in_size: spec_u32_from_le_bytes(bytes.subrange(24, 28)),
            out_size: spec_u32_from_le_bytes(bytes.subrange(28, 32)),
        }
    }

    proof fn lemma_wire_len(x: Self) {
        lemma_auto_spec_u32_to_from_le_bytes();
        lemma_auto_spec_u64_to_from_le_bytes();
        assert(spec_u64_to_le_bytes(x.fh).len() == 8);
        assert(spec_u32_to_le_bytes(x.flags).len() == 4);
        assert(spec_u32_to_le_bytes(x.cmd).len() == 4);
        assert(spec_u64_to_le_bytes(x.arg).len() == 8);
        assert(spec_u32_to_le_bytes(x.in_size).len() == 4);
        assert(spec_u32_to_le_bytes(x.out_size).len() == 4);
    }

    proof fn lemma_size_align() {
    }

    proof fn lemma_of_as(x: Self) {
        lemma_auto_spec_u32_to_from_le_bytes();
        lemma_auto_spec_u64_to_from_le_bytes();
        let w = x.as_wire();
        assert(w.subrange(0, 8) =~= spec_u64_to_le_bytes(x.fh));
        assert(w.subrange(8, 12) =~= spec_u32_to_le_bytes(x.flags));
        assert(w.subrange(12, 16) =~= spec_u32_to_le_bytes(x.cmd));
        assert(w.subrange(16, 24) =~= spec_u64_to_le_bytes(x.arg));
        assert(w.subrange(24, 28) =~= spec_u32_to_le_bytes(x.in_size));
        assert(w.subrange(28, 32) =~= spec_u32_to_le_bytes(x.out_size));
        assert(Self::of_wire(w) == x);
    }

    proof fn lemma_as_of(bytes: Seq<u8>) {
        lemma_auto_spec_u32_to_from_le_bytes();
        lemma_auto_spec_u64_to_from_le_bytes();
        assert(spec_u64_to_le_bytes(spec_u64_from_le_bytes(bytes.subrange(0, 8))) == bytes.subrange(0, 8));
        assert(spec_u32_to_le_bytes(spec_u32_from_le_bytes(bytes.subrange(8, 12))) == bytes.subrange(8, 12));
        assert(spec_u32_to_le_bytes(spec_u32_from_le_bytes(bytes.subrange(12, 16))) == bytes.subrange(12, 16));
        assert(spec_u64_to_le_bytes(spec_u64_from_le_bytes(bytes.subrange(16, 24))) == bytes.subrange(16, 24));
        assert(spec_u32_to_le_bytes(spec_u32_from_le_bytes(bytes.subrange(24, 28))) == bytes.subrange(24, 28));
        assert(spec_u32_to_le_bytes(spec_u32_from_le_bytes(bytes.subrange(28, 32))) == bytes.subrange(28, 32));
        assert(Self::of_wire(bytes).as_wire() =~= bytes);
    }

    fn wire_size_exec() -> usize {
        32
    }

    fn wire_align_exec() -> usize {
        8
    }

    fn read_wire(bytes: &[u8], off: usize) -> (r: Self) {
        proof {
            assert(Self::wire_size() == 32);
            assert(bytes.len() == bytes@.len());
        }
        let r = fuse_ioctl_in {
            fh: crate::wire::read_u64_at(bytes, off),
            flags: crate::wire::read_u32_at(bytes, off + 8),
            cmd: crate::wire::read_u32_at(bytes, off + 12),
            arg: crate::wire::read_u64_at(bytes, off + 16),
            in_size: crate::wire::read_u32_at(bytes, off + 24),
            out_size: crate::wire::read_u32_at(bytes, off + 28),
        };
        proof {
            let s = bytes@.subrange(off as int, off as int + 32);
            assert(s.subrange(0, 8) =~= bytes@.subrange(off as int + 0, off as int + 8));
            assert(s.subrange(8, 12) =~= bytes@.subrange(off as int + 8, off as int + 12));
            assert(s.subrange(12, 16) =~= bytes@.subrange(off as int + 12, off as int + 16));
            assert(s.subrange(16, 24) =~= bytes@.subrange(off as int + 16, off as int + 24));
            assert(s.subrange(24, 28) =~= bytes@.subrange(off as int + 24, off as int + 28));
            assert(s.subrange(28, 32) =~= bytes@.subrange(off as int + 28, off as int + 32));
            assert(r == Self::of_wire(s));
        }
        r
    }

    fn write_wire(&self, out: &mut Vec<u8>) {
        crate::wire::write_u64(out, self.fh);
        crate::wire::write_u32(out, self.flags);
        crate::wire::write_u32(out, self.cmd);
        crate::wire::write_u64(out, self.arg);
        crate::wire::write_u32(out, self.in_size);
        crate::wire::write_u32(out, self.out_size);
        proof {
            lemma_auto_spec_u32_to_from_le_bytes();
            lemma_auto_spec_u64_to_from_le_bytes();
            assert(spec_u64_to_le_bytes(self.fh).len() == 8);
            assert(spec_u32_to_le_bytes(self.flags).len() == 4);
            assert(spec_u32_to_le_bytes(self.cmd).len() == 4);
            assert(spec_u64_to_le_bytes(self.arg).len() == 8);
            assert(spec_u32_to_le_bytes(self.in_size).len() == 4);
            assert(spec_u32_to_le_bytes(self.out_size).len() == 4);
            assert(out@ =~= old(out)@ + self.as_wire());
        }
    }
}

#[allow(non_camel_case_types)]
#[derive(Debug, Clone, Copy, PartialEq, Eq, Structural)]
pub struct fuse_ioctl_iovec {
    pub base: u64,
    pub len: u64,
}

impl Sealed for fuse_ioctl_iovec {}

impl FuseAbiData for fuse_ioctl_iovec {
    open spec fn wire_size() -> nat {
        16
    }

    open spec fn wire_align() -> nat {
        8
    }

    open spec fn as_wire(self) -> Seq<u8> {
        spec_u64_to_le_bytes(self.base)
            + spec_u64_to_le_bytes(self.len)
    }

    open spec fn of_wire(bytes: Seq<u8>) -> Self {
        fuse_ioctl_iovec {
            base: spec_u64_from_le_bytes(bytes.subrange(0, 8)),
            len: spec_u64_from_le_bytes(bytes.subrange(8, 16)),
        }
    }

    proof fn lemma_wire_len(x: Self) {
        lemma_auto_spec_u64_to_from_le_bytes();
        assert(spec_u64_to_le_bytes(x.base).len() == 8);
        assert(spec_u64_to_le_bytes(x.len).len() == 8);
    }

    proof fn lemma_size_align() {
    }

    proof fn lemma_of_as(x: Self) {
        lemma_auto_spec_u64_to_from_le_bytes();
        let w = x.as_wire();
        assert(w.subrange(0, 8) =~= spec_u64_to_le_bytes(x.base));
        assert(w.subrange(8, 16) =~= spec_u64_to_le_bytes(x.len));
        assert(Self::of_wire(w) == x);
    }

    proof fn lemma_as_of(bytes: Seq<u8>) {
        lemma_auto_spec_u64_to_from_le_bytes();
        assert(spec_u64_to_le_bytes(spec_u64_from_le_bytes(bytes.subrange(0, 8))) == bytes.subrange(0, 8));
        assert(spec_u64_to_le_bytes(spec_u64_from_le_bytes(bytes.subrange(8, 16))) == bytes.subrange(8, 16));
        assert(Self::of_wire(bytes).as_wire() =~= bytes);
    }

    fn wire_size_exec() -> usize {
        16
    }

    fn wire_align_exec() -> usize {
        8
    }

    fn read_wire(bytes: &[u8], off: usize) -> (r: Self) {
        proof {
            assert(Self::wire_size() == 16);
            assert(bytes.len() == bytes@.len());
        }
        let r = fuse_ioctl_iovec {
            base: crate::wire::read_u64_at(bytes, off),
            len: crate::wire::read_u64_at(bytes, off + 8),
        };
        proof {
            let s = bytes@.subrange(off as int, off as int + 16);
            assert(s.subrange(0, 8) =~= bytes@.subrange(off as int + 0, off as int + 8));
            assert(s.subrange(8, 16) =~= bytes@.subrange(off as int + 8, off as int + 16));
            assert(r == Self::of_wire(s));
        }
        r
    }

    fn write_wire(&self, out: &mut Vec<u8>) {
        crate::wire::write_u64(out, self.base);
        crate::wire::write_u64(out, self.len);
        proof {
            lemma_auto_spec_u64_to_from_le_bytes();
            assert(spec_u64_to_le_bytes(self.base).len() == 8);
            assert(spec_u64_to_le_bytes(self.len).len() == 8);
            assert(out@ =~= old(out)@ + self.as_wire());
        }
    }
}

#[allow(non_camel_case_types)]
#[derive(Debug, Clone, Copy, PartialEq, Eq, Structural)]
pub struct fuse_ioctl_out {
    pub result: i32,
    pub flags: u32,
    pub in_iovs: u32,
    pub out_iovs: u32,
}

impl Sealed for fuse_ioctl_out {}

impl FuseAbiData for fuse_ioctl_out {
    open spec fn wire_size() -> nat {
        16
    }

    open spec fn wire_align() -> nat {
        4
    }

    open spec fn as_wire(self) -> Seq<u8> {
        crate::wire::spec_i32_to_le_bytes(self.result)
            + spec_u32_to_le_bytes(self.flags)
            + spec_u32_to_le_bytes(self.in_iovs)
            + spec_u32_to_le_bytes(self.out_iovs)
    }

    open spec fn of_wire(bytes: Seq<u8>) -> Self {
        fuse_ioctl_out {
            result: crate::wire::spec_i32_from_le_bytes(bytes.subrange(0, 4)),
            flags: spec_u32_from_le_bytes(bytes.subrange(4, 8)),
            in_iovs: spec_u32_from_le_bytes(bytes.subrange(8, 12)),
            out_iovs: spec_u32_from_le_bytes(bytes.subrange(12, 16)),
        }
    }

    proof fn lemma_wire_len(x: Self) {
        lemma_auto_spec_u32_to_from_le_bytes();
        assert(crate::wire::spec_i32_to_le_bytes(x.result).len() == 4);
        assert(spec_u32_to_le_bytes(x.flags).len() == 4);
        assert(spec_u32_to_le_bytes(x.in_iovs).len() == 4);
        assert(spec_u32_to_le_bytes(x.out_iovs).len() == 4);
    }

    proof fn lemma_size_align() {
    }

    proof fn lemma_of_as(x: Self) {
        lemma_auto_spec_u32_to_from_le_bytes();
        let w = x.as_wire();
        assert(w.subrange(0, 4) =~= crate::wire::spec_i32_to_le_bytes(x.result));
        crate::wire::lemma_i32_le_roundtrip(x.result);
        assert(w.subrange(4, 8) =~= spec_u32_to_le_bytes(x.flags));
        assert(w.subrange(8, 12) =~= spec_u32_to_le_bytes(x.in_iovs));
        assert(w.subrange(12, 16) =~= spec_u32_to_le_bytes(x.out_iovs));
        assert(Self::of_wire(w) == x);
    }

    proof fn lemma_as_of(bytes: Seq<u8>) {
        lemma_auto_spec_u32_to_from_le_bytes();
        crate::wire::lemma_i32_le_bytes(bytes.subrange(0, 4));
        assert(spec_u32_to_le_bytes(spec_u32_from_le_bytes(bytes.subrange(4, 8))) == bytes.subrange(4, 8));
        assert(spec_u32_to_le_bytes(spec_u32_from_le_bytes(bytes.subrange(8, 12))) == bytes.subrange(8, 12));
        assert(spec_u32_to_le_bytes(spec_u32_from_le_bytes(bytes.subrange(12, 16))) == bytes.subrange(12, 16));
        assert(Self::of_wire(bytes).as_wire() =~= bytes);
    }

    fn wire_size_exec() -> usize {
        16
    }

    fn wire_align_exec() -> usize {
        4
    }

    fn read_wire(bytes: &[u8], off: usize) -> (r: Self) {
        proof {
            assert(Self::wire_size() == 16);
            assert(bytes.len() == bytes@.len());
        }
        let r = fuse_ioctl_out {
            result: crate::wire::read_i32_at(bytes, off),
            flags: crate::wire::read_u32_at(bytes, off + 4),
            in_iovs: crate::wire::read_u32_at(bytes, off + 8),
            out_iovs: crate::wire::read_u32_at(bytes, off + 12),
        };
        proof {
            let s = bytes@.subrange(off as int, off as int + 16);
            assert(s.subrange(0, 4) =~= bytes@.subrange(off as int + 0, off as int + 4));
            assert(s.subrange(4, 8) =~= bytes@.subrange(off as int + 4, off as int + 8));
            assert(s.subrange(8, 12) =~= bytes@.subrange(off as int + 8, off as int + 12));
            assert(s.subrange(12, 16) =~= bytes@.subrange(off as int + 12, off as int + 16));
            assert(r == Self::of_wire(s));
        }
        r
    }

    fn write_wire(&self, out: &mut Vec<u8>) {
        crate::wire::write_i32(out, self.result);
        crate::wire::write_u32(out, self.flags);
        crate::wire::write_u32(out, self.in_iovs);
        crate::wire::write_u32(out, self.out_iovs);
        proof {
            lemma_auto_spec_u32_to_from_le_bytes();
            assert(spec_u32_to_le_bytes(self.flags).len() == 4);
            assert(spec_u32_to_le_bytes(self.in_iovs).len() == 4);
            assert(spec_u32_to_le_bytes(self.out_iovs).len() == 4);
            assert(out@ =~= old(out)@ + self.as_wire());
        }
    }
}

#[allow(non_camel_case_types)]
#[derive(Debug, Clone, Copy, PartialEq, Eq, Structural)]
pub struct fuse_poll_in {
    pub fh: u64,
    pub kh: u64,
    pub flags: u32,
    pub events: u32,
}

impl Sealed for fuse_poll_in {}

impl FuseAbiData for fuse_poll_in {
    open spec fn wire_size() -> nat {
        24
    }

    open spec fn wire_align() -> nat {
        8
    }

    open spec fn as_wire(self) -> Seq<u8> {
        spec_u64_to_le_bytes(self.fh)
            + spec_u64_to_le_bytes(self.kh)
            + spec_u32_to_le_bytes(self.flags)
            + spec_u32_to_le_bytes(self.events)
    }

    open spec fn of_wire(bytes: Seq<u8>) -> Self {
        fuse_poll_in {
            fh: spec_u64_from_le_bytes(bytes.subrange(0, 8)),
            kh: spec_u64_from_le_bytes(bytes.subrange(8, 16)),
            flags: spec_u32_from_le_bytes(bytes.subrange(16, 20)),
            events: spec_u32_from_le_bytes(bytes.subrange(20, 24)),
        }
    }

    proof fn lemma_wire_len(x: Self) {
        lemma_auto_spec_u32_to_from_le_bytes();
        lemma_auto_spec_u64_to_from_le_bytes();
        assert(spec_u64_to_le_bytes(x.fh).len() == 8);
        assert(spec_u64_to_le_bytes(x.kh).len() == 8);
        assert(spec_u32_to_le_bytes(x.flags).len() == 4);
        assert(spec_u32_to_le_bytes(x.events).len() == 4);
    }

    proof fn lemma_size_align() {
    }

    proof fn lemma_of_as(x: Self) {
        lemma_auto_spec_u32_to_from_le_bytes();
        lemma_auto_spec_u64_to_from_le_bytes();
        let w = x.as_wire();
        assert(w.subrange(0, 8) =~= spec_u64_to_le_bytes(x.fh));
        assert(w.subrange(8, 16) =~= spec_u64_to_le_bytes(x.kh));
        assert(w.subrange(16, 20) =~= spec_u32_to_le_bytes(x.flags));
        assert(w.subrange(20, 24) =~= spec_u32_to_le_bytes(x.events));
        assert(Self::of_wire(w) == x);
    }

    proof fn lemma_as_of(bytes: Seq<u8>) {
        lemma_auto_spec_u32_to_from_le_bytes();
        lemma_auto_spec_u64_to_from_le_bytes();
        assert(spec_u64_to_le_bytes(spec_u64_from_le_bytes(bytes.subrange(0, 8))) == bytes.subrange(0, 8));
        assert(spec_u64_to_le_bytes(spec_u64_from_le_bytes(bytes.subrange(8, 16))) == bytes.subrange(8, 16));
        assert(spec_u32_to_le_bytes(spec_u32_from_le_bytes(bytes.subrange(16, 20))) == bytes.subrange(16, 20));
        assert(spec_u32_to_le_bytes(spec_u32_from_le_bytes(bytes.subrange(20, 24))) == bytes.subrange(20, 24));
        assert(Self::of_wire(bytes).as_wire() =~= bytes);
    }

    fn wire_size_exec() -> usize {
        24
    }

    fn wire_align_exec() -> usize {
        8
    }

    fn read_wire(bytes: &[u8], off: usize) -> (r: Self) {
        proof {
            assert(Self::wire_size() == 24);
            assert(bytes.len() == bytes@.len());
        }
        let r = fuse_poll_in {
            fh: crate::wire::read_u64_at(bytes, off),
            kh: crate::wire::read_u64_at(bytes, off + 8),
            flags: crate::wire::read_u32_at(bytes, off + 16),
            events: crate::wire::read_u32_at(bytes, off + 20),
        };
        proof {
            let s = bytes@.subrange(off as int, off as int + 24);
            assert(s.subrange(0, 8) =~= bytes@.subrange(off as int + 0, off as int + 8));
            assert(s.subrange(8, 16) =~= bytes@.subrange(off as int + 8, off as int + 16));
            assert(s.subrange(16, 20) =~= bytes@.subrange(off as int + 16, off as int + 20));
            assert(s.subrange(20, 24) =~= bytes@.subrange(off as int + 20, off as int + 24));
            assert(r == Self::of_wire(s));
        }
        r
    }

    fn write_wire(&self, out: &mut Vec<u8>) {
        crate::wire::write_u64(out, self.fh);
        crate::wire::write_u64(out, self.kh);
        crate::wire::write_u32(out, self.flags);
        crate::wire::write_u32(out, self.events);
        proof {
            lemma_auto_spec_u32_to_from_le_bytes();
            lemma_auto_spec_u64_to_from_le_bytes();
            assert(spec_u64_to_le_bytes(self.fh).len() == 8);
            assert(spec_u64_to_le_bytes(self.kh).len() == 8);
            assert(spec_u32_to_le_bytes(self.flags).len() == 4);
            assert(spec_u32_to_le_bytes(self.events).len() == 4);
            assert(out@ =~= old(out)@ + self.as_wire());
        }
    }
}

#[allow(non_camel_case_types)]
#[derive(Debug, Clone, Copy, PartialEq, Eq, Structural)]
pub struct fuse_poll_out {
    pub revents: u32,
    pub padding: u32,
}

impl Sealed for fuse_poll_out {}

impl FuseAbiData for fuse_poll_out {
    open spec fn wire_size() -> nat {
        8
    }

    open spec fn wire_align() -> nat {
        4
    }

    open spec fn as_wire(self) -> Seq<u8> {
        spec_u32_to_le_bytes(self.revents)
            + spec_u32_to_le_bytes(self.padding)
    }

    open spec fn of_wire(bytes: Seq<u8>) -> Self {
        fuse_poll_out {
            revents: spec_u32_from_le_bytes(bytes.subrange(0, 4)),
            padding: spec_u32_from_le_bytes(bytes.subrange(4, 8)),
        }
    }

    proof fn lemma_wire_len(x: Self) {
        lemma_auto_spec_u32_to_from_le_bytes();
        assert(spec_u32_to_le_bytes(x.revents).len() == 4);
        assert(spec_u32_to_le_bytes(x.padding).len() == 4);
    }

    proof fn lemma_size_align() {
    }

    proof fn lemma_of_as(x: Self) {
        lemma_auto_spec_u32_to_from_le_bytes();
        let w = x.as_wire();
        assert(w.subrange(0, 4) =~= spec_u32_to_le_bytes(x.revents));
        assert(w.subrange(4, 8) =~= spec_u32_to_le_bytes(x.padding));
        assert(Self::of_wire(w) == x);
    }

    proof fn lemma_as_of(bytes: Seq<u8>) {
        lemma_auto_spec_u32_to_from_le_bytes();
        assert(spec_u32_to_le_bytes(spec_u32_from_le_bytes(bytes.subrange(0, 4))) == bytes.subrange(0, 4));
        assert(spec_u32_to_le_bytes(spec_u32_from_le_bytes(bytes.subrange(4, 8))) == bytes.subrange(4, 8));
        assert(Self::of_wire(bytes).as_wire() =~= bytes);
    }

    fn wire_size_exec() -> usize {
        8
    }

    fn wire_align_exec() -> usize {
        4
    }

    fn read_wire(bytes: &[u8], off: usize) -> (r: Self) {
        proof {
            assert(Self::wire_size() == 8);
            assert(bytes.len() == bytes@.len());
        }
        let r = fuse_poll_out {
            revents: crate::wire::read_u32_at(bytes, off),
            padding: crate::wire::read_u32_at(bytes, off + 4),
        };
        proof {
            let s = bytes@.subrange(off as int, off as int + 8);
            assert(s.subrange(0, 4) =~= bytes@.subrange(off as int + 0, off as int + 4));
            assert(s.subrange(4, 8) =~= bytes@.subrange(off as int + 4, off as int + 8));
            assert(r == Self::of_wire(s));
        }
        r
    }

    fn write_wire(&self, out: &mut Vec<u8>) {
        crate::wire::write_u32(out, self.revents);
        crate::wire::write_u32(out, self.padding);
        proof {
            lemma_auto_spec_u32_to_from_le_bytes();
            assert(spec_u32_to_le_bytes(self.revents).len() == 4);
            assert(spec_u32_to_le_bytes(self.padding).len() == 4);
            assert(out@ =~= old(out)@ + self.as_wire());
        }
    }
}

#[allow(non_camel_case_types)]
#[derive(Debug, Clone, Copy, PartialEq, Eq, Structural)]
pub struct fuse_notify_poll_wakeup_out {
    pub kh: u64,
}

impl Sealed for fuse_notify_poll_wakeup_out {}

impl FuseAbiData for fuse_notify_poll_wakeup_out {
    open spec fn wire_size() -> nat {
        8
    }

    open spec fn wire_align() -> nat {
        8
    }

    open spec fn as_wire(self) -> Seq<u8> {
        spec_u64_to_le_bytes(self.kh)
    }

    open spec fn of_wire(bytes: Seq<u8>) -> Self {
        fuse_notify_poll_wakeup_out {
            kh: spec_u64_from_le_bytes(bytes.subrange(0, 8)),
        }
    }

    proof fn lemma_wire_len(x: Self) {
        lemma_auto_spec_u64_to_from_le_bytes();
        assert(spec_u64_to_le_bytes(x.kh).len() == 8);
    }

    proof fn lemma_size_align() {
    }

    proof fn lemma_of_as(x: Self) {
        lemma_auto_spec_u64_to_from_le_bytes();
        let w = x.as_wire();
        assert(w.subrange(0, 8) =~= spec_u64_to_le_bytes(x.kh));
        assert(Self::of_wire(w) == x);
    }

    proof fn lemma_as_of(bytes: Seq<u8>) {
        lemma_auto_spec_u64_to_from_le_bytes();
        assert(spec_u64_to_le_bytes(spec_u64_from_le_bytes(bytes.subrange(0, 8))) == bytes.subrange(0, 8));
        assert(Self::of_wire(bytes).as_wire() =~= bytes);
    }

    fn wire_size_exec() -> usize {
        8
    }

    fn wire_align_exec() -> usize {
        8
    }

    fn read_wire(bytes: &[u8], off: usize) -> (r: Self) {
        proof {
            assert(Self::wire_size() == 8);
            assert(bytes.len() == bytes@.len());
        }
        let r = fuse_notify_poll_wakeup_out {
            kh: crate::wire::read_u64_at(bytes, off),
        };
        proof {
            let s = bytes@.subrange(off as int, off as int + 8);
            assert(s.subrange(0, 8) =~= bytes@.subrange(off as int + 0, off as int + 8));
            assert(r == Self::of_wire(s));
        }
        r
    }

    fn write_wire(&self, out: &mut Vec<u8>) {
        crate::wire::write_u64(out, self.kh);
        proof {
            lemma_auto_spec_u64_to_from_le_bytes();
            assert(spec_u64_to_le_bytes(self.kh).len() == 8);
            assert(out@ =~= old(out)@ + self.as_wire());
        }
    }
}

#[allow(non_camel_case_types)]
#[derive(Debug, Clone, Copy, PartialEq, Eq, Structural)]
pub struct fuse_fallocate_in {
    pub fh: u64,
    pub offset: u64,
    pub length: u64,
    pub mode: u32,
    pub padding: u32,
}

impl Sealed for fuse_fallocate_in {}

impl FuseAbiData for fuse_fallocate_in {
    open spec fn wire_size() -> nat {
        32
    }

    open spec fn wire_align() -> nat {
        8
    }

    open spec fn as_wire(self) -> Seq<u8> {
        spec_u64_to_le_bytes(self.fh)
            + spec_u64_to_le_bytes(self.offset)
            + spec_u64_to_le_bytes(self.length)
            + spec_u32_to_le_bytes(self.mode)
            + spec_u32_to_le_bytes(self.padding)
    }

    open spec fn of_wire(bytes: Seq<u8>) -> Self {
        fuse_fallocate_in {
            fh: spec_u64_from_le_bytes(bytes.subrange(0, 8)),
            offset: spec_u64_from_le_bytes(bytes.subrange(8, 16)),
            length: spec_u64_from_le_bytes(bytes.subrange(16, 24)),
            mode: spec_u32_from_le_bytes(bytes.subrange(24, 28)),
            padding: spec_u32_from_le_bytes(bytes.subrange(28, 32)),
        }
    }

    proof fn lemma_wire_len(x: Self) {
        lemma_auto_spec_u32_to_from_le_bytes();
        lemma_auto_spec_u64_to_from_le_bytes();
        assert(spec_u64_to_le_bytes(x.fh).len() == 8);
        assert(spec_u64_to_le_bytes(x.offset).len() == 8);
        assert(spec_u64_to_le_bytes(x.length).len() == 8);
        assert(spec_u32_to_le_bytes(x.mode).len() == 4);
        assert(spec_u32_to_le_bytes(x.padding).len() == 4);
    }

    proof fn lemma_size_align() {
    }

    proof fn lemma_of_as(x: Self) {
        lemma_auto_spec_u32_to_from_le_bytes();
        lemma_auto_spec_u64_to_from_le_bytes();
        let w = x.as_wire();
        assert(w.subrange(0, 8) =~= spec_u64_to_le_bytes(x.fh));
        assert(w.subrange(8, 16) =~= spec_u64_to_le_bytes(x.offset));
        assert(w.subrange(16, 24) =~= spec_u64_to_le_bytes(x.length));
        assert(w.subrange(24, 28) =~= spec_u32_to_le_bytes(x.mode));
        assert(w.subrange(28, 32) =~= spec_u32_to_le_bytes(x.padding));
        assert(Self::of_wire(w) == x);
    }

    proof fn lemma_as_of(bytes: Seq<u8>) {
        lemma_auto_spec_u32_to_from_le_bytes();
        lemma_auto_spec_u64_to_from_le_bytes();
        assert(spec_u64_to_le_bytes(spec_u64_from_le_bytes(bytes.subrange(0, 8))) == bytes.subrange(0, 8));
        assert(spec_u64_to_le_bytes(spec_u64_from_le_bytes(bytes.subrange(8, 16))) == bytes.subrange(8, 16));
        assert(spec_u64_to_le_bytes(spec_u64_from_le_bytes(bytes.subrange(16, 24))) == bytes.subrange(16, 24));
        assert(spec_u32_to_le_bytes(spec_u32_from_le_bytes(bytes.subrange(24, 28))) == bytes.subrange(24, 28));
        assert(spec_u32_to_le_bytes(spec_u32_from_le_bytes(bytes.subrange(28, 32))) == bytes.subrange(28, 32));
        assert(Self::of_wire(bytes).as_wire() =~= bytes);
    }

    fn wire_size_exec() -> usize {
        32
    }

    fn wire_align_exec() -> usize {
        8
    }

    fn read_wire(bytes: &[u8], off: usize) -> (r: Self) {
        proof {
            assert(Self::wire_size() == 32);
            assert(bytes.len() == bytes@.len());
        }
        let r = fuse_fallocate_in {
            fh: crate::wire::read_u64_at(bytes, off),
            offset: crate::wire::read_u64_at(bytes, off + 8),
            length: crate::wire::read_u64_at(bytes, off + 16),
            mode: crate::wire::read_u32_at(bytes, off + 24),
            padding: crate::wire::read_u32_at(bytes, off + 28),
        };
        proof {
            let s = bytes@.subrange(off as int, off as int + 32);
            assert(s.subrange(0, 8) =~= bytes@.subrange(off as int + 0, off as int + 8));
            assert(s.subrange(8, 16) =~= bytes@.subrange(off as int + 8, off as int + 16));
            assert(s.subrange(16, 24) =~= bytes@.subrange(off as int + 16, off as int + 24));
            assert(s.subrange(24, 28) =~= bytes@.subrange(off as int + 24, off as int + 28));
            assert(s.subrange(28, 32) =~= bytes@.subrange(off as int + 28, off as int + 32));
            assert(r == Self::of_wire(s));
        }
        r
    }

    fn write_wire(&self, out: &mut Vec<u8>) {
        crate::wire::write_u64(out, self.fh);
        crate::wire::write_u64(out, self.offset);
        crate::wire::write_u64(out, self.length);
        crate::wire::write_u32(out, self.mode);
        crate::wire::write_u32(out, self.padding);
        proof {
            lemma_auto_spec_u32_to_from_le_bytes();
            lemma_auto_spec_u64_to_from_le_bytes();
            assert(spec_u64_to_le_bytes(self.fh).len() == 8);
            assert(spec_u64_to_le_bytes(self.offset).len() == 8);
            assert(spec_u64_to_le_bytes(self.length).len() == 8);
            assert(spec_u32_to_le_bytes(self.mode).len() == 4);
            assert(spec_u32_to_le_bytes(self.padding).len() == 4);
            assert(out@ =~= old(out)@ + self.as_wire());
        }
    }
}

#[allow(non_camel_case_types)]
#[derive(Debug, Clone, Copy, PartialEq, Eq, Structural)]
pub struct fuse_in_header {
    pub len: u32,
    pub opcode: u32,
    pub unique: u64,
    pub nodeid: u64,
    pub uid: u32,
    pub gid: u32,
    pub pid: u32,
    pub padding: u32,
}

impl Sealed for fuse_in_header {}

impl FuseAbiData for fuse_in_header {
    open spec fn wire_size() -> nat {
        40
    }

    open spec fn wire_align() -> nat {
        8
    }

    open spec fn as_wire(self) -> Seq<u8> {
        spec_u32_to_le_bytes(self.len)
            + spec_u32_to_le_bytes(self.opcode)
            + spec_u64_to_le_bytes(self.unique)
            + spec_u64_to_le_bytes(self.nodeid)
            + spec_u32_to_le_bytes(self.uid)
            + spec_u32_to_le_bytes(self.gid)
            + spec_u32_to_le_bytes(self.pid)
            + spec_u32_to_le_bytes(self.padding)
    }

    open spec fn of_wire(bytes: Seq<u8>) -> Self {
        fuse_in_header {
            len: spec_u32_from_le_bytes(bytes.subrange(0, 4)),
            opcode: spec_u32_from_le_bytes(bytes.subrange(4, 8)),
            unique: spec_u64_from_le_bytes(bytes.subrange(8, 16)),
            nodeid: spec_u64_from_le_bytes(bytes.subrange(16, 24)),
            uid: spec_u32_from_le_bytes(bytes.subrange(24, 28)),
            gid: spec_u32_from_le_bytes(bytes.subrange(28, 32)),
            pid: spec_u32_from_le_bytes(bytes.subrange(32, 36)),
            padding: spec_u32_from_le_bytes(bytes.subrange(36, 40)),
        }
    }

    proof fn lemma_wire_len(x: Self) {
        lemma_auto_spec_u32_to_from_le_bytes();
        lemma_auto_spec_u64_to_from_le_bytes();
        assert(spec_u32_to_le_bytes(x.len).len() == 4);
        assert(spec_u32_to_le_bytes(x.opcode).len() == 4);
        assert(spec_u64_to_le_bytes(x.unique).len() == 8);
        assert(spec_u64_to_le_bytes(x.nodeid).len() == 8);
        assert(spec_u32_to_le_bytes(x.uid).len() == 4);
        assert(spec_u32_to_le_bytes(x.gid).len() == 4);
        assert(spec_u32_to_le_bytes(x.pid).len() == 4);
        assert(spec_u32_to_le_bytes(x.padding).len() == 4);
    }

    proof fn lemma_size_align() {
    }

    proof fn lemma_of_as(x: Self) {
        lemma_auto_spec_u32_to_from_le_bytes();
        lemma_auto_spec_u64_to_from_le_bytes();
        let w = x.as_wire();
        assert(w.subrange(0, 4) =~= spec_u32_to_le_bytes(x.len));
        assert(w.subrange(4, 8) =~= spec_u32_to_le_bytes(x.opcode));
        assert(w.subrange(8, 16) =~= spec_u64_to_le_bytes(x.unique));
        assert(w.subrange(16, 24) =~= spec_u64_to_le_bytes(x.nodeid));
        assert(w.subrange(24, 28) =~= spec_u32_to_le_bytes(x.uid));
        assert(w.subrange(28, 32) =~= spec_u32_to_le_bytes(x.gid));
        assert(w.subrange(32, 36) =~= spec_u32_to_le_bytes(x.pid));
        assert(w.subrange(36, 40) =~= spec_u32_to_le_bytes(x.padding));
        assert(Self::of_wire(w) == x);
    }

    proof fn lemma_as_of(bytes: Seq<u8>) {
        lemma_auto_spec_u32_to_from_le_bytes();
        lemma_auto_spec_u64_to_from_le_bytes();
        assert(spec_u32_to_le_bytes(spec_u32_from_le_bytes(bytes.subrange(0, 4))) == bytes.subrange(0, 4));
        assert(spec_u32_to_le_bytes(spec_u32_from_le_bytes(bytes.subrange(4, 8))) == bytes.subrange(4, 8));
        assert(spec_u64_to_le_bytes(spec_u64_from_le_bytes(bytes.subrange(8, 16))) == bytes.subrange(8, 16));
        assert(spec_u64_to_le_bytes(spec_u64_from_le_bytes(bytes.subrange(16, 24))) == bytes.subrange(16, 24));
        assert(spec_u32_to_le_bytes(spec_u32_from_le_bytes(bytes.subrange(24, 28))) == bytes.subrange(24, 28));
        assert(spec_u32_to_le_bytes(spec_u32_from_le_bytes(bytes.subrange(28, 32))) == bytes.subrange(28, 32));
        assert(spec_u32_to_le_bytes(spec_u32_from_le_bytes(bytes.subrange(32, 36))) == bytes.subrange(32, 36));
        assert(spec_u32_to_le_bytes(spec_u32_from_le_bytes(bytes.subrange(36, 40))) == bytes.subrange(36, 40));
        assert(Self::of_wire(bytes).as_wire() =~= bytes);
    }

    fn wire_size_exec() -> usize {
        40
    }

    fn wire_align_exec() -> usize {
        8
    }

    fn read_wire(bytes: &[u8], off: usize) -> (r: Self) {
        proof {
            assert(Self::wire_size() == 40);
            assert(bytes.len() == bytes@.len());
        }
        let r = fuse_in_header {
            len: crate::wire::read_u32_at(bytes, off),
            opcode: crate::wire::read_u32_at(bytes, off + 4),
            unique: crate::wire::read_u64_at(bytes, off + 8),
            nodeid: crate::wire::read_u64_at(bytes, off + 16),
            uid: crate::wire::read_u32_at(bytes, off + 24),
            gid: crate::wire::read_u32_at(bytes, off + 28),
            pid: crate::wire::read_u32_at(bytes, off + 32),
            padding: crate::wire::read_u32_at(bytes, off + 36),
        };
        proof {
            let s = bytes@.subrange(off as int, off as int + 40);
            assert(s.subrange(0, 4) =~= bytes@.subrange(off as int + 0, off as int + 4));
            assert(s.subrange(4, 8) =~= bytes@.subrange(off as int + 4, off as int + 8));
            assert(s.subrange(8, 16) =~= bytes@.subrange(off as int + 8, off as int + 16));
            assert(s.subrange(16, 24) =~= bytes@.subrange(off as int + 16, off as int + 24));
            assert(s.subrange(24, 28) =~= bytes@.subrange(off as int + 24, off as int + 28));
            assert(s.subrange(28, 32) =~= bytes@.subrange(off as int + 28, off as int + 32));
            assert(s.subrange(32, 36) =~= bytes@.subrange(off as int + 32, off as int + 36));
            assert(s.subrange(36, 40) =~= bytes@.subrange(off as int + 36, off as int + 40));
            assert(r == Self::of_wire(s));
        }
        r
    }

    fn write_wire(&self, out: &mut Vec<u8>) {
        crate::wire::write_u32(out, self.len);
        crate::wire::write_u32(out, self.opcode);
        crate::wire::write_u64(out, self.unique);
        crate::wire::write_u64(out, self.nodeid);
        crate::wire::write_u32(out, self.uid);
        crate::wire::write_u32(out, self.gid);
        crate::wire::write_u32(out, self.pid);
        crate::wire::write_u32(out, self.padding);
        proof {
            lemma_auto_spec_u32_to_from_le_bytes();
            lemma_auto_spec_u64_to_from_le_bytes();
            assert(spec_u32_to_le_bytes(self.len).len() == 4);
            assert(spec_u32_to_le_bytes(self.opcode).len() == 4);
            assert(spec_u64_to_le_bytes(self.unique).len() == 8);
            assert(spec_u64_to_le_bytes(self.nodeid).len() == 8);
            assert(spec_u32_to_le_bytes(self.uid).len() == 4);
            assert(spec_u32_to_le_bytes(self.gid).len() == 4);
            assert(spec_u32_to_le_bytes(self.pid).len() == 4);
            assert(spec_u32_to_le_bytes(self.padding).len() == 4);
            assert(out@ =~= old(out)@ + self.as_wire());
        }
    }
}

#[allow(non_camel_case_types)]
#[derive(Debug, Clone, Copy, PartialEq, Eq, Structural)]
pub struct fuse_out_header {
    pub len: u32,
    pub error: i32,
    pub unique: u64,
}

impl Sealed for fuse_out_header {}

impl FuseAbiData for fuse_out_header {
    open spec fn wire_size() -> nat {
        16
    }

    open spec fn wire_align() -> nat {
        8
    }

    open spec fn as_wire(self) -> Seq<u8> {
        spec_u32_to_le_bytes(self.len)
            + crate::wire::spec_i32_to_le_bytes(self.error)
            + spec_u64_to_le_bytes(self.unique)
    }

    open spec fn of_wire(bytes: Seq<u8>) -> Self {
        fuse_out_header {
            len: spec_u32_from_le_bytes(bytes.subrange(0, 4)),
            error: crate::wire::spec_i32_from_le_bytes(bytes.subrange(4, 8)),
            unique: spec_u64_from_le_bytes(bytes.subrange(8, 16)),
        }
    }

    proof fn lemma_wire_len(x: Self) {
        lemma_auto_spec_u32_to_from_le_bytes();
        lemma_auto_spec_u64_to_from_le_bytes();
        assert(spec_u32_to_le_bytes(x.len).len() == 4);
        assert(crate::wire::spec_i32_to_le_bytes(x.error).len() == 4);
        assert(spec_u64_to_le_bytes(x.unique).len() == 8);
    }

    proof fn lemma_size_align() {
    }

    proof fn lemma_of_as(x: Self) {
        lemma_auto_spec_u32_to_from_le_bytes();
        lemma_auto_spec_u64_to_from_le_bytes();
        let w = x.as_wire();
        assert(w.subrange(0, 4) =~= spec_u32_to_le_bytes(x.len));
        assert(w.subrange(4, 8) =~= crate::wire::spec_i32_to_le_bytes(x.error));
        crate::wire::lemma_i32_le_roundtrip(x.error);
        assert(w.subrange(8, 16) =~= spec_u64_to_le_bytes(x.unique));
        assert(Self::of_wire(w) == x);
    }

    proof fn lemma_as_of(bytes: Seq<u8>) {
        lemma_auto_spec_u32_to_from_le_bytes();
        lemma_auto_spec_u64_to_from_le_bytes();
        assert(spec_u32_to_le_bytes(spec_u32_from_le_bytes(bytes.subrange(0, 4))) == bytes.subrange(0, 4));
        crate::wire::lemma_i32_le_bytes(bytes.subrange(4, 8));
        assert(spec_u64_to_le_bytes(spec_u64_from_le_bytes(bytes.subrange(8, 16))) == bytes.subrange(8, 16));
        assert(Self::of_wire(bytes).as_wire() =~= bytes);
    }

    fn wire_size_exec() -> usize {
        16
    }

    fn wire_align_exec() -> usize {
        8
    }

    fn read_wire(bytes: &[u8], off: usize) -> (r: Self) {
        proof {
            assert(Self::wire_size() == 16);
            assert(bytes.len() == bytes@.len());
        }
        let r = fuse_out_header {
            len: crate::wire::read_u32_at(bytes, off),
            error: crate::wire::read_i32_at(bytes, off + 4),
            unique: crate::wire::read_u64_at(bytes, off + 8),
        };
        proof {
            let s = bytes@.subrange(off as int, off as int + 16);
            assert(s.subrange(0, 4) =~= bytes@.subrange(off as int + 0, off as int + 4));
            assert(s.subrange(4, 8) =~= bytes@.subrange(off as int + 4, off as int + 8));
            assert(s.subrange(8, 16) =~= bytes@.subrange(off as int + 8, off as int + 16));
            assert(r == Self::of_wire(s));
        }
        r
    }

    fn write_wire(&self, out: &mut Vec<u8>) {
        crate::wire::write_u32(out, self.len);
        crate::wire::write_i32(out, self.error);
        crate::wire::write_u64(out, self.unique);
        proof {
            lemma_auto_spec_u32_to_from_le_bytes();
            lemma_auto_spec_u64_to_from_le_bytes();
            assert(spec_u32_to_le_bytes(self.len).len() == 4);
            assert(spec_u64_to_le_bytes(self.unique).len() == 8);
            assert(out@ =~= old(out)@ + self.as_wire());
        }
    }
}

#[allow(non_camel_case_types)]
#[derive(Debug, Clone, Copy, PartialEq, Eq, Structural)]
pub struct fuse_notify_inval_inode_out {
    pub ino: u64,
    pub off: i64,
    pub len: i64,
}

impl Sealed for fuse_notify_inval_inode_out {}

impl FuseAbiData for fuse_notify_inval_inode_out {
    open spec fn wire_size() -> nat {
        24
    }

    open spec fn wire_align() -> nat {
        8
    }

    open spec fn as_wire(self) -> Seq<u8> {
        spec_u64_to_le_bytes(self.ino)
            + crate::wire::spec_i64_to_le_bytes(self.off)
            + crate::wire::spec_i64_to_le_bytes(self.len)
    }

    open spec fn of_wire(bytes: Seq<u8>) -> Self {
        fuse_notify_inval_inode_out {
            ino: spec_u64_from_le_bytes(bytes.subrange(0, 8)),
            off: crate::wire::spec_i64_from_le_bytes(bytes.subrange(8, 16)),
            len: crate::wire::spec_i64_from_le_bytes(bytes.subrange(16, 24)),
        }
    }

    proof fn lemma_wire_len(x: Self) {
        lemma_auto_spec_u64_to_from_le_bytes();
        assert(spec_u64_to_le_bytes(x.ino).len() == 8);
        assert(crate::wire::spec_i64_to_le_bytes(x.off).len() == 8);
        assert(crate::wire::spec_i64_to_le_bytes(x.len).len() == 8);
    }

    proof fn lemma_size_align() {
    }

    proof fn lemma_of_as(x: Self) {
        lemma_auto_spec_u64_to_from_le_bytes();
        let w = x.as_wire();
        assert(w.subrange(0, 8) =~= spec_u64_to_le_bytes(x.ino));
        assert(w.subrange(8, 16) =~= crate::wire::spec_i64_to_le_bytes(x.off));
        crate::wire::lemma_i64_le_roundtrip(x.off);
        assert(w.subrange(16, 24) =~= crate::wire::spec_i64_to_le_bytes(x.len));
        crate::wire::lemma_i64_le_roundtrip(x.len);
        assert(Self::of_wire(w) == x);
    }

    proof fn lemma_as_of(bytes: Seq<u8>) {
        lemma_auto_spec_u64_to_from_le_bytes();
        assert(spec_u64_to_le_bytes(spec_u64_from_le_bytes(bytes.subrange(0, 8))) == bytes.subrange(0, 8));
        crate::wire::lemma_i64_le_bytes(bytes.subrange(8, 16));
        crate::wire::lemma_i64_le_bytes(bytes.subrange(16, 24));
        assert(Self::of_wire(bytes).as_wire() =~= bytes);
    }

    fn wire_size_exec() -> usize {
        24
    }

    fn wire_align_exec() -> usize {
        8
    }

    fn read_wire(bytes: &[u8], off: usize) -> (r: Self) {
        proof {
            assert(Self::wire_size() == 24);
            assert(bytes.len() == bytes@.len());
        }
        let r = fuse_notify_inval_inode_out {
            ino: crate::wire::read_u64_at(bytes, off),
            off: crate::wire::read_i64_at(bytes, off + 8),
            len: crate::wire::read_i64_at(bytes, off + 16),
        };
        proof {
            let s = bytes@.subrange(off as int, off as int + 24);
            assert(s.subrange(0, 8) =~= bytes@.subrange(off as int + 0, off as int + 8));
            assert(s.subrange(8, 16) =~= bytes@.subrange(off as int + 8, off as int + 16));
            assert(s.subrange(16, 24) =~= bytes@.subrange(off as int + 16, off as int + 24));
            assert(r == Self::of_wire(s));
        }
        r
    }

    fn write_wire(&self, out: &mut Vec<u8>) {
        crate::wire::write_u64(out, self.ino);
        crate::wire::write_i64(out, self.off);
        crate::wire::write_i64(out, self.len);
        proof {
            lemma_auto_spec_u64_to_from_le_bytes();
            assert(spec_u64_to_le_bytes(self.ino).len() == 8);
            assert(out@ =~= old(out)@ + self.as_wire());
        }
    }
}

#[allow(non_camel_case_types)]
#[derive(Debug, Clone, Copy, PartialEq, Eq, Structural)]
pub struct fuse_notify_inval_entry_out {
    pub parent: u64,
    pub namelen: u32,
    pub padding: u32,
}

impl Sealed for fuse_notify_inval_entry_out {}

impl FuseAbiData for fuse_notify_inval_entry_out {
    open spec fn wire_size() -> nat {
        16
    }

    open spec fn wire_align() -> nat {
        8
    }

    open spec fn as_wire(self) -> Seq<u8> {
        spec_u64_to_le_bytes(self.parent)
            + spec_u32_to_le_bytes(self.namelen)
            + spec_u32_to_le_bytes(self.padding)
    }

    open spec fn of_wire(bytes: Seq<u8>) -> Self {
        fuse_notify_inval_entry_out {
            parent: spec_u64_from_le_bytes(bytes.subrange(0, 8)),
            namelen: spec_u32_from_le_bytes(bytes.subrange(8, 12)),
            padding: spec_u32_from_le_bytes(bytes.subrange(12, 16)),
        }
    }

    proof fn lemma_wire_len(x: Self) {
        lemma_auto_spec_u32_to_from_le_bytes();
        lemma_auto_spec_u64_to_from_le_bytes();
        assert(spec_u64_to_le_bytes(x.parent).len() == 8);
        assert(spec_u32_to_le_bytes(x.namelen).len() == 4);
        assert(spec_u32_to_le_bytes(x.padding).len() == 4);
    }

    proof fn lemma_size_align() {
    }

    proof fn lemma_of_as(x: Self) {
        lemma_auto_spec_u32_to_from_le_bytes();
        lemma_auto_spec_u64_to_from_le_bytes();
        let w = x.as_wire();
        assert(w.subrange(0, 8) =~= spec_u64_to_le_bytes(x.parent));
        assert(w.subrange(8, 12) =~= spec_u32_to_le_bytes(x.namelen));
        assert(w.subrange(12, 16) =~= spec_u32_to_le_bytes(x.padding));
        assert(Self::of_wire(w) == x);
    }

    proof fn lemma_as_of(bytes: Seq<u8>) {
        lemma_auto_spec_u32_to_from_le_bytes();
        lemma_auto_spec_u64_to_from_le_bytes();
        assert(spec_u64_to_le_bytes(spec_u64_from_le_bytes(bytes.subrange(0, 8))) == bytes.subrange(0, 8));
        assert(spec_u32_to_le_bytes(spec_u32_from_le_bytes(bytes.subrange(8, 12))) == bytes.subrange(8, 12));
        assert(spec_u32_to_le_bytes(spec_u32_from_le_bytes(bytes.subrange(12, 16))) == bytes.subrange(12, 16));
        assert(Self::of_wire(bytes).as_wire() =~= bytes);
    }

    fn wire_size_exec() -> usize {
        16
    }

    fn wire_align_exec() -> usize {
        8
    }

    fn read_wire(bytes: &[u8], off: usize) -> (r: Self) {
        proof {
            assert(Self::wire_size() == 16);
            assert(bytes.len() == bytes@.len());
        }
        let r = fuse_notify_inval_entry_out {
            parent: crate::wire::read_u64_at(bytes, off),
            namelen: crate::wire::read_u32_at(bytes, off + 8),
            padding: crate::wire::read_u32_at(bytes, off + 12),
        };
        proof {
            let s = bytes@.subrange(off as int, off as int + 16);
            assert(s.subrange(0, 8) =~= bytes@.subrange(off as int + 0, off as int + 8));
            assert(s.subrange(8, 12) =~= bytes@.subrange(off as int + 8, off as int + 12));
            assert(s.subrange(12, 16) =~= bytes@.subrange(off as int + 12, off as int + 16));
            assert(r == Self::of_wire(s));
        }
        r
    }

    fn write_wire(&self, out: &mut Vec<u8>) {
        crate::wire::write_u64(out, self.parent);
        crate::wire::write_u32(out, self.namelen);
        crate::wire::write_u32(out, self.padding);
        proof {
            lemma_auto_spec_u32_to_from_le_bytes();
            lemma_auto_spec_u64_to_from_le_bytes();
            assert(spec_u64_to_le_bytes(self.parent).len() == 8);
            assert(spec_u32_to_le_bytes(self.namelen).len() == 4);
            assert(spec_u32_to_le_bytes(self.padding).len() == 4);
            assert(out@ =~= old(out)@ + self.as_wire());
        }
    }
}

#[allow(non_camel_case_types)]
#[derive(Debug, Clone, Copy, PartialEq, Eq, Structural)]
pub struct fuse_notify_delete_out {
    pub parent: u64,
    pub child: u64,
    pub namelen: u32,
    pub padding: u32,
}

impl Sealed for fuse_notify_delete_out {}

impl FuseAbiData for fuse_notify_delete_out {
    open spec fn wire_size() -> nat {
        24
    }

    open spec fn wire_align() -> nat {
        8
    }

    open spec fn as_wire(self) -> Seq<u8> {
        spec_u64_to_le_bytes(self.parent)
            + spec_u64_to_le_bytes(self.child)
            + spec_u32_to_le_bytes(self.namelen)
            + spec_u32_to_le_bytes(self.padding)
    }

    open spec fn of_wire(bytes: Seq<u8>) -> Self {
        fuse_notify_delete_out {
            parent: spec_u64_from_le_bytes(bytes.subrange(0, 8)),
            child: spec_u64_from_le_bytes(bytes.subrange(8, 16)),
            namelen: spec_u32_from_le_bytes(bytes.subrange(16, 20)),
            padding: spec_u32_from_le_bytes(bytes.subrange(20, 24)),
        }
    }

    proof fn lemma_wire_len(x: Self) {
        lemma_auto_spec_u32_to_from_le_bytes();
        lemma_auto_spec_u64_to_from_le_bytes();
        assert(spec_u64_to_le_bytes(x.parent).len() == 8);
        assert(spec_u64_to_le_bytes(x.child).len() == 8);
        assert(spec_u32_to_le_bytes(x.namelen).len() == 4);
        assert(spec_u32_to_le_bytes(x.padding).len() == 4);
    }

    proof fn lemma_size_align() {
    }

    proof fn lemma_of_as(x: Self) {
        lemma_auto_spec_u32_to_from_le_bytes();
        lemma_auto_spec_u64_to_from_le_bytes();
        let w = x.as_wire();
        assert(w.subrange(0, 8) =~= spec_u64_to_le_bytes(x.parent));
        assert(w.subrange(8, 16) =~= spec_u64_to_le_bytes(x.child));
        assert(w.subrange(16, 20) =~= spec_u32_to_le_bytes(x.namelen));
        assert(w.subrange(20, 24) =~= spec_u32_to_le_bytes(x.padding));
        assert(Self::of_wire(w) == x);
    }

    proof fn lemma_as_of(bytes: Seq<u8>) {
        lemma_auto_spec_u32_to_from_le_bytes();
        lemma_auto_spec_u64_to_from_le_bytes();
        assert(spec_u64_to_le_bytes(spec_u64_from_le_bytes(bytes.subrange(0, 8))) == bytes.subrange(0, 8));
        assert(spec_u64_to_le_bytes(spec_u64_from_le_bytes(bytes.subrange(8, 16))) == bytes.subrange(8, 16));
        assert(spec_u32_to_le_bytes(spec_u32_from_le_bytes(bytes.subrange(16, 20))) == bytes.subrange(16, 20));
        assert(spec_u32_to_le_bytes(spec_u32_from_le_bytes(bytes.subrange(20, 24))) == bytes.subrange(20, 24));
        assert(Self::of_wire(bytes).as_wire() =~= bytes);
    }

    fn wire_size_exec() -> usize {
        24
    }

    fn wire_align_exec() -> usize {
        8
    }

    fn read_wire(bytes: &[u8], off: usize) -> (r: Self) {
        proof {
            assert(Self::wire_size() == 24);
            assert(bytes.len() == bytes@.len());
        }
        let r = fuse_notify_delete_out {
            parent: crate::wire::read_u64_at(bytes, off),
            child: crate::wire::read_u64_at(bytes, off + 8),
            namelen: crate::wire::read_u32_at(bytes, off + 16),
            padding: crate::wire::read_u32_at(bytes, off + 20),
        };
        proof {
            let s = bytes@.subrange(off as int, off as int + 24);
            assert(s.subrange(0, 8) =~= bytes@.subrange(off as int + 0, off as int + 8));
            assert(s.subrange(8, 16) =~= bytes@.subrange(off as int + 8, off as int + 16));
            assert(s.subrange(16, 20) =~= bytes@.subrange(off as int + 16, off as int + 20));
            assert(s.subrange(20, 24) =~= bytes@.subrange(off as int + 20, off as int + 24));
            assert(r == Self::of_wire(s));
        }
        r
    }

    fn write_wire(&self, out: &mut Vec<u8>) {
        crate::wire::write_u64(out, self.parent);
        crate::wire::write_u64(out, self.child);
        crate::wire::write_u32(out, self.namelen);
        crate::wire::write_u32(out, self.padding);
        proof {
            lemma_auto_spec_u32_to_from_le_bytes();
            lemma_auto_spec_u64_to_from_le_bytes();
            assert(spec_u64_to_le_bytes(self.parent).len() == 8);
            assert(spec_u64_to_le_bytes(self.child).len() == 8);
            assert(spec_u32_to_le_bytes(self.namelen).len() == 4);
            assert(spec_u32_to_le_bytes(self.padding).len() == 4);
            assert(out@ =~= old(out)@ + self.as_wire());
        }
    }
}

#[allow(non_camel_case_types)]
#[derive(Debug, Clone, Copy, PartialEq, Eq, Structural)]
pub struct fuse_notify_store_out {
    pub nodeid: u64,
    pub offset: u64,
    pub size: u32,
    pub padding: u32,
}

impl Sealed for fuse_notify_store_out {}

impl FuseAbiData for fuse_notify_store_out {
    open spec fn wire_size() -> nat {
        24
    }

    open spec fn wire_align() -> nat {
        8
    }

    open spec fn as_wire(self) -> Seq<u8> {
        spec_u64_to_le_bytes(self.nodeid)
            + spec_u64_to_le_bytes(self.offset)
            + spec_u32_to_le_bytes(self.size)
            + spec_u32_to_le_bytes(self.padding)
    }

    open spec fn of_wire(bytes: Seq<u8>) -> Self {
        fuse_notify_store_out {
            nodeid: spec_u64_from_le_bytes(bytes.subrange(0, 8)),
            offset: spec_u64_from_le_bytes(bytes.subrange(8, 16)),
            size: spec_u32_from_le_bytes(bytes.subrange(16, 20)),
            padding: spec_u32_from_le_bytes(bytes.subrange(20, 24)),
        }
    }

    proof fn lemma_wire_len(x: Self) {
        lemma_auto_spec_u32_to_from_le_bytes();
        lemma_auto_spec_u64_to_from_le_bytes();
        assert(spec_u64_to_le_bytes(x.nodeid).len() == 8);
        assert(spec_u64_to_le_bytes(x.offset).len() == 8);
        assert(spec_u32_to_le_bytes(x.size).len() == 4);
        assert(spec_u32_to_le_bytes(x.padding).len() == 4);
    }

    proof fn lemma_size_align() {
    }

    proof fn lemma_of_as(x: Self) {
        lemma_auto_spec_u32_to_from_le_bytes();
        lemma_auto_spec_u64_to_from_le_bytes();
        let w = x.as_wire();
        assert(w.subrange(0, 8) =~= spec_u64_to_le_bytes(x.nodeid));
        assert(w.subrange(8, 16) =~= spec_u64_to_le_bytes(x.offset));
        assert(w.subrange(16, 20) =~= spec_u32_to_le_bytes(x.size));
        assert(w.subrange(20, 24) =~= spec_u32_to_le_bytes(x.padding));
        assert(Self::of_wire(w) == x);
    }

    proof fn lemma_as_of(bytes: Seq<u8>) {
        lemma_auto_spec_u32_to_from_le_bytes();
        lemma_auto_spec_u64_to_from_le_bytes();
        assert(spec_u64_to_le_bytes(spec_u64_from_le_bytes(bytes.subrange(0, 8))) == bytes.subrange(0, 8));
        assert(spec_u64_to_le_bytes(spec_u64_from_le_bytes(bytes.subrange(8, 16))) == bytes.subrange(8, 16));
        assert(spec_u32_to_le_bytes(spec_u32_from_le_bytes(bytes.subrange(16, 20))) == bytes.subrange(16, 20));
        assert(spec_u32_to_le_bytes(spec_u32_from_le_bytes(bytes.subrange(20, 24))) == bytes.subrange(20, 24));
        assert(Self::of_wire(bytes).as_wire() =~= bytes);
    }

    fn wire_size_exec() -> usize {
        24
    }

    fn wire_align_exec() -> usize {
        8
    }

    fn read_wire(bytes: &[u8], off: usize) -> (r: Self) {
        proof {
            assert(Self::wire_size() == 24);
            assert(bytes.len() == bytes@.len());
        }
        let r = fuse_notify_store_out {
            nodeid: crate::wire::read_u64_at(bytes, off),
            offset: crate::wire::read_u64_at(bytes, off + 8),
            size: crate::wire::read_u32_at(bytes, off + 16),
            padding: crate::wire::read_u32_at(bytes, off + 20),
        };
        proof {
            let s = bytes@.subrange(off as int, off as int + 24);
            assert(s.subrange(0, 8) =~= bytes@.subrange(off as int + 0, off as int + 8));
            assert(s.subrange(8, 16) =~= bytes@.subrange(off as int + 8, off as int + 16));
            assert(s.subrange(16, 20) =~= bytes@.subrange(off as int + 16, off as int + 20));
            assert(s.subrange(20, 24) =~= bytes@.subrange(off as int + 20, off as int + 24));
            assert(r == Self::of_wire(s));
        }
        r
    }

    fn write_wire(&self, out: &mut Vec<u8>) {
        crate::wire::write_u64(out, self.nodeid);
        crate::wire::write_u64(out, self.offset);
        crate::wire::write_u32(out, self.size);
        crate::wire::write_u32(out, self.padding);
        proof {
            lemma_auto_spec_u32_to_from_le_bytes();
            lemma_auto_spec_u64_to_from_le_bytes();
            assert(spec_u64_to_le_bytes(self.nodeid).len() == 8);
            assert(spec_u64_to_le_bytes(self.offset).len() == 8);
            assert(spec_u32_to_le_bytes(self.size).len() == 4);
            assert(spec_u32_to_le_bytes(self.padding).len() == 4);
            assert(out@ =~= old(out)@ + self.as_wire());
        }
    }
}

#[allow(non_camel_case_types)]
#[derive(Debug, Clone, Copy, PartialEq, Eq, Structural)]
pub struct fuse_notify_retrieve_out {
    pub notify_unique: u64,
    pub nodeid: u64,
    pub offset: u64,
    pub size: u32,
    pub padding: u32,
}

impl Sealed for fuse_notify_retrieve_out {}

impl FuseAbiData for fuse_notify_retrieve_out {
    open spec fn wire_size() -> nat {
        32
    }

    open spec fn wire_align() -> nat {
        8
    }

    open spec fn as_wire(self) -> Seq<u8> {
        spec_u64_to_le_bytes(self.notify_unique)
            + spec_u64_to_le_bytes(self.nodeid)
            + spec_u64_to_le_bytes(self.offset)
            + spec_u32_to_le_bytes(self.size)
            + spec_u32_to_le_bytes(self.padding)
    }

    open spec fn of_wire(bytes: Seq<u8>) -> Self {
        fuse_notify_retrieve_out {
            notify_unique: spec_u64_from_le_bytes(bytes.subrange(0, 8)),
            nodeid: spec_u64_from_le_bytes(bytes.subrange(8, 16)),
            offset: spec_u64_from_le_bytes(bytes.subrange(16, 24)),
            size: spec_u32_from_le_bytes(bytes.subrange(24, 28)),
            padding: spec_u32_from_le_bytes(bytes.subrange(28, 32)),
        }
    }

    proof fn lemma_wire_len(x: Self) {
        lemma_auto_spec_u32_to_from_le_bytes();
        lemma_auto_spec_u64_to_from_le_bytes();
        assert(spec_u64_to_le_bytes(x.notify_unique).len() == 8);
        assert(spec_u64_to_le_bytes(x.nodeid).len() == 8);
        assert(spec_u64_to_le_bytes(x.offset).len() == 8);
        assert(spec_u32_to_le_bytes(x.size).len() == 4);
        assert(spec_u32_to_le_bytes(x.padding).len() == 4);
    }

    proof fn lemma_size_align() {
    }

    proof fn lemma_of_as(x: Self) {
        lemma_auto_spec_u32_to_from_le_bytes();
        lemma_auto_spec_u64_to_from_le_bytes();
        let w = x.as_wire();
        assert(w.subrange(0, 8) =~= spec_u64_to_le_bytes(x.notify_unique));
        assert(w.subrange(8, 16) =~= spec_u64_to_le_bytes(x.nodeid));
        assert(w.subrange(16, 24) =~= spec_u64_to_le_bytes(x.offset));
        assert(w.subrange(24, 28) =~= spec_u32_to_le_bytes(x.size));
        assert(w.subrange(28, 32) =~= spec_u32_to_le_bytes(x.padding));
        assert(Self::of_wire(w) == x);
    }

    proof fn lemma_as_of(bytes: Seq<u8>) {
        lemma_auto_spec_u32_to_from_le_bytes();
        lemma_auto_spec_u64_to_from_le_bytes();
        assert(spec_u64_to_le_bytes(spec_u64_from_le_bytes(bytes.subrange(0, 8))) == bytes.subrange(0, 8));
        assert(spec_u64_to_le_bytes(spec_u64_from_le_bytes(bytes.subrange(8, 16))) == bytes.subrange(8, 16));
        assert(spec_u64_to_le_bytes(spec_u64_from_le_bytes(bytes.subrange(16, 24))) == bytes.subrange(16, 24));
        assert(spec_u32_to_le_bytes(spec_u32_from_le_bytes(bytes.subrange(24, 28))) == bytes.subrange(24, 28));
        assert(spec_u32_to_le_bytes(spec_u32_from_le_bytes(bytes.subrange(28, 32))) == bytes.subrange(28, 32));
        assert(Self::of_wire(bytes).as_wire() =~= bytes);
    }

    fn wire_size_exec() -> usize {
        32
    }

    fn wire_align_exec() -> usize {
        8
    }

    fn read_wire(bytes: &[u8], off: usize) -> (r: Self) {
        proof {
            assert(Self::wire_size() == 32);
            assert(bytes.len() == bytes@.len());
        }
        let r = fuse_notify_retrieve_out {
            notify_unique: crate::wire::read_u64_at(bytes, off),
            nodeid: crate::wire::read_u64_at(bytes, off + 8),
            offset: crate::wire::read_u64_at(bytes, off + 16),
            size: crate::wire::read_u32_at(bytes, off + 24),
            padding: crate::wire::read_u32_at(bytes, off + 28),
        };
        proof {
            let s = bytes@.subrange(off as int, off as int + 32);
            assert(s.subrange(0, 8) =~= bytes@.subrange(off as int + 0, off as int + 8));
            assert(s.subrange(8, 16) =~= bytes@.subrange(off as int + 8, off as int + 16));
            assert(s.subrange(16, 24) =~= bytes@.subrange(off as int + 16, off as int + 24));
            assert(s.subrange(24, 28) =~= bytes@.subrange(off as int + 24, off as int + 28));
            assert(s.subrange(28, 32) =~= bytes@.subrange(off as int + 28, off as int + 32));
            assert(r == Self::of_wire(s));
        }
        r
    }

    fn write_wire(&self, out: &mut Vec<u8>) {
        crate::wire::write_u64(out, self.notify_unique);
        crate::wire::write_u64(out, self.nodeid);
        crate::wire::write_u64(out, self.offset);
        crate::wire::write_u32(out, self.size);
        crate::wire::write_u32(out, self.padding);
        proof {
            lemma_auto_spec_u32_to_from_le_bytes();
            lemma_auto_spec_u64_to_from_le_bytes();
            assert(spec_u64_to_le_bytes(self.notify_unique).len() == 8);
            assert(spec_u64_to_le_bytes(self.nodeid).len() == 8);
            assert(spec_u64_to_le_bytes(self.offset).len() == 8);
            assert(spec_u32_to_le_bytes(self.size).len() == 4);
            assert(spec_u32_to_le_bytes(self.padding).len() == 4);
            assert(out@ =~= old(out)@ + self.as_wire());
        }
    }
}

#[allow(non_camel_case_types)]
#[derive(Debug, Clone, Copy, PartialEq, Eq, Structural)]
pub struct fuse_notify_retrieve_in {
    pub dummy1: u64,
    pub offset: u64,
    pub size: u32,
    pub dummy2: u32,
    pub dummy3: u64,
    pub dummy4: u64,
}

impl Sealed for fuse_notify_retrieve_in {}

impl FuseAbiData for fuse_notify_retrieve_in {
    open spec fn wire_size() -> nat {
        40
    }

    open spec fn wire_align() -> nat {
        8
    }

    open spec fn as_wire(self) -> Seq<u8> {
        spec_u64_to_le_bytes(self.dummy1)
            + spec_u64_to_le_bytes(self.offset)
            + spec_u32_to_le_bytes(self.size)
            + spec_u32_to_le_bytes(self.dummy2)
            + spec_u64_to_le_bytes(self.dummy3)
            + spec_u64_to_le_bytes(self.dummy4)
    }

    open spec fn of_wire(bytes: Seq<u8>) -> Self {
        fuse_notify_retrieve_in {
            dummy1: spec_u64_from_le_bytes(bytes.subrange(0, 8)),
            offset: spec_u64_from_le_bytes(bytes.subrange(8, 16)),
            size: spec_u32_from_le_bytes(bytes.subrange(16, 20)),
            dummy2: spec_u32_from_le_bytes(bytes.subrange(20, 24)),
            dummy3: spec_u64_from_le_bytes(bytes.subrange(24, 32)),
            dummy4: spec_u64_from_le_bytes(bytes.subrange(32, 40)),
        }
    }

    proof fn lemma_wire_len(x: Self) {
        lemma_auto_spec_u32_to_from_le_bytes();
        lemma_auto_spec_u64_to_from_le_bytes();
        assert(spec_u64_to_le_bytes(x.dummy1).len() == 8);
        assert(spec_u64_to_le_bytes(x.offset).len() == 8);
        assert(spec_u32_to_le_bytes(x.size).len() == 4);
        assert(spec_u32_to_le_bytes(x.dummy2).len() == 4);
        assert(spec_u64_to_le_bytes(x.dummy3).len() == 8);
        assert(spec_u64_to_le_bytes(x.dummy4).len() == 8);
    }

    proof fn lemma_size_align() {
    }

    proof fn lemma_of_as(x: Self) {
        lemma_auto_spec_u32_to_from_le_bytes();
        lemma_auto_spec_u64_to_from_le_bytes();
        let w = x.as_wire();
        assert(w.subrange(0, 8) =~= spec_u64_to_le_bytes(x.dummy1));
        assert(w.subrange(8, 16) =~= spec_u64_to_le_bytes(x.offset));
        assert(w.subrange(16, 20) =~= spec_u32_to_le_bytes(x.size));
        assert(w.subrange(20, 24) =~= spec_u32_to_le_bytes(x.dummy2));
        assert(w.subrange(24, 32) =~= spec_u64_to_le_bytes(x.dummy3));
        assert(w.subrange(32, 40) =~= spec_u64_to_le_bytes(x.dummy4));
        assert(Self::of_wire(w) == x);
    }

    proof fn lemma_as_of(bytes: Seq<u8>) {
        lemma_auto_spec_u32_to_from_le_bytes();
        lemma_auto_spec_u64_to_from_le_bytes();
        assert(spec_u64_to_le_bytes(spec_u64_from_le_bytes(bytes.subrange(0, 8))) == bytes.subrange(0, 8));
        assert(spec_u64_to_le_bytes(spec_u64_from_le_bytes(bytes.subrange(8, 16))) == bytes.subrange(8, 16));
        assert(spec_u32_to_le_bytes(spec_u32_from_le_bytes(bytes.subrange(16, 20))) == bytes.subrange(16, 20));
        assert(spec_u32_to_le_bytes(spec_u32_from_le_bytes(bytes.subrange(20, 24))) == bytes.subrange(20, 24));
        assert(spec_u64_to_le_bytes(spec_u64_from_le_bytes(bytes.subrange(24, 32))) == bytes.subrange(24, 32));
        assert(spec_u64_to_le_bytes(spec_u64_from_le_bytes(bytes.subrange(32, 40))) == bytes.subrange(32, 40));
        assert(Self::of_wire(bytes).as_wire() =~= bytes);
    }

    fn wire_size_exec() -> usize {
        40
    }

    fn wire_align_exec() -> usize {
        8
    }

    fn read_wire(bytes: &[u8], off: usize) -> (r: Self) {
        proof {
            assert(Self::wire_size() == 40);
            assert(bytes.len() == bytes@.len());
        }
        let r = fuse_notify_retrieve_in {
            dummy1: crate::wire::read_u64_at(bytes, off),
            offset: crate::wire::read_u64_at(bytes, off + 8),
            size: crate::wire::read_u32_at(bytes, off + 16),
            dummy2: crate::wire::read_u32_at(bytes, off + 20),
            dummy3: crate::wire::read_u64_at(bytes, off + 24),
            dummy4: crate::wire::read_u64_at(bytes, off + 32),
        };
        proof {
            let s = bytes@.subrange(off as int, off as int + 40);
            assert(s.subrange(0, 8) =~= bytes@.subrange(off as int + 0, off as int + 8));
            assert(s.subrange(8, 16) =~= bytes@.subrange(off as int + 8, off as int + 16));
            assert(s.subrange(16, 20) =~= bytes@.subrange(off as int + 16, off as int + 20));
            assert(s.subrange(20, 24) =~= bytes@.subrange(off as int + 20, off as int + 24));
            assert(s.subrange(24, 32) =~= bytes@.subrange(off as int + 24, off as int + 32));
            assert(s.subrange(32, 40) =~= bytes@.subrange(off as int + 32, off as int + 40));
            assert(r == Self::of_wire(s));
        }
        r
    }

    fn write_wire(&self, out: &mut Vec<u8>) {
        crate::wire::write_u64(out, self.dummy1);
        crate::wire::write_u64(out, self.offset);
        crate::wire::write_u32(out, self.size);
        crate::wire::write_u32(out, self.dummy2);
        crate::wire::write_u64(out, self.dummy3);
        crate::wire::write_u64(out, self.dummy4);
        proof {
            lemma_auto_spec_u32_to_from_le_bytes();
            lemma_auto_spec_u64_to_from_le_bytes();
            assert(spec_u64_to_le_bytes(self.dummy1).len() == 8);
            assert(spec_u64_to_le_bytes(self.offset).len() == 8);
            assert(spec_u32_to_le_bytes(self.size).len() == 4);
            assert(spec_u32_to_le_bytes(self.dummy2).len() == 4);
            assert(spec_u64_to_le_bytes(self.dummy3).len() == 8);
            assert(spec_u64_to_le_bytes(self.dummy4).len() == 8);
            assert(out@ =~= old(out)@ + self.as_wire());
        }
    }
}

#[allow(non_camel_case_types)]
#[derive(Debug, Clone, Copy, PartialEq, Eq, Structural)]
pub struct fuse_lseek_in {
    pub fh: u64,
    pub offset: u64,
    pub whence: u32,
    pub padding: u32,
}

impl Sealed for fuse_lseek_in {}

impl FuseAbiData for fuse_lseek_in {
    open spec fn wire_size() -> nat {
        24
    }

    open spec fn wire_align() -> nat {
        8
    }

    open spec fn as_wire(self) -> Seq<u8> {
        spec_u64_to_le_bytes(self.fh)
            + spec_u64_to_le_bytes(self.offset)
            + spec_u32_to_le_bytes(self.whence)
            + spec_u32_to_le_bytes(self.padding)
    }

    open spec fn of_wire(bytes: Seq<u8>) -> Self {
        fuse_lseek_in {
            fh: spec_u64_from_le_bytes(bytes.subrange(0, 8)),
            offset: spec_u64_from_le_bytes(bytes.subrange(8, 16)),
            whence: spec_u32_from_le_bytes(bytes.subrange(16, 20)),
            padding: spec_u32_from_le_bytes(bytes.subrange(20, 24)),
        }
    }

    proof fn lemma_wire_len(x: Self) {
        lemma_auto_spec_u32_to_from_le_bytes();
        lemma_auto_spec_u64_to_from_le_bytes();
        assert(spec_u64_to_le_bytes(x.fh).len() == 8);
        assert(spec_u64_to_le_bytes(x.offset).len() == 8);
        assert(spec_u32_to_le_bytes(x.whence).len() == 4);
        assert(spec_u32_to_le_bytes(x.padding).len() == 4);
    }

    proof fn lemma_size_align() {
    }

    proof fn lemma_of_as(x: Self) {
        lemma_auto_spec_u32_to_from_le_bytes();
        lemma_auto_spec_u64_to_from_le_bytes();
        let w = x.as_wire();
        assert(w.subrange(0, 8) =~= spec_u64_to_le_bytes(x.fh));
        assert(w.subrange(8, 16) =~= spec_u64_to_le_bytes(x.offset));
        assert(w.subrange(16, 20) =~= spec_u32_to_le_bytes(x.whence));
        assert(w.subrange(20, 24) =~= spec_u32_to_le_bytes(x.padding));
        assert(Self::of_wire(w) == x);
    }

    proof fn lemma_as_of(bytes: Seq<u8>) {
        lemma_auto_spec_u32_to_from_le_bytes();
        lemma_auto_spec_u64_to_from_le_bytes();
        assert(spec_u64_to_le_bytes(spec_u64_from_le_bytes(bytes.subrange(0, 8))) == bytes.subrange(0, 8));
        assert(spec_u64_to_le_bytes(spec_u64_from_le_bytes(bytes.subrange(8, 16))) == bytes.subrange(8, 16));
        assert(spec_u32_to_le_bytes(spec_u32_from_le_bytes(bytes.subrange(16, 20))) == bytes.subrange(16, 20));
        assert(spec_u32_to_le_bytes(spec_u32_from_le_bytes(bytes.subrange(20, 24))) == bytes.subrange(20, 24));
        assert(Self::of_wire(bytes).as_wire() =~= bytes);
    }

    fn wire_size_exec() -> usize {
        24
    }

    fn wire_align_exec() -> usize {
        8
    }

    fn read_wire(bytes: &[u8], off: usize) -> (r: Self) {
        proof {
            assert(Self::wire_size() == 24);
            assert(bytes.len() == bytes@.len());
        }
        let r = fuse_lseek_in {
            fh: crate::wire::read_u64_at(bytes, off),
            offset: crate::wire::read_u64_at(bytes, off + 8),
            whence: crate::wire::read_u32_at(bytes, off + 16),
            padding: crate::wire::read_u32_at(bytes, off + 20),
        };
        proof {
            let s = bytes@.subrange(off as int, off as int + 24);
            assert(s.subrange(0, 8) =~= bytes@.subrange(off as int + 0, off as int + 8));
            assert(s.subrange(8, 16) =~= bytes@.subrange(off as int + 8, off as int + 16));
            assert(s.subrange(16, 20) =~= bytes@.subrange(off as int + 16, off as int + 20));
            assert(s.subrange(20, 24) =~= bytes@.subrange(off as int + 20, off as int + 24));
            assert(r == Self::of_wire(s));
        }
        r
    }

    fn write_wire(&self, out: &mut Vec<u8>) {
        crate::wire::write_u64(out, self.fh);
        crate::wire::write_u64(out, self.offset);
        crate::wire::write_u32(out, self.whence);
        crate::wire::write_u32(out, self.padding);
        proof {
            lemma_auto_spec_u32_to_from_le_bytes();
            lemma_auto_spec_u64_to_from_le_bytes();
            assert(spec_u64_to_le_bytes(self.fh).len() == 8);
            assert(spec_u64_to_le_bytes(self.offset).len() == 8);
            assert(spec_u32_to_le_bytes(self.whence).len() == 4);
            assert(spec_u32_to_le_bytes(self.padding).len() == 4);
            assert(out@ =~= old(out)@ + self.as_wire());
        }
    }
}

#[allow(non_camel_case_types)]
#[derive(Debug, Clone, Copy, PartialEq, Eq, Structural)]
pub struct fuse_lseek_out {
    pub offset: u64,
}

impl Sealed for fuse_lseek_out {}

impl FuseAbiData for fuse_lseek_out {
    open spec fn wire_size() -> nat {
        8
    }

    open spec fn wire_align() -> nat {
        8
    }

    open spec fn as_wire(self) -> Seq<u8> {
        spec_u64_to_le_bytes(self.offset)
    }

    open spec fn of_wire(bytes: Seq<u8>) -> Self {
        fuse_lseek_out {
            offset: spec_u64_from_le_bytes(bytes.subrange(0, 8)),
        }
    }

    proof fn lemma_wire_len(x: Self) {
        lemma_auto_spec_u64_to_from_le_bytes();
        assert(spec_u64_to_le_bytes(x.offset).len() == 8);
    }

    proof fn lemma_size_align() {
    }

    proof fn lemma_of_as(x: Self) {
        lemma_auto_spec_u64_to_from_le_bytes();
        let w = x.as_wire();
        assert(w.subrange(0, 8) =~= spec_u64_to_le_bytes(x.offset));
        assert(Self::of_wire(w) == x);
    }

    proof fn lemma_as_of(bytes: Seq<u8>) {
        lemma_auto_spec_u64_to_from_le_bytes();
        assert(spec_u64_to_le_bytes(spec_u64_from_le_bytes(bytes.subrange(0, 8))) == bytes.subrange(0, 8));
        assert(Self::of_wire(bytes).as_wire() =~= bytes);
    }

    fn wire_size_exec() -> usize {
        8
    }

    fn wire_align_exec() -> usize {
        8
    }

    fn read_wire(bytes: &[u8], off: usize) -> (r: Self) {
        proof {
            assert(Self::wire_size() == 8);
            assert(bytes.len() == bytes@.len());
        }
        let r = fuse_lseek_out {
            offset: crate::wire::read_u64_at(bytes, off),
        };
        proof {
            let s = bytes@.subrange(off as int, off as int + 8);
            assert(s.subrange(0, 8) =~= bytes@.subrange(off as int + 0, off as int + 8));
            assert(r == Self::of_wire(s));
        }
        r
    }

    fn write_wire(&self, out: &mut Vec<u8>) {
        crate::wire::write_u64(out, self.offset);
        proof {
            lemma_auto_spec_u64_to_from_le_bytes();
            assert(spec_u64_to_le_bytes(self.offset).len() == 8);
            assert(out@ =~= old(out)@ + self.as_wire());
        }
    }
}

#[allow(non_camel_case_types)]
#[derive(Debug, Clone, Copy, PartialEq, Eq, Structural)]
pub struct fuse_copy_file_range_in {
    pub fh_in: u64,
    pub off_in: u64,
    pub nodeid_out: u64,
    pub fh_out: u64,
    pub off_out: u64,
    pub len: u64,
    pub flags: u64,
}

impl Sealed for fuse_copy_file_range_in {}

impl FuseAbiData for fuse_copy_file_range_in {
    open spec fn wire_size() -> nat {
        56
    }

    open spec fn wire_align() -> nat {
        8
    }

    open spec fn as_wire(self) -> Seq<u8> {
        spec_u64_to_le_bytes(self.fh_in)
            + spec_u64_to_le_bytes(self.off_in)
            + spec_u64_to_le_bytes(self.nodeid_out)
            + spec_u64_to_le_bytes(self.fh_out)
            + spec_u64_to_le_bytes(self.off_out)
            + spec_u64_to_le_bytes(self.len)
            + spec_u64_to_le_bytes(self.flags)
    }

    open spec fn of_wire(bytes: Seq<u8>) -> Self {
        fuse_copy_file_range_in {
            fh_in: spec_u64_from_le_bytes(bytes.subrange(0, 8)),
            off_in: spec_u64_from_le_bytes(bytes.subrange(8, 16)),
            nodeid_out: spec_u64_from_le_bytes(bytes.subrange(16, 24)),
            fh_out: spec_u64_from_le_bytes(bytes.subrange(24, 32)),
            off_out: spec_u64_from_le_bytes(bytes.subrange(32, 40)),
            len: spec_u64_from_le_bytes(bytes.subrange(40, 48)),
            flags: spec_u64_from_le_bytes(bytes.subrange(48, 56)),
        }
    }

    proof fn lemma_wire_len(x: Self) {
        lemma_auto_spec_u64_to_from_le_bytes();
        assert(spec_u64_to_le_bytes(x.fh_in).len() == 8);
        assert(spec_u64_to_le_bytes(x.off_in).len() == 8);
        assert(spec_u64_to_le_bytes(x.nodeid_out).len() == 8);
        assert(spec_u64_to_le_bytes(x.fh_out).len() == 8);
        assert(spec_u64_to_le_bytes(x.off_out).len() == 8);
        assert(spec_u64_to_le_bytes(x.len).len() == 8);
        assert(spec_u64_to_le_bytes(x.flags).len() == 8);
    }

    proof fn lemma_size_align() {
    }

    proof fn lemma_of_as(x: Self) {
        lemma_auto_spec_u64_to_from_le_bytes();
        let w = x.as_wire();
        assert(w.subrange(0, 8) =~= spec_u64_to_le_bytes(x.fh_in));
        assert(w.subrange(8, 16) =~= spec_u64_to_le_bytes(x.off_in));
        assert(w.subrange(16, 24) =~= spec_u64_to_le_bytes(x.nodeid_out));
        assert(w.subrange(24, 32) =~= spec_u64_to_le_bytes(x.fh_out));
        assert(w.subrange(32, 40) =~= spec_u64_to_le_bytes(x.off_out));
        assert(w.subrange(40, 48) =~= spec_u64_to_le_bytes(x.len));
        assert(w.subrange(48, 56) =~= spec_u64_to_le_bytes(x.flags));
        assert(Self::of_wire(w) == x);
    }

    proof fn lemma_as_of(bytes: Seq<u8>) {
        lemma_auto_spec_u64_to_from_le_bytes();
        assert(spec_u64_to_le_bytes(spec_u64_from_le_bytes(bytes.subrange(0, 8))) == bytes.subrange(0, 8));
        assert(spec_u64_to_le_bytes(spec_u64_from_le_bytes(bytes.subrange(8, 16))) == bytes.subrange(8, 16));
        assert(spec_u64_to_le_bytes(spec_u64_from_le_bytes(bytes.subrange(16, 24))) == bytes.subrange(16, 24));
        assert(spec_u64_to_le_bytes(spec_u64_from_le_bytes(bytes.subrange(24, 32))) == bytes.subrange(24, 32));
        assert(spec_u64_to_le_bytes(spec_u64_from_le_bytes(bytes.subrange(32, 40))) == bytes.subrange(32, 40));
        assert(spec_u64_to_le_bytes(spec_u64_from_le_bytes(bytes.subrange(40, 48))) == bytes.subrange(40, 48));
        assert(spec_u64_to_le_bytes(spec_u64_from_le_bytes(bytes.subrange(48, 56))) == bytes.subrange(48, 56));
        assert(Self::of_wire(bytes).as_wire() =~= bytes);
    }

    fn wire_size_exec() -> usize {
        56
    }

    fn wire_align_exec() -> usize {
        8
    }

    fn read_wire(bytes: &[u8], off: usize) -> (r: Self) {
        proof {
            assert(Self::wire_size() == 56);
            assert(bytes.len() == bytes@.len());
        }
        let r = fuse_copy_file_range_in {
            fh_in: crate::wire::read_u64_at(bytes, off),
            off_in: crate::wire::read_u64_at(bytes, off + 8),
            nodeid_out: crate::wire::read_u64_at(bytes, off + 16),
            fh_out: crate::wire::read_u64_at(bytes, off + 24),
            off_out: crate::wire::read_u64_at(bytes, off + 32),
            len: crate::wire::read_u64_at(bytes, off + 40),
            flags: crate::wire::read_u64_at(bytes, off + 48),
        };
        proof {
            let s = bytes@.subrange(off as int, off as int + 56);
            assert(s.subrange(0, 8) =~= bytes@.subrange(off as int + 0, off as int + 8));
            assert(s.subrange(8, 16) =~= bytes@.subrange(off as int + 8, off as int + 16));
            assert(s.subrange(16, 24) =~= bytes@.subrange(off as int + 16, off as int + 24));
            assert(s.subrange(24, 32) =~= bytes@.subrange(off as int + 24, off as int + 32));
            assert(s.subrange(32, 40) =~= bytes@.subrange(off as int + 32, off as int + 40));
            assert(s.subrange(40, 48) =~= bytes@.subrange(off as int + 40, off as int + 48));
            assert(s.subrange(48, 56) =~= bytes@.subrange(off as int + 48, off as int + 56));
            assert(r == Self::of_wire(s));
        }
        r
    }

    fn write_wire(&self, out: &mut Vec<u8>) {
        crate::wire::write_u64(out, self.fh_in);
        crate::wire::write_u64(out, self.off_in);
        crate::wire::write_u64(out, self.nodeid_out);
        crate::wire::write_u64(out, self.fh_out);
        crate::wire::write_u64(out, self.off_out);
        crate::wire::write_u64(out, self.len);
        crate::wire::write_u64(out, self.flags);
        proof {
            lemma_auto_spec_u64_to_from_le_bytes();
            assert(spec_u64_to_le_bytes(self.fh_in).len() == 8);
            assert(spec_u64_to_le_bytes(self.off_in).len() == 8);
            assert(spec_u64_to_le_bytes(self.nodeid_out).len() == 8);
            assert(spec_u64_to_le_bytes(self.fh_out).len() == 8);
            assert(spec_u64_to_le_bytes(self.off_out).len() == 8);
            assert(spec_u64_to_le_bytes(self.len).len() == 8);
            assert(spec_u64_to_le_bytes(self.flags).len() == 8);
            assert(out@ =~= old(out)@ + self.as_wire());
        }
    }
}

} // verus!
