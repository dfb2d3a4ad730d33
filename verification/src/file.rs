//! File types, access modes, and `st_mode` values of directory entries
//! and attributes.
//!
//! The numeric values are the Linux ABI values that FUSE carries on the
//! wire: `d_type` codes for directory entries, the `O_ACCMODE` bits of
//! open flags, and the file-type nibble of `st_mode`.

use vstd::prelude::*;

verus! {

/// `d_type` of an unknown file type.
pub const DT_UNKNOWN: u8 = 0;

/// `d_type` of a named pipe.
pub const DT_FIFO: u8 = 1;

/// `d_type` of a character device.
pub const DT_CHR: u8 = 2;

/// `d_type` of a directory.
pub const DT_DIR: u8 = 4;

/// `d_type` of a block device.
pub const DT_BLK: u8 = 6;

/// `d_type` of a regular file.
pub const DT_REG: u8 = 8;

/// `d_type` of a symbolic link.
pub const DT_LNK: u8 = 10;

/// `d_type` of a socket.
pub const DT_SOCK: u8 = 12;

/// `O_RDONLY`: open read-only.
pub const O_RDONLY: u32 = 0;

/// `O_WRONLY`: open write-only.
pub const O_WRONLY: u32 = 1;

/// `O_RDWR`: open read-write.
pub const O_RDWR: u32 = 2;

/// Mask of the access-mode bits of open flags.
pub const O_ACCMODE: u32 = 3;

/// The longest path the platform accepts, in bytes.
pub const PATH_MAX: usize = 4096;

// Permission bits of a file mode.
pub const RWXO: u32 = 0o0007;
pub const ROTH: u32 = 0o0004;
pub const WOTH: u32 = 0o0002;
pub const XOTH: u32 = 0o0001;
pub const RWXG: u32 = 0o0070;
pub const RGRP: u32 = 0o0040;
pub const WGRP: u32 = 0o0020;
pub const XGRP: u32 = 0o0010;
pub const RWXU: u32 = 0o0700;
pub const RUSR: u32 = 0o0400;
pub const WUSR: u32 = 0o0200;
pub const XUSR: u32 = 0o0100;
pub const SUID: u32 = 0o4000;
pub const SGID: u32 = 0o2000;
pub const SVTX: u32 = 0o1000;

/// Mask of all permission and set-id bits a [`FileMode`] can carry.
pub const MODE_BITS: u32 = 0o7777;

/// The type of a file, as named by a directory entry's `d_type`.
#[derive(Debug, Clone, Copy, PartialEq, Eq, Structural)]
pub enum FileType {
    Unknown,
    NamedPipe,
    CharacterDevice,
    Directory,
    BlockDevice,
    Regular,
    SymbolicLink,
    Socket,
}

/// Whether `d_type` names a file type.
pub open spec fn valid_d_type(d_type: u8) -> bool {
    ||| d_type == DT_UNKNOWN
    ||| d_type == DT_FIFO
    ||| d_type == DT_CHR
    ||| d_type == DT_DIR
    ||| d_type == DT_BLK
    ||| d_type == DT_REG
    ||| d_type == DT_LNK
    ||| d_type == DT_SOCK
}

impl FileType {
    /// The `d_type` code of this file type.
    pub open spec fn spec_as_raw(self) -> u8 {
        match self {
            FileType::Unknown => DT_UNKNOWN,
            FileType::NamedPipe => DT_FIFO,
            FileType::CharacterDevice => DT_CHR,
            FileType::Directory => DT_DIR,
            FileType::BlockDevice => DT_BLK,
            FileType::Regular => DT_REG,
            FileType::SymbolicLink => DT_LNK,
            FileType::Socket => DT_SOCK,
        }
    }

    /// The file type a `d_type` code names.
    pub fn from_raw(d_type: u8) -> (r: Self)
        requires
            valid_d_type(d_type),
        ensures
            r.spec_as_raw() == d_type,
    {
        if d_type == DT_UNKNOWN {
            FileType::Unknown
        } else if d_type == DT_FIFO {
            FileType::NamedPipe
        } else if d_type == DT_CHR {
            FileType::CharacterDevice
        } else if d_type == DT_DIR {
            FileType::Directory
        } else if d_type == DT_BLK {
            FileType::BlockDevice
        } else if d_type == DT_REG {
            FileType::Regular
        } else if d_type == DT_LNK {
            FileType::SymbolicLink
        } else {
            FileType::Socket
        }
    }

    /// The `d_type` code of this file type.
    pub fn as_raw(self) -> (r: u8)
        ensures
            r == self.spec_as_raw(),
    {
        match self {
            FileType::Unknown => DT_UNKNOWN,
            FileType::NamedPipe => DT_FIFO,
            FileType::CharacterDevice => DT_CHR,
            FileType::Directory => DT_DIR,
            FileType::BlockDevice => DT_BLK,
            FileType::Regular => DT_REG,
            FileType::SymbolicLink => DT_LNK,
            FileType::Socket => DT_SOCK,
        }
    }

    /// The `d_type` code, widened as the directory entry stores it.
    pub fn as_u32(self) -> (r: u32)
        ensures
            r == self.spec_as_raw() as u32,
    {
        self.as_raw() as u32
    }
}

/// How a file is opened: the `O_ACCMODE` bits of open flags.
#[derive(Debug, Clone, Copy, PartialEq, Eq, Structural)]
pub enum AccessMode {
    ReadOnly,
    WriteOnly,
    ReadWrite,
}

impl AccessMode {
    /// The `O_ACCMODE` bits of this mode.
    pub open spec fn spec_as_raw(self) -> u32 {
        match self {
            AccessMode::ReadOnly => O_RDONLY,
            AccessMode::WriteOnly => O_WRONLY,
            AccessMode::ReadWrite => O_RDWR,
        }
    }

    /// The `O_ACCMODE` bits of this mode.
    pub fn as_raw(self) -> (r: u32)
        ensures
            r == self.spec_as_raw(),
    {
        match self {
            AccessMode::ReadOnly => O_RDONLY,
            AccessMode::WriteOnly => O_WRONLY,
            AccessMode::ReadWrite => O_RDWR,
        }
    }

    /// The access mode of open flags. The flag value `3` names no
    /// mode and is left out.
    pub fn from_raw(o_flags: u32) -> (r: Self)
        requires
            o_flags & 3 != 3,
        ensures
            r.spec_as_raw() == o_flags & 3,
    {
        let mode = o_flags & 3;
        if mode == O_RDONLY {
            AccessMode::ReadOnly
        } else if mode == O_WRONLY {
            AccessMode::WriteOnly
        } else {
            proof {
                assert(o_flags & 3 == 0 || o_flags & 3 == 1 || o_flags & 3 == 2 || o_flags & 3
                    == 3) by (bit_vector);
            }
            AccessMode::ReadWrite
        }
    }
}

/// Permission and set-id bits of a file mode.
#[derive(Debug, Clone, Copy, PartialEq, Eq, Structural)]
pub struct FileMode(pub u32);

impl FileMode {
    /// The raw permission bits.
    pub fn bits(self) -> (r: u32)
        ensures
            r == self.0,
    {
        self.0
    }

    /// Keeps the bits a file mode can carry and drops the rest.
    pub fn from_bits_truncate(bits: u32) -> (r: Self)
        ensures
            r.0 == bits & MODE_BITS,
    {
        FileMode(bits & MODE_BITS)
    }
}

/// A full `st_mode` value: a file type in the high nibble above twelve
/// permission bits.
#[derive(Debug, Clone, Copy, PartialEq, Eq, Structural)]
pub struct StMode(pub u32);

impl StMode {
    /// Wraps a raw `st_mode` value.
    pub fn from_raw(raw: u32) -> (r: Self)
        ensures
            r.0 == raw,
    {
        StMode(raw)
    }

    /// The raw `st_mode` value.
    pub fn as_raw(self) -> (r: u32)
        ensures
            r == self.0,
    {
        self.0
    }

    /// Builds an `st_mode` from a file type and permission bits.
    pub fn new(ty: FileType, mode: FileMode) -> (r: Self)
        ensures
            r.0 == (ty.spec_as_raw() as u32) << 12 | mode.0,
    {
        StMode((ty.as_raw() as u32) << 12 | mode.bits())
    }

    /// The file type named by the high nibble. Left out are values
    /// whose nibble names no file type.
    pub fn file_type(self) -> (r: FileType)
        requires
            valid_d_type((self.0 >> 12) as u8),
        ensures
            r.spec_as_raw() == (self.0 >> 12) as u8,
    {
        FileType::from_raw((self.0 >> 12) as u8)
    }

    /// The permission bits of the mode.
    pub fn file_mode(self) -> (r: FileMode)
        ensures
            r.0 == self.0 & MODE_BITS,
    {
        FileMode::from_bits_truncate(self.0)
    }
}

} // verus!
