//! Typed FUSE operations: the request vocabulary over the raw records.
//!
//! Each operation wraps the ABI records and trailing bytes of one
//! request body. [`parse`] in the context module decodes a whole frame
//! into an [`Operation`]; the specs here say exactly which bytes each
//! typed view came from and on which frames decoding fails.

use crate::abi::FuseAbiData;
use crate::c_bytes::c_prefix;
use crate::c_bytes::has_nul;
use crate::c_bytes::CBytes;
use crate::context::ProtocolVersion;
use crate::decode::Decode;
use crate::decode::DecodeError;
use crate::decode::Decoder;
use crate::kernel::fuse_flush_in;
use crate::kernel::fuse_forget_in;
use crate::kernel::fuse_fsync_in;
use crate::kernel::fuse_getattr_in;
use crate::kernel::fuse_getxattr_in;
use crate::kernel::fuse_in_header;
use crate::kernel::fuse_init_in;
use crate::kernel::fuse_interrupt_in;
use crate::kernel::fuse_link_in;
use crate::kernel::fuse_mkdir_in;
use crate::kernel::fuse_mknod_in;
use crate::kernel::fuse_open_in;
use crate::kernel::fuse_read_in;
use crate::kernel::fuse_release_in;
use crate::kernel::fuse_setattr_in;
use crate::kernel::fuse_write_in;
use crate::kernel::FUSE_FLUSH;
use crate::kernel::FUSE_FORGET;
use crate::kernel::FUSE_FSYNC;
use crate::kernel::FUSE_GETATTR;
use crate::kernel::FUSE_GETXATTR;
use crate::kernel::FUSE_INIT;
use crate::kernel::FUSE_INTERRUPT;
use crate::kernel::FUSE_LOOKUP;
use crate::kernel::FUSE_MKDIR;
use crate::kernel::FUSE_MKNOD;
use crate::kernel::FUSE_OPEN;
use crate::kernel::FUSE_OPENDIR;
use crate::kernel::FUSE_READ;
use crate::kernel::FUSE_READDIR;
use crate::kernel::FUSE_READLINK;
use crate::kernel::FUSE_RELEASE;
use crate::kernel::FUSE_RELEASEDIR;
use crate::kernel::FUSE_RMDIR;
use crate::kernel::FUSE_SETATTR;
use crate::kernel::FUSE_STATFS;
use crate::kernel::FUSE_SYMLINK;
use crate::kernel::FUSE_UNLINK;
use crate::kernel::FUSE_WRITE;
use vstd::prelude::*;

verus! {

broadcast use vstd::slice::group_slice_axioms;

/// Replies of type `Self` answer operations of type `T`: the
/// compile-time relation between an operation and its reply shape.
pub trait IsReplyOf<T> {}

/// The request header, fetched from the front of every frame. The raw
/// record stays inside; accessors hand out copied scalars.
#[derive(Debug, Clone, Copy)]
pub struct FuseInHeader(fuse_in_header);

impl FuseInHeader {
    /// The raw header record the frame carried.
    pub closed spec fn spec_raw(&self) -> fuse_in_header {
        self.0
    }

    /// The declared length of the whole frame, header included.
    pub fn frame_len(&self) -> (r: u32)
        ensures
            r == self.spec_raw().len,
    {
        self.0.len
    }

    /// The opcode naming the operation.
    pub fn opcode(&self) -> (r: u32)
        ensures
            r == self.spec_raw().opcode,
    {
        self.0.opcode
    }

    /// The kernel-assigned id correlating the reply with the request.
    pub fn unique(&self) -> (r: u64)
        ensures
            r == self.spec_raw().unique,
    {
        self.0.unique
    }

    /// The inode the operation applies to.
    pub fn nodeid(&self) -> (r: u64)
        ensures
            r == self.spec_raw().nodeid,
    {
        self.0.nodeid
    }

    /// The user id of the calling process.
    pub fn uid(&self) -> (r: u32)
        ensures
            r == self.spec_raw().uid,
    {
        self.0.uid
    }

    /// The group id of the calling process.
    pub fn gid(&self) -> (r: u32)
        ensures
            r == self.spec_raw().gid,
    {
        self.0.gid
    }

    /// The process id of the calling process.
    pub fn pid(&self) -> (r: u32)
        ensures
            r == self.spec_raw().pid,
    {
        self.0.pid
    }
}

impl<'b> Decode<'b> for FuseInHeader {
    open spec fn parsed_from(rest: Seq<u8>, used: int, v: Self) -> bool {
        &&& used == fuse_in_header::wire_size()
        &&& fuse_in_header::wire_size() <= rest.len()
        &&& v.spec_raw() == fuse_in_header::of_wire(rest.take(fuse_in_header::wire_size() as int))
    }

    open spec fn decode_err(o: Decoder<'b>, e: DecodeError) -> bool {
        if o.remaining().len() < fuse_in_header::wire_size() {
            e == DecodeError::NotEnough
        } else if !o.aligned_for(fuse_in_header::wire_align()) {
            e == DecodeError::AlignMismatch
        } else {
            false
        }
    }

    fn decode(de: &mut Decoder<'b>, proto: ProtocolVersion) -> (r: Result<Self, DecodeError>) {
        match de.fetch::<fuse_in_header>() {
            Ok(raw) => Ok(FuseInHeader(raw)),
            Err(e) => Err(e),
        }
    }
}

/// FUSE_INIT: the handshake request that opens a session.
#[derive(Debug, Clone, Copy)]
pub struct OpInit {
    arg: fuse_init_in,
}

impl OpInit {
    /// The request record the frame carried.
    pub closed spec fn spec_arg(&self) -> fuse_init_in {
        self.arg
    }

    /// The `major` field of the request.
    pub fn major(&self) -> (r: u32)
        ensures
            r == self.spec_arg().major,
    {
        self.arg.major
    }

    /// The `minor` field of the request.
    pub fn minor(&self) -> (r: u32)
        ensures
            r == self.spec_arg().minor,
    {
        self.arg.minor
    }

    /// The `max_readahead` field of the request.
    pub fn max_readahead(&self) -> (r: u32)
        ensures
            r == self.spec_arg().max_readahead,
    {
        self.arg.max_readahead
    }

    /// The `flags` field of the request.
    pub fn flags(&self) -> (r: u32)
        ensures
            r == self.spec_arg().flags,
    {
        self.arg.flags
    }
}

impl<'b> Decode<'b> for OpInit {
    open spec fn parsed_from(rest: Seq<u8>, used: int, v: Self) -> bool {
        &&& used == fuse_init_in::wire_size()
        &&& fuse_init_in::wire_size() <= rest.len()
        &&& v.spec_arg() == fuse_init_in::of_wire(rest.take(fuse_init_in::wire_size() as int))
    }

    open spec fn decode_err(o: Decoder<'b>, e: DecodeError) -> bool {
        if o.remaining().len() < fuse_init_in::wire_size() {
            e == DecodeError::NotEnough
        } else if !o.aligned_for(fuse_init_in::wire_align()) {
            e == DecodeError::AlignMismatch
        } else {
            false
        }
    }

    fn decode(de: &mut Decoder<'b>, proto: ProtocolVersion) -> (r: Result<Self, DecodeError>) {
        match de.fetch::<fuse_init_in>() {
            Ok(arg) => {
                proof {
                    assert(de.spec_full() == old(de).spec_full());
                    assert(de.spec_pos() == old(de).spec_pos() + fuse_init_in::wire_size());
                    assert(fuse_init_in::wire_size() <= old(de).remaining().len());
                    assert(arg == fuse_init_in::of_wire(old(de).remaining().take(
                        fuse_init_in::wire_size() as int,
                    )));
                }
                Ok(OpInit { arg })
            },
            Err(e) => Err(e),
        }
    }
}

/// FUSE_GETATTR: read the attributes of an inode.
#[derive(Debug, Clone, Copy)]
pub struct OpGetAttr {
    arg: fuse_getattr_in,
}

impl OpGetAttr {
    /// The request record the frame carried.
    pub closed spec fn spec_arg(&self) -> fuse_getattr_in {
        self.arg
    }
}

impl<'b> Decode<'b> for OpGetAttr {
    open spec fn parsed_from(rest: Seq<u8>, used: int, v: Self) -> bool {
        &&& used == fuse_getattr_in::wire_size()
        &&& fuse_getattr_in::wire_size() <= rest.len()
        &&& v.spec_arg() == fuse_getattr_in::of_wire(rest.take(fuse_getattr_in::wire_size() as int))
    }

    open spec fn decode_err(o: Decoder<'b>, e: DecodeError) -> bool {
        if o.remaining().len() < fuse_getattr_in::wire_size() {
            e == DecodeError::NotEnough
        } else if !o.aligned_for(fuse_getattr_in::wire_align()) {
            e == DecodeError::AlignMismatch
        } else {
            false
        }
    }

    fn decode(de: &mut Decoder<'b>, proto: ProtocolVersion) -> (r: Result<Self, DecodeError>) {
        match de.fetch::<fuse_getattr_in>() {
            Ok(arg) => {
                proof {
                    assert(de.spec_full() == old(de).spec_full());
                    assert(de.spec_pos() == old(de).spec_pos() + fuse_getattr_in::wire_size());
                    assert(fuse_getattr_in::wire_size() <= old(de).remaining().len());
                    assert(arg == fuse_getattr_in::of_wire(old(de).remaining().take(
                        fuse_getattr_in::wire_size() as int,
                    )));
                }
                Ok(OpGetAttr { arg })
            },
            Err(e) => Err(e),
        }
    }
}

/// FUSE_SETATTR: change the attributes of an inode.
#[derive(Debug, Clone, Copy)]
pub struct OpSetAttr {
    arg: fuse_setattr_in,
}

impl OpSetAttr {
    /// The request record the frame carried.
    pub closed spec fn spec_arg(&self) -> fuse_setattr_in {
        self.arg
    }
}

impl<'b> Decode<'b> for OpSetAttr {
    open spec fn parsed_from(rest: Seq<u8>, used: int, v: Self) -> bool {
        &&& used == fuse_setattr_in::wire_size()
        &&& fuse_setattr_in::wire_size() <= rest.len()
        &&& v.spec_arg() == fuse_setattr_in::of_wire(rest.take(fuse_setattr_in::wire_size() as int))
    }

    open spec fn decode_err(o: Decoder<'b>, e: DecodeError) -> bool {
        if o.remaining().len() < fuse_setattr_in::wire_size() {
            e == DecodeError::NotEnough
        } else if !o.aligned_for(fuse_setattr_in::wire_align()) {
            e == DecodeError::AlignMismatch
        } else {
            false
        }
    }

    fn decode(de: &mut Decoder<'b>, proto: ProtocolVersion) -> (r: Result<Self, DecodeError>) {
        match de.fetch::<fuse_setattr_in>() {
            Ok(arg) => {
                proof {
                    assert(de.spec_full() == old(de).spec_full());
                    assert(de.spec_pos() == old(de).spec_pos() + fuse_setattr_in::wire_size());
                    assert(fuse_setattr_in::wire_size() <= old(de).remaining().len());
                    assert(arg == fuse_setattr_in::of_wire(old(de).remaining().take(
                        fuse_setattr_in::wire_size() as int,
                    )));
                }
                Ok(OpSetAttr { arg })
            },
            Err(e) => Err(e),
        }
    }
}

/// FUSE_FORGET: the kernel drops references to an inode; no reply.
#[derive(Debug, Clone, Copy)]
pub struct OpForget {
    arg: fuse_forget_in,
}

impl OpForget {
    /// The request record the frame carried.
    pub closed spec fn spec_arg(&self) -> fuse_forget_in {
        self.arg
    }
}

impl<'b> Decode<'b> for OpForget {
    open spec fn parsed_from(rest: Seq<u8>, used: int, v: Self) -> bool {
        &&& used == fuse_forget_in::wire_size()
        &&& fuse_forget_in::wire_size() <= rest.len()
        &&& v.spec_arg() == fuse_forget_in::of_wire(rest.take(fuse_forget_in::wire_size() as int))
    }

    open spec fn decode_err(o: Decoder<'b>, e: DecodeError) -> bool {
        if o.remaining().len() < fuse_forget_in::wire_size() {
            e == DecodeError::NotEnough
        } else if !o.aligned_for(fuse_forget_in::wire_align()) {
            e == DecodeError::AlignMismatch
        } else {
            false
        }
    }

    fn decode(de: &mut Decoder<'b>, proto: ProtocolVersion) -> (r: Result<Self, DecodeError>) {
        match de.fetch::<fuse_forget_in>() {
            Ok(arg) => {
                proof {
                    assert(de.spec_full() == old(de).spec_full());
                    assert(de.spec_pos() == old(de).spec_pos() + fuse_forget_in::wire_size());
                    assert(fuse_forget_in::wire_size() <= old(de).remaining().len());
                    assert(arg == fuse_forget_in::of_wire(old(de).remaining().take(
                        fuse_forget_in::wire_size() as int,
                    )));
                }
                Ok(OpForget { arg })
            },
            Err(e) => Err(e),
        }
    }
}

/// FUSE_OPEN: open the file named by the header's node id.
#[derive(Debug, Clone, Copy)]
pub struct OpOpen {
    arg: fuse_open_in,
}

impl OpOpen {
    /// The request record the frame carried.
    pub closed spec fn spec_arg(&self) -> fuse_open_in {
        self.arg
    }

    /// The `flags` field of the request.
    pub fn flags(&self) -> (r: u32)
        ensures
            r == self.spec_arg().flags,
    {
        self.arg.flags
    }
}

impl<'b> Decode<'b> for OpOpen {
    open spec fn parsed_from(rest: Seq<u8>, used: int, v: Self) -> bool {
        &&& used == fuse_open_in::wire_size()
        &&& fuse_open_in::wire_size() <= rest.len()
        &&& v.spec_arg() == fuse_open_in::of_wire(rest.take(fuse_open_in::wire_size() as int))
    }

    open spec fn decode_err(o: Decoder<'b>, e: DecodeError) -> bool {
        if o.remaining().len() < fuse_open_in::wire_size() {
            e == DecodeError::NotEnough
        } else if !o.aligned_for(fuse_open_in::wire_align()) {
            e == DecodeError::AlignMismatch
        } else {
            false
        }
    }

    fn decode(de: &mut Decoder<'b>, proto: ProtocolVersion) -> (r: Result<Self, DecodeError>) {
        match de.fetch::<fuse_open_in>() {
            Ok(arg) => {
                proof {
                    assert(de.spec_full() == old(de).spec_full());
                    assert(de.spec_pos() == old(de).spec_pos() + fuse_open_in::wire_size());
                    assert(fuse_open_in::wire_size() <= old(de).remaining().len());
                    assert(arg == fuse_open_in::of_wire(old(de).remaining().take(
                        fuse_open_in::wire_size() as int,
                    )));
                }
                Ok(OpOpen { arg })
            },
            Err(e) => Err(e),
        }
    }
}

/// FUSE_OPENDIR: open the directory named by the header's node id.
#[derive(Debug, Clone, Copy)]
pub struct OpOpenDir {
    arg: fuse_open_in,
}

impl OpOpenDir {
    /// The request record the frame carried.
    pub closed spec fn spec_arg(&self) -> fuse_open_in {
        self.arg
    }

    /// The `flags` field of the request.
    pub fn flags(&self) -> (r: u32)
        ensures
            r == self.spec_arg().flags,
    {
        self.arg.flags
    }
}

impl<'b> Decode<'b> for OpOpenDir {
    open spec fn parsed_from(rest: Seq<u8>, used: int, v: Self) -> bool {
        &&& used == fuse_open_in::wire_size()
        &&& fuse_open_in::wire_size() <= rest.len()
        &&& v.spec_arg() == fuse_open_in::of_wire(rest.take(fuse_open_in::wire_size() as int))
    }

    open spec fn decode_err(o: Decoder<'b>, e: DecodeError) -> bool {
        if o.remaining().len() < fuse_open_in::wire_size() {
            e == DecodeError::NotEnough
        } else if !o.aligned_for(fuse_open_in::wire_align()) {
            e == DecodeError::AlignMismatch
        } else {
            false
        }
    }

    fn decode(de: &mut Decoder<'b>, proto: ProtocolVersion) -> (r: Result<Self, DecodeError>) {
        match de.fetch::<fuse_open_in>() {
            Ok(arg) => {
                proof {
                    assert(de.spec_full() == old(de).spec_full());
                    assert(de.spec_pos() == old(de).spec_pos() + fuse_open_in::wire_size());
                    assert(fuse_open_in::wire_size() <= old(de).remaining().len());
                    assert(arg == fuse_open_in::of_wire(old(de).remaining().take(
                        fuse_open_in::wire_size() as int,
                    )));
                }
                Ok(OpOpenDir { arg })
            },
            Err(e) => Err(e),
        }
    }
}

/// FUSE_READ: read bytes from an open file.
#[derive(Debug, Clone, Copy)]
pub struct OpRead {
    arg: fuse_read_in,
}

impl OpRead {
    /// The request record the frame carried.
    pub closed spec fn spec_arg(&self) -> fuse_read_in {
        self.arg
    }

    /// The `fh` field of the request.
    pub fn fh(&self) -> (r: u64)
        ensures
            r == self.spec_arg().fh,
    {
        self.arg.fh
    }

    /// The `offset` field of the request.
    pub fn offset(&self) -> (r: u64)
        ensures
            r == self.spec_arg().offset,
    {
        self.arg.offset
    }

    /// The `size` field of the request.
    pub fn size(&self) -> (r: u32)
        ensures
            r == self.spec_arg().size,
    {
        self.arg.size
    }

    /// The `read_flags` field of the request.
    pub fn read_flags(&self) -> (r: u32)
        ensures
            r == self.spec_arg().read_flags,
    {
        self.arg.read_flags
    }

    /// The `lock_owner` field of the request.
    pub fn lock_owner(&self) -> (r: u64)
        ensures
            r == self.spec_arg().lock_owner,
    {
        self.arg.lock_owner
    }

    /// The `flags` field of the request.
    pub fn flags(&self) -> (r: u32)
        ensures
            r == self.spec_arg().flags,
    {
        self.arg.flags
    }
}

impl<'b> Decode<'b> for OpRead {
    open spec fn parsed_from(rest: Seq<u8>, used: int, v: Self) -> bool {
        &&& used == fuse_read_in::wire_size()
        &&& fuse_read_in::wire_size() <= rest.len()
        &&& v.spec_arg() == fuse_read_in::of_wire(rest.take(fuse_read_in::wire_size() as int))
    }

    open spec fn decode_err(o: Decoder<'b>, e: DecodeError) -> bool {
        if o.remaining().len() < fuse_read_in::wire_size() {
            e == DecodeError::NotEnough
        } else if !o.aligned_for(fuse_read_in::wire_align()) {
            e == DecodeError::AlignMismatch
        } else {
            false
        }
    }

    fn decode(de: &mut Decoder<'b>, proto: ProtocolVersion) -> (r: Result<Self, DecodeError>) {
        match de.fetch::<fuse_read_in>() {
            Ok(arg) => {
                proof {
                    assert(de.spec_full() == old(de).spec_full());
                    assert(de.spec_pos() == old(de).spec_pos() + fuse_read_in::wire_size());
                    assert(fuse_read_in::wire_size() <= old(de).remaining().len());
                    assert(arg == fuse_read_in::of_wire(old(de).remaining().take(
                        fuse_read_in::wire_size() as int,
                    )));
                }
                Ok(OpRead { arg })
            },
            Err(e) => Err(e),
        }
    }
}

/// FUSE_READDIR: read directory entries from an open directory.
#[derive(Debug, Clone, Copy)]
pub struct OpReadDir {
    arg: fuse_read_in,
}

impl OpReadDir {
    /// The request record the frame carried.
    pub closed spec fn spec_arg(&self) -> fuse_read_in {
        self.arg
    }

    /// The `fh` field of the request.
    pub fn fh(&self) -> (r: u64)
        ensures
            r == self.spec_arg().fh,
    {
        self.arg.fh
    }

    /// The `offset` field of the request.
    pub fn offset(&self) -> (r: u64)
        ensures
            r == self.spec_arg().offset,
    {
        self.arg.offset
    }

    /// The `size` field of the request.
    pub fn size(&self) -> (r: u32)
        ensures
            r == self.spec_arg().size,
    {
        self.arg.size
    }

    /// The `read_flags` field of the request.
    pub fn read_flags(&self) -> (r: u32)
        ensures
            r == self.spec_arg().read_flags,
    {
        self.arg.read_flags
    }

    /// The `lock_owner` field of the request.
    pub fn lock_owner(&self) -> (r: u64)
        ensures
            r == self.spec_arg().lock_owner,
    {
        self.arg.lock_owner
    }

    /// The `flags` field of the request.
    pub fn flags(&self) -> (r: u32)
        ensures
            r == self.spec_arg().flags,
    {
        self.arg.flags
    }
}

impl<'b> Decode<'b> for OpReadDir {
    open spec fn parsed_from(rest: Seq<u8>, used: int, v: Self) -> bool {
        &&& used == fuse_read_in::wire_size()
        &&& fuse_read_in::wire_size() <= rest.len()
        &&& v.spec_arg() == fuse_read_in::of_wire(rest.take(fuse_read_in::wire_size() as int))
    }

    open spec fn decode_err(o: Decoder<'b>, e: DecodeError) -> bool {
        if o.remaining().len() < fuse_read_in::wire_size() {
            e == DecodeError::NotEnough
        } else if !o.aligned_for(fuse_read_in::wire_align()) {
            e == DecodeError::AlignMismatch
        } else {
            false
        }
    }

    fn decode(de: &mut Decoder<'b>, proto: ProtocolVersion) -> (r: Result<Self, DecodeError>) {
        match de.fetch::<fuse_read_in>() {
            Ok(arg) => {
                proof {
                    assert(de.spec_full() == old(de).spec_full());
                    assert(de.spec_pos() == old(de).spec_pos() + fuse_read_in::wire_size());
                    assert(fuse_read_in::wire_size() <= old(de).remaining().len());
                    assert(arg == fuse_read_in::of_wire(old(de).remaining().take(
                        fuse_read_in::wire_size() as int,
                    )));
                }
                Ok(OpReadDir { arg })
            },
            Err(e) => Err(e),
        }
    }
}

/// FUSE_RELEASE: the last handle to an open file is closed.
#[derive(Debug, Clone, Copy)]
pub struct OpRelease {
    arg: fuse_release_in,
}

impl OpRelease {
    /// The request record the frame carried.
    pub closed spec fn spec_arg(&self) -> fuse_release_in {
        self.arg
    }
}

impl<'b> Decode<'b> for OpRelease {
    open spec fn parsed_from(rest: Seq<u8>, used: int, v: Self) -> bool {
        &&& used == fuse_release_in::wire_size()
        &&& fuse_release_in::wire_size() <= rest.len()
        &&& v.spec_arg() == fuse_release_in::of_wire(rest.take(fuse_release_in::wire_size() as int))
    }

    open spec fn decode_err(o: Decoder<'b>, e: DecodeError) -> bool {
        if o.remaining().len() < fuse_release_in::wire_size() {
            e == DecodeError::NotEnough
        } else if !o.aligned_for(fuse_release_in::wire_align()) {
            e == DecodeError::AlignMismatch
        } else {
            false
        }
    }

    fn decode(de: &mut Decoder<'b>, proto: ProtocolVersion) -> (r: Result<Self, DecodeError>) {
        match de.fetch::<fuse_release_in>() {
            Ok(arg) => {
                proof {
                    assert(de.spec_full() == old(de).spec_full());
                    assert(de.spec_pos() == old(de).spec_pos() + fuse_release_in::wire_size());
                    assert(fuse_release_in::wire_size() <= old(de).remaining().len());
                    assert(arg == fuse_release_in::of_wire(old(de).remaining().take(
                        fuse_release_in::wire_size() as int,
                    )));
                }
                Ok(OpRelease { arg })
            },
            Err(e) => Err(e),
        }
    }
}

/// FUSE_RELEASEDIR: the last handle to an open directory is closed.
#[derive(Debug, Clone, Copy)]
pub struct OpReleaseDir {
    arg: fuse_release_in,
}

impl OpReleaseDir {
    /// The request record the frame carried.
    pub closed spec fn spec_arg(&self) -> fuse_release_in {
        self.arg
    }
}

impl<'b> Decode<'b> for OpReleaseDir {
    open spec fn parsed_from(rest: Seq<u8>, used: int, v: Self) -> bool {
        &&& used == fuse_release_in::wire_size()
        &&& fuse_release_in::wire_size() <= rest.len()
        &&& v.spec_arg() == fuse_release_in::of_wire(rest.take(fuse_release_in::wire_size() as int))
    }

    open spec fn decode_err(o: Decoder<'b>, e: DecodeError) -> bool {
        if o.remaining().len() < fuse_release_in::wire_size() {
            e == DecodeError::NotEnough
        } else if !o.aligned_for(fuse_release_in::wire_align()) {
            e == DecodeError::AlignMismatch
        } else {
            false
        }
    }

    fn decode(de: &mut Decoder<'b>, proto: ProtocolVersion) -> (r: Result<Self, DecodeError>) {
        match de.fetch::<fuse_release_in>() {
            Ok(arg) => {
                proof {
                    assert(de.spec_full() == old(de).spec_full());
                    assert(de.spec_pos() == old(de).spec_pos() + fuse_release_in::wire_size());
                    assert(fuse_release_in::wire_size() <= old(de).remaining().len());
                    assert(arg == fuse_release_in::of_wire(old(de).remaining().take(
                        fuse_release_in::wire_size() as int,
                    )));
                }
                Ok(OpReleaseDir { arg })
            },
            Err(e) => Err(e),
        }
    }
}

/// FUSE_FLUSH: a handle to an open file is closed.
#[derive(Debug, Clone, Copy)]
pub struct OpFlush {
    arg: fuse_flush_in,
}

impl OpFlush {
    /// The request record the frame carried.
    pub closed spec fn spec_arg(&self) -> fuse_flush_in {
        self.arg
    }
}

impl<'b> Decode<'b> for OpFlush {
    open spec fn parsed_from(rest: Seq<u8>, used: int, v: Self) -> bool {
        &&& used == fuse_flush_in::wire_size()
        &&& fuse_flush_in::wire_size() <= rest.len()
        &&& v.spec_arg() == fuse_flush_in::of_wire(rest.take(fuse_flush_in::wire_size() as int))
    }

    open spec fn decode_err(o: Decoder<'b>, e: DecodeError) -> bool {
        if o.remaining().len() < fuse_flush_in::wire_size() {
            e == DecodeError::NotEnough
        } else if !o.aligned_for(fuse_flush_in::wire_align()) {
            e == DecodeError::AlignMismatch
        } else {
            false
        }
    }

    fn decode(de: &mut Decoder<'b>, proto: ProtocolVersion) -> (r: Result<Self, DecodeError>) {
        match de.fetch::<fuse_flush_in>() {
            Ok(arg) => {
                proof {
                    assert(de.spec_full() == old(de).spec_full());
                    assert(de.spec_pos() == old(de).spec_pos() + fuse_flush_in::wire_size());
                    assert(fuse_flush_in::wire_size() <= old(de).remaining().len());
                    assert(arg == fuse_flush_in::of_wire(old(de).remaining().take(
                        fuse_flush_in::wire_size() as int,
                    )));
                }
                Ok(OpFlush { arg })
            },
            Err(e) => Err(e),
        }
    }
}

/// FUSE_FSYNC: synchronize the contents of an open file.
#[derive(Debug, Clone, Copy)]
pub struct OpFSync {
    arg: fuse_fsync_in,
}

impl OpFSync {
    /// The request record the frame carried.
    pub closed spec fn spec_arg(&self) -> fuse_fsync_in {
        self.arg
    }
}

impl<'b> Decode<'b> for OpFSync {
    open spec fn parsed_from(rest: Seq<u8>, used: int, v: Self) -> bool {
        &&& used == fuse_fsync_in::wire_size()
        &&& fuse_fsync_in::wire_size() <= rest.len()
        &&& v.spec_arg() == fuse_fsync_in::of_wire(rest.take(fuse_fsync_in::wire_size() as int))
    }

    open spec fn decode_err(o: Decoder<'b>, e: DecodeError) -> bool {
        if o.remaining().len() < fuse_fsync_in::wire_size() {
            e == DecodeError::NotEnough
        } else if !o.aligned_for(fuse_fsync_in::wire_align()) {
            e == DecodeError::AlignMismatch
        } else {
            false
        }
    }

    fn decode(de: &mut Decoder<'b>, proto: ProtocolVersion) -> (r: Result<Self, DecodeError>) {
        match de.fetch::<fuse_fsync_in>() {
            Ok(arg) => {
                proof {
                    assert(de.spec_full() == old(de).spec_full());
                    assert(de.spec_pos() == old(de).spec_pos() + fuse_fsync_in::wire_size());
                    assert(fuse_fsync_in::wire_size() <= old(de).remaining().len());
                    assert(arg == fuse_fsync_in::of_wire(old(de).remaining().take(
                        fuse_fsync_in::wire_size() as int,
                    )));
                }
                Ok(OpFSync { arg })
            },
            Err(e) => Err(e),
        }
    }
}

/// FUSE_INTERRUPT: the kernel cancels the request with this unique id.
#[derive(Debug, Clone, Copy)]
pub struct OpInterrupt {
    arg: fuse_interrupt_in,
}

impl OpInterrupt {
    /// The request record the frame carried.
    pub closed spec fn spec_arg(&self) -> fuse_interrupt_in {
        self.arg
    }
}

impl<'b> Decode<'b> for OpInterrupt {
    open spec fn parsed_from(rest: Seq<u8>, used: int, v: Self) -> bool {
        &&& used == fuse_interrupt_in::wire_size()
        &&& fuse_interrupt_in::wire_size() <= rest.len()
        &&& v.spec_arg() == fuse_interrupt_in::of_wire(rest.take(fuse_interrupt_in::wire_size() as int))
    }

    open spec fn decode_err(o: Decoder<'b>, e: DecodeError) -> bool {
        if o.remaining().len() < fuse_interrupt_in::wire_size() {
            e == DecodeError::NotEnough
        } else if !o.aligned_for(fuse_interrupt_in::wire_align()) {
            e == DecodeError::AlignMismatch
        } else {
            false
        }
    }

    fn decode(de: &mut Decoder<'b>, proto: ProtocolVersion) -> (r: Result<Self, DecodeError>) {
        match de.fetch::<fuse_interrupt_in>() {
            Ok(arg) => {
                proof {
                    assert(de.spec_full() == old(de).spec_full());
                    assert(de.spec_pos() == old(de).spec_pos() + fuse_interrupt_in::wire_size());
                    assert(fuse_interrupt_in::wire_size() <= old(de).remaining().len());
                    assert(arg == fuse_interrupt_in::of_wire(old(de).remaining().take(
                        fuse_interrupt_in::wire_size() as int,
                    )));
                }
                Ok(OpInterrupt { arg })
            },
            Err(e) => Err(e),
        }
    }
}

/// FUSE_LOOKUP: look a name up in the directory named by the header.
#[derive(Debug)]
pub struct OpLookup<'b> {
    name: CBytes<'b>,
}

impl<'b> OpLookup<'b> {
    /// The name bytes, NUL terminator included.
    pub closed spec fn spec_name(&self) -> Seq<u8> {
        self.name@
    }

    /// The name, without its NUL terminator.
    pub fn name(&self) -> (r: &'b [u8])
        ensures
            r@ == self.spec_name().take(self.spec_name().len() - 1),
            !has_nul(r@),
    {
        self.name.as_bytes()
    }
}

impl<'b> Decode<'b> for OpLookup<'b> {
    open spec fn parsed_from(rest: Seq<u8>, used: int, v: Self) -> bool {
        &&& used == v.spec_name().len()
        &&& c_prefix(rest, used)
        &&& v.spec_name() == rest.take(used)
    }

    open spec fn decode_err(o: Decoder<'b>, e: DecodeError) -> bool {
        e == DecodeError::NotEnough && !has_nul(o.remaining())
    }

    fn decode(de: &mut Decoder<'b>, proto: ProtocolVersion) -> (r: Result<Self, DecodeError>) {
        match de.fetch_c_bytes() {
            Ok(name) => {
                proof {
                    assert forall|j: int| 0 <= j < name@.len() - 1 implies old(
                        de,
                    ).remaining()[j] != 0 by {
                        assert(name@[j] != 0);
                    }
                    assert(old(de).remaining()[name@.len() - 1] == name@.last());
                    assert(c_prefix(old(de).remaining(), name@.len() as int));
                }
                Ok(OpLookup { name })
            },
            Err(e) => Err(e),
        }
    }
}

/// FUSE_UNLINK: remove the name from the directory named by the header.
#[derive(Debug)]
pub struct OpUnlink<'b> {
    name: CBytes<'b>,
}

impl<'b> OpUnlink<'b> {
    /// The name bytes, NUL terminator included.
    pub closed spec fn spec_name(&self) -> Seq<u8> {
        self.name@
    }

    /// The name, without its NUL terminator.
    pub fn name(&self) -> (r: &'b [u8])
        ensures
            r@ == self.spec_name().take(self.spec_name().len() - 1),
            !has_nul(r@),
    {
        self.name.as_bytes()
    }
}

impl<'b> Decode<'b> for OpUnlink<'b> {
    open spec fn parsed_from(rest: Seq<u8>, used: int, v: Self) -> bool {
        &&& used == v.spec_name().len()
        &&& c_prefix(rest, used)
        &&& v.spec_name() == rest.take(used)
    }

    open spec fn decode_err(o: Decoder<'b>, e: DecodeError) -> bool {
        e == DecodeError::NotEnough && !has_nul(o.remaining())
    }

    fn decode(de: &mut Decoder<'b>, proto: ProtocolVersion) -> (r: Result<Self, DecodeError>) {
        match de.fetch_c_bytes() {
            Ok(name) => {
                proof {
                    assert forall|j: int| 0 <= j < name@.len() - 1 implies old(
                        de,
                    ).remaining()[j] != 0 by {
                        assert(name@[j] != 0);
                    }
                    assert(old(de).remaining()[name@.len() - 1] == name@.last());
                    assert(c_prefix(old(de).remaining(), name@.len() as int));
                }
                Ok(OpUnlink { name })
            },
            Err(e) => Err(e),
        }
    }
}

/// FUSE_RMDIR: remove the directory entry named in the body.
#[derive(Debug)]
pub struct OpRmDir<'b> {
    name: CBytes<'b>,
}

impl<'b> OpRmDir<'b> {
    /// The name bytes, NUL terminator included.
    pub closed spec fn spec_name(&self) -> Seq<u8> {
        self.name@
    }

    /// The name, without its NUL terminator.
    pub fn name(&self) -> (r: &'b [u8])
        ensures
            r@ == self.spec_name().take(self.spec_name().len() - 1),
            !has_nul(r@),
    {
        self.name.as_bytes()
    }
}

impl<'b> Decode<'b> for OpRmDir<'b> {
    open spec fn parsed_from(rest: Seq<u8>, used: int, v: Self) -> bool {
        &&& used == v.spec_name().len()
        &&& c_prefix(rest, used)
        &&& v.spec_name() == rest.take(used)
    }

    open spec fn decode_err(o: Decoder<'b>, e: DecodeError) -> bool {
        e == DecodeError::NotEnough && !has_nul(o.remaining())
    }

    fn decode(de: &mut Decoder<'b>, proto: ProtocolVersion) -> (r: Result<Self, DecodeError>) {
        match de.fetch_c_bytes() {
            Ok(name) => {
                proof {
                    assert forall|j: int| 0 <= j < name@.len() - 1 implies old(
                        de,
                    ).remaining()[j] != 0 by {
                        assert(name@[j] != 0);
                    }
                    assert(old(de).remaining()[name@.len() - 1] == name@.last());
                    assert(c_prefix(old(de).remaining(), name@.len() as int));
                }
                Ok(OpRmDir { name })
            },
            Err(e) => Err(e),
        }
    }
}

/// FUSE_SYMLINK: create a symbolic link; the body carries the new
/// name and then the link target.
#[derive(Debug)]
pub struct OpSymLink<'b> {
    name: CBytes<'b>,
    link: CBytes<'b>,
}

impl<'b> OpSymLink<'b> {
    /// The new name's bytes, NUL terminator included.
    pub closed spec fn spec_name(&self) -> Seq<u8> {
        self.name@
    }

    /// The link target's bytes, NUL terminator included.
    pub closed spec fn spec_link(&self) -> Seq<u8> {
        self.link@
    }

    /// The new name, without its NUL terminator.
    pub fn name(&self) -> (r: &'b [u8])
        ensures
            r@ == self.spec_name().take(self.spec_name().len() - 1),
            !has_nul(r@),
    {
        self.name.as_bytes()
    }

    /// The link target, without its NUL terminator.
    pub fn link(&self) -> (r: &'b [u8])
        ensures
            r@ == self.spec_link().take(self.spec_link().len() - 1),
            !has_nul(r@),
    {
        self.link.as_bytes()
    }
}

impl<'b> Decode<'b> for OpSymLink<'b> {
    open spec fn parsed_from(rest: Seq<u8>, used: int, v: Self) -> bool {
        let k1 = v.spec_name().len() as int;
        let k2 = v.spec_link().len() as int;
        &&& used == k1 + k2
        &&& c_prefix(rest, k1)
        &&& v.spec_name() == rest.take(k1)
        &&& c_prefix(rest.skip(k1), k2)
        &&& v.spec_link() == rest.skip(k1).take(k2)
    }

    open spec fn decode_err(o: Decoder<'b>, e: DecodeError) -> bool {
        &&& e == DecodeError::NotEnough
        &&& (!has_nul(o.remaining()) || exists|k: int|
            #[trigger] c_prefix(o.remaining(), k) && !has_nul(o.remaining().skip(k)))
    }

    fn decode(de: &mut Decoder<'b>, proto: ProtocolVersion) -> (r: Result<Self, DecodeError>) {
        let ghost rem0 = de.remaining();
        let name = match de.fetch_c_bytes() {
            Ok(name) => name,
            Err(e) => {
                return Err(e);
            },
        };
        proof {
            assert forall|j: int| 0 <= j < name@.len() - 1 implies rem0[j] != 0 by {
                assert(name@[j] != 0);
            }
            assert(rem0[name@.len() - 1] == name@.last());
            assert(c_prefix(rem0, name@.len() as int));
        }
        let ghost rem1 = de.remaining();
        proof {
            assert(rem1 =~= rem0.skip(name@.len() as int));
        }
        match de.fetch_c_bytes() {
            Ok(link) => {
                proof {
                    assert forall|j: int| 0 <= j < link@.len() - 1 implies rem1[j] != 0 by {
                        assert(link@[j] != 0);
                    }
                    assert(rem1[link@.len() - 1] == link@.last());
                    assert(c_prefix(rem1, link@.len() as int));
                    assert(link@ =~= rem1.take(link@.len() as int));
                }
                Ok(OpSymLink { name, link })
            },
            Err(e) => Err(e),
        }
    }
}

/// FUSE_LINK: hard-link an inode under a new name.
#[derive(Debug)]
pub struct OpLink<'b> {
    arg: fuse_link_in,
    name: CBytes<'b>,
}

impl<'b> OpLink<'b> {
    /// The request record the frame carried.
    pub closed spec fn spec_arg(&self) -> fuse_link_in {
        self.arg
    }

    /// The name bytes, NUL terminator included.
    pub closed spec fn spec_name(&self) -> Seq<u8> {
        self.name@
    }

    /// The name, without its NUL terminator.
    pub fn name(&self) -> (r: &'b [u8])
        ensures
            r@ == self.spec_name().take(self.spec_name().len() - 1),
            !has_nul(r@),
    {
        self.name.as_bytes()
    }
}

impl<'b> Decode<'b> for OpLink<'b> {
    open spec fn parsed_from(rest: Seq<u8>, used: int, v: Self) -> bool {
        let size = fuse_link_in::wire_size() as int;
        let k = v.spec_name().len() as int;
        &&& used == size + k
        &&& size <= rest.len()
        &&& v.spec_arg() == fuse_link_in::of_wire(rest.take(size))
        &&& c_prefix(rest.skip(size), k)
        &&& v.spec_name() == rest.skip(size).take(k)
    }

    open spec fn decode_err(o: Decoder<'b>, e: DecodeError) -> bool {
        if o.remaining().len() < fuse_link_in::wire_size() {
            e == DecodeError::NotEnough
        } else if !o.aligned_for(fuse_link_in::wire_align()) {
            e == DecodeError::AlignMismatch
        } else {
            e == DecodeError::NotEnough && !has_nul(o.remaining().skip(fuse_link_in::wire_size() as int))
        }
    }

    fn decode(de: &mut Decoder<'b>, proto: ProtocolVersion) -> (r: Result<Self, DecodeError>) {
        let ghost rem0 = de.remaining();
        let arg = match de.fetch::<fuse_link_in>() {
            Ok(arg) => arg,
            Err(e) => {
                return Err(e);
            },
        };
        proof {
            assert(de.spec_full() == old(de).spec_full());
            assert(de.spec_pos() == old(de).spec_pos() + fuse_link_in::wire_size());
            assert(fuse_link_in::wire_size() <= rem0.len());
            assert(arg == fuse_link_in::of_wire(rem0.take(fuse_link_in::wire_size() as int)));
        }
        let ghost rem1 = de.remaining();
        proof {
            assert(rem1 =~= rem0.skip(fuse_link_in::wire_size() as int));
        }
        match de.fetch_c_bytes() {
            Ok(name) => {
                proof {
                    assert forall|j: int| 0 <= j < name@.len() - 1 implies rem1[j] != 0 by {
                        assert(name@[j] != 0);
                    }
                    assert(rem1[name@.len() - 1] == name@.last());
                    assert(c_prefix(rem1, name@.len() as int));
                    assert(name@ =~= rem1.take(name@.len() as int));
                }
                Ok(OpLink { arg, name })
            },
            Err(e) => Err(e),
        }
    }
}

/// FUSE_MKNOD: create a file node under a new name.
#[derive(Debug)]
pub struct OpMkNod<'b> {
    arg: fuse_mknod_in,
    name: CBytes<'b>,
}

impl<'b> OpMkNod<'b> {
    /// The request record the frame carried.
    pub closed spec fn spec_arg(&self) -> fuse_mknod_in {
        self.arg
    }

    /// The name bytes, NUL terminator included.
    pub closed spec fn spec_name(&self) -> Seq<u8> {
        self.name@
    }

    /// The name, without its NUL terminator.
    pub fn name(&self) -> (r: &'b [u8])
        ensures
            r@ == self.spec_name().take(self.spec_name().len() - 1),
            !has_nul(r@),
    {
        self.name.as_bytes()
    }
}

impl<'b> Decode<'b> for OpMkNod<'b> {
    open spec fn parsed_from(rest: Seq<u8>, used: int, v: Self) -> bool {
        let size = fuse_mknod_in::wire_size() as int;
        let k = v.spec_name().len() as int;
        &&& used == size + k
        &&& size <= rest.len()
        &&& v.spec_arg() == fuse_mknod_in::of_wire(rest.take(size))
        &&& c_prefix(rest.skip(size), k)
        &&& v.spec_name() == rest.skip(size).take(k)
    }

    open spec fn decode_err(o: Decoder<'b>, e: DecodeError) -> bool {
        if o.remaining().len() < fuse_mknod_in::wire_size() {
            e == DecodeError::NotEnough
        } else if !o.aligned_for(fuse_mknod_in::wire_align()) {
            e == DecodeError::AlignMismatch
        } else {
            e == DecodeError::NotEnough && !has_nul(o.remaining().skip(fuse_mknod_in::wire_size() as int))
        }
    }

    fn decode(de: &mut Decoder<'b>, proto: ProtocolVersion) -> (r: Result<Self, DecodeError>) {
        let ghost rem0 = de.remaining();
        let arg = match de.fetch::<fuse_mknod_in>() {
            Ok(arg) => arg,
            Err(e) => {
                return Err(e);
            },
        };
        proof {
            assert(de.spec_full() == old(de).spec_full());
            assert(de.spec_pos() == old(de).spec_pos() + fuse_mknod_in::wire_size());
            assert(fuse_mknod_in::wire_size() <= rem0.len());
            assert(arg == fuse_mknod_in::of_wire(rem0.take(fuse_mknod_in::wire_size() as int)));
        }
        let ghost rem1 = de.remaining();
        proof {
            assert(rem1 =~= rem0.skip(fuse_mknod_in::wire_size() as int));
        }
        match de.fetch_c_bytes() {
            Ok(name) => {
                proof {
                    assert forall|j: int| 0 <= j < name@.len() - 1 implies rem1[j] != 0 by {
                        assert(name@[j] != 0);
                    }
                    assert(rem1[name@.len() - 1] == name@.last());
                    assert(c_prefix(rem1, name@.len() as int));
                    assert(name@ =~= rem1.take(name@.len() as int));
                }
                Ok(OpMkNod { arg, name })
            },
            Err(e) => Err(e),
        }
    }
}

/// FUSE_MKDIR: create a directory under a new name.
#[derive(Debug)]
pub struct OpMkDir<'b> {
    arg: fuse_mkdir_in,
    name: CBytes<'b>,
}

impl<'b> OpMkDir<'b> {
    /// The request record the frame carried.
    pub closed spec fn spec_arg(&self) -> fuse_mkdir_in {
        self.arg
    }

    /// The name bytes, NUL terminator included.
    pub closed spec fn spec_name(&self) -> Seq<u8> {
        self.name@
    }

    /// The name, without its NUL terminator.
    pub fn name(&self) -> (r: &'b [u8])
        ensures
            r@ == self.spec_name().take(self.spec_name().len() - 1),
            !has_nul(r@),
    {
        self.name.as_bytes()
    }
}

impl<'b> Decode<'b> for OpMkDir<'b> {
    open spec fn parsed_from(rest: Seq<u8>, used: int, v: Self) -> bool {
        let size = fuse_mkdir_in::wire_size() as int;
        let k = v.spec_name().len() as int;
        &&& used == size + k
        &&& size <= rest.len()
        &&& v.spec_arg() == fuse_mkdir_in::of_wire(rest.take(size))
        &&& c_prefix(rest.skip(size), k)
        &&& v.spec_name() == rest.skip(size).take(k)
    }

    open spec fn decode_err(o: Decoder<'b>, e: DecodeError) -> bool {
        if o.remaining().len() < fuse_mkdir_in::wire_size() {
            e == DecodeError::NotEnough
        } else if !o.aligned_for(fuse_mkdir_in::wire_align()) {
            e == DecodeError::AlignMismatch
        } else {
            e == DecodeError::NotEnough && !has_nul(o.remaining().skip(fuse_mkdir_in::wire_size() as int))
        }
    }

    fn decode(de: &mut Decoder<'b>, proto: ProtocolVersion) -> (r: Result<Self, DecodeError>) {
        let ghost rem0 = de.remaining();
        let arg = match de.fetch::<fuse_mkdir_in>() {
            Ok(arg) => arg,
            Err(e) => {
                return Err(e);
            },
        };
        proof {
            assert(de.spec_full() == old(de).spec_full());
            assert(de.spec_pos() == old(de).spec_pos() + fuse_mkdir_in::wire_size());
            assert(fuse_mkdir_in::wire_size() <= rem0.len());
            assert(arg == fuse_mkdir_in::of_wire(rem0.take(fuse_mkdir_in::wire_size() as int)));
        }
        let ghost rem1 = de.remaining();
        proof {
            assert(rem1 =~= rem0.skip(fuse_mkdir_in::wire_size() as int));
        }
        match de.fetch_c_bytes() {
            Ok(name) => {
                proof {
                    assert forall|j: int| 0 <= j < name@.len() - 1 implies rem1[j] != 0 by {
                        assert(name@[j] != 0);
                    }
                    assert(rem1[name@.len() - 1] == name@.last());
                    assert(c_prefix(rem1, name@.len() as int));
                    assert(name@ =~= rem1.take(name@.len() as int));
                }
                Ok(OpMkDir { arg, name })
            },
            Err(e) => Err(e),
        }
    }
}

/// FUSE_GETXATTR: read an extended attribute by name.
#[derive(Debug)]
pub struct OpGetXAttr<'b> {
    arg: fuse_getxattr_in,
    name: CBytes<'b>,
}

impl<'b> OpGetXAttr<'b> {
    /// The request record the frame carried.
    pub closed spec fn spec_arg(&self) -> fuse_getxattr_in {
        self.arg
    }

    /// The name bytes, NUL terminator included.
    pub closed spec fn spec_name(&self) -> Seq<u8> {
        self.name@
    }

    /// The name, without its NUL terminator.
    pub fn name(&self) -> (r: &'b [u8])
        ensures
            r@ == self.spec_name().take(self.spec_name().len() - 1),
            !has_nul(r@),
    {
        self.name.as_bytes()
    }
}

impl<'b> Decode<'b> for OpGetXAttr<'b> {
    open spec fn parsed_from(rest: Seq<u8>, used: int, v: Self) -> bool {
        let size = fuse_getxattr_in::wire_size() as int;
        let k = v.spec_name().len() as int;
        &&& used == size + k
        &&& size <= rest.len()
        &&& v.spec_arg() == fuse_getxattr_in::of_wire(rest.take(size))
        &&& c_prefix(rest.skip(size), k)
        &&& v.spec_name() == rest.skip(size).take(k)
    }

    open spec fn decode_err(o: Decoder<'b>, e: DecodeError) -> bool {
        if o.remaining().len() < fuse_getxattr_in::wire_size() {
            e == DecodeError::NotEnough
        } else if !o.aligned_for(fuse_getxattr_in::wire_align()) {
            e == DecodeError::AlignMismatch
        } else {
            e == DecodeError::NotEnough && !has_nul(o.remaining().skip(fuse_getxattr_in::wire_size() as int))
        }
    }

    fn decode(de: &mut Decoder<'b>, proto: ProtocolVersion) -> (r: Result<Self, DecodeError>) {
        let ghost rem0 = de.remaining();
        let arg = match de.fetch::<fuse_getxattr_in>() {
            Ok(arg) => arg,
            Err(e) => {
                return Err(e);
            },
        };
        proof {
            assert(de.spec_full() == old(de).spec_full());
            assert(de.spec_pos() == old(de).spec_pos() + fuse_getxattr_in::wire_size());
            assert(fuse_getxattr_in::wire_size() <= rem0.len());
            assert(arg == fuse_getxattr_in::of_wire(rem0.take(fuse_getxattr_in::wire_size() as int)));
        }
        let ghost rem1 = de.remaining();
        proof {
            assert(rem1 =~= rem0.skip(fuse_getxattr_in::wire_size() as int));
        }
        match de.fetch_c_bytes() {
            Ok(name) => {
                proof {
                    assert forall|j: int| 0 <= j < name@.len() - 1 implies rem1[j] != 0 by {
                        assert(name@[j] != 0);
                    }
                    assert(rem1[name@.len() - 1] == name@.last());
                    assert(c_prefix(rem1, name@.len() as int));
                    assert(name@ =~= rem1.take(name@.len() as int));
                }
                Ok(OpGetXAttr { arg, name })
            },
            Err(e) => Err(e),
        }
    }
}

/// FUSE_WRITE: write bytes to an open file; the body ends with the
/// data to write.
#[derive(Debug)]
pub struct OpWrite<'b> {
    arg: fuse_write_in,
    data: &'b [u8],
}

impl<'b> OpWrite<'b> {
    /// The request record the frame carried.
    pub closed spec fn spec_arg(&self) -> fuse_write_in {
        self.arg
    }

    /// The bytes to write.
    pub closed spec fn spec_data(&self) -> Seq<u8> {
        self.data@
    }

    /// The `fh` field of the request.
    pub fn fh(&self) -> (r: u64)
        ensures
            r == self.spec_arg().fh,
    {
        self.arg.fh
    }

    /// The `offset` field of the request.
    pub fn offset(&self) -> (r: u64)
        ensures
            r == self.spec_arg().offset,
    {
        self.arg.offset
    }

    /// The `size` field of the request.
    pub fn size(&self) -> (r: u32)
        ensures
            r == self.spec_arg().size,
    {
        self.arg.size
    }

    /// The bytes to write.
    pub fn data(&self) -> (r: &'b [u8])
        ensures
            r@ == self.spec_data(),
    {
        self.data
    }
}

impl<'b> Decode<'b> for OpWrite<'b> {
    open spec fn parsed_from(rest: Seq<u8>, used: int, v: Self) -> bool {
        let size = fuse_write_in::wire_size() as int;
        &&& used == rest.len()
        &&& size <= rest.len()
        &&& v.spec_arg() == fuse_write_in::of_wire(rest.take(size))
        &&& v.spec_data() == rest.skip(size)
    }

    open spec fn decode_err(o: Decoder<'b>, e: DecodeError) -> bool {
        if o.remaining().len() < fuse_write_in::wire_size() {
            e == DecodeError::NotEnough
        } else if !o.aligned_for(fuse_write_in::wire_align()) {
            e == DecodeError::AlignMismatch
        } else {
            false
        }
    }

    fn decode(de: &mut Decoder<'b>, proto: ProtocolVersion) -> (r: Result<Self, DecodeError>) {
        let ghost rem0 = de.remaining();
        let arg = match de.fetch::<fuse_write_in>() {
            Ok(arg) => arg,
            Err(e) => {
                return Err(e);
            },
        };
        match de.fetch_all_bytes() {
            Ok(data) => {
                proof {
                    assert(data@ =~= rem0.skip(fuse_write_in::wire_size() as int));
                }
                Ok(OpWrite { arg, data })
            },
            Err(e) => Err(e),
        }
    }
}

/// FUSE_READLINK: read the target of the symbolic link named by the header. The body is empty.
#[derive(Debug, Clone, Copy)]
pub struct OpReadLink;

impl<'b> Decode<'b> for OpReadLink {
    open spec fn parsed_from(rest: Seq<u8>, used: int, v: Self) -> bool {
        used == 0
    }

    open spec fn decode_err(o: Decoder<'b>, e: DecodeError) -> bool {
        false
    }

    fn decode(de: &mut Decoder<'b>, proto: ProtocolVersion) -> (r: Result<Self, DecodeError>) {
        Ok(OpReadLink)
    }
}

/// FUSE_STATFS: read filesystem statistics. The body is empty.
#[derive(Debug, Clone, Copy)]
pub struct OpStatFs;

impl<'b> Decode<'b> for OpStatFs {
    open spec fn parsed_from(rest: Seq<u8>, used: int, v: Self) -> bool {
        used == 0
    }

    open spec fn decode_err(o: Decoder<'b>, e: DecodeError) -> bool {
        false
    }

    fn decode(de: &mut Decoder<'b>, proto: ProtocolVersion) -> (r: Result<Self, DecodeError>) {
        Ok(OpStatFs)
    }
}

/// One FUSE request, decoded: a variant per supported opcode.
#[derive(Debug)]
pub enum Operation<'b> {
    Flush(OpFlush),
    FSync(OpFSync),
    Forget(OpForget),
    GetAttr(OpGetAttr),
    GetXAttr(OpGetXAttr<'b>),
    Init(OpInit),
    Interrupt(OpInterrupt),
    Lookup(OpLookup<'b>),
    MkDir(OpMkDir<'b>),
    MkNod(OpMkNod<'b>),
    Open(OpOpen),
    OpenDir(OpOpenDir),
    Read(OpRead),
    ReadDir(OpReadDir),
    ReadLink(OpReadLink),
    Release(OpRelease),
    ReleaseDir(OpReleaseDir),
    RmDir(OpRmDir<'b>),
    SetAttr(OpSetAttr),
    StatFs(OpStatFs),
    SymLink(OpSymLink<'b>),
    Unlink(OpUnlink<'b>),
    Write(OpWrite<'b>),
}

/// The exact relation between a decoded operation and the request
/// body it was parsed from: the variant matches the opcode and the
/// typed view consumed the whole body.
pub open spec fn op_parsed(op: Operation<'_>, opcode: u32, rest: Seq<u8>) -> bool {
    match op {
        Operation::Flush(x) => opcode == FUSE_FLUSH && OpFlush::parsed_from(rest, rest.len() as int, x),
        Operation::FSync(x) => opcode == FUSE_FSYNC && OpFSync::parsed_from(rest, rest.len() as int, x),
        Operation::Forget(x) => opcode == FUSE_FORGET && OpForget::parsed_from(rest, rest.len() as int, x),
        Operation::GetAttr(x) => opcode == FUSE_GETATTR && OpGetAttr::parsed_from(rest, rest.len() as int, x),
        Operation::GetXAttr(x) => opcode == FUSE_GETXATTR && OpGetXAttr::parsed_from(rest, rest.len() as int, x),
        Operation::Init(x) => opcode == FUSE_INIT && OpInit::parsed_from(rest, rest.len() as int, x),
        Operation::Interrupt(x) => opcode == FUSE_INTERRUPT && OpInterrupt::parsed_from(rest, rest.len() as int, x),
        Operation::Lookup(x) => opcode == FUSE_LOOKUP && OpLookup::parsed_from(rest, rest.len() as int, x),
        Operation::MkDir(x) => opcode == FUSE_MKDIR && OpMkDir::parsed_from(rest, rest.len() as int, x),
        Operation::MkNod(x) => opcode == FUSE_MKNOD && OpMkNod::parsed_from(rest, rest.len() as int, x),
        Operation::Open(x) => opcode == FUSE_OPEN && OpOpen::parsed_from(rest, rest.len() as int, x),
        Operation::OpenDir(x) => opcode == FUSE_OPENDIR && OpOpenDir::parsed_from(rest, rest.len() as int, x),
        Operation::Read(x) => opcode == FUSE_READ && OpRead::parsed_from(rest, rest.len() as int, x),
        Operation::ReadDir(x) => opcode == FUSE_READDIR && OpReadDir::parsed_from(rest, rest.len() as int, x),
        Operation::ReadLink(x) => opcode == FUSE_READLINK && OpReadLink::parsed_from(rest, rest.len() as int, x),
        Operation::Release(x) => opcode == FUSE_RELEASE && OpRelease::parsed_from(rest, rest.len() as int, x),
        Operation::ReleaseDir(x) => opcode == FUSE_RELEASEDIR && OpReleaseDir::parsed_from(rest, rest.len() as int, x),
        Operation::RmDir(x) => opcode == FUSE_RMDIR && OpRmDir::parsed_from(rest, rest.len() as int, x),
        Operation::SetAttr(x) => opcode == FUSE_SETATTR && OpSetAttr::parsed_from(rest, rest.len() as int, x),
        Operation::StatFs(x) => opcode == FUSE_STATFS && OpStatFs::parsed_from(rest, rest.len() as int, x),
        Operation::SymLink(x) => opcode == FUSE_SYMLINK && OpSymLink::parsed_from(rest, rest.len() as int, x),
        Operation::Unlink(x) => opcode == FUSE_UNLINK && OpUnlink::parsed_from(rest, rest.len() as int, x),
        Operation::Write(x) => opcode == FUSE_WRITE && OpWrite::parsed_from(rest, rest.len() as int, x),
    }
}

/// The opcodes this runtime decodes.
pub open spec fn opcode_known(opcode: u32) -> bool {
    ||| opcode == FUSE_FLUSH
    ||| opcode == FUSE_FSYNC
    ||| opcode == FUSE_FORGET
    ||| opcode == FUSE_GETATTR
    ||| opcode == FUSE_GETXATTR
    ||| opcode == FUSE_INIT
    ||| opcode == FUSE_INTERRUPT
    ||| opcode == FUSE_LOOKUP
    ||| opcode == FUSE_MKDIR
    ||| opcode == FUSE_MKNOD
    ||| opcode == FUSE_OPEN
    ||| opcode == FUSE_OPENDIR
    ||| opcode == FUSE_READ
    ||| opcode == FUSE_READDIR
    ||| opcode == FUSE_READLINK
    ||| opcode == FUSE_RELEASE
    ||| opcode == FUSE_RELEASEDIR
    ||| opcode == FUSE_RMDIR
    ||| opcode == FUSE_SETATTR
    ||| opcode == FUSE_STATFS
    ||| opcode == FUSE_SYMLINK
    ||| opcode == FUSE_UNLINK
    ||| opcode == FUSE_WRITE
}

/// Whether the opcode names an operation this runtime decodes.
pub fn opcode_is_known(opcode: u32) -> (r: bool)
    ensures
        r == opcode_known(opcode),
{
    opcode == FUSE_FLUSH
        || opcode == FUSE_FSYNC
        || opcode == FUSE_FORGET
        || opcode == FUSE_GETATTR
        || opcode == FUSE_GETXATTR
        || opcode == FUSE_INIT
        || opcode == FUSE_INTERRUPT
        || opcode == FUSE_LOOKUP
        || opcode == FUSE_MKDIR
        || opcode == FUSE_MKNOD
        || opcode == FUSE_OPEN
        || opcode == FUSE_OPENDIR
        || opcode == FUSE_READ
        || opcode == FUSE_READDIR
        || opcode == FUSE_READLINK
        || opcode == FUSE_RELEASE
        || opcode == FUSE_RELEASEDIR
        || opcode == FUSE_RMDIR
        || opcode == FUSE_SETATTR
        || opcode == FUSE_STATFS
        || opcode == FUSE_SYMLINK
        || opcode == FUSE_UNLINK
        || opcode == FUSE_WRITE
}

/// The decode error of a fixed-size request body, if any: the body
/// must hold the record exactly.
pub open spec fn body_fixed_err(rest: Seq<u8>, size: nat) -> Option<DecodeError> {
    if rest.len() < size {
        Some(DecodeError::NotEnough)
    } else if rest.len() > size {
        Some(DecodeError::TooMuchData)
    } else {
        None
    }
}

/// The decode error of a body holding one NUL-terminated name, if any:
/// the name's NUL must be the body's last byte.
pub open spec fn body_name_err(rest: Seq<u8>) -> Option<DecodeError> {
    if !has_nul(rest) {
        Some(DecodeError::NotEnough)
    } else if exists|k: int| #[trigger] c_prefix(rest, k) && k < rest.len() {
        Some(DecodeError::TooMuchData)
    } else {
        None
    }
}

/// The decode error of a body holding a record followed by one
/// NUL-terminated name, if any.
pub open spec fn body_arg_name_err(rest: Seq<u8>, size: nat) -> Option<DecodeError> {
    if rest.len() < size {
        Some(DecodeError::NotEnough)
    } else {
        body_name_err(rest.skip(size as int))
    }
}

/// The decode error of a body holding two NUL-terminated names, if
/// any.
pub open spec fn body_two_names_err(rest: Seq<u8>) -> Option<DecodeError> {
    if !has_nul(rest) {
        Some(DecodeError::NotEnough)
    } else if exists|k: int| #[trigger] c_prefix(rest, k) && !has_nul(rest.skip(k)) {
        Some(DecodeError::NotEnough)
    } else if exists|k1: int, k2: int|
        #[trigger] c_prefix(rest, k1) && #[trigger] c_prefix(rest.skip(k1), k2) && k1 + k2
            < rest.len() {
        Some(DecodeError::TooMuchData)
    } else {
        None
    }
}

/// The decode error of a body holding a record followed by raw data,
/// if any: everything after the record is the data.
pub open spec fn body_arg_data_err(rest: Seq<u8>, size: nat) -> Option<DecodeError> {
    if rest.len() < size {
        Some(DecodeError::NotEnough)
    } else {
        None
    }
}

/// The decode error of an empty request body, if any.
pub open spec fn body_empty_err(rest: Seq<u8>) -> Option<DecodeError> {
    if rest.len() > 0 {
        Some(DecodeError::TooMuchData)
    } else {
        None
    }
}

/// The decode error of the request body for a known opcode, if any.
pub open spec fn spec_body_err(opcode: u32, rest: Seq<u8>) -> Option<DecodeError> {
    if opcode == FUSE_FLUSH {
        body_fixed_err(rest, fuse_flush_in::wire_size())
    } else if opcode == FUSE_FSYNC {
        body_fixed_err(rest, fuse_fsync_in::wire_size())
    } else if opcode == FUSE_FORGET {
        body_fixed_err(rest, fuse_forget_in::wire_size())
    } else if opcode == FUSE_GETATTR {
        body_fixed_err(rest, fuse_getattr_in::wire_size())
    } else if opcode == FUSE_GETXATTR {
        body_arg_name_err(rest, fuse_getxattr_in::wire_size())
    } else if opcode == FUSE_INIT {
        body_fixed_err(rest, fuse_init_in::wire_size())
    } else if opcode == FUSE_INTERRUPT {
        body_fixed_err(rest, fuse_interrupt_in::wire_size())
    } else if opcode == FUSE_LOOKUP {
        body_name_err(rest)
    } else if opcode == FUSE_MKDIR {
        body_arg_name_err(rest, fuse_mkdir_in::wire_size())
    } else if opcode == FUSE_MKNOD {
        body_arg_name_err(rest, fuse_mknod_in::wire_size())
    } else if opcode == FUSE_OPEN {
        body_fixed_err(rest, fuse_open_in::wire_size())
    } else if opcode == FUSE_OPENDIR {
        body_fixed_err(rest, fuse_open_in::wire_size())
    } else if opcode == FUSE_READ {
        body_fixed_err(rest, fuse_read_in::wire_size())
    } else if opcode == FUSE_READDIR {
        body_fixed_err(rest, fuse_read_in::wire_size())
    } else if opcode == FUSE_READLINK {
        body_empty_err(rest)
    } else if opcode == FUSE_RELEASE {
        body_fixed_err(rest, fuse_release_in::wire_size())
    } else if opcode == FUSE_RELEASEDIR {
        body_fixed_err(rest, fuse_release_in::wire_size())
    } else if opcode == FUSE_RMDIR {
        body_name_err(rest)
    } else if opcode == FUSE_SETATTR {
        body_fixed_err(rest, fuse_setattr_in::wire_size())
    } else if opcode == FUSE_STATFS {
        body_empty_err(rest)
    } else if opcode == FUSE_SYMLINK {
        body_two_names_err(rest)
    } else if opcode == FUSE_UNLINK {
        body_name_err(rest)
    } else if opcode == FUSE_WRITE {
        body_arg_data_err(rest, fuse_write_in::wire_size())
    } else {
        None
    }
}

/// Once one NUL-terminated name is decoded from a body, the one-name
/// body spec is decided: the body parses exactly when the name's NUL
/// is its last byte.
pub proof fn lemma_body_name_outcome(rest: Seq<u8>, k: int)
    requires
        c_prefix(rest, k),
    ensures
        k == rest.len() ==> body_name_err(rest) is None,
        k < rest.len() ==> body_name_err(rest) == Some(DecodeError::TooMuchData),
{
    assert(has_nul(rest)) by {
        assert(0 <= k - 1 < rest.len() && rest[k - 1] == 0);
    }
    assert forall|k2: int| #[trigger] c_prefix(rest, k2) implies k2 == k by {
        crate::c_bytes::lemma_c_prefix_unique(rest, k, k2);
    }
    if k < rest.len() {
        assert(c_prefix(rest, k) && k < rest.len());
    }
}

/// Once two NUL-terminated names are decoded from a body, the two-name
/// body spec is decided the same way.
pub proof fn lemma_body_two_names_outcome(rest: Seq<u8>, k1: int, k2: int)
    requires
        c_prefix(rest, k1),
        c_prefix(rest.skip(k1), k2),
    ensures
        k1 + k2 == rest.len() ==> body_two_names_err(rest) is None,
        k1 + k2 < rest.len() ==> body_two_names_err(rest) == Some(DecodeError::TooMuchData),
{
    assert(has_nul(rest)) by {
        assert(0 <= k1 - 1 < rest.len() && rest[k1 - 1] == 0);
    }
    assert(has_nul(rest.skip(k1))) by {
        assert(rest.skip(k1)[k2 - 1] == 0);
    }
    assert forall|ka: int| #[trigger] c_prefix(rest, ka) implies ka == k1 by {
        crate::c_bytes::lemma_c_prefix_unique(rest, k1, ka);
    }
    assert forall|kb: int| #[trigger] c_prefix(rest.skip(k1), kb) implies kb == k2 by {
        crate::c_bytes::lemma_c_prefix_unique(rest.skip(k1), k2, kb);
    }
    if k1 + k2 < rest.len() {
        assert(c_prefix(rest, k1) && c_prefix(rest.skip(k1), k2) && k1 + k2 < rest.len());
    }
}

} // verus!
