//! The context of a FUSE request: a frame parsed into a typed
//! operation, and the one reply owed for it.
//!
//! [`parse`] turns a raw request frame into the header and the typed
//! operation, consuming the frame exactly. [`FuseContext`] pairs the
//! parsed header with the negotiated protocol version; its `reply` and
//! `reply_err` build the length-prefixed reply frame and hand it to a
//! [`FuseWrite`] endpoint, consuming the context, so each request is
//! answered at most once.

use crate::abi::FuseAbiData;
use crate::decode::Decode;
use crate::decode::DecodeError;
use crate::decode::Decoder;
use crate::encode::add_bytes;
use crate::encode::Encode;
use crate::errno::Errno;
use crate::kernel::fuse_in_header;
use crate::kernel::fuse_out_header;
use crate::kernel::FUSE_FLUSH;
use crate::kernel::FUSE_FORGET;
use crate::kernel::FUSE_FSYNC;
use crate::kernel::FUSE_GETATTR;
use crate::kernel::FUSE_GETXATTR;
use crate::kernel::FUSE_INIT;
use crate::kernel::FUSE_INTERRUPT;
use crate::kernel::FUSE_LOOKUP;
use crate::kernel::FUSE_MKDIR;
use crate::kernel::FUSE_MKNOD;
use crate::kernel::FUSE_OPEN;
use crate::kernel::FUSE_OPENDIR;
use crate::kernel::FUSE_READ;
use crate::kernel::FUSE_READDIR;
use crate::kernel::FUSE_READLINK;
use crate::kernel::FUSE_RELEASE;
use crate::kernel::FUSE_RELEASEDIR;
use crate::kernel::FUSE_RMDIR;
use crate::kernel::FUSE_SETATTR;
use crate::kernel::FUSE_STATFS;
use crate::kernel::FUSE_SYMLINK;
use crate::kernel::FUSE_UNLINK;
use crate::kernel::FUSE_WRITE;
use crate::ops::op_parsed;
use crate::ops::opcode_known;
use crate::ops::spec_body_err;
use crate::ops::FuseInHeader;
use crate::ops::IsReplyOf;
use crate::ops::OpFSync;
use crate::ops::OpFlush;
use crate::ops::OpForget;
use crate::ops::OpGetAttr;
use crate::ops::OpGetXAttr;
use crate::ops::OpInit;
use crate::ops::OpInterrupt;
use crate::ops::OpLookup;
use crate::ops::OpMkDir;
use crate::ops::OpMkNod;
use crate::ops::OpOpen;
use crate::ops::OpOpenDir;
use crate::ops::OpRead;
use crate::ops::OpReadDir;
use crate::ops::OpReadLink;
use crate::ops::OpRelease;
use crate::ops::OpReleaseDir;
use crate::ops::OpRmDir;
use crate::ops::OpSetAttr;
use crate::ops::OpStatFs;
use crate::ops::OpSymLink;
use crate::ops::OpUnlink;
use crate::ops::OpWrite;
use crate::ops::Operation;
use crate::write::FuseWrite;
use vstd::bytes::spec_u32_to_le_bytes;
use vstd::prelude::*;

verus! {

broadcast use vstd::slice::group_slice_axioms;

/// The protocol version negotiated with the kernel during the INIT
/// handshake.
#[derive(Debug, Clone, Copy, PartialEq, Eq, Structural)]
pub struct ProtocolVersion {
    /// Major version number.
    pub major: u32,
    /// Minor version number.
    pub minor: u32,
}

/// Decodes one typed value from the cursor.
pub fn decode<'b, T: Decode<'b>>(de: &mut Decoder<'b>, proto: ProtocolVersion) -> (r: Result<
    T,
    DecodeError,
>)
    ensures
        old(de).spec_pos() <= old(de).spec_full().len(),
        final(de).spec_pos() <= final(de).spec_full().len(),
        match r {
            Ok(v) => {
                &&& final(de).spec_full() == old(de).spec_full()
                &&& final(de).spec_start() == old(de).spec_start()
                &&& old(de).spec_pos() <= final(de).spec_pos()
                &&& T::parsed_from(
                    old(de).remaining(),
                    final(de).spec_pos() - old(de).spec_pos(),
                    v,
                )
            },
            Err(e) => T::decode_err(*old(de), e),
        },
{
    de.decode(proto)
}

/// The decode outcome of a whole request frame: `None` when the frame
/// parses, the exact error otherwise. The header's `len` field must
/// equal the frame length, the opcode must be known, and the body must
/// decode completely.
pub open spec fn spec_parse_err(buf: Seq<u8>) -> Option<DecodeError> {
    if buf.len() < fuse_in_header::wire_size() {
        Some(DecodeError::NotEnough)
    } else {
        let h = fuse_in_header::of_wire(buf.take(fuse_in_header::wire_size() as int));
        if h.len as int != buf.len() as int {
            Some(DecodeError::InvalidValue)
        } else if !opcode_known(h.opcode) {
            Some(DecodeError::InvalidValue)
        } else {
            spec_body_err(h.opcode, buf.skip(fuse_in_header::wire_size() as int))
        }
    }
}


/// Decodes the whole body of a `FUSE_FLUSH` request.
fn parse_body_flush<'b>(de: &mut Decoder<'b>, proto: ProtocolVersion) -> (r: Result<
    Operation<'b>,
    DecodeError,
>)
    requires
        old(de).aligned_for(crate::kernel::fuse_flush_in::wire_align()),
    ensures
        match r {
            Ok(op) => {
                &&& spec_body_err(FUSE_FLUSH, old(de).remaining()) is None
                &&& op_parsed(op, FUSE_FLUSH, old(de).remaining())
            },
            Err(e) => spec_body_err(FUSE_FLUSH, old(de).remaining()) == Some(e),
        },
{
    let r: Result<Operation<'b>, DecodeError> = match decode::<OpFlush>(de, proto) {
        Ok(x) => Ok(Operation::Flush(x)),
        Err(e) => Err(e),
    };
    de.all_consuming(r)
}

/// Decodes the whole body of a `FUSE_FSYNC` request.
fn parse_body_fsync<'b>(de: &mut Decoder<'b>, proto: ProtocolVersion) -> (r: Result<
    Operation<'b>,
    DecodeError,
>)
    requires
        old(de).aligned_for(crate::kernel::fuse_fsync_in::wire_align()),
    ensures
        match r {
            Ok(op) => {
                &&& spec_body_err(FUSE_FSYNC, old(de).remaining()) is None
                &&& op_parsed(op, FUSE_FSYNC, old(de).remaining())
            },
            Err(e) => spec_body_err(FUSE_FSYNC, old(de).remaining()) == Some(e),
        },
{
    let r: Result<Operation<'b>, DecodeError> = match decode::<OpFSync>(de, proto) {
        Ok(x) => Ok(Operation::FSync(x)),
        Err(e) => Err(e),
    };
    de.all_consuming(r)
}

/// Decodes the whole body of a `FUSE_FORGET` request.
fn parse_body_forget<'b>(de: &mut Decoder<'b>, proto: ProtocolVersion) -> (r: Result<
    Operation<'b>,
    DecodeError,
>)
    requires
        old(de).aligned_for(crate::kernel::fuse_forget_in::wire_align()),
    ensures
        match r {
            Ok(op) => {
                &&& spec_body_err(FUSE_FORGET, old(de).remaining()) is None
                &&& op_parsed(op, FUSE_FORGET, old(de).remaining())
            },
            Err(e) => spec_body_err(FUSE_FORGET, old(de).remaining()) == Some(e),
        },
{
    let r: Result<Operation<'b>, DecodeError> = match decode::<OpForget>(de, proto) {
        Ok(x) => Ok(Operation::Forget(x)),
        Err(e) => Err(e),
    };
    de.all_consuming(r)
}

/// Decodes the whole body of a `FUSE_GETATTR` request.
fn parse_body_getattr<'b>(de: &mut Decoder<'b>, proto: ProtocolVersion) -> (r: Result<
    Operation<'b>,
    DecodeError,
>)
    requires
        old(de).aligned_for(crate::kernel::fuse_getattr_in::wire_align()),
    ensures
        match r {
            Ok(op) => {
                &&& spec_body_err(FUSE_GETATTR, old(de).remaining()) is None
                &&& op_parsed(op, FUSE_GETATTR, old(de).remaining())
            },
            Err(e) => spec_body_err(FUSE_GETATTR, old(de).remaining()) == Some(e),
        },
{
    let r: Result<Operation<'b>, DecodeError> = match decode::<OpGetAttr>(de, proto) {
        Ok(x) => Ok(Operation::GetAttr(x)),
        Err(e) => Err(e),
    };
    de.all_consuming(r)
}

/// Decodes the whole body of a `FUSE_GETXATTR` request.
fn parse_body_getxattr<'b>(de: &mut Decoder<'b>, proto: ProtocolVersion) -> (r: Result<
    Operation<'b>,
    DecodeError,
>)
    requires
        old(de).aligned_for(crate::kernel::fuse_getxattr_in::wire_align()),
    ensures
        match r {
            Ok(op) => {
                &&& spec_body_err(FUSE_GETXATTR, old(de).remaining()) is None
                &&& op_parsed(op, FUSE_GETXATTR, old(de).remaining())
            },
            Err(e) => spec_body_err(FUSE_GETXATTR, old(de).remaining()) == Some(e),
        },
{
    let r: Result<Operation<'b>, DecodeError> = match decode::<OpGetXAttr>(de, proto) {
        Ok(x) => {
            proof {
                crate::ops::lemma_body_name_outcome(
                    old(de).remaining().skip(crate::kernel::fuse_getxattr_in::wire_size() as int),
                    x.spec_name().len() as int,
                );
            }
            Ok(Operation::GetXAttr(x))
        },
        Err(e) => Err(e),
    };
    de.all_consuming(r)
}

/// Decodes the whole body of a `FUSE_INIT` request.
fn parse_body_init<'b>(de: &mut Decoder<'b>, proto: ProtocolVersion) -> (r: Result<
    Operation<'b>,
    DecodeError,
>)
    requires
        old(de).aligned_for(crate::kernel::fuse_init_in::wire_align()),
    ensures
        match r {
            Ok(op) => {
                &&& spec_body_err(FUSE_INIT, old(de).remaining()) is None
                &&& op_parsed(op, FUSE_INIT, old(de).remaining())
            },
            Err(e) => spec_body_err(FUSE_INIT, old(de).remaining()) == Some(e),
        },
{
    let r: Result<Operation<'b>, DecodeError> = match decode::<OpInit>(de, proto) {
        Ok(x) => Ok(Operation::Init(x)),
        Err(e) => Err(e),
    };
    de.all_consuming(r)
}

/// Decodes the whole body of a `FUSE_INTERRUPT` request.
fn parse_body_interrupt<'b>(de: &mut Decoder<'b>, proto: ProtocolVersion) -> (r: Result<
    Operation<'b>,
    DecodeError,
>)
    requires
        old(de).aligned_for(crate::kernel::fuse_interrupt_in::wire_align()),
    ensures
        match r {
            Ok(op) => {
                &&& spec_body_err(FUSE_INTERRUPT, old(de).remaining()) is None
                &&& op_parsed(op, FUSE_INTERRUPT, old(de).remaining())
            },
            Err(e) => spec_body_err(FUSE_INTERRUPT, old(de).remaining()) == Some(e),
        },
{
    let r: Result<Operation<'b>, DecodeError> = match decode::<OpInterrupt>(de, proto) {
        Ok(x) => Ok(Operation::Interrupt(x)),
        Err(e) => Err(e),
    };
    de.all_consuming(r)
}

/// Decodes the whole body of a `FUSE_LOOKUP` request.
fn parse_body_lookup<'b>(de: &mut Decoder<'b>, proto: ProtocolVersion) -> (r: Result<
    Operation<'b>,
    DecodeError,
>)
    ensures
        match r {
            Ok(op) => {
                &&& spec_body_err(FUSE_LOOKUP, old(de).remaining()) is None
                &&& op_parsed(op, FUSE_LOOKUP, old(de).remaining())
            },
            Err(e) => spec_body_err(FUSE_LOOKUP, old(de).remaining()) == Some(e),
        },
{
    let r: Result<Operation<'b>, DecodeError> = match decode::<OpLookup>(de, proto) {
        Ok(x) => {
            proof {
                crate::ops::lemma_body_name_outcome(
                    old(de).remaining(),
                    x.spec_name().len() as int,
                );
            }
            Ok(Operation::Lookup(x))
        },
        Err(e) => Err(e),
    };
    de.all_consuming(r)
}

/// Decodes the whole body of a `FUSE_MKDIR` request.
fn parse_body_mkdir<'b>(de: &mut Decoder<'b>, proto: ProtocolVersion) -> (r: Result<
    Operation<'b>,
    DecodeError,
>)
    requires
        old(de).aligned_for(crate::kernel::fuse_mkdir_in::wire_align()),
    ensures
        match r {
            Ok(op) => {
                &&& spec_body_err(FUSE_MKDIR, old(de).remaining()) is None
                &&& op_parsed(op, FUSE_MKDIR, old(de).remaining())
            },
            Err(e) => spec_body_err(FUSE_MKDIR, old(de).remaining()) == Some(e),
        },
{
    let r: Result<Operation<'b>, DecodeError> = match decode::<OpMkDir>(de, proto) {
        Ok(x) => {
            proof {
                crate::ops::lemma_body_name_outcome(
                    old(de).remaining().skip(crate::kernel::fuse_mkdir_in::wire_size() as int),
                    x.spec_name().len() as int,
                );
            }
            Ok(Operation::MkDir(x))
        },
        Err(e) => Err(e),
    };
    de.all_consuming(r)
}

/// Decodes the whole body of a `FUSE_MKNOD` request.
fn parse_body_mknod<'b>(de: &mut Decoder<'b>, proto: ProtocolVersion) -> (r: Result<
    Operation<'b>,
    DecodeError,
>)
    requires
        old(de).aligned_for(crate::kernel::fuse_mknod_in::wire_align()),
    ensures
        match r {
            Ok(op) => {
                &&& spec_body_err(FUSE_MKNOD, old(de).remaining()) is None
                &&& op_parsed(op, FUSE_MKNOD, old(de).remaining())
            },
            Err(e) => spec_body_err(FUSE_MKNOD, old(de).remaining()) == Some(e),
        },
{
    let r: Result<Operation<'b>, DecodeError> = match decode::<OpMkNod>(de, proto) {
        Ok(x) => {
            proof {
                crate::ops::lemma_body_name_outcome(
                    old(de).remaining().skip(crate::kernel::fuse_mknod_in::wire_size() as int),
                    x.spec_name().len() as int,
                );
            }
            Ok(Operation::MkNod(x))
        },
        Err(e) => Err(e),
    };
    de.all_consuming(r)
}

/// Decodes the whole body of a `FUSE_OPEN` request.
fn parse_body_open<'b>(de: &mut Decoder<'b>, proto: ProtocolVersion) -> (r: Result<
    Operation<'b>,
    DecodeError,
>)
    requires
        old(de).aligned_for(crate::kernel::fuse_open_in::wire_align()),
    ensures
        match r {
            Ok(op) => {
                &&& spec_body_err(FUSE_OPEN, old(de).remaining()) is None
                &&& op_parsed(op, FUSE_OPEN, old(de).remaining())
            },
            Err(e) => spec_body_err(FUSE_OPEN, old(de).remaining()) == Some(e),
        },
{
    let r: Result<Operation<'b>, DecodeError> = match decode::<OpOpen>(de, proto) {
        Ok(x) => Ok(Operation::Open(x)),
        Err(e) => Err(e),
    };
    de.all_consuming(r)
}

/// Decodes the whole body of a `FUSE_OPENDIR` request.
fn parse_body_opendir<'b>(de: &mut Decoder<'b>, proto: ProtocolVersion) -> (r: Result<
    Operation<'b>,
    DecodeError,
>)
    requires
        old(de).aligned_for(crate::kernel::fuse_open_in::wire_align()),
    ensures
        match r {
            Ok(op) => {
                &&& spec_body_err(FUSE_OPENDIR, old(de).remaining()) is None
                &&& op_parsed(op, FUSE_OPENDIR, old(de).remaining())
            },
            Err(e) => spec_body_err(FUSE_OPENDIR, old(de).remaining()) == Some(e),
        },
{
    let r: Result<Operation<'b>, DecodeError> = match decode::<OpOpenDir>(de, proto) {
        Ok(x) => Ok(Operation::OpenDir(x)),
        Err(e) => Err(e),
    };
    de.all_consuming(r)
}

/// Decodes the whole body of a `FUSE_READ` request.
fn parse_body_read<'b>(de: &mut Decoder<'b>, proto: ProtocolVersion) -> (r: Result<
    Operation<'b>,
    DecodeError,
>)
    requires
        old(de).aligned_for(crate::kernel::fuse_read_in::wire_align()),
    ensures
        match r {
            Ok(op) => {
                &&& spec_body_err(FUSE_READ, old(de).remaining()) is None
                &&& op_parsed(op, FUSE_READ, old(de).remaining())
            },
            Err(e) => spec_body_err(FUSE_READ, old(de).remaining()) == Some(e),
        },
{
    let r: Result<Operation<'b>, DecodeError> = match decode::<OpRead>(de, proto) {
        Ok(x) => Ok(Operation::Read(x)),
        Err(e) => Err(e),
    };
    de.all_consuming(r)
}

/// Decodes the whole body of a `FUSE_READDIR` request.
fn parse_body_readdir<'b>(de: &mut Decoder<'b>, proto: ProtocolVersion) -> (r: Result<
    Operation<'b>,
    DecodeError,
>)
    requires
        old(de).aligned_for(crate::kernel::fuse_read_in::wire_align()),
    ensures
        match r {
            Ok(op) => {
                &&& spec_body_err(FUSE_READDIR, old(de).remaining()) is None
                &&& op_parsed(op, FUSE_READDIR, old(de).remaining())
            },
            Err(e) => spec_body_err(FUSE_READDIR, old(de).remaining()) == Some(e),
        },
{
    let r: Result<Operation<'b>, DecodeError> = match decode::<OpReadDir>(de, proto) {
        Ok(x) => Ok(Operation::ReadDir(x)),
        Err(e) => Err(e),
    };
    de.all_consuming(r)
}

/// Decodes the whole body of a `FUSE_READLINK` request.
fn parse_body_readlink<'b>(de: &mut Decoder<'b>, proto: ProtocolVersion) -> (r: Result<
    Operation<'b>,
    DecodeError,
>)
    ensures
        match r {
            Ok(op) => {
                &&& spec_body_err(FUSE_READLINK, old(de).remaining()) is None
                &&& op_parsed(op, FUSE_READLINK, old(de).remaining())
            },
            Err(e) => spec_body_err(FUSE_READLINK, old(de).remaining()) == Some(e),
        },
{
    let r: Result<Operation<'b>, DecodeError> = match decode::<OpReadLink>(de, proto) {
        Ok(x) => Ok(Operation::ReadLink(x)),
        Err(e) => Err(e),
    };
    de.all_consuming(r)
}

/// Decodes the whole body of a `FUSE_RELEASE` request.
fn parse_body_release<'b>(de: &mut Decoder<'b>, proto: ProtocolVersion) -> (r: Result<
    Operation<'b>,
    DecodeError,
>)
    requires
        old(de).aligned_for(crate::kernel::fuse_release_in::wire_align()),
    ensures
        match r {
            Ok(op) => {
                &&& spec_body_err(FUSE_RELEASE, old(de).remaining()) is None
                &&& op_parsed(op, FUSE_RELEASE, old(de).remaining())
            },
            Err(e) => spec_body_err(FUSE_RELEASE, old(de).remaining()) == Some(e),
        },
{
    let r: Result<Operation<'b>, DecodeError> = match decode::<OpRelease>(de, proto) {
        Ok(x) => Ok(Operation::Release(x)),
        Err(e) => Err(e),
    };
    de.all_consuming(r)
}

/// Decodes the whole body of a `FUSE_RELEASEDIR` request.
fn parse_body_releasedir<'b>(de: &mut Decoder<'b>, proto: ProtocolVersion) -> (r: Result<
    Operation<'b>,
    DecodeError,
>)
    requires
        old(de).aligned_for(crate::kernel::fuse_release_in::wire_align()),
    ensures
        match r {
            Ok(op) => {
                &&& spec_body_err(FUSE_RELEASEDIR, old(de).remaining()) is None
                &&& op_parsed(op, FUSE_RELEASEDIR, old(de).remaining())
            },
            Err(e) => spec_body_err(FUSE_RELEASEDIR, old(de).remaining()) == Some(e),
        },
{
    let r: Result<Operation<'b>, DecodeError> = match decode::<OpReleaseDir>(de, proto) {
        Ok(x) => Ok(Operation::ReleaseDir(x)),
        Err(e) => Err(e),
    };
    de.all_consuming(r)
}

/// Decodes the whole body of a `FUSE_RMDIR` request.
fn parse_body_rmdir<'b>(de: &mut Decoder<'b>, proto: ProtocolVersion) -> (r: Result<
    Operation<'b>,
    DecodeError,
>)
    ensures
        match r {
            Ok(op) => {
                &&& spec_body_err(FUSE_RMDIR, old(de).remaining()) is None
                &&& op_parsed(op, FUSE_RMDIR, old(de).remaining())
            },
            Err(e) => spec_body_err(FUSE_RMDIR, old(de).remaining()) == Some(e),
        },
{
    let r: Result<Operation<'b>, DecodeError> = match decode::<OpRmDir>(de, proto) {
        Ok(x) => {
            proof {
                crate::ops::lemma_body_name_outcome(
                    old(de).remaining(),
                    x.spec_name().len() as int,
                );
            }
            Ok(Operation::RmDir(x))
        },
        Err(e) => Err(e),
    };
    de.all_consuming(r)
}

/// Decodes the whole body of a `FUSE_SETATTR` request.
fn parse_body_setattr<'b>(de: &mut Decoder<'b>, proto: ProtocolVersion) -> (r: Result<
    Operation<'b>,
    DecodeError,
>)
    requires
        old(de).aligned_for(crate::kernel::fuse_setattr_in::wire_align()),
    ensures
        match r {
            Ok(op) => {
                &&& spec_body_err(FUSE_SETATTR, old(de).remaining()) is None
                &&& op_parsed(op, FUSE_SETATTR, old(de).remaining())
            },
            Err(e) => spec_body_err(FUSE_SETATTR, old(de).remaining()) == Some(e),
        },
{
    let r: Result<Operation<'b>, DecodeError> = match decode::<OpSetAttr>(de, proto) {
        Ok(x) => Ok(Operation::SetAttr(x)),
        Err(e) => Err(e),
    };
    de.all_consuming(r)
}

/// Decodes the whole body of a `FUSE_STATFS` request.
fn parse_body_statfs<'b>(de: &mut Decoder<'b>, proto: ProtocolVersion) -> (r: Result<
    Operation<'b>,
    DecodeError,
>)
    ensures
        match r {
            Ok(op) => {
                &&& spec_body_err(FUSE_STATFS, old(de).remaining()) is None
                &&& op_parsed(op, FUSE_STATFS, old(de).remaining())
            },
            Err(e) => spec_body_err(FUSE_STATFS, old(de).remaining()) == Some(e),
        },
{
    let r: Result<Operation<'b>, DecodeError> = match decode::<OpStatFs>(de, proto) {
        Ok(x) => Ok(Operation::StatFs(x)),
        Err(e) => Err(e),
    };
    de.all_consuming(r)
}

/// Decodes the whole body of a `FUSE_SYMLINK` request.
fn parse_body_symlink<'b>(de: &mut Decoder<'b>, proto: ProtocolVersion) -> (r: Result<
    Operation<'b>,
    DecodeError,
>)
    ensures
        match r {
            Ok(op) => {
                &&& spec_body_err(FUSE_SYMLINK, old(de).remaining()) is None
                &&& op_parsed(op, FUSE_SYMLINK, old(de).remaining())
            },
            Err(e) => spec_body_err(FUSE_SYMLINK, old(de).remaining()) == Some(e),
        },
{
    let r: Result<Operation<'b>, DecodeError> = match decode::<OpSymLink>(de, proto) {
        Ok(x) => {
            proof {
                crate::ops::lemma_body_two_names_outcome(
                    old(de).remaining(),
                    x.spec_name().len() as int,
                    x.spec_link().len() as int,
                );
            }
            Ok(Operation::SymLink(x))
        },
        Err(e) => Err(e),
    };
    de.all_consuming(r)
}

/// Decodes the whole body of a `FUSE_UNLINK` request.
fn parse_body_unlink<'b>(de: &mut Decoder<'b>, proto: ProtocolVersion) -> (r: Result<
    Operation<'b>,
    DecodeError,
>)
    ensures
        match r {
            Ok(op) => {
                &&& spec_body_err(FUSE_UNLINK, old(de).remaining()) is None
                &&& op_parsed(op, FUSE_UNLINK, old(de).remaining())
            },
            Err(e) => spec_body_err(FUSE_UNLINK, old(de).remaining()) == Some(e),
        },
{
    let r: Result<Operation<'b>, DecodeError> = match decode::<OpUnlink>(de, proto) {
        Ok(x) => {
            proof {
                crate::ops::lemma_body_name_outcome(
                    old(de).remaining(),
                    x.spec_name().len() as int,
                );
            }
            Ok(Operation::Unlink(x))
        },
        Err(e) => Err(e),
    };
    de.all_consuming(r)
}

/// Decodes the whole body of a `FUSE_WRITE` request.
fn parse_body_write<'b>(de: &mut Decoder<'b>, proto: ProtocolVersion) -> (r: Result<
    Operation<'b>,
    DecodeError,
>)
    requires
        old(de).aligned_for(crate::kernel::fuse_write_in::wire_align()),
    ensures
        match r {
            Ok(op) => {
                &&& spec_body_err(FUSE_WRITE, old(de).remaining()) is None
                &&& op_parsed(op, FUSE_WRITE, old(de).remaining())
            },
            Err(e) => spec_body_err(FUSE_WRITE, old(de).remaining()) == Some(e),
        },
{
    let r: Result<Operation<'b>, DecodeError> = match decode::<OpWrite>(de, proto) {
        Ok(x) => Ok(Operation::Write(x)),
        Err(e) => Err(e),
    };
    de.all_consuming(r)
}

/// Parses one request frame into its header and typed operation.
///
/// Succeeds exactly when [`spec_parse_err`] is `None`; the operation
/// then consumed the whole body, so the bytes consumed by the header
/// and the body together equal the header's `len` field. On any other
/// frame the exact error of [`spec_parse_err`] comes back.
#[verifier::rlimit(100)]
#[verifier::spinoff_prover]
pub fn parse<'b>(buf: &'b [u8], proto: ProtocolVersion) -> (r: Result<
    (FuseInHeader, Operation<'b>),
    DecodeError,
>)
    ensures
        match r {
            Ok((h, op)) => {
                &&& spec_parse_err(buf@) is None
                &&& buf@.len() >= fuse_in_header::wire_size()
                &&& h.spec_raw() == fuse_in_header::of_wire(
                    buf@.take(fuse_in_header::wire_size() as int),
                )
                &&& h.spec_raw().len as int == buf@.len() as int
                &&& opcode_known(h.spec_raw().opcode)
                &&& op_parsed(op, h.spec_raw().opcode, buf@.skip(fuse_in_header::wire_size() as int))
            },
            Err(e) => spec_parse_err(buf@) == Some(e),
        },
{
    let mut de = Decoder::new(buf);
    proof {
        assert(de.remaining() =~= buf@);
    }
    let header: FuseInHeader = match decode::<FuseInHeader>(&mut de, proto) {
        Ok(h) => h,
        Err(e) => {
            return Err(e);
        },
    };
    let ghost rest = buf@.skip(fuse_in_header::wire_size() as int);
    proof {
        assert(de.remaining() =~= rest);
    }

    let blen: usize = buf.len();
    if header.frame_len() as usize != blen {
        return Err(DecodeError::InvalidValue);
    }

    let opcode: u32 = header.opcode();

    let body: Result<Operation<'b>, DecodeError> = if opcode == FUSE_FLUSH {
        parse_body_flush(&mut de, proto)
    } else if opcode == FUSE_FSYNC {
        parse_body_fsync(&mut de, proto)
    } else if opcode == FUSE_FORGET {
        parse_body_forget(&mut de, proto)
    } else if opcode == FUSE_GETATTR {
        parse_body_getattr(&mut de, proto)
    } else if opcode == FUSE_GETXATTR {
        parse_body_getxattr(&mut de, proto)
    } else if opcode == FUSE_INIT {
        parse_body_init(&mut de, proto)
    } else if opcode == FUSE_INTERRUPT {
        parse_body_interrupt(&mut de, proto)
    } else if opcode == FUSE_LOOKUP {
        parse_body_lookup(&mut de, proto)
    } else if opcode == FUSE_MKDIR {
        parse_body_mkdir(&mut de, proto)
    } else if opcode == FUSE_MKNOD {
        parse_body_mknod(&mut de, proto)
    } else if opcode == FUSE_OPEN {
        parse_body_open(&mut de, proto)
    } else if opcode == FUSE_OPENDIR {
        parse_body_opendir(&mut de, proto)
    } else if opcode == FUSE_READ {
        parse_body_read(&mut de, proto)
    } else if opcode == FUSE_READDIR {
        parse_body_readdir(&mut de, proto)
    } else if opcode == FUSE_READLINK {
        parse_body_readlink(&mut de, proto)
    } else if opcode == FUSE_RELEASE {
        parse_body_release(&mut de, proto)
    } else if opcode == FUSE_RELEASEDIR {
        parse_body_releasedir(&mut de, proto)
    } else if opcode == FUSE_RMDIR {
        parse_body_rmdir(&mut de, proto)
    } else if opcode == FUSE_SETATTR {
        parse_body_setattr(&mut de, proto)
    } else if opcode == FUSE_STATFS {
        parse_body_statfs(&mut de, proto)
    } else if opcode == FUSE_SYMLINK {
        parse_body_symlink(&mut de, proto)
    } else if opcode == FUSE_UNLINK {
        parse_body_unlink(&mut de, proto)
    } else if opcode == FUSE_WRITE {
        parse_body_write(&mut de, proto)
    } else {
        return Err(DecodeError::InvalidValue);
    };

    match body {
        Ok(op) => Ok((header, op)),
        Err(e) => Err(e),
    }
}

/// The context of one request: the parsed header and the negotiated
/// protocol version. Replying consumes the context, so at most one
/// reply answers each request. The context is deliberately neither
/// clonable nor copyable: it is the one-shot capability to answer.
#[derive(Debug)]
pub struct FuseContext {
    header: FuseInHeader,
    proto: ProtocolVersion,
}

/// The error of a failed reply.
#[derive(Debug, Clone, Copy, PartialEq, Eq, Structural)]
pub enum ReplyError {
    /// The reply body pushes the frame past what the header's length
    /// field can say.
    TooLong,
    /// The endpoint failed with this OS error; nothing was sent.
    Io(i32),
}

/// The exact bytes of a reply frame: an `out_header` carrying the
/// whole frame's length, the negated errno, and the request's unique
/// id, followed by the body.
pub open spec fn spec_reply_frame(unique: u64, error: i32, body: Seq<u8>) -> Seq<u8> {
    fuse_out_header { len: (16 + body.len()) as u32, error, unique }.as_wire() + body
}

/// The two's-complement negation of an errno, as the reply header
/// stores it.
pub open spec fn spec_neg_errno(raw: i32) -> i32 {
    if raw == i32::MIN {
        i32::MIN
    } else {
        (-raw) as i32
    }
}

/// Law: the first 4 bytes of every reply frame are the little-endian
/// byte count of the whole frame, for every unique id, error value,
/// and body that fits the length field.
pub proof fn lemma_reply_frame_length_prefix(unique: u64, error: i32, body: Seq<u8>)
    requires
        16 + body.len() <= u32::MAX,
    ensures
        spec_reply_frame(unique, error, body).len() == 16 + body.len(),
        spec_reply_frame(unique, error, body).subrange(0, 4) == vstd::bytes::spec_u32_to_le_bytes(
            (16 + body.len()) as u32,
        ),
{
    let header = fuse_out_header { len: (16 + body.len()) as u32, error, unique };
    vstd::bytes::lemma_auto_spec_u32_to_from_le_bytes();
    vstd::bytes::lemma_auto_spec_u64_to_from_le_bytes();
    fuse_out_header::lemma_wire_len(header);
    assert(spec_reply_frame(unique, error, body).subrange(0, 4)
        =~= vstd::bytes::spec_u32_to_le_bytes((16 + body.len()) as u32));
}

/// The whole-frame length of a reply with `body_len` body bytes, when
/// it fits the header's length field.
pub fn frame_total_len(body_len: usize) -> (r: Option<u32>)
    ensures
        match r {
            Some(n) => n == 16 + body_len,
            None => 16 + body_len > u32::MAX,
        },
{
    let limit: usize = (u32::MAX - 16) as usize;
    if body_len <= limit {
        Some((body_len as u32) + 16)
    } else {
        None
    }
}

/// Builds one reply frame: the header, carrying the total length and
/// the error value, then the body. The first 4 bytes of the frame are
/// the little-endian byte count of the whole frame. A body so long
/// that the total overflows the length field is refused.
pub fn build_reply_frame(unique: u64, error: i32, body: &[u8]) -> (r: Option<Vec<u8>>)
    ensures
        match r {
            Some(frame) => {
                &&& 16 + body@.len() <= u32::MAX
                &&& frame@ == spec_reply_frame(unique, error, body@)
                &&& frame@.len() == 16 + body@.len()
                &&& frame@.subrange(0, 4) == spec_u32_to_le_bytes(frame@.len() as u32)
            },
            None => 16 + body@.len() > u32::MAX,
        },
{
    let total: u32 = match frame_total_len(body.len()) {
        Some(n) => n,
        None => {
            return None;
        },
    };
    let header = fuse_out_header { len: total, error, unique };
    let mut frame: Vec<u8> = Vec::new();
    header.write_wire(&mut frame);
    add_bytes(&mut frame, body);
    proof {
        vstd::bytes::lemma_auto_spec_u32_to_from_le_bytes();
        vstd::bytes::lemma_auto_spec_u64_to_from_le_bytes();
        fuse_out_header::lemma_wire_len(header);
        assert(frame@ =~= spec_reply_frame(unique, error, body@));
        assert(frame@.subrange(0, 4) =~= spec_u32_to_le_bytes(total));
    }
    Some(frame)
}

/// Sends an error reply for the request with this unique id: exactly
/// 16 bytes, the `out_header` with `len` 16, the negated errno, and
/// the unique id. This is the raw layer under [`FuseContext::reply_err`]
/// and the dispatcher's own error replies; it stays inside the crate so
/// that the one-shot context remains the only public way to answer a
/// request.
pub(crate) fn send_error_reply<W: FuseWrite>(writer: &mut W, unique: u64, errno: Errno) -> (r:
    Result<(), i32>)
    ensures
        match r {
            Ok(()) => final(writer).sent() == old(writer).sent().push(
                spec_reply_frame(unique, spec_neg_errno(errno.0), Seq::empty()),
            ),
            Err(_) => final(writer).sent() == old(writer).sent(),
        },
{
    let raw: i32 = errno.as_raw();
    let neg: i32 = if raw == i32::MIN {
        i32::MIN
    } else {
        -raw
    };
    let body: Vec<u8> = Vec::new();
    let frame = build_reply_frame(unique, neg, body.as_slice()).unwrap();
    proof {
        assert(spec_reply_frame(unique, neg, Seq::empty()) =~= frame@);
    }
    match writer.send_reply(frame.as_slice()) {
        Ok(()) => Ok(()),
        Err(e) => Err(e),
    }
}

impl FuseContext {
    /// The parsed request header.
    pub closed spec fn spec_header(&self) -> fuse_in_header {
        self.header.spec_raw()
    }

    /// The negotiated protocol version.
    pub closed spec fn spec_proto(&self) -> ProtocolVersion {
        self.proto
    }

    /// Parses a frame and pairs the header with the protocol version,
    /// exactly as [`parse`] does.
    pub fn new<'b>(buf: &'b [u8], proto: ProtocolVersion) -> (r: Result<
        (FuseContext, Operation<'b>),
        DecodeError,
    >)
        ensures
            match r {
                Ok((cx, op)) => {
                    &&& spec_parse_err(buf@) is None
                    &&& buf@.len() >= fuse_in_header::wire_size()
                    &&& cx.spec_header() == fuse_in_header::of_wire(
                        buf@.take(fuse_in_header::wire_size() as int),
                    )
                    &&& cx.spec_header().len as int == buf@.len() as int
                    &&& opcode_known(cx.spec_header().opcode)
                    &&& op_parsed(
                        op,
                        cx.spec_header().opcode,
                        buf@.skip(fuse_in_header::wire_size() as int),
                    )
                    &&& cx.spec_proto() == proto
                },
                Err(e) => spec_parse_err(buf@) == Some(e),
            },
    {
        match parse(buf, proto) {
            Ok((header, op)) => Ok((FuseContext { header, proto }, op)),
            Err(e) => Err(e),
        }
    }

    /// The request header.
    pub fn header(&self) -> (h: &FuseInHeader)
        ensures
            h.spec_raw() == self.spec_header(),
    {
        &self.header
    }

    /// Sends the typed reply for this request, consuming the context.
    ///
    /// The type of the reply is bound to the operation through
    /// [`IsReplyOf`]. On success the endpoint carries exactly one new
    /// frame: the header with the whole frame's byte count and error
    /// zero, then the reply's bytes. A reply too long for the length
    /// field is left out here; [`FuseContext::try_reply`] reports it.
    pub fn reply<W: FuseWrite, T, R: IsReplyOf<T> + Encode>(
        self,
        writer: &mut W,
        _op: &T,
        reply: R,
    ) -> (r: Result<(), i32>)
        requires
            16 + reply.encoded().len() <= u32::MAX,
        ensures
            match r {
                Ok(()) => final(writer).sent() == old(writer).sent().push(
                    spec_reply_frame(self.spec_header().unique, 0, reply.encoded()),
                ),
                Err(_) => final(writer).sent() == old(writer).sent(),
            },
    {
        let mut body: Vec<u8> = Vec::new();
        reply.collect_bytes(&mut body);
        let frame = build_reply_frame(self.header.unique(), 0, body.as_slice()).unwrap();
        match writer.send_reply(frame.as_slice()) {
            Ok(()) => Ok(()),
            Err(errno) => Err(errno),
        }
    }

    /// Sends the typed reply, reporting instead of forbidding a body
    /// too long for the header's length field: `TooLong` comes back,
    /// and nothing is sent, exactly when `16 + reply.encoded().len()`
    /// overflows the field.
    pub fn try_reply<W: FuseWrite, T, R: IsReplyOf<T> + Encode>(
        self,
        writer: &mut W,
        _op: &T,
        reply: R,
    ) -> (r: Result<(), ReplyError>)
        ensures
            match r {
                Ok(()) => {
                    &&& 16 + reply.encoded().len() <= u32::MAX
                    &&& final(writer).sent() == old(writer).sent().push(
                        spec_reply_frame(self.spec_header().unique, 0, reply.encoded()),
                    )
                },
                Err(ReplyError::TooLong) => {
                    &&& 16 + reply.encoded().len() > u32::MAX
                    &&& final(writer).sent() == old(writer).sent()
                },
                Err(ReplyError::Io(_)) => {
                    &&& 16 + reply.encoded().len() <= u32::MAX
                    &&& final(writer).sent() == old(writer).sent()
                },
            },
    {
        let mut body: Vec<u8> = Vec::new();
        reply.collect_bytes(&mut body);
        match build_reply_frame(self.header.unique(), 0, body.as_slice()) {
            None => Err(ReplyError::TooLong),
            Some(frame) => match writer.send_reply(frame.as_slice()) {
                Ok(()) => Ok(()),
                Err(errno) => Err(ReplyError::Io(errno)),
            },
        }
    }

    /// Sends an error reply, consuming the context: exactly 16 bytes,
    /// the `out_header` with `len` 16, the negated errno, and the
    /// request's unique id, and no body.
    pub fn reply_err<W: FuseWrite>(self, writer: &mut W, errno: Errno) -> (r: Result<(), i32>)
        ensures
            match r {
                Ok(()) => {
                    &&& final(writer).sent() == old(writer).sent().push(
                        spec_reply_frame(
                            self.spec_header().unique,
                            spec_neg_errno(errno.0),
                            Seq::empty(),
                        ),
                    )
                    &&& spec_reply_frame(
                        self.spec_header().unique,
                        spec_neg_errno(errno.0),
                        Seq::empty(),
                    ).len() == 16
                },
                Err(_) => final(writer).sent() == old(writer).sent(),
            },
    {
        proof {
            fuse_out_header::lemma_wire_len(
                fuse_out_header {
                    len: 16u32,
                    error: spec_neg_errno(errno.0),
                    unique: self.spec_header().unique,
                },
            );
        }
        send_error_reply(writer, self.header.unique(), errno)
    }
}

} // verus!
