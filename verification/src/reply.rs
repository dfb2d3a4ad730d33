//! Typed replies: the values a filesystem answers requests with, and
//! the exact bytes each contributes to the reply frame.

use crate::abi::FuseAbiData;
use crate::c_bytes::check_bytes;
use crate::c_bytes::has_nul;
use crate::c_bytes::NulError;
use crate::encode::add_bytes;
use crate::encode::add_clipped;
use crate::encode::clip;
use crate::encode::Encode;
use crate::file::FileType;
use crate::file::StMode;
use crate::kernel::fuse_attr;
use crate::kernel::fuse_attr_out;
use crate::kernel::fuse_entry_out;
use crate::kernel::fuse_getxattr_out;
use crate::kernel::fuse_init_out;
use crate::kernel::fuse_kstatfs;
use crate::kernel::fuse_open_out;
use crate::kernel::fuse_statfs_out;
use crate::kernel::fuse_write_out;
use crate::ops::IsReplyOf;
use crate::ops::OpFSync;
use crate::ops::OpFlush;
use crate::ops::OpGetAttr;
use crate::ops::OpGetXAttr;
use crate::ops::OpInit;
use crate::ops::OpInterrupt;
use crate::ops::OpLookup;
use crate::ops::OpMkDir;
use crate::ops::OpMkNod;
use crate::ops::OpOpen;
use crate::ops::OpOpenDir;
use crate::ops::OpRead;
use crate::ops::OpReadDir;
use crate::ops::OpReadLink;
use crate::ops::OpRelease;
use crate::ops::OpReleaseDir;
use crate::ops::OpRmDir;
use crate::ops::OpSetAttr;
use crate::ops::OpStatFs;
use crate::ops::OpSymLink;
use crate::ops::OpUnlink;
use crate::ops::OpWrite;
use vstd::bytes::spec_u32_to_le_bytes;
use vstd::bytes::spec_u64_to_le_bytes;
use vstd::prelude::*;
use vstd::slice::slice_to_vec;

verus! {

broadcast use vstd::slice::group_slice_axioms;

/// The reply without a body: plain success.
#[derive(Debug, Clone, Copy)]
pub struct ReplyEmpty;

impl Default for ReplyEmpty {
    fn default() -> (r: Self)
        ensures
            r == ReplyEmpty,
    {
        ReplyEmpty
    }
}

impl Encode for ReplyEmpty {
    open spec fn encoded(&self) -> Seq<u8> {
        Seq::empty()
    }

    fn collect_bytes(&self, out: &mut Vec<u8>) {
        proof {
            assert(out@ =~= out@ + self.encoded());
        }
    }
}

impl<'b> IsReplyOf<OpUnlink<'b>> for ReplyEmpty {}

impl<'b> IsReplyOf<OpRmDir<'b>> for ReplyEmpty {}

impl IsReplyOf<OpRelease> for ReplyEmpty {}

impl IsReplyOf<OpReleaseDir> for ReplyEmpty {}

impl IsReplyOf<OpFlush> for ReplyEmpty {}

impl IsReplyOf<OpFSync> for ReplyEmpty {}

impl IsReplyOf<OpInterrupt> for ReplyEmpty {}

/// The reply to the INIT handshake: the negotiated session limits.
#[derive(Debug, Clone, Copy)]
pub struct ReplyInit {
    out: fuse_init_out,
}

impl ReplyInit {
    /// The reply record under construction.
    pub closed spec fn spec_out(&self) -> fuse_init_out {
        self.out
    }

    /// Sets the negotiated major version.
    pub fn major(&mut self, major: u32)
        ensures
            final(self).spec_out() == (fuse_init_out { major, ..old(self).spec_out() }),
    {
        self.out.major = major;
    }

    /// Sets the negotiated minor version.
    pub fn minor(&mut self, minor: u32)
        ensures
            final(self).spec_out() == (fuse_init_out { minor, ..old(self).spec_out() }),
    {
        self.out.minor = minor;
    }

    /// Sets the readahead limit granted to the kernel.
    pub fn max_readahead(&mut self, max_readahead: u32)
        ensures
            final(self).spec_out() == (fuse_init_out { max_readahead, ..old(self).spec_out() }),
    {
        self.out.max_readahead = max_readahead;
    }

    /// Sets the accepted capability flags.
    pub fn flags(&mut self, flags: u32)
        ensures
            final(self).spec_out() == (fuse_init_out { flags, ..old(self).spec_out() }),
    {
        self.out.flags = flags;
    }

    /// Sets the number of background requests the kernel may queue.
    pub fn max_background(&mut self, max_background: u16)
        ensures
            final(self).spec_out() == (fuse_init_out { max_background, ..old(self).spec_out() }),
    {
        self.out.max_background = max_background;
    }

    /// Sets the congestion threshold advertised to the kernel.
    pub fn congestion_threshold(&mut self, congestion_threshold: u16)
        ensures
            final(self).spec_out() == (fuse_init_out {
                congestion_threshold,
                ..old(self).spec_out()
            }),
    {
        self.out.congestion_threshold = congestion_threshold;
    }

    /// Sets the largest write body the kernel may send.
    pub fn max_write(&mut self, max_write: u32)
        ensures
            final(self).spec_out() == (fuse_init_out { max_write, ..old(self).spec_out() }),
    {
        self.out.max_write = max_write;
    }

    /// Sets the timestamp granularity, in nanoseconds.
    pub fn time_gran(&mut self, time_gran: u32)
        ensures
            final(self).spec_out() == (fuse_init_out { time_gran, ..old(self).spec_out() }),
    {
        self.out.time_gran = time_gran;
    }

    /// Sets the page count limit per request.
    pub fn max_pages(&mut self, max_pages: u16)
        ensures
            final(self).spec_out() == (fuse_init_out { max_pages, ..old(self).spec_out() }),
    {
        self.out.max_pages = max_pages;
    }
}

impl Default for ReplyInit {
    fn default() -> (r: Self)
        ensures
            r.spec_out() == fuse_init_out::zeroed(),
    {
        ReplyInit { out: fuse_init_out::default() }
    }
}

impl Encode for ReplyInit {
    open spec fn encoded(&self) -> Seq<u8> {
        self.spec_out().as_wire()
    }

    fn collect_bytes(&self, out: &mut Vec<u8>) {
        self.out.write_wire(out);
    }
}

impl IsReplyOf<OpInit> for ReplyInit {}

/// The attributes of one inode, as a reply carries them.
#[derive(Debug, Clone, Copy)]
pub struct Attr {
    raw: fuse_attr,
}

impl Attr {
    /// The record under construction.
    pub closed spec fn spec_raw(&self) -> fuse_attr {
        self.raw
    }

    /// Sets the inode number.
    pub fn ino(&mut self, ino: u64)
        ensures
            final(self).spec_raw() == (fuse_attr { ino, ..old(self).spec_raw() }),
    {
        self.raw.ino = ino;
    }

    /// Sets the file size in bytes.
    pub fn size(&mut self, size: u64)
        ensures
            final(self).spec_raw() == (fuse_attr { size, ..old(self).spec_raw() }),
    {
        self.raw.size = size;
    }

    /// Sets the number of 512-byte blocks.
    pub fn blocks(&mut self, blocks: u64)
        ensures
            final(self).spec_raw() == (fuse_attr { blocks, ..old(self).spec_raw() }),
    {
        self.raw.blocks = blocks;
    }

    /// Sets the link count.
    pub fn nlink(&mut self, nlink: u32)
        ensures
            final(self).spec_raw() == (fuse_attr { nlink, ..old(self).spec_raw() }),
    {
        self.raw.nlink = nlink;
    }

    /// Sets the owning user id.
    pub fn uid(&mut self, uid: u32)
        ensures
            final(self).spec_raw() == (fuse_attr { uid, ..old(self).spec_raw() }),
    {
        self.raw.uid = uid;
    }

    /// Sets the owning group id.
    pub fn gid(&mut self, gid: u32)
        ensures
            final(self).spec_raw() == (fuse_attr { gid, ..old(self).spec_raw() }),
    {
        self.raw.gid = gid;
    }

    /// Sets the device number of a device node.
    pub fn rdev(&mut self, rdev: u32)
        ensures
            final(self).spec_raw() == (fuse_attr { rdev, ..old(self).spec_raw() }),
    {
        self.raw.rdev = rdev;
    }

    /// Sets the preferred I/O block size.
    pub fn blksize(&mut self, blksize: u32)
        ensures
            final(self).spec_raw() == (fuse_attr { blksize, ..old(self).spec_raw() }),
    {
        self.raw.blksize = blksize;
    }

    /// Sets the file type and permission bits.
    pub fn mode(&mut self, mode: StMode)
        ensures
            final(self).spec_raw() == (fuse_attr { mode: mode.0, ..old(self).spec_raw() }),
    {
        self.raw.mode = mode.as_raw();
    }

    /// Sets the access time, as seconds and nanoseconds since the
    /// epoch.
    pub fn atime(&mut self, secs: u64, nanos: u32)
        ensures
            final(self).spec_raw() == (fuse_attr {
                atime: secs,
                atimensec: nanos,
                ..old(self).spec_raw()
            }),
    {
        self.raw.atime = secs;
        self.raw.atimensec = nanos;
    }

    /// Sets the modification time, as seconds and nanoseconds since
    /// the epoch.
    pub fn mtime(&mut self, secs: u64, nanos: u32)
        ensures
            final(self).spec_raw() == (fuse_attr {
                mtime: secs,
                mtimensec: nanos,
                ..old(self).spec_raw()
            }),
    {
        self.raw.mtime = secs;
        self.raw.mtimensec = nanos;
    }

    /// Sets the change time, as seconds and nanoseconds since the
    /// epoch.
    pub fn ctime(&mut self, secs: u64, nanos: u32)
        ensures
            final(self).spec_raw() == (fuse_attr {
                ctime: secs,
                ctimensec: nanos,
                ..old(self).spec_raw()
            }),
    {
        self.raw.ctime = secs;
        self.raw.ctimensec = nanos;
    }
}

impl Default for Attr {
    fn default() -> (r: Self)
        ensures
            r.spec_raw() == fuse_attr::zeroed(),
    {
        Attr { raw: fuse_attr::default() }
    }
}

/// The reply to GETATTR and SETATTR: attributes with their cache
/// timeout.
#[derive(Debug, Clone, Copy)]
pub struct ReplyAttr {
    out: fuse_attr_out,
}

impl ReplyAttr {
    /// The reply record under construction.
    pub closed spec fn spec_out(&self) -> fuse_attr_out {
        self.out
    }

    /// Sets how long the kernel may cache the attributes, as seconds
    /// and nanoseconds.
    pub fn attr_valid(&mut self, secs: u64, nanos: u32)
        ensures
            final(self).spec_out() == (fuse_attr_out {
                attr_valid: secs,
                attr_valid_nsec: nanos,
                ..old(self).spec_out()
            }),
    {
        self.out.attr_valid = secs;
        self.out.attr_valid_nsec = nanos;
    }

    /// Sets the attributes.
    pub fn attr(&mut self, attr: Attr)
        ensures
            final(self).spec_out() == (fuse_attr_out {
                attr: attr.spec_raw(),
                ..old(self).spec_out()
            }),
    {
        self.out.attr = attr.raw;
    }
}

impl Default for ReplyAttr {
    fn default() -> (r: Self)
        ensures
            r.spec_out() == fuse_attr_out::zeroed(),
    {
        ReplyAttr { out: fuse_attr_out::default() }
    }
}

impl Encode for ReplyAttr {
    open spec fn encoded(&self) -> Seq<u8> {
        self.spec_out().as_wire()
    }

    fn collect_bytes(&self, out: &mut Vec<u8>) {
        self.out.write_wire(out);
    }
}

impl IsReplyOf<OpGetAttr> for ReplyAttr {}

impl IsReplyOf<OpSetAttr> for ReplyAttr {}

/// A directory entry under construction: the inode, generation, and
/// attributes a lookup-style reply carries.
#[derive(Debug, Clone, Copy)]
pub struct Entry {
    out: fuse_entry_out,
}

impl Entry {
    /// The record under construction.
    pub closed spec fn spec_out(&self) -> fuse_entry_out {
        self.out
    }

    /// Sets the node id of the entry.
    pub fn nodeid(&mut self, nodeid: u64)
        ensures
            final(self).spec_out() == (fuse_entry_out { nodeid, ..old(self).spec_out() }),
    {
        self.out.nodeid = nodeid;
    }

    /// Sets the inode generation.
    pub fn generation(&mut self, generation: u64)
        ensures
            final(self).spec_out() == (fuse_entry_out { generation, ..old(self).spec_out() }),
    {
        self.out.generation = generation;
    }

    /// Sets the attributes of the entry.
    pub fn attr(&mut self, attr: Attr)
        ensures
            final(self).spec_out() == (fuse_entry_out {
                attr: attr.spec_raw(),
                ..old(self).spec_out()
            }),
    {
        self.out.attr = attr.raw;
    }

    /// Sets how long the kernel may cache the name, as seconds and
    /// nanoseconds.
    pub fn entry_valid(&mut self, secs: u64, nanos: u32)
        ensures
            final(self).spec_out() == (fuse_entry_out {
                entry_valid: secs,
                entry_valid_nsec: nanos,
                ..old(self).spec_out()
            }),
    {
        self.out.entry_valid = secs;
        self.out.entry_valid_nsec = nanos;
    }

    /// Sets how long the kernel may cache the attributes, as seconds
    /// and nanoseconds.
    pub fn attr_valid(&mut self, secs: u64, nanos: u32)
        ensures
            final(self).spec_out() == (fuse_entry_out {
                attr_valid: secs,
                attr_valid_nsec: nanos,
                ..old(self).spec_out()
            }),
    {
        self.out.attr_valid = secs;
        self.out.attr_valid_nsec = nanos;
    }
}

impl Default for Entry {
    fn default() -> (r: Self)
        ensures
            r.spec_out() == fuse_entry_out::zeroed(),
    {
        Entry { out: fuse_entry_out::default() }
    }
}

/// The reply to LOOKUP and the create-style operations: one directory
/// entry.
#[derive(Debug, Clone, Copy)]
pub struct ReplyEntry {
    out: fuse_entry_out,
}

impl ReplyEntry {
    /// The reply record.
    pub closed spec fn spec_out(&self) -> fuse_entry_out {
        self.out
    }

    /// Wraps a finished entry.
    pub fn new(entry: Entry) -> (r: Self)
        ensures
            r.spec_out() == entry.spec_out(),
    {
        ReplyEntry { out: entry.out }
    }
}

impl Encode for ReplyEntry {
    open spec fn encoded(&self) -> Seq<u8> {
        self.spec_out().as_wire()
    }

    fn collect_bytes(&self, out: &mut Vec<u8>) {
        self.out.write_wire(out);
    }
}

impl<'b> IsReplyOf<OpLookup<'b>> for ReplyEntry {}

impl<'b> IsReplyOf<OpSymLink<'b>> for ReplyEntry {}

impl<'b> IsReplyOf<OpMkNod<'b>> for ReplyEntry {}

impl<'b> IsReplyOf<OpMkDir<'b>> for ReplyEntry {}

/// The reply to OPEN: the file handle and open flags.
#[derive(Debug, Clone, Copy)]
pub struct ReplyOpen {
    out: fuse_open_out,
}

impl ReplyOpen {
    /// The reply record under construction.
    pub closed spec fn spec_out(&self) -> fuse_open_out {
        self.out
    }

    /// Sets the file handle.
    pub fn fh(&mut self, fh: u64)
        ensures
            final(self).spec_out() == (fuse_open_out { fh, ..old(self).spec_out() }),
    {
        self.out.fh = fh;
    }

    /// Sets the open flags.
    pub fn open_flags(&mut self, open_flags: u32)
        ensures
            final(self).spec_out() == (fuse_open_out { open_flags, ..old(self).spec_out() }),
    {
        self.out.open_flags = open_flags;
    }
}

impl Default for ReplyOpen {
    fn default() -> (r: Self)
        ensures
            r.spec_out() == fuse_open_out::zeroed(),
    {
        ReplyOpen { out: fuse_open_out::default() }
    }
}

impl Encode for ReplyOpen {
    open spec fn encoded(&self) -> Seq<u8> {
        self.spec_out().as_wire()
    }

    fn collect_bytes(&self, out: &mut Vec<u8>) {
        self.out.write_wire(out);
    }
}

impl IsReplyOf<OpOpen> for ReplyOpen {}

/// The reply to OPENDIR: the directory handle and open flags.
#[derive(Debug, Clone, Copy)]
pub struct ReplyOpenDir {
    out: fuse_open_out,
}

impl ReplyOpenDir {
    /// The reply record under construction.
    pub closed spec fn spec_out(&self) -> fuse_open_out {
        self.out
    }

    /// Sets the directory handle.
    pub fn fh(&mut self, fh: u64)
        ensures
            final(self).spec_out() == (fuse_open_out { fh, ..old(self).spec_out() }),
    {
        self.out.fh = fh;
    }

    /// Sets the open flags.
    pub fn open_flags(&mut self, open_flags: u32)
        ensures
            final(self).spec_out() == (fuse_open_out { open_flags, ..old(self).spec_out() }),
    {
        self.out.open_flags = open_flags;
    }
}

impl Default for ReplyOpenDir {
    fn default() -> (r: Self)
        ensures
            r.spec_out() == fuse_open_out::zeroed(),
    {
        ReplyOpenDir { out: fuse_open_out::default() }
    }
}

impl Encode for ReplyOpenDir {
    open spec fn encoded(&self) -> Seq<u8> {
        self.spec_out().as_wire()
    }

    fn collect_bytes(&self, out: &mut Vec<u8>) {
        self.out.write_wire(out);
    }
}

impl IsReplyOf<OpOpenDir> for ReplyOpenDir {}

/// The reply to WRITE: how many bytes were written.
#[derive(Debug, Clone, Copy)]
pub struct ReplyWrite {
    out: fuse_write_out,
}

impl ReplyWrite {
    /// The reply record.
    pub closed spec fn spec_out(&self) -> fuse_write_out {
        self.out
    }

    /// A reply reporting `size` bytes written.
    pub fn new(size: u32) -> (r: Self)
        ensures
            r.spec_out() == (fuse_write_out { size, padding: 0 }),
    {
        ReplyWrite { out: fuse_write_out { size, padding: 0 } }
    }
}

impl Encode for ReplyWrite {
    open spec fn encoded(&self) -> Seq<u8> {
        self.spec_out().as_wire()
    }

    fn collect_bytes(&self, out: &mut Vec<u8>) {
        self.out.write_wire(out);
    }
}

impl<'b> IsReplyOf<OpWrite<'b>> for ReplyWrite {}

/// The reply to STATFS: filesystem statistics.
#[derive(Debug, Clone, Copy)]
pub struct ReplyStatFs {
    out: fuse_statfs_out,
}

impl ReplyStatFs {
    /// The reply record.
    pub closed spec fn spec_out(&self) -> fuse_statfs_out {
        self.out
    }

    /// Wraps the statistics record.
    pub fn new(st: fuse_kstatfs) -> (r: Self)
        ensures
            r.spec_out() == (fuse_statfs_out { st }),
    {
        ReplyStatFs { out: fuse_statfs_out { st } }
    }
}

impl Encode for ReplyStatFs {
    open spec fn encoded(&self) -> Seq<u8> {
        self.spec_out().as_wire()
    }

    fn collect_bytes(&self, out: &mut Vec<u8>) {
        self.out.write_wire(out);
    }
}

impl IsReplyOf<OpStatFs> for ReplyStatFs {}

/// The reply to READ: a window of the file's bytes. The window
/// `[offset, offset + max_write_size)` of the source is clipped to the
/// bytes that exist.
#[derive(Debug, Clone, Copy)]
pub struct ReplyData<'a> {
    buf: &'a [u8],
    offset: usize,
    max_write_size: usize,
}

impl<'a> ReplyData<'a> {
    /// The source bytes.
    pub closed spec fn spec_buf(&self) -> Seq<u8> {
        self.buf@
    }

    /// The window start.
    pub closed spec fn spec_offset(&self) -> usize {
        self.offset
    }

    /// The window size limit.
    pub closed spec fn spec_max_write_size(&self) -> usize {
        self.max_write_size
    }

    /// A reply sending the window `[offset, offset + max_write_size)`
    /// of `buf`.
    pub fn new(buf: &'a [u8], offset: usize, max_write_size: usize) -> (r: Self)
        ensures
            r.spec_buf() == buf@,
            r.spec_offset() == offset,
            r.spec_max_write_size() == max_write_size,
    {
        ReplyData { buf, offset, max_write_size }
    }
}

impl Encode for ReplyData<'_> {
    open spec fn encoded(&self) -> Seq<u8> {
        clip(self.spec_buf(), self.spec_offset() as nat, self.spec_max_write_size() as nat)
    }

    fn collect_bytes(&self, out: &mut Vec<u8>) {
        add_clipped(out, self.buf, self.offset, self.max_write_size);
    }
}

impl<'b, 'a> IsReplyOf<OpRead> for ReplyData<'a> {}

/// The reply to READLINK: the link target, without a NUL terminator.
#[derive(Debug, Clone, Copy)]
pub struct ReplyReadLink<'a> {
    target: &'a [u8],
}

impl<'a> ReplyReadLink<'a> {
    /// The link target.
    pub closed spec fn spec_target(&self) -> Seq<u8> {
        self.target@
    }

    /// Wraps a link target; a target with an interior NUL byte is
    /// refused.
    pub fn new(link_name: &'a [u8]) -> (r: Result<Self, NulError>)
        ensures
            match r {
                Ok(v) => !has_nul(link_name@) && v.spec_target() == link_name@,
                Err(e) => {
                    &&& e.spec_nul_position() < link_name@.len()
                    &&& link_name@[e.spec_nul_position() as int] == 0
                    &&& forall|j: int| 0 <= j < e.spec_nul_position() ==> link_name@[j] != 0
                },
            },
    {
        match check_bytes(link_name) {
            Ok(()) => Ok(ReplyReadLink { target: link_name }),
            Err(e) => Err(e),
        }
    }
}

impl Encode for ReplyReadLink<'_> {
    open spec fn encoded(&self) -> Seq<u8> {
        self.spec_target()
    }

    fn collect_bytes(&self, out: &mut Vec<u8>) {
        add_bytes(out, self.target);
    }
}

impl<'a> IsReplyOf<OpReadLink> for ReplyReadLink<'a> {}

/// The reply to GETXATTR: the attribute value, preceded by its size
/// record.
#[derive(Debug, Clone, Copy)]
pub struct ReplyGetXAttr<'a> {
    out: fuse_getxattr_out,
    buf: &'a [u8],
}

impl<'a> ReplyGetXAttr<'a> {
    /// The size record of the reply.
    pub closed spec fn spec_out(&self) -> fuse_getxattr_out {
        self.out
    }

    /// The attribute value.
    pub closed spec fn spec_buf(&self) -> Seq<u8> {
        self.buf@
    }

    /// Wraps an attribute value; the size record reports its length.
    /// A value longer than the size field can say is left out.
    pub fn new(buf: &'a [u8]) -> (r: Self)
        requires
            buf@.len() <= u32::MAX,
        ensures
            r.spec_out() == (fuse_getxattr_out { size: buf@.len() as u32, padding: 0 }),
            r.spec_buf() == buf@,
    {
        let buf_len: u32 = buf.len() as u32;
        ReplyGetXAttr { out: fuse_getxattr_out { size: buf_len, padding: 0 }, buf }
    }
}

impl Encode for ReplyGetXAttr<'_> {
    open spec fn encoded(&self) -> Seq<u8> {
        self.spec_out().as_wire() + self.spec_buf()
    }

    fn collect_bytes(&self, out: &mut Vec<u8>) {
        self.out.write_wire(out);
        add_bytes(out, self.buf);
        proof {
            assert(out@ =~= old(out)@ + self.encoded());
        }
    }
}

impl<'b, 'a> IsReplyOf<OpGetXAttr<'b>> for ReplyGetXAttr<'a> {}

/// How many padding bytes bring `n` up to an 8-byte boundary.
pub open spec fn pad8(n: int) -> int {
    if n % 8 == 0 {
        0
    } else {
        8 - n % 8
    }
}

/// `n` rounded up to an 8-byte boundary.
pub open spec fn round_up8(n: int) -> int {
    n + pad8(n)
}

/// A run of zero bytes.
pub open spec fn zero_bytes(n: int) -> Seq<u8> {
    Seq::new(n as nat, |i: int| 0u8)
}

/// The on-wire form of one directory entry: the fixed fields, the
/// name, and zero padding up to an 8-byte boundary. `off` is the
/// offset of the next entry.
pub open spec fn dirent_wire(ino: u64, off: u64, entry_type: u32, name: Seq<u8>) -> Seq<u8> {
    spec_u64_to_le_bytes(ino) + spec_u64_to_le_bytes(off) + spec_u32_to_le_bytes(
        name.len() as u32,
    ) + spec_u32_to_le_bytes(entry_type) + name + zero_bytes(pad8(24 + name.len() as int))
}

/// An on-wire directory listing under construction. Every appended
/// entry is padded to an 8-byte boundary, so the buffer length always
/// sits on one, and each entry's `off` field is the buffer length
/// after that entry: the offset a later READDIR continues from.
#[derive(Debug)]
pub struct Directory {
    buf: Vec<u8>,
}

impl View for Directory {
    type V = Seq<u8>;

    closed spec fn view(&self) -> Seq<u8> {
        self.buf@
    }
}

impl Directory {
    #[verifier::type_invariant]
    spec fn entries_aligned(self) -> bool {
        self.buf@.len() % 8 == 0
    }

    /// An empty listing with room for `cap` bytes.
    pub fn with_capacity(cap: usize) -> (d: Self)
        ensures
            d@ == Seq::<u8>::empty(),
    {
        Directory { buf: Vec::with_capacity(cap) }
    }

    /// A copy of the listing, for replying without giving the
    /// listing up.
    pub fn by_ref(&self) -> (d: Directory)
        ensures
            d@ == self@,
    {
        proof {
            use_type_invariant(self);
        }
        Directory { buf: slice_to_vec(self.buf.as_slice()) }
    }

    /// The listing's bytes.
    pub fn bytes(&self) -> (r: &[u8])
        ensures
            r@ == self@,
    {
        self.buf.as_slice()
    }

    /// Appends one entry. The entry's `off` field is the listing
    /// length after the padded entry; names with an interior NUL byte
    /// are refused and leave the listing unchanged.
    pub fn try_add_entry(&mut self, ino: u64, file_type: FileType, name: &[u8]) -> (r: Result<
        (),
        NulError,
    >)
        requires
            name@.len() <= u32::MAX,
            old(self)@.len() + name@.len() + 32 <= usize::MAX,
        ensures
            match r {
                Ok(()) => {
                    &&& !has_nul(name@)
                    &&& final(self)@ == old(self)@ + dirent_wire(
                        ino,
                        (old(self)@.len() + round_up8(24 + name@.len() as int)) as u64,
                        file_type.spec_as_raw() as u32,
                        name@,
                    )
                    &&& final(self)@.len() == old(self)@.len() + round_up8(24 + name@.len() as int)
                    &&& final(self)@.len() % 8 == 0
                },
                Err(e) => {
                    &&& final(self)@ == old(self)@
                    &&& e.spec_nul_position() < name@.len()
                    &&& name@[e.spec_nul_position() as int] == 0
                    &&& forall|j: int| 0 <= j < e.spec_nul_position() ==> name@[j] != 0
                },
            },
    {
        proof {
            use_type_invariant(&*self);
        }
        match check_bytes(name) {
            Err(e) => {
                return Err(e);
            },
            Ok(()) => {},
        }

        let namelen: u32 = name.len() as u32;
        let entry_len: usize = 24 + name.len();
        let rem: usize = entry_len % 8;
        let pad: usize = if rem == 0 {
            0
        } else {
            8 - rem
        };
        proof {
            assert(pad == pad8(entry_len as int));
        }

        let mut buf: Vec<u8> = Vec::new();
        core::mem::swap(&mut buf, &mut self.buf);
        let ghost buf0 = buf@;

        let off: u64 = ((buf.len() + entry_len) + pad) as u64;

        crate::wire::write_u64(&mut buf, ino);
        crate::wire::write_u64(&mut buf, off);
        crate::wire::write_u32(&mut buf, namelen);
        crate::wire::write_u32(&mut buf, file_type.as_u32());
        add_bytes(&mut buf, name);

        let ghost before_pad = buf@;
        let mut i: usize = 0;
        while i < pad
            invariant
                i <= pad,
                buf@ == before_pad + zero_bytes(i as int),
            decreases pad - i,
        {
            buf.push(0u8);
            proof {
                assert(before_pad + zero_bytes(i as int) + seq![0u8] =~= before_pad + zero_bytes(
                    i + 1,
                ));
            }
            i = i + 1;
        }

        proof {
            vstd::bytes::lemma_auto_spec_u64_to_from_le_bytes();
            vstd::bytes::lemma_auto_spec_u32_to_from_le_bytes();
            assert(spec_u64_to_le_bytes(ino).len() == 8);
            assert(spec_u64_to_le_bytes(off).len() == 8);
            assert(spec_u32_to_le_bytes(namelen).len() == 4);
            assert(spec_u32_to_le_bytes(file_type.spec_as_raw() as u32).len() == 4);
            assert(buf@ =~= buf0 + dirent_wire(
                ino,
                off,
                file_type.spec_as_raw() as u32,
                name@,
            ));
            assert(buf@.len() == buf0.len() + entry_len + pad);
            assert((buf0.len() + entry_len + pad) % 8 == 0) by {
                vstd::arithmetic::div_mod::lemma_fundamental_div_mod(entry_len as int, 8);
                vstd::arithmetic::div_mod::lemma_add_mod_noop(
                    buf0.len() as int,
                    (entry_len + pad) as int,
                    8,
                );
                vstd::arithmetic::div_mod::lemma_mod_self_0(8);
                vstd::arithmetic::div_mod::lemma_mod_multiples_vanish(
                    entry_len as int / 8 + 1,
                    0,
                    8,
                );
            }
        }
        self.buf = buf;
        Ok(())
    }

    /// Appends one entry, as [`Directory::try_add_entry`] does; a name
    /// with an interior NUL byte is left out here instead of refused.
    pub fn add_entry(&mut self, ino: u64, file_type: FileType, name: &[u8])
        requires
            !has_nul(name@),
            name@.len() <= u32::MAX,
            old(self)@.len() + name@.len() + 32 <= usize::MAX,
        ensures
            final(self)@ == old(self)@ + dirent_wire(
                ino,
                (old(self)@.len() + round_up8(24 + name@.len() as int)) as u64,
                file_type.spec_as_raw() as u32,
                name@,
            ),
            final(self)@.len() == old(self)@.len() + round_up8(24 + name@.len() as int),
    {
        let r = self.try_add_entry(ino, file_type, name);
        proof {
            assert(r is Ok);
        }
    }
}

/// The reply to READDIR: a window of the listing's bytes, clipped the
/// same way a data reply is.
#[derive(Debug)]
pub struct ReplyDirectory {
    dir: Directory,
    offset: usize,
    max_write_size: usize,
}

impl ReplyDirectory {
    /// The listing sent from.
    pub closed spec fn spec_dir(&self) -> Seq<u8> {
        self.dir@
    }

    /// The window start.
    pub closed spec fn spec_offset(&self) -> usize {
        self.offset
    }

    /// The window size limit.
    pub closed spec fn spec_max_write_size(&self) -> usize {
        self.max_write_size
    }

    /// A reply sending the window `[offset, offset + max_write_size)`
    /// of the listing.
    pub fn new(dir: Directory, offset: usize, max_write_size: usize) -> (r: Self)
        ensures
            r.spec_dir() == dir@,
            r.spec_offset() == offset,
            r.spec_max_write_size() == max_write_size,
    {
        ReplyDirectory { dir, offset, max_write_size }
    }
}

impl Encode for ReplyDirectory {
    open spec fn encoded(&self) -> Seq<u8> {
        clip(self.spec_dir(), self.spec_offset() as nat, self.spec_max_write_size() as nat)
    }

    fn collect_bytes(&self, out: &mut Vec<u8>) {
        add_clipped(out, self.dir.bytes(), self.offset, self.max_write_size);
    }
}

impl IsReplyOf<OpReadDir> for ReplyDirectory {}

} // verus!
