//! A small read-only in-memory filesystem: one directory holding one
//! file. It exercises the whole pipeline — every handler's contract
//! pins the exact reply frame sent for every request.

use crate::context::spec_neg_errno;
use crate::context::spec_reply_frame;
use crate::context::FuseContext;
use crate::abi::FuseAbiData;
use crate::encode::clip;
use crate::errno::Errno;
use crate::errno::EACCES;
use crate::errno::EISDIR;
use crate::errno::ENOENT;
use crate::errno::ENOSYS;
use crate::errno::ENOTDIR;
use crate::file::FileMode;
use crate::file::FileType;
use crate::file::StMode;
use crate::file::DT_DIR;
use crate::file::DT_REG;
use crate::file::O_RDONLY;
use crate::fs::FileSystem;
use crate::kernel::fuse_attr;
use crate::kernel::fuse_attr_out;
use crate::kernel::fuse_entry_out;
use crate::kernel::fuse_open_out;
use crate::ops::OpFlush;
use crate::ops::OpGetAttr;
use crate::ops::OpInterrupt;
use crate::ops::OpLookup;
use crate::ops::OpOpen;
use crate::ops::OpOpenDir;
use crate::ops::OpRead;
use crate::ops::OpReadDir;
use crate::ops::OpReleaseDir;
use crate::ops::Operation;
use crate::reply::dirent_wire;
use crate::reply::Attr;
use crate::reply::Directory;
use crate::reply::ReplyAttr;
use crate::reply::ReplyData;
use crate::reply::ReplyDirectory;
use crate::reply::ReplyEmpty;
use crate::reply::ReplyEntry;
use crate::reply::ReplyOpen;
use crate::reply::ReplyOpenDir;
use crate::reply::Entry;
use crate::utils::bytes_eq;
use crate::utils::clamp_to_usize;
use crate::utils::spec_clamp_to_usize;
use crate::write::FuseWrite;
use vstd::prelude::*;

verus! {

broadcast use vstd::slice::group_slice_axioms;

/// The node id of the root directory.
pub const ROOT_INO: u64 = 1;

/// The node id of the one file.
pub const HELLO_INO: u64 = 2;

/// The file's contents: the bytes of the greeting line.
pub open spec fn spec_hello_data() -> Seq<u8> {
    seq![72u8, 101u8, 108u8, 108u8, 111u8, 32u8, 87u8, 111u8, 114u8, 108u8, 100u8, 33u8, 10u8]
}

/// The file's name.
pub open spec fn spec_hello_name() -> Seq<u8> {
    seq![104u8, 101u8, 108u8, 108u8, 111u8]
}

/// A read-only in-memory filesystem serving one greeting file under
/// the root directory; timestamps are frozen at the instant it was
/// created, given as seconds and nanoseconds since the epoch.
#[derive(Debug, Clone, Copy)]
pub struct MemFs {
    /// Seconds since the epoch of every timestamp.
    pub init_secs: u64,
    /// Nanosecond part of every timestamp.
    pub init_nanos: u32,
}

impl MemFs {
    /// A filesystem whose timestamps are frozen at the given instant.
    pub fn new(init_secs: u64, init_nanos: u32) -> (fs: Self)
        ensures
            fs == (MemFs { init_secs, init_nanos }),
    {
        MemFs { init_secs, init_nanos }
    }

    /// The attributes of an inode: the root is a directory readable by
    /// everyone, the file a read-only regular file of the greeting's
    /// length.
    pub open spec fn spec_attr(&self, ino: u64) -> fuse_attr {
        fuse_attr {
            ino,
            size: if ino == ROOT_INO {
                4096
            } else {
                13
            },
            blocks: 8,
            atime: self.init_secs,
            mtime: self.init_secs,
            ctime: self.init_secs,
            atimensec: self.init_nanos,
            mtimensec: self.init_nanos,
            ctimensec: self.init_nanos,
            mode: if ino == ROOT_INO {
                (DT_DIR as u32) << 12 | 0o744
            } else {
                (DT_REG as u32) << 12 | 0o444
            },
            nlink: if ino == ROOT_INO {
                2
            } else {
                1
            },
            uid: 0,
            gid: 0,
            rdev: 0,
            blksize: 4096,
            padding: 0,
        }
    }

    /// The attribute reply record of an inode: attributes with no
    /// cache timeout.
    pub open spec fn spec_attr_out(&self, ino: u64) -> fuse_attr_out {
        fuse_attr_out { attr_valid: 0, attr_valid_nsec: 0, dummy: 0, attr: self.spec_attr(ino) }
    }

    /// The entry reply record of the file: its node id and attributes,
    /// cached for one second.
    pub open spec fn spec_hello_entry(&self) -> fuse_entry_out {
        fuse_entry_out {
            nodeid: HELLO_INO,
            generation: 0,
            entry_valid: 1,
            attr_valid: 1,
            entry_valid_nsec: 0,
            attr_valid_nsec: 0,
            attr: self.spec_attr(HELLO_INO),
        }
    }

    /// The root listing on the wire: `.`, `..`, and the file, each
    /// entry's offset the cumulative padded byte length.
    pub open spec fn spec_root_listing() -> Seq<u8> {
        dirent_wire(ROOT_INO, 32, DT_DIR as u32, seq![46u8]) + dirent_wire(
            ROOT_INO,
            64,
            DT_DIR as u32,
            seq![46u8, 46u8],
        ) + dirent_wire(HELLO_INO, 96, DT_REG as u32, spec_hello_name())
    }

    /// The attributes of `ino`, or nothing for an inode the filesystem
    /// does not have.
    pub fn stat(&self, ino: u64) -> (r: Option<Attr>)
        ensures
            match r {
                Some(a) => (ino == ROOT_INO || ino == HELLO_INO) && a.spec_raw() == self.spec_attr(
                    ino,
                ),
                None => ino != ROOT_INO && ino != HELLO_INO,
            },
    {
        if ino != ROOT_INO && ino != HELLO_INO {
            return None;
        }
        let mut attr = Attr::default();
        attr.ino(ino);
        attr.blocks(8);
        attr.blksize(4096);
        attr.uid(0);
        attr.gid(0);
        attr.atime(self.init_secs, self.init_nanos);
        attr.ctime(self.init_secs, self.init_nanos);
        attr.mtime(self.init_secs, self.init_nanos);
        if ino == ROOT_INO {
            attr.mode(StMode::new(FileType::Directory, FileMode(0o744)));
            attr.nlink(2);
            attr.size(4096);
        } else {
            attr.mode(StMode::new(FileType::Regular, FileMode(0o444)));
            attr.nlink(1);
            attr.size(13);
        }
        Some(attr)
    }

    /// Looks a name up under a directory: only the greeting's name
    /// under the root is found.
    pub fn lookup(&self, parent: u64, name: &[u8]) -> (r: Option<Entry>)
        ensures
            match r {
                Some(entry) => {
                    &&& parent == ROOT_INO
                    &&& name@ == spec_hello_name()
                    &&& entry.spec_out() == self.spec_hello_entry()
                },
                None => parent != ROOT_INO || name@ != spec_hello_name(),
            },
    {
        if parent != ROOT_INO {
            return None;
        }
        let hello: Vec<u8> = vec![104u8, 101u8, 108u8, 108u8, 111u8];
        proof {
            assert(hello@ =~= spec_hello_name());
        }
        if !bytes_eq(name, hello.as_slice()) {
            return None;
        }
        let mut entry = Entry::default();
        entry.attr_valid(1, 0);
        entry.entry_valid(1, 0);
        let attr = self.stat(HELLO_INO).unwrap();
        entry.attr(attr);
        entry.nodeid(HELLO_INO);
        Some(entry)
    }

    /// The root listing, built entry by entry.
    pub fn root_listing(&self) -> (d: Directory)
        ensures
            d@ == MemFs::spec_root_listing(),
    {
        let mut dir = Directory::with_capacity(256);
        let dot: Vec<u8> = vec![46u8];
        let dotdot: Vec<u8> = vec![46u8, 46u8];
        let hello: Vec<u8> = vec![104u8, 101u8, 108u8, 108u8, 111u8];
        proof {
            assert(dot@ =~= seq![46u8]);
            assert(dotdot@ =~= seq![46u8, 46u8]);
            assert(hello@ =~= spec_hello_name());
            assert(!crate::c_bytes::has_nul(dot@));
            assert(!crate::c_bytes::has_nul(dotdot@));
            assert(!crate::c_bytes::has_nul(hello@));
        }
        dir.add_entry(ROOT_INO, FileType::Directory, dot.as_slice());
        dir.add_entry(ROOT_INO, FileType::Directory, dotdot.as_slice());
        dir.add_entry(HELLO_INO, FileType::Regular, hello.as_slice());
        proof {
            assert(dir@ =~= MemFs::spec_root_listing());
        }
        dir
    }

    /// Answers GETATTR: the inode's attributes, or `ENOENT` for an
    /// inode the filesystem does not have.
    pub fn do_getattr<W: FuseWrite>(
        &self,
        writer: &mut W,
        cx: FuseContext,
        op: OpGetAttr,
    ) -> (r: Result<(), i32>)
        ensures
            match r {
                Ok(()) => {
                    let ino = cx.spec_header().nodeid;
                    if ino == ROOT_INO || ino == HELLO_INO {
                        final(writer).sent() == old(writer).sent().push(
                            spec_reply_frame(
                                cx.spec_header().unique,
                                0,
                                self.spec_attr_out(ino).as_wire(),
                            ),
                        )
                    } else {
                        final(writer).sent() == old(writer).sent().push(
                            spec_reply_frame(
                                cx.spec_header().unique,
                                spec_neg_errno(ENOENT),
                                Seq::empty(),
                            ),
                        )
                    }
                },
                Err(_) => final(writer).sent() == old(writer).sent(),
            },
    {
        let ino: u64 = cx.header().nodeid();
        match self.stat(ino) {
            Some(attr) => {
                let mut reply = ReplyAttr::default();
                reply.attr(attr);
                proof {
                    fuse_attr_out::lemma_wire_len(reply.spec_out());
                }
                cx.reply(writer, &op, reply)
            },
            None => cx.reply_err(writer, Errno::new(ENOENT)),
        }
    }

    /// Answers LOOKUP: the file's entry for its name under the root,
    /// `ENOENT` for every other name.
    pub fn do_lookup<W: FuseWrite>(
        &self,
        writer: &mut W,
        cx: FuseContext,
        op: OpLookup<'_>,
    ) -> (r: Result<(), i32>)
        ensures
            match r {
                Ok(()) => {
                    let name = op.spec_name().take(op.spec_name().len() - 1);
                    if cx.spec_header().nodeid == ROOT_INO && name == spec_hello_name() {
                        final(writer).sent() == old(writer).sent().push(
                            spec_reply_frame(
                                cx.spec_header().unique,
                                0,
                                self.spec_hello_entry().as_wire(),
                            ),
                        )
                    } else {
                        final(writer).sent() == old(writer).sent().push(
                            spec_reply_frame(
                                cx.spec_header().unique,
                                spec_neg_errno(ENOENT),
                                Seq::empty(),
                            ),
                        )
                    }
                },
                Err(_) => final(writer).sent() == old(writer).sent(),
            },
    {
        let parent: u64 = cx.header().nodeid();
        let name: &[u8] = op.name();
        match self.lookup(parent, name) {
            Some(entry) => {
                let reply = ReplyEntry::new(entry);
                proof {
                    fuse_entry_out::lemma_wire_len(reply.spec_out());
                }
                cx.reply(writer, &op, reply)
            },
            None => cx.reply_err(writer, Errno::new(ENOENT)),
        }
    }

    /// Answers READDIR: the requested window of the root listing, or
    /// `ENOTDIR` for a node that is not the root.
    pub fn do_readdir<W: FuseWrite>(
        &self,
        writer: &mut W,
        cx: FuseContext,
        op: OpReadDir,
    ) -> (r: Result<(), i32>)
        ensures
            match r {
                Ok(()) => {
                    if cx.spec_header().nodeid == ROOT_INO {
                        final(writer).sent() == old(writer).sent().push(
                            spec_reply_frame(
                                cx.spec_header().unique,
                                0,
                                clip(
                                    MemFs::spec_root_listing(),
                                    spec_clamp_to_usize(op.spec_arg().offset) as nat,
                                    op.spec_arg().size as nat,
                                ),
                            ),
                        )
                    } else {
                        final(writer).sent() == old(writer).sent().push(
                            spec_reply_frame(
                                cx.spec_header().unique,
                                spec_neg_errno(ENOTDIR),
                                Seq::empty(),
                            ),
                        )
                    }
                },
                Err(_) => final(writer).sent() == old(writer).sent(),
            },
    {
        let ino: u64 = cx.header().nodeid();
        if ino != ROOT_INO {
            return cx.reply_err(writer, Errno::new(ENOTDIR));
        }
        let dir = self.root_listing();
        let offset: usize = clamp_to_usize(op.offset());
        let size: usize = op.size() as usize;
        let reply = ReplyDirectory::new(dir, offset, size);
        proof {
            vstd::bytes::lemma_auto_spec_u64_to_from_le_bytes();
            vstd::bytes::lemma_auto_spec_u32_to_from_le_bytes();
            assert(MemFs::spec_root_listing().len() <= 96);
        }
        cx.reply(writer, &op, reply)
    }

    /// Answers OPEN: read-only opens of the file succeed with a fresh
    /// handle record; the root gets `EISDIR`, any other access mode
    /// `EACCES`.
    pub fn do_open<W: FuseWrite>(&self, writer: &mut W, cx: FuseContext, op: OpOpen) -> (r: Result<
        (),
        i32,
    >)
        ensures
            match r {
                Ok(()) => {
                    if cx.spec_header().nodeid != HELLO_INO {
                        final(writer).sent() == old(writer).sent().push(
                            spec_reply_frame(
                                cx.spec_header().unique,
                                spec_neg_errno(EISDIR),
                                Seq::empty(),
                            ),
                        )
                    } else if op.spec_arg().flags & 3 != O_RDONLY {
                        final(writer).sent() == old(writer).sent().push(
                            spec_reply_frame(
                                cx.spec_header().unique,
                                spec_neg_errno(EACCES),
                                Seq::empty(),
                            ),
                        )
                    } else {
                        final(writer).sent() == old(writer).sent().push(
                            spec_reply_frame(
                                cx.spec_header().unique,
                                0,
                                fuse_open_out::zeroed().as_wire(),
                            ),
                        )
                    }
                },
                Err(_) => final(writer).sent() == old(writer).sent(),
            },
    {
        let ino: u64 = cx.header().nodeid();
        if ino != HELLO_INO {
            return cx.reply_err(writer, Errno::new(EISDIR));
        }
        if op.flags() & 3 != O_RDONLY {
            return cx.reply_err(writer, Errno::new(EACCES));
        }
        let reply = ReplyOpen::default();
        proof {
            fuse_open_out::lemma_wire_len(reply.spec_out());
        }
        cx.reply(writer, &op, reply)
    }

    /// Answers OPENDIR: read-only opens of the root succeed with a
    /// fresh handle record; other nodes get `ENOTDIR`, other access
    /// modes `EACCES`.
    pub fn do_opendir<W: FuseWrite>(
        &self,
        writer: &mut W,
        cx: FuseContext,
        op: OpOpenDir,
    ) -> (r: Result<(), i32>)
        ensures
            match r {
                Ok(()) => {
                    if cx.spec_header().nodeid != ROOT_INO {
                        final(writer).sent() == old(writer).sent().push(
                            spec_reply_frame(
                                cx.spec_header().unique,
                                spec_neg_errno(ENOTDIR),
                                Seq::empty(),
                            ),
                        )
                    } else if op.spec_arg().flags & 3 != O_RDONLY {
                        final(writer).sent() == old(writer).sent().push(
                            spec_reply_frame(
                                cx.spec_header().unique,
                                spec_neg_errno(EACCES),
                                Seq::empty(),
                            ),
                        )
                    } else {
                        final(writer).sent() == old(writer).sent().push(
                            spec_reply_frame(
                                cx.spec_header().unique,
                                0,
                                fuse_open_out::zeroed().as_wire(),
                            ),
                        )
                    }
                },
                Err(_) => final(writer).sent() == old(writer).sent(),
            },
    {
        let ino: u64 = cx.header().nodeid();
        if ino != ROOT_INO {
            return cx.reply_err(writer, Errno::new(ENOTDIR));
        }
        if op.flags() & 3 != O_RDONLY {
            return cx.reply_err(writer, Errno::new(EACCES));
        }
        let reply = ReplyOpenDir::default();
        proof {
            fuse_open_out::lemma_wire_len(reply.spec_out());
        }
        cx.reply(writer, &op, reply)
    }

    /// Answers READ: the requested window of the greeting, clipped to
    /// the bytes that exist, or `EISDIR` for a node that is not the
    /// file.
    pub fn do_read<W: FuseWrite>(&self, writer: &mut W, cx: FuseContext, op: OpRead) -> (r: Result<
        (),
        i32,
    >)
        ensures
            match r {
                Ok(()) => {
                    if cx.spec_header().nodeid == HELLO_INO {
                        final(writer).sent() == old(writer).sent().push(
                            spec_reply_frame(
                                cx.spec_header().unique,
                                0,
                                clip(
                                    spec_hello_data(),
                                    spec_clamp_to_usize(op.spec_arg().offset) as nat,
                                    op.spec_arg().size as nat,
                                ),
                            ),
                        )
                    } else {
                        final(writer).sent() == old(writer).sent().push(
                            spec_reply_frame(
                                cx.spec_header().unique,
                                spec_neg_errno(EISDIR),
                                Seq::empty(),
                            ),
                        )
                    }
                },
                Err(_) => final(writer).sent() == old(writer).sent(),
            },
    {
        let ino: u64 = cx.header().nodeid();
        if ino != HELLO_INO {
            return cx.reply_err(writer, Errno::new(EISDIR));
        }
        let data: Vec<u8> = vec![
            72u8, 101u8, 108u8, 108u8, 111u8, 32u8, 87u8, 111u8, 114u8, 108u8, 100u8, 33u8, 10u8,
        ];
        proof {
            assert(data@ =~= spec_hello_data());
        }
        let offset: usize = clamp_to_usize(op.offset());
        let size: usize = op.size() as usize;
        let reply = ReplyData::new(data.as_slice(), offset, size);
        cx.reply(writer, &op, reply)
    }

    /// Answers RELEASEDIR with plain success.
    pub fn do_releasedir<W: FuseWrite>(
        &self,
        writer: &mut W,
        cx: FuseContext,
        op: OpReleaseDir,
    ) -> (r: Result<(), i32>)
        ensures
            match r {
                Ok(()) => final(writer).sent() == old(writer).sent().push(
                    spec_reply_frame(cx.spec_header().unique, 0, Seq::empty()),
                ),
                Err(_) => final(writer).sent() == old(writer).sent(),
            },
    {
        cx.reply(writer, &op, ReplyEmpty::default())
    }

    /// Answers FLUSH with plain success.
    pub fn do_flush<W: FuseWrite>(
        &self,
        writer: &mut W,
        cx: FuseContext,
        op: OpFlush,
    ) -> (r: Result<(), i32>)
        ensures
            match r {
                Ok(()) => final(writer).sent() == old(writer).sent().push(
                    spec_reply_frame(cx.spec_header().unique, 0, Seq::empty()),
                ),
                Err(_) => final(writer).sent() == old(writer).sent(),
            },
    {
        cx.reply(writer, &op, ReplyEmpty::default())
    }

    /// Answers INTERRUPT with plain success: the one file never blocks,
    /// so there is nothing to cancel.
    pub fn do_interrupt<W: FuseWrite>(
        &self,
        writer: &mut W,
        cx: FuseContext,
        op: OpInterrupt,
    ) -> (r: Result<(), i32>)
        ensures
            match r {
                Ok(()) => final(writer).sent() == old(writer).sent().push(
                    spec_reply_frame(cx.spec_header().unique, 0, Seq::empty()),
                ),
                Err(_) => final(writer).sent() == old(writer).sent(),
            },
    {
        cx.reply(writer, &op, ReplyEmpty::default())
    }
}

impl FileSystem for MemFs {
    fn dispatch<W: FuseWrite>(
        &self,
        writer: &mut W,
        cx: FuseContext,
        op: Operation<'_>,
    ) -> Result<(), i32> {
        match op {
            Operation::Lookup(x) => self.do_lookup(writer, cx, x),
            Operation::GetAttr(x) => self.do_getattr(writer, cx, x),
            Operation::OpenDir(x) => self.do_opendir(writer, cx, x),
            Operation::ReadDir(x) => self.do_readdir(writer, cx, x),
            Operation::Open(x) => self.do_open(writer, cx, x),
            Operation::Read(x) => self.do_read(writer, cx, x),
            Operation::ReleaseDir(x) => self.do_releasedir(writer, cx, x),
            Operation::Flush(x) => self.do_flush(writer, cx, x),
            Operation::Interrupt(x) => self.do_interrupt(writer, cx, x),
            _ => cx.reply_err(writer, Errno::new(ENOSYS)),
        }
    }
}

} // verus!

