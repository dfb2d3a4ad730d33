//! Record round trips, reply frames, the directory builder, and the
//! frame length limit.

use async_fuse::abi::FuseAbiData;
use async_fuse::context::build_reply_frame;
use async_fuse::context::frame_total_len;
use async_fuse::context::FuseContext;
use async_fuse::context::ProtocolVersion;
use async_fuse::kernel::fuse_interrupt_in;
use async_fuse::kernel::FUSE_INTERRUPT;
use async_fuse::encode::Encode;
use async_fuse::errno::Errno;
use async_fuse::file::FileType;
use async_fuse::kernel::fuse_attr;
use async_fuse::kernel::fuse_in_header;
use async_fuse::kernel::fuse_init_out;
use async_fuse::kernel::fuse_out_header;
use async_fuse::reply::Directory;
use async_fuse::reply::ReplyData;
use async_fuse::write::FuseWrite;
use async_fuse::write::VecWriter;

#[test]
fn attr_record_round_trip() {
    let attr = fuse_attr {
        ino: 77,
        size: 4096,
        blocks: 8,
        atime: 1_600_000_000,
        mtime: 1_600_000_001,
        ctime: 1_600_000_002,
        atimensec: 1,
        mtimensec: 2,
        ctimensec: 3,
        mode: 0o40755,
        nlink: 2,
        uid: 1000,
        gid: 1000,
        rdev: 0,
        blksize: 4096,
        padding: 0,
    };
    let mut wire: Vec<u8> = Vec::new();
    attr.write_wire(&mut wire);
    assert_eq!(wire.len(), 88);
    let back = fuse_attr::read_wire(&wire, 0);
    assert_eq!(back, attr);
}

#[test]
fn header_record_round_trip_via_decoder() {
    let h = fuse_in_header {
        len: 40,
        opcode: 25,
        unique: 42,
        nodeid: 7,
        uid: 1,
        gid: 2,
        pid: 3,
        padding: 0,
    };
    let mut wire: Vec<u8> = Vec::new();
    h.write_wire(&mut wire);
    let mut de = async_fuse::decode::Decoder::new(&wire);
    let back = de.fetch::<fuse_in_header>().unwrap();
    assert_eq!(back, h);
    assert!(de.is_empty());
}

#[test]
fn init_out_record_round_trip() {
    let out = fuse_init_out {
        major: 7,
        minor: 31,
        max_readahead: 131072,
        flags: 0x33,
        max_background: 10,
        congestion_threshold: 10,
        max_write: 131072,
        time_gran: 1,
        max_pages: 0,
        padding: 0,
        unused0: 0,
        unused1: 0,
        unused2: 0,
        unused3: 0,
        unused4: 0,
        unused5: 0,
        unused6: 0,
        unused7: 0,
    };
    let mut wire: Vec<u8> = Vec::new();
    out.write_wire(&mut wire);
    assert_eq!(wire.len(), 64);
    assert_eq!(fuse_init_out::read_wire(&wire, 0), out);
}

#[test]
fn reply_frame_length_prefix() {
    let body: [u8; 5] = [9, 8, 7, 6, 5];
    let frame = build_reply_frame(11, 0, &body).unwrap();
    assert_eq!(frame.len(), 21);
    let prefix = u32::from_le_bytes(frame[0..4].try_into().unwrap());
    assert_eq!(prefix as usize, frame.len());
    assert_eq!(&frame[16..], &body);
}

#[test]
fn error_reply_is_sixteen_bytes() {
    let mut frame: Vec<u8> = Vec::new();
    fuse_in_header {
        len: 48,
        opcode: FUSE_INTERRUPT,
        unique: 99,
        nodeid: 0,
        uid: 0,
        gid: 0,
        pid: 0,
        padding: 0,
    }
    .write_wire(&mut frame);
    fuse_interrupt_in { unique: 7 }.write_wire(&mut frame);
    let proto = ProtocolVersion {
        major: 7,
        minor: 31,
    };
    let (cx, _op) = FuseContext::new(&frame, proto).unwrap();

    let mut writer = VecWriter::new();
    cx.reply_err(&mut writer, Errno::new(libc::ENOENT)).unwrap();
    let frames = writer.frames();
    assert_eq!(frames.len(), 1);
    let sent = &frames[0];
    assert_eq!(sent.len(), 16);
    let out = fuse_out_header::read_wire(sent, 0);
    assert_eq!(out.len, 16);
    assert_eq!(out.error, -libc::ENOENT);
    assert_eq!(out.unique, 99);
}

#[test]
fn frame_length_field_limit() {
    assert_eq!(frame_total_len(0), Some(16));
    assert_eq!(frame_total_len(100), Some(116));
    let largest = (u32::MAX - 16) as usize;
    assert_eq!(frame_total_len(largest), Some(u32::MAX));
    assert_eq!(frame_total_len(largest + 1), None);
    assert_eq!(frame_total_len(usize::MAX), None);
}

#[test]
fn directory_builder_offsets_and_padding() {
    let mut dir = Directory::with_capacity(256);
    dir.add_entry(1, FileType::Directory, b".");
    assert_eq!(dir.bytes().len(), 32);
    dir.add_entry(5, FileType::Regular, b"12345678");
    assert_eq!(dir.bytes().len(), 64);

    let bytes = dir.bytes();
    let off1 = u64::from_le_bytes(bytes[8..16].try_into().unwrap());
    assert_eq!(off1, 32);
    let off2 = u64::from_le_bytes(bytes[32 + 8..32 + 16].try_into().unwrap());
    assert_eq!(off2, 64);
    // The first entry's name is padded with NUL bytes to the boundary.
    assert_eq!(&bytes[24..32], b".\0\0\0\0\0\0\0");
}

#[test]
fn directory_builder_rejects_interior_nul() {
    let mut dir = Directory::with_capacity(64);
    let err = dir.try_add_entry(1, FileType::Regular, b"a\0b").unwrap_err();
    assert_eq!(err.nul_position(), 1);
    assert_eq!(dir.bytes().len(), 0);
}

#[test]
fn data_reply_clipping_windows() {
    let source: [u8; 10] = [0, 1, 2, 3, 4, 5, 6, 7, 8, 9];

    let mut out: Vec<u8> = Vec::new();
    ReplyData::new(&source, 2, 4).collect_bytes(&mut out);
    assert_eq!(out, vec![2, 3, 4, 5]);

    let mut out: Vec<u8> = Vec::new();
    ReplyData::new(&source, 8, 100).collect_bytes(&mut out);
    assert_eq!(out, vec![8, 9]);

    let mut out: Vec<u8> = Vec::new();
    ReplyData::new(&source, 50, 4).collect_bytes(&mut out);
    assert_eq!(out, Vec::<u8>::new());
}

#[test]
fn writer_take_frames_drains() {
    let mut writer = VecWriter::new();
    writer.send_reply(&[1, 2, 3]).unwrap();
    writer.send_reply(&[4]).unwrap();
    let drained = writer.take_frames();
    assert_eq!(drained, vec![vec![1, 2, 3], vec![4]]);
    assert_eq!(writer.frames().len(), 0);
}
