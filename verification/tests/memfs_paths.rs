//! The demonstration filesystem's error paths, frame by frame.

use async_fuse::abi::FuseAbiData;
use async_fuse::context::ProtocolVersion;
use async_fuse::errno;
use async_fuse::kernel::fuse_in_header;
use async_fuse::kernel::fuse_open_in;
use async_fuse::kernel::fuse_out_header;
use async_fuse::kernel::fuse_read_in;
use async_fuse::kernel::FUSE_OPEN;
use async_fuse::kernel::FUSE_OPENDIR;
use async_fuse::kernel::FUSE_READ;
use async_fuse::kernel::FUSE_READDIR;
use async_fuse::memfs::MemFs;
use async_fuse::server::init_handshake;
use async_fuse::server::ServerConfig;
use async_fuse::server::process_frame;
use async_fuse::server::ProcessError;
use async_fuse::write::VecWriter;

fn proto() -> ProtocolVersion {
    ProtocolVersion {
        major: 7,
        minor: 31,
    }
}

fn header(len: u32, opcode: u32, unique: u64, nodeid: u64) -> fuse_in_header {
    fuse_in_header {
        len,
        opcode,
        unique,
        nodeid,
        uid: 0,
        gid: 0,
        pid: 0,
        padding: 0,
    }
}

fn expect_errno(frame: &[u8], unique: u64, raw: i32) {
    let mut writer = VecWriter::new();
    process_frame(&MemFs::new(0, 0), &mut writer, frame, proto()).unwrap();
    let frames = writer.frames();
    assert_eq!(frames.len(), 1);
    let sent = &frames[0];
    assert_eq!(sent.len(), 16);
    let out = fuse_out_header::read_wire(sent, 0);
    assert_eq!(out.error, -raw);
    assert_eq!(out.unique, unique);
}

fn open_frame(opcode: u32, unique: u64, nodeid: u64, flags: u32) -> Vec<u8> {
    let mut frame: Vec<u8> = Vec::new();
    header(48, opcode, unique, nodeid).write_wire(&mut frame);
    fuse_open_in { flags, unused: 0 }.write_wire(&mut frame);
    frame
}

#[test]
fn open_directory_is_eisdir() {
    expect_errno(&open_frame(FUSE_OPEN, 1, 1, 0), 1, errno::EISDIR);
}

#[test]
fn open_for_writing_is_eacces() {
    expect_errno(&open_frame(FUSE_OPEN, 2, 2, 1), 2, errno::EACCES);
}

#[test]
fn opendir_on_file_is_enotdir() {
    expect_errno(&open_frame(FUSE_OPENDIR, 3, 2, 0), 3, errno::ENOTDIR);
}

#[test]
fn opendir_for_writing_is_eacces() {
    expect_errno(&open_frame(FUSE_OPENDIR, 4, 1, 2), 4, errno::EACCES);
}

fn read_frame(opcode: u32, unique: u64, nodeid: u64) -> Vec<u8> {
    let mut frame: Vec<u8> = Vec::new();
    header(80, opcode, unique, nodeid).write_wire(&mut frame);
    fuse_read_in {
        fh: 0,
        offset: 0,
        size: 4096,
        read_flags: 0,
        lock_owner: 0,
        flags: 0,
        padding: 0,
    }
    .write_wire(&mut frame);
    frame
}

#[test]
fn read_directory_is_eisdir() {
    expect_errno(&read_frame(FUSE_READ, 5, 1), 5, errno::EISDIR);
}

#[test]
fn readdir_on_file_is_enotdir() {
    expect_errno(&read_frame(FUSE_READDIR, 6, 2), 6, errno::ENOTDIR);
}

#[test]
fn open_file_read_only_succeeds() {
    let mut writer = VecWriter::new();
    process_frame(&MemFs::new(0, 0), &mut writer, &open_frame(FUSE_OPEN, 7, 2, 0), proto())
        .unwrap();
    let frames = writer.frames();
    let sent = &frames[0];
    assert_eq!(sent.len(), 32);
    let out = fuse_out_header::read_wire(sent, 0);
    assert_eq!(out.error, 0);
    assert_eq!(out.unique, 7);
}

#[test]
fn handshake_on_garbage_is_malformed() {
    let garbage: [u8; 7] = [1, 2, 3, 4, 5, 6, 7];
    let mut writer = VecWriter::new();
    let err = init_handshake(&mut writer, &garbage, &ServerConfig::default()).unwrap_err();
    assert_eq!(format!("{:?}", err), "Malformed(NotEnough)");
    assert_eq!(writer.frames().len(), 0);
}

#[test]
fn short_frame_is_a_bad_frame() {
    let short: [u8; 12] = [0; 12];
    let mut writer = VecWriter::new();
    let err = process_frame(&MemFs::new(0, 0), &mut writer, &short, proto()).unwrap_err();
    assert!(matches!(err, ProcessError::BadFrame(_)));
    assert_eq!(writer.frames().len(), 0);
}
