//! End-to-end protocol behaviour: the INIT handshake and the
//! steady-state request/reply cycle over in-memory frames.

use async_fuse::abi::FuseAbiData;
use async_fuse::context::ProtocolVersion;
use async_fuse::errno;
use async_fuse::kernel::fuse_attr_out;
use async_fuse::kernel::fuse_getattr_in;
use async_fuse::kernel::fuse_in_header;
use async_fuse::kernel::fuse_init_in;
use async_fuse::kernel::fuse_init_out;
use async_fuse::kernel::fuse_out_header;
use async_fuse::kernel::fuse_read_in;
use async_fuse::kernel::FUSE_GETATTR;
use async_fuse::kernel::FUSE_INIT;
use async_fuse::kernel::FUSE_LOOKUP;
use async_fuse::kernel::FUSE_READ;
use async_fuse::kernel::FUSE_READDIR;
use async_fuse::memfs::MemFs;
use async_fuse::server::action_for_read_error;
use async_fuse::server::conn_step;
use async_fuse::server::init_handshake;
use async_fuse::server::process_frame;
use async_fuse::server::ServerConfig;
use async_fuse::server::ConnEvent;
use async_fuse::server::ConnState;
use async_fuse::server::LoopAction;
use async_fuse::write::VecWriter;

fn header(len: u32, opcode: u32, unique: u64, nodeid: u64) -> fuse_in_header {
    fuse_in_header {
        len,
        opcode,
        unique,
        nodeid,
        uid: 0,
        gid: 0,
        pid: 0,
        padding: 0,
    }
}

fn proto() -> ProtocolVersion {
    ProtocolVersion {
        major: 7,
        minor: 31,
    }
}

fn fs() -> MemFs {
    MemFs::new(1_600_000_000, 0)
}

#[test]
fn init_handshake_negotiates() {
    let mut frame: Vec<u8> = Vec::new();
    header(56, FUSE_INIT, 1, 0).write_wire(&mut frame);
    fuse_init_in {
        major: 7,
        minor: 31,
        max_readahead: 131072,
        flags: 0,
    }
    .write_wire(&mut frame);
    assert_eq!(frame.len(), 56);

    let mut writer = VecWriter::new();
    let negotiated = init_handshake(&mut writer, &frame, &ServerConfig::default()).unwrap();
    assert_eq!(negotiated, proto());

    let frames = writer.frames();
    assert_eq!(frames.len(), 1);
    let sent = &frames[0];
    assert_eq!(sent.len(), 80);

    let out = fuse_out_header::read_wire(sent, 0);
    assert_eq!(out.len, 80);
    assert_eq!(out.error, 0);
    assert_eq!(out.unique, 1);

    let body = fuse_init_out::read_wire(sent, 16);
    assert_eq!(body.major, 7);
    assert_eq!(body.minor, 31);
    assert_eq!(body.max_readahead, 131072);
    assert_eq!(body.flags, 0);
    assert_eq!(body.max_background, 10);
    assert_eq!(body.congestion_threshold, 10);
    assert_eq!(body.max_write, 131072);
    assert_eq!(body.time_gran, 1);
    assert_eq!(body.max_pages, 0);
}

#[test]
fn init_handshake_rejects_other_first_request() {
    let mut frame: Vec<u8> = Vec::new();
    header(42, FUSE_LOOKUP, 1, 1).write_wire(&mut frame);
    frame.push(b'x');
    frame.push(0);

    let mut writer = VecWriter::new();
    let err = init_handshake(&mut writer, &frame, &ServerConfig::default()).unwrap_err();
    assert_eq!(format!("{:?}", err), "NotInit");
    assert_eq!(writer.frames().len(), 0);
}

#[test]
fn lookup_missing_name_gets_enoent() {
    let mut frame: Vec<u8> = Vec::new();
    header(42, FUSE_LOOKUP, 2, 1).write_wire(&mut frame);
    frame.push(b'x');
    frame.push(0);
    assert_eq!(frame.len(), 42);

    let mut writer = VecWriter::new();
    process_frame(&fs(), &mut writer, &frame, proto()).unwrap();

    let frames = writer.frames();
    assert_eq!(frames.len(), 1);
    let sent = &frames[0];
    assert_eq!(sent.len(), 16);
    let out = fuse_out_header::read_wire(sent, 0);
    assert_eq!(out.len, 16);
    assert_eq!(out.error, -2);
    assert_eq!(out.unique, 2);
}

#[test]
fn lookup_hello_returns_entry() {
    let mut frame: Vec<u8> = Vec::new();
    header(46, FUSE_LOOKUP, 7, 1).write_wire(&mut frame);
    frame.extend_from_slice(b"hello\0");

    let mut writer = VecWriter::new();
    process_frame(&fs(), &mut writer, &frame, proto()).unwrap();

    let frames = writer.frames();
    assert_eq!(frames.len(), 1);
    let sent = &frames[0];
    assert_eq!(sent.len(), 16 + 128);
    let out = fuse_out_header::read_wire(sent, 0);
    assert_eq!(out.error, 0);
    assert_eq!(out.unique, 7);
    let entry = async_fuse::kernel::fuse_entry_out::read_wire(sent, 16);
    assert_eq!(entry.nodeid, 2);
    assert_eq!(entry.attr.ino, 2);
    assert_eq!(entry.attr.size, 13);
}

#[test]
fn getattr_root_reports_directory() {
    let mut frame: Vec<u8> = Vec::new();
    header(56, FUSE_GETATTR, 3, 1).write_wire(&mut frame);
    fuse_getattr_in {
        getattr_flags: 0,
        dummy: 0,
        fh: 0,
    }
    .write_wire(&mut frame);

    let mut writer = VecWriter::new();
    process_frame(&fs(), &mut writer, &frame, proto()).unwrap();

    let frames = writer.frames();
    assert_eq!(frames.len(), 1);
    let sent = &frames[0];
    assert_eq!(sent.len(), 120);
    let out = fuse_out_header::read_wire(sent, 0);
    assert_eq!(out.len, 120);
    assert_eq!(out.error, 0);
    assert_eq!(out.unique, 3);
    let body = fuse_attr_out::read_wire(sent, 16);
    assert_eq!(body.attr.ino, 1);
    assert_eq!(body.attr.nlink, 2);
    assert_eq!(body.attr.mode, (libc::DT_DIR as u32) << 12 | 0o744);
}

fn read_frame(unique: u64, nodeid: u64, opcode: u32, offset: u64, size: u32) -> Vec<u8> {
    let mut frame: Vec<u8> = Vec::new();
    header(80, opcode, unique, nodeid).write_wire(&mut frame);
    fuse_read_in {
        fh: 0,
        offset,
        size,
        read_flags: 0,
        lock_owner: 0,
        flags: 0,
        padding: 0,
    }
    .write_wire(&mut frame);
    frame
}

#[test]
fn read_clips_to_file_contents() {
    let frame = read_frame(4, 2, FUSE_READ, 5, 100);
    let mut writer = VecWriter::new();
    process_frame(&fs(), &mut writer, &frame, proto()).unwrap();

    let frames = writer.frames();
    let sent = &frames[0];
    let out = fuse_out_header::read_wire(sent, 0);
    assert_eq!(out.len, 16 + 8);
    assert_eq!(out.error, 0);
    assert_eq!(out.unique, 4);
    assert_eq!(&sent[16..], b" World!\n");
}

#[test]
fn readdir_lists_three_padded_entries() {
    let frame = read_frame(5, 1, FUSE_READDIR, 0, 4096);
    let mut writer = VecWriter::new();
    process_frame(&fs(), &mut writer, &frame, proto()).unwrap();

    let frames = writer.frames();
    let sent = &frames[0];
    let out = fuse_out_header::read_wire(sent, 0);
    assert_eq!(out.error, 0);
    let listing = &sent[16..];
    assert_eq!(listing.len(), 96);

    // Each entry: ino, off, namelen, type, then the name padded to 8.
    let mut pos = 0;
    let mut last_off = 0;
    let expected: [(u64, u32, &[u8]); 3] = [
        (1, libc::DT_DIR as u32, b"."),
        (1, libc::DT_DIR as u32, b".."),
        (2, libc::DT_REG as u32, b"hello"),
    ];
    for (ino, d_type, name) in expected {
        assert_eq!(pos % 8, 0);
        let got_ino = u64::from_le_bytes(listing[pos..pos + 8].try_into().unwrap());
        let off = u64::from_le_bytes(listing[pos + 8..pos + 16].try_into().unwrap());
        let namelen = u32::from_le_bytes(listing[pos + 16..pos + 20].try_into().unwrap());
        let got_type = u32::from_le_bytes(listing[pos + 20..pos + 24].try_into().unwrap());
        assert_eq!(got_ino, ino);
        assert_eq!(got_type, d_type);
        assert_eq!(namelen as usize, name.len());
        assert_eq!(&listing[pos + 24..pos + 24 + name.len()], name);
        assert!(off > last_off);
        last_off = off;
        pos += (24 + name.len() + 7) / 8 * 8;
        assert_eq!(off as usize, pos);
    }
    assert_eq!(pos, 96);
}

#[test]
fn unknown_opcode_gets_enosys() {
    let mut frame: Vec<u8> = Vec::new();
    header(40, 9999, 6, 1).write_wire(&mut frame);

    let mut writer = VecWriter::new();
    process_frame(&fs(), &mut writer, &frame, proto()).unwrap();

    let frames = writer.frames();
    let sent = &frames[0];
    assert_eq!(sent.len(), 16);
    let out = fuse_out_header::read_wire(sent, 0);
    assert_eq!(out.error, -(errno::ENOSYS));
    assert_eq!(out.unique, 6);
}

#[test]
fn malformed_body_gets_einval() {
    // A GETATTR frame one byte short of its record.
    let mut frame: Vec<u8> = Vec::new();
    header(55, FUSE_GETATTR, 8, 1).write_wire(&mut frame);
    frame.extend_from_slice(&[0u8; 15]);

    let mut writer = VecWriter::new();
    process_frame(&fs(), &mut writer, &frame, proto()).unwrap();

    let frames = writer.frames();
    let sent = &frames[0];
    let out = fuse_out_header::read_wire(sent, 0);
    assert_eq!(out.error, -(errno::EINVAL));
    assert_eq!(out.unique, 8);
}

#[test]
fn length_mismatch_is_fatal() {
    let mut frame: Vec<u8> = Vec::new();
    header(57, FUSE_GETATTR, 9, 1).write_wire(&mut frame);
    fuse_getattr_in {
        getattr_flags: 0,
        dummy: 0,
        fh: 0,
    }
    .write_wire(&mut frame);

    let mut writer = VecWriter::new();
    let err = process_frame(&fs(), &mut writer, &frame, proto()).unwrap_err();
    assert_eq!(format!("{:?}", err), "BadFrame(InvalidValue)");
    assert_eq!(writer.frames().len(), 0);
}

#[test]
fn default_configuration() {
    let config = ServerConfig::default();
    assert_eq!(config.page_size, 4096);
    assert_eq!(config.max_background, 10);
    assert_eq!(config.max_write, 128 * 1024);
    assert_eq!(config.buffer_size, 128 * 1024 + 512);
    assert_eq!(config.worker_count, 16);
    assert_eq!(config.init_flags, 0);
}

#[test]
fn read_error_actions() {
    assert_eq!(action_for_read_error(libc::ENODEV), LoopAction::Shutdown);
    assert_eq!(action_for_read_error(libc::EAGAIN), LoopAction::Retry);
    assert_eq!(action_for_read_error(libc::EIO), LoopAction::Fatal);
}

#[test]
fn connection_life_cycle() {
    let s = ConnState::Closed;
    let s = conn_step(s, ConnEvent::Opened);
    assert_eq!(s, ConnState::Connected);
    let s = conn_step(s, ConnEvent::HandshakeDone);
    assert_eq!(s, ConnState::Ready);
    let s = conn_step(s, ConnEvent::FrameProcessed);
    assert_eq!(s, ConnState::Ready);
    let again = conn_step(s, ConnEvent::ReadFailed(libc::EAGAIN));
    assert_eq!(again, ConnState::Ready);
    let closed = conn_step(s, ConnEvent::ReadFailed(libc::ENODEV));
    assert_eq!(closed, ConnState::Closed);
    let poisoned = conn_step(s, ConnEvent::ReadFailed(libc::EIO));
    assert_eq!(poisoned, ConnState::Poisoned);
}
