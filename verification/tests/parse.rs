//! Frame parsing: exact decode errors and the typed views that come
//! out of well-formed frames.

use async_fuse::abi::FuseAbiData;
use async_fuse::context::parse;
use async_fuse::context::ProtocolVersion;
use async_fuse::decode::DecodeError;
use async_fuse::kernel::fuse_getattr_in;
use async_fuse::kernel::fuse_in_header;
use async_fuse::kernel::fuse_init_in;
use async_fuse::kernel::fuse_write_in;
use async_fuse::kernel::FUSE_GETATTR;
use async_fuse::kernel::FUSE_INIT;
use async_fuse::kernel::FUSE_SYMLINK;
use async_fuse::kernel::FUSE_WRITE;
use async_fuse::ops::Operation;

fn proto() -> ProtocolVersion {
    ProtocolVersion {
        major: 7,
        minor: 31,
    }
}

fn header(len: u32, opcode: u32, unique: u64, nodeid: u64) -> fuse_in_header {
    fuse_in_header {
        len,
        opcode,
        unique,
        nodeid,
        uid: 0,
        gid: 0,
        pid: 0,
        padding: 0,
    }
}

#[test]
fn parse_init_frame() {
    let mut frame: Vec<u8> = Vec::new();
    header(56, FUSE_INIT, 1, 0).write_wire(&mut frame);
    fuse_init_in {
        major: 7,
        minor: 31,
        max_readahead: 65536,
        flags: 3,
    }
    .write_wire(&mut frame);

    let (h, op) = parse(&frame, proto()).unwrap();
    assert_eq!(h.opcode(), FUSE_INIT);
    assert_eq!(h.unique(), 1);
    match op {
        Operation::Init(init) => {
            assert_eq!(init.major(), 7);
            assert_eq!(init.minor(), 31);
            assert_eq!(init.max_readahead(), 65536);
            assert_eq!(init.flags(), 3);
        }
        other => panic!("expected an INIT operation, got {:?}", other),
    }
}

#[test]
fn parse_write_carries_trailing_data() {
    let payload = b"payload bytes";
    let mut frame: Vec<u8> = Vec::new();
    header(40 + 40 + payload.len() as u32, FUSE_WRITE, 2, 2).write_wire(&mut frame);
    fuse_write_in {
        fh: 1,
        offset: 0,
        size: payload.len() as u32,
        write_flags: 0,
        lock_owner: 0,
        flags: 0,
        padding: 0,
    }
    .write_wire(&mut frame);
    frame.extend_from_slice(payload);

    let (_, op) = parse(&frame, proto()).unwrap();
    match op {
        Operation::Write(w) => {
            assert_eq!(w.fh(), 1);
            assert_eq!(w.data(), payload);
        }
        other => panic!("expected a WRITE operation, got {:?}", other),
    }
}

#[test]
fn parse_symlink_carries_two_names() {
    let mut frame: Vec<u8> = Vec::new();
    header(40 + 10, FUSE_SYMLINK, 3, 1).write_wire(&mut frame);
    frame.extend_from_slice(b"new\0");
    frame.extend_from_slice(b"older\0");

    let (_, op) = parse(&frame, proto()).unwrap();
    match op {
        Operation::SymLink(s) => {
            assert_eq!(s.name(), b"new");
            assert_eq!(s.link(), b"older");
        }
        other => panic!("expected a SYMLINK operation, got {:?}", other),
    }
}

#[test]
fn parse_short_body_is_not_enough() {
    let mut frame: Vec<u8> = Vec::new();
    header(50, FUSE_GETATTR, 4, 1).write_wire(&mut frame);
    frame.extend_from_slice(&[0u8; 10]);

    let err = parse(&frame, proto()).unwrap_err();
    assert_eq!(err, DecodeError::NotEnough);
}

#[test]
fn parse_overlong_body_is_too_much_data() {
    let mut frame: Vec<u8> = Vec::new();
    header(57, FUSE_GETATTR, 5, 1).write_wire(&mut frame);
    fuse_getattr_in {
        getattr_flags: 0,
        dummy: 0,
        fh: 0,
    }
    .write_wire(&mut frame);
    frame.push(0);

    let err = parse(&frame, proto()).unwrap_err();
    assert_eq!(err, DecodeError::TooMuchData);
}

#[test]
fn parse_truncated_header_is_not_enough() {
    let frame: [u8; 10] = [0; 10];
    let err = parse(&frame, proto()).unwrap_err();
    assert_eq!(err, DecodeError::NotEnough);
}

#[test]
fn parse_length_field_mismatch_is_invalid() {
    let mut frame: Vec<u8> = Vec::new();
    header(56, FUSE_GETATTR, 6, 1).write_wire(&mut frame);
    fuse_getattr_in {
        getattr_flags: 0,
        dummy: 0,
        fh: 0,
    }
    .write_wire(&mut frame);
    frame.push(0);

    let err = parse(&frame, proto()).unwrap_err();
    assert_eq!(err, DecodeError::InvalidValue);
}

#[test]
fn parse_unknown_opcode_is_invalid() {
    let mut frame: Vec<u8> = Vec::new();
    header(40, 9999, 7, 1).write_wire(&mut frame);

    let err = parse(&frame, proto()).unwrap_err();
    assert_eq!(err, DecodeError::InvalidValue);
}
