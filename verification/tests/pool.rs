//! Buffer and pool behaviour: zeroed acquisition, recycling, and the
//! dimension check on release.

use async_fuse::buffer::Buffer;
use async_fuse::buffer::BufferPool;
use async_fuse::c_bytes::check_bytes;
use async_fuse::c_bytes::CBytes;
use async_fuse::utils::FreezedBuf;

#[test]
fn fresh_buffers_are_zeroed() {
    let mut pool = BufferPool::new(2, 64, 8);
    let buf = pool.acquire();
    assert_eq!(buf.capacity(), 64);
    assert_eq!(buf.alignment(), 8);
    assert_eq!(buf.as_slice(), &[0u8; 64]);
}

#[test]
fn release_recycles_matching_buffers() {
    let mut pool = BufferPool::new(1, 64, 8);
    let mut buf = pool.acquire();

    let mut storage = buf.take_storage();
    storage[0] = 0xAB;
    buf.put_storage(storage, 1);
    assert_eq!(buf.as_slice(), &[0xAB]);

    pool.release(buf);
    let recycled = pool.acquire();
    assert_eq!(recycled.capacity(), 64);
    assert_eq!(recycled.alignment(), 8);
    // Acquisition resets the logical length to the full capacity.
    assert_eq!(recycled.as_slice().len(), 64);
}

#[test]
fn release_drops_mismatched_and_overflow_buffers() {
    let mut pool = BufferPool::new(1, 64, 8);
    // Wrong size: dropped.
    pool.release(Buffer::new_zeroed(32, 8));
    // Wrong alignment: dropped.
    pool.release(Buffer::new_zeroed(64, 16));
    // Matching: kept.
    pool.release(Buffer::new_zeroed(64, 8));
    // The pool is full now; a second matching buffer is dropped.
    pool.release(Buffer::new_zeroed(64, 8));

    let first = pool.acquire();
    assert_eq!(first.capacity(), 64);
}

#[test]
fn set_len_exposes_prefix() {
    let mut buf = Buffer::new_zeroed(16, 8);
    buf.set_len(3);
    assert_eq!(buf.as_slice().len(), 3);
}

#[test]
fn freezed_buf_keeps_prefix() {
    let frozen = FreezedBuf::new(vec![1, 2, 3, 4, 5], 3);
    assert_eq!(frozen.bytes(), &[1, 2, 3]);
}

#[test]
fn check_bytes_finds_first_nul() {
    assert!(check_bytes(b"abc").is_ok());
    let err = check_bytes(b"ab\0c\0").unwrap_err();
    assert_eq!(err.nul_position(), 2);
}

#[test]
fn c_bytes_strips_terminator() {
    let cb = CBytes::new_unchecked(b"name\0");
    assert_eq!(cb.as_bytes(), b"name");
}
