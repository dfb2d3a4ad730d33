//! Decoder behaviour on raw byte runs: integers, slices, bounds and
//! alignment checks.

use async_fuse::decode::DecodeError;
use async_fuse::decode::Decoder;

#[test]
fn decode_integer_ok() {
    let data: [u8; 4] = [1, 2, 3, 4];
    let mut decoder = Decoder::new(&data);

    let ret = decoder.fetch::<u32>().unwrap();
    assert_eq!(ret, u32::from_ne_bytes(data));

    assert!(decoder.is_empty());
}

#[test]
fn decode_decode_integer_ok() {
    let data: [u8; 4] = [1, 2, 3, 4];
    let mut decoder = Decoder::new(&data);

    let ret = decoder.fetch::<u32>().unwrap();
    assert_eq!(ret, u32::from_ne_bytes(data));

    assert!(decoder.is_empty());
}

#[test]
fn decode_integer_align_mismatch() {
    let data: [u8; 5] = [1, 2, 3, 4, 5];
    let mut decoder = Decoder::new_at_offset(&data[1..], 1);

    let ret = decoder.fetch::<u32>().unwrap_err();
    assert_eq!(ret, DecodeError::AlignMismatch);

    assert_eq!(decoder.fetch_all_bytes().unwrap().len(), 4);
}

#[test]
fn decode_decode_integer_align_mismatch() {
    let data: [u8; 5] = [1, 2, 3, 4, 5];
    let mut decoder = Decoder::new_at_offset(&data[1..], 1);

    let ret = decoder.fetch::<u32>().unwrap_err();
    assert_eq!(ret, DecodeError::AlignMismatch);

    assert_eq!(decoder.fetch_all_bytes().unwrap().len(), 4);
}

#[test]
fn decode_integer_not_enough() {
    let data: [u8; 4] = [1, 2, 3, 4];
    let mut decoder = Decoder::new(&data);

    let ret = decoder.fetch::<u64>().unwrap_err();
    assert_eq!(ret, DecodeError::NotEnough);

    assert_eq!(decoder.fetch_all_bytes().unwrap().len(), 4);
}

#[test]
fn decode_decode_integer_not_enough() {
    let data: [u8; 4] = [1, 2, 3, 4];
    let mut decoder = Decoder::new(&data);

    let ret = decoder.fetch::<u64>().unwrap_err();
    assert_eq!(ret, DecodeError::NotEnough);

    assert_eq!(decoder.fetch_all_bytes().unwrap().len(), 4);
}

#[test]
fn decode_slice_ok() {
    let data: [u8; 4] = [1, 2, 3, 4];
    let mut decoder = Decoder::new(&data);

    let ret = decoder.fetch_slice::<u16>(2).unwrap();
    assert_eq!(
        ret,
        vec![u16::from_ne_bytes([1, 2]), u16::from_ne_bytes([3, 4])]
    );

    assert!(decoder.is_empty());
}

#[test]
fn decode_decode_slice_ok() {
    let data: [u8; 4] = [1, 2, 3, 4];
    let mut decoder = Decoder::new(&data);

    let ret = decoder.fetch_slice::<u16>(2).unwrap();
    assert_eq!(
        ret,
        vec![u16::from_ne_bytes([1, 2]), u16::from_ne_bytes([3, 4])]
    );

    assert!(decoder.is_empty());
}

#[test]
fn decode_slice_overflow() {
    let data: [u8; 4] = [1, 2, 3, 4];
    let mut decoder = Decoder::new(&data);

    let ret = decoder.fetch_slice::<u64>(usize::MAX).unwrap_err();
    assert_eq!(ret, DecodeError::NumOverflow);
}

#[test]
fn decode_c_bytes() {
    let data: [u8; 8] = [b'a', b'b', b'c', 0, b'd', b'e', 0, b'f'];
    let mut decoder = Decoder::new(&data);

    let name = decoder.fetch_c_bytes().unwrap();
    assert_eq!(name.as_bytes(), b"abc");

    let second = decoder.fetch_c_bytes().unwrap();
    assert_eq!(second.as_bytes(), b"de");

    let err = decoder.fetch_c_bytes().unwrap_err();
    assert_eq!(err, DecodeError::NotEnough);
}

#[test]
fn decode_all_consuming_leftover() {
    let data: [u8; 8] = [0; 8];
    let mut decoder = Decoder::new(&data);

    let fetched = decoder.fetch::<u32>();
    assert!(fetched.is_ok());
    let checked = decoder.all_consuming(fetched);
    assert_eq!(checked.unwrap_err(), DecodeError::TooMuchData);
}
