use framed_transport::payload::{BorrowedData, Frame, OwnedData};
use framed_transport::wire::{Decode, DecodeError, DecodeOwned, EncodeFailure, Wire};

#[test]
fn array_encodes_to_its_four_bytes() {
    let mut buf = [0u8; 4];
    assert_eq!(OwnedData { fuzz: [10, 20, 30, 40] }.encode(&mut buf), Ok(4));
    assert_eq!(buf, [10, 20, 30, 40]);
}

#[test]
fn array_encodes_to_the_front_of_a_longer_buffer() {
    let mut buf = [9u8; 6];
    assert_eq!(OwnedData { fuzz: [1, 2, 3, 4] }.encode(&mut buf), Ok(4));
    assert_eq!(&buf[..4], &[1, 2, 3, 4]);
    assert_eq!(buf.len(), 6);
}

#[test]
fn array_does_not_fit_three_bytes() {
    let mut buf = [0u8; 3];
    assert_eq!(OwnedData { fuzz: [1, 2, 3, 4] }.encode(&mut buf), Err(EncodeFailure));
    let mut none: [u8; 0] = [];
    assert_eq!(OwnedData { fuzz: [1, 2, 3, 4] }.encode(&mut none), Err(EncodeFailure));
}

#[test]
fn slice_encodes_to_length_and_bytes() {
    let mut buf = [0u8; 6];
    assert_eq!(BorrowedData { fuzz: &[5, 10, 15, 20, 25] }.encode(&mut buf), Ok(6));
    assert_eq!(buf, [5, 5, 10, 15, 20, 25]);
    let mut one = [7u8; 1];
    assert_eq!(BorrowedData { fuzz: &[] }.encode(&mut one), Ok(1));
    assert_eq!(one, [0]);
}

#[test]
fn slice_needs_one_byte_more_than_it_holds() {
    let mut buf = [0u8; 5];
    assert_eq!(BorrowedData { fuzz: &[5, 10, 15, 20, 25] }.encode(&mut buf), Err(EncodeFailure));
    let mut none: [u8; 0] = [];
    assert_eq!(BorrowedData { fuzz: &[] }.encode(&mut none), Err(EncodeFailure));
}

#[test]
fn long_slice_gets_a_two_byte_length() {
    let bytes = [1u8; 300];
    let mut buf = [0u8; 302];
    assert_eq!(BorrowedData { fuzz: &bytes }.encode(&mut buf), Ok(302));
    assert_eq!(&buf[..2], &[0xAC, 0x02]);
    assert_eq!(&buf[2..], &bytes[..]);
    let mut short = [0u8; 301];
    assert_eq!(BorrowedData { fuzz: &bytes }.encode(&mut short), Err(EncodeFailure));
    let edge = [2u8; 128];
    let mut buf = [0u8; 130];
    assert_eq!(BorrowedData { fuzz: &edge }.encode(&mut buf), Ok(130));
    assert_eq!(&buf[..2], &[0x80, 0x01]);
}

#[test]
fn frame_encodes_to_itself() {
    let mut buf = [0u8; 5];
    assert_eq!(Frame { bytes: &[1, 2, 3] }.encode(&mut buf), Ok(3));
    assert_eq!(buf, [1, 2, 3, 0, 0]);
    assert_eq!(Frame { bytes: &[] }.encode(&mut buf), Ok(0));
    assert_eq!(buf, [1, 2, 3, 0, 0]);
    let mut short = [0u8; 2];
    assert_eq!(Frame { bytes: &[1, 2, 3] }.encode(&mut short), Err(EncodeFailure));
    assert_eq!(short, [0, 0]);
}

#[test]
fn array_decodes_from_the_first_four_bytes() {
    assert_eq!(OwnedData::decode_owned(&[1, 2, 3, 4]), Ok(OwnedData { fuzz: [1, 2, 3, 4] }));
    assert_eq!(OwnedData::decode_owned(&[1, 2, 3, 4, 5, 6]), Ok(OwnedData { fuzz: [1, 2, 3, 4] }));
    assert_eq!(<OwnedData as Decode>::decode(&[9, 8, 7, 6, 5]), Ok(OwnedData { fuzz: [9, 8, 7, 6] }));
}

#[test]
fn array_does_not_decode_from_less_than_four_bytes() {
    assert_eq!(OwnedData::decode_owned(&[1, 2, 3]), Err(DecodeError));
    assert_eq!(OwnedData::decode_owned(&[]), Err(DecodeError));
    assert_eq!(<OwnedData as Decode>::decode(&[1]), Err(DecodeError));
}

#[test]
fn slice_decodes_by_its_length_prefix() {
    let frame = [2u8, 7, 8, 9];
    assert_eq!(BorrowedData::decode(&frame), Ok(BorrowedData { fuzz: &[7, 8] }));
    assert_eq!(BorrowedData::decode(&[0]), Ok(BorrowedData { fuzz: &[] }));
    assert_eq!(BorrowedData::decode(&[1, 255]), Ok(BorrowedData { fuzz: &[255] }));
}

#[test]
fn slice_does_not_decode_when_bytes_are_missing() {
    assert_eq!(BorrowedData::decode(&[]), Err(DecodeError));
    assert_eq!(BorrowedData::decode(&[3, 1]), Err(DecodeError));
    assert_eq!(BorrowedData::decode(&[127]), Err(DecodeError));
    assert_eq!(BorrowedData::decode(&[0x80]), Err(DecodeError));
}

#[test]
fn decoded_slice_borrows_from_the_frame() {
    let frame = [3u8, 4, 5, 6];
    let value = BorrowedData::decode(&frame).unwrap();
    assert!(std::ptr::eq(value.fuzz.as_ptr(), frame[1..].as_ptr()));
    let whole = Frame::decode(&frame).unwrap();
    assert!(std::ptr::eq(whole.bytes.as_ptr(), frame.as_ptr()));
    assert_eq!(whole.bytes, &[3, 4, 5, 6]);
}

#[test]
fn encoding_then_decoding_gives_the_value_back() {
    let mut buf = [0u8; 128];
    let owned = OwnedData { fuzz: [0, 255, 128, 127] };
    let used = owned.encode(&mut buf).unwrap();
    assert_eq!(OwnedData::decode_owned(&buf[..used]), Ok(owned));
    let bytes: Vec<u8> = (0u8..127).collect();
    let borrowed = BorrowedData { fuzz: &bytes };
    let used = borrowed.encode(&mut buf).unwrap();
    assert_eq!(used, 128);
    assert_eq!(BorrowedData::decode(&buf[..used]), Ok(borrowed));
}
