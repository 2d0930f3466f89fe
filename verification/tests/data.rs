use star_frame::data::{
    decode_data, encode_data, fixed_bytes, split_discriminant, tag_payload, InstructionData,
    TrailingData,
};
use star_frame::errors::{DecodeError, ErrorCode};

#[test]
fn tag_zero_with_eight_byte_header_and_no_trailing_bytes() {
    let payload: Vec<u8> = vec![0x00, 1, 2, 3, 4, 5, 6, 7, 8];
    assert_eq!(payload.len(), 9);
    let (tag, rest) = split_discriminant(&payload).unwrap();
    assert_eq!(tag, 0x00);
    assert_eq!(rest, &[1u8, 2, 3, 4, 5, 6, 7, 8][..]);
    let decoded = decode_data::<8, Vec<u8>>(rest).unwrap();
    assert_eq!(decoded.header, [1u8, 2, 3, 4, 5, 6, 7, 8]);
    assert_eq!(decoded.trailing, Vec::<u8>::new());
    assert_eq!(decoded.trailing, <Vec<u8> as TrailingData>::empty());
}

#[test]
fn payload_shorter_than_header_reports_both_lengths() {
    let decoded = decode_data::<8, Vec<u8>>(&[1, 2, 3]);
    assert_eq!(
        decoded,
        Err(ErrorCode::Decode(DecodeError::TooShort { expected: 8, actual: 3 }))
    );
    let decoded = decode_data::<8, Vec<u8>>(&[]);
    assert_eq!(
        decoded,
        Err(ErrorCode::Decode(DecodeError::TooShort { expected: 8, actual: 0 }))
    );
    let decoded = decode_data::<8, ()>(&[9; 7]);
    assert_eq!(
        decoded,
        Err(ErrorCode::Decode(DecodeError::TooShort { expected: 8, actual: 7 }))
    );
}

#[test]
fn header_and_trailing_value_round_trip() {
    let header: [u8; 8] = [0xde, 0xad, 0xbe, 0xef, 0, 1, 2, 0xff];
    let trailing: Vec<u8> = vec![9, 8, 7];
    let bytes = encode_data(&header, &trailing).unwrap();
    assert_eq!(bytes, vec![0xde, 0xad, 0xbe, 0xef, 0, 1, 2, 0xff, 3, 0, 0, 0, 9, 8, 7]);
    let decoded = decode_data::<8, Vec<u8>>(&bytes).unwrap();
    assert_eq!(decoded, InstructionData { header, trailing });
}

#[test]
fn empty_trailing_value_round_trips() {
    let header: [u8; 4] = [1, 2, 3, 4];
    let trailing: Vec<u8> = Vec::new();
    let bytes = encode_data(&header, &trailing).unwrap();
    assert_eq!(bytes, vec![1, 2, 3, 4, 0, 0, 0, 0]);
    let decoded = decode_data::<4, Vec<u8>>(&bytes).unwrap();
    assert_eq!(decoded, InstructionData { header, trailing });
}

#[test]
fn long_trailing_value_round_trips() {
    let header: [u8; 2] = [7, 7];
    let trailing: Vec<u8> = (0..300u32).map(|i| (i % 251) as u8).collect();
    let bytes = encode_data(&header, &trailing).unwrap();
    assert_eq!(&bytes[..6], &[7u8, 7, 44, 1, 0, 0][..]);
    assert_eq!(bytes.len(), 2 + 4 + 300);
    let decoded = decode_data::<2, Vec<u8>>(&bytes).unwrap();
    assert_eq!(decoded.header, header);
    assert_eq!(decoded.trailing, trailing);
}

#[test]
fn unit_trailing_value_round_trips_and_takes_no_bytes() {
    let header: [u8; 3] = [5, 6, 7];
    let bytes = encode_data(&header, &()).unwrap();
    assert_eq!(bytes, vec![5, 6, 7]);
    let decoded = decode_data::<3, ()>(&bytes).unwrap();
    assert_eq!(decoded, InstructionData { header, trailing: () });
    assert_eq!(
        decode_data::<3, ()>(&[5, 6, 7, 0]),
        Err(ErrorCode::Decode(DecodeError::MalformedTrailing))
    );
}

#[test]
fn malformed_trailing_bytes_are_rejected() {
    // the count announces three bytes, two follow
    assert_eq!(
        decode_data::<1, Vec<u8>>(&[1, 3, 0, 0, 0, 9, 8]),
        Err(ErrorCode::Decode(DecodeError::MalformedTrailing))
    );
    // the count announces one byte, two follow
    assert_eq!(
        decode_data::<1, Vec<u8>>(&[1, 1, 0, 0, 0, 9, 8]),
        Err(ErrorCode::Decode(DecodeError::MalformedTrailing))
    );
    // the count itself is cut short
    assert_eq!(
        decode_data::<1, Vec<u8>>(&[1, 3, 0]),
        Err(ErrorCode::Decode(DecodeError::MalformedTrailing))
    );
}

#[test]
fn trailing_values_decode_and_encode_on_their_own() {
    assert_eq!(<Vec<u8> as TrailingData>::decode(&[2, 0, 0, 0, 5, 6]), Ok(vec![5, 6]));
    assert_eq!(
        <Vec<u8> as TrailingData>::decode(&[]),
        Err(ErrorCode::Decode(DecodeError::MalformedTrailing))
    );
    assert_eq!(vec![5u8, 6].encode(), Some(vec![2, 0, 0, 0, 5, 6]));
    assert_eq!(<() as TrailingData>::decode(&[]), Ok(()));
    assert_eq!(().encode(), Some(Vec::new()));
}

#[test]
fn payload_without_a_tag_is_too_short() {
    assert_eq!(
        split_discriminant(&[]),
        Err(ErrorCode::Decode(DecodeError::TooShort { expected: 1, actual: 0 }))
    );
}

#[test]
fn tag_is_split_from_the_rest() {
    assert_eq!(split_discriminant(&[7]), Ok((7u8, &[][..])));
    assert_eq!(split_discriminant(&[2, 4, 6]), Ok((2u8, &[4u8, 6][..])));
}

#[test]
fn tag_goes_in_front_of_the_payload() {
    assert_eq!(tag_payload(1, &[]), vec![1]);
    assert_eq!(tag_payload(9, &[3, 4]), vec![9, 3, 4]);
    let payload = tag_payload(9, &[3, 4]);
    assert_eq!(split_discriminant(&payload), Ok((9u8, &[3u8, 4][..])));
}

#[test]
fn fixed_values_are_their_own_bytes() {
    assert_eq!(fixed_bytes(&[1u8, 2, 3]), vec![1, 2, 3]);
    assert_eq!(fixed_bytes::<0>(&[]), Vec::<u8>::new());
}
