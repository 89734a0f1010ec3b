use termux_gui::frame::{bytes_needed, decode_frame, encode_frame, header_len, ShortRead};

#[test]
fn encode_frame_prefixes_big_endian_length() {
    assert_eq!(encode_frame(b"abc"), vec![0, 0, 0, 3, b'a', b'b', b'c']);
}

#[test]
fn encode_frame_length_above_one_byte() {
    let body = vec![7u8; 300];
    let frame = encode_frame(&body);
    assert_eq!(&frame[..4], &[0, 0, 1, 44]);
    assert_eq!(frame.len(), 304);
    assert_eq!(&frame[4..], &body[..]);
}

#[test]
fn encode_frame_empty_body() {
    assert_eq!(encode_frame(b""), vec![0, 0, 0, 0]);
}

#[test]
fn decode_frame_round_trip_with_trailing_bytes() {
    let body = br#"{"method":"ping","params":{}}"#.to_vec();
    let mut stream = encode_frame(&body);
    stream.extend_from_slice(&[9, 9, 9]);
    let (decoded, used) = decode_frame(&stream).unwrap();
    assert_eq!(decoded, body);
    assert_eq!(used, body.len() + 4);
}

#[test]
fn decode_frame_empty_body() {
    assert_eq!(decode_frame(&[0, 0, 0, 0]).unwrap(), (vec![], 4));
}

#[test]
fn decode_frame_exact_length_succeeds() {
    assert_eq!(decode_frame(&[0, 0, 0, 2, 5, 6]).unwrap(), (vec![5, 6], 6));
}

#[test]
fn decode_frame_short_header_fails() {
    assert_eq!(decode_frame(&[0, 0]), Err(ShortRead { expected: 4, received: 2 }));
}

#[test]
fn decode_frame_short_body_fails() {
    assert_eq!(decode_frame(&[0, 0, 0, 5, 1, 2]), Err(ShortRead { expected: 9, received: 6 }));
}

#[test]
fn decode_frame_large_announced_length_fails() {
    assert_eq!(
        decode_frame(&[0xff, 0xff, 0xff, 0xff, 1]),
        Err(ShortRead { expected: 4 + 0xffff_ffff, received: 5 })
    );
}

#[test]
fn header_len_reads_big_endian() {
    assert_eq!(header_len(&[0x01, 0x02, 0x03, 0x04]), 0x0102_0304);
    assert_eq!(header_len(&[0xff, 0xff, 0xff, 0xff]), 0xffff_ffff);
}

#[test]
fn bytes_needed_counts_what_is_missing() {
    assert_eq!(bytes_needed(&[]), 4);
    assert_eq!(bytes_needed(&[0, 0, 0]), 1);
    assert_eq!(bytes_needed(&[0, 0, 0, 3]), 3);
    assert_eq!(bytes_needed(&[0, 0, 0, 3, 1, 2]), 1);
    assert_eq!(bytes_needed(&[0, 0, 0, 3, 1, 2, 3]), 0);
    assert_eq!(bytes_needed(&[0, 0, 0, 3, 1, 2, 3, 4]), 0);
}
