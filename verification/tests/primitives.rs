use mqtt_protocol::encodable::{
    decode_string, decode_u16, decode_u8, encode_bytes, encode_string, encode_u16, encode_u8,
    string_encoded_length, StringEncodeError,
};
use mqtt_protocol::{ByteReader, IoErrorKind};

#[test]
fn u8_is_written_and_read_back() {
    let mut buf = Vec::new();
    encode_u8(0xAB, &mut buf);
    assert_eq!(buf, vec![0xAB]);
    let mut reader = ByteReader::new(&buf);
    assert_eq!(decode_u8(&mut reader), Ok(0xAB));
    assert_eq!(reader.remaining_len(), 0);
}

#[test]
fn u8_short_read_is_unexpected_eof() {
    let buf: Vec<u8> = Vec::new();
    let mut reader = ByteReader::new(&buf);
    assert_eq!(decode_u8(&mut reader), Err(IoErrorKind::UnexpectedEof));
}

#[test]
fn u16_is_big_endian() {
    let mut buf = Vec::new();
    encode_u16(0x1234, &mut buf);
    assert_eq!(buf, vec![0x12, 0x34]);
    let mut reader = ByteReader::new(&buf);
    assert_eq!(decode_u16(&mut reader), Ok(0x1234));
}

#[test]
fn u16_extremes_round_trip() {
    for v in [0u16, 1, 255, 256, 0x7FFF, 0x8000, 0xFFFF] {
        let mut buf = Vec::new();
        encode_u16(v, &mut buf);
        let mut reader = ByteReader::new(&buf);
        assert_eq!(decode_u16(&mut reader), Ok(v));
    }
}

#[test]
fn u16_short_read_is_unexpected_eof_and_consumes_nothing() {
    let buf = vec![0x12];
    let mut reader = ByteReader::new(&buf);
    assert_eq!(decode_u16(&mut reader), Err(IoErrorKind::UnexpectedEof));
    assert_eq!(reader.remaining_len(), 1);
}

#[test]
fn bytes_are_appended_unchanged() {
    let mut buf = vec![1];
    encode_bytes(&[2, 3, 4], &mut buf);
    assert_eq!(buf, vec![1, 2, 3, 4]);
}

#[test]
fn string_has_length_prefix() {
    let mut buf = Vec::new();
    encode_string("a/b", &mut buf).unwrap();
    assert_eq!(buf, vec![0x00, 0x03, b'a', b'/', b'b']);
    assert_eq!(string_encoded_length("a/b"), 5);
}

#[test]
fn empty_string_is_two_zero_bytes() {
    let mut buf = Vec::new();
    encode_string("", &mut buf).unwrap();
    assert_eq!(buf, vec![0x00, 0x00]);
    let mut reader = ByteReader::new(&buf);
    assert_eq!(decode_string(&mut reader), Ok(String::new()));
}

#[test]
fn string_of_many_bytes_per_character_round_trips() {
    let text = "h\u{e9}llo \u{4e16}\u{754c} \u{1F600}";
    let mut buf = Vec::new();
    encode_string(text, &mut buf).unwrap();
    assert_eq!(buf.len(), 2 + text.len());
    assert_eq!(buf[1] as usize, text.len());
    let mut reader = ByteReader::new(&buf);
    let back = decode_string(&mut reader).unwrap();
    assert_eq!(back, text);
    assert_eq!(back.chars().count(), 10);
}

#[test]
fn string_is_followed_by_what_was_behind_it() {
    let buf = vec![0x00, 0x02, b'h', b'i', 0x99];
    let mut reader = ByteReader::new(&buf);
    assert_eq!(decode_string(&mut reader), Ok("hi".to_owned()));
    assert_eq!(reader.read_u8(), Ok(0x99));
}

#[test]
fn string_of_exactly_65535_bytes_is_accepted() {
    let text = "x".repeat(65_535);
    let mut buf = Vec::new();
    assert_eq!(encode_string(&text, &mut buf), Ok(()));
    assert_eq!(buf.len(), 65_537);
    assert_eq!(&buf[..2], &[0xFF, 0xFF]);
    let mut reader = ByteReader::new(&buf);
    assert_eq!(decode_string(&mut reader), Ok(text));
}

#[test]
fn string_of_65536_bytes_is_too_long() {
    let text = "x".repeat(65_536);
    let mut buf = vec![7];
    assert_eq!(encode_string(&text, &mut buf), Err(StringEncodeError::TooLong));
    assert_eq!(buf, vec![7]);
}

#[test]
fn string_with_invalid_utf8_is_refused() {
    let buf = vec![0x00, 0x02, 0xC3, 0x28];
    let mut reader = ByteReader::new(&buf);
    assert_eq!(decode_string(&mut reader), Err(StringEncodeError::Utf8));
    assert_eq!(reader.remaining_len(), 4);
}

#[test]
fn string_with_surrogate_or_overlong_form_is_refused() {
    for bytes in [vec![0xED, 0xA0, 0x80], vec![0xC0, 0x80], vec![0xF4, 0x90, 0x80, 0x80], vec![0x80]] {
        let mut buf = vec![0x00, bytes.len() as u8];
        buf.extend_from_slice(&bytes);
        let mut reader = ByteReader::new(&buf);
        assert_eq!(decode_string(&mut reader), Err(StringEncodeError::Utf8));
    }
}

#[test]
fn string_cut_short_is_unexpected_eof() {
    let full = vec![0x00, 0x03, b'a', b'b', b'c'];
    for k in 0..full.len() {
        let mut reader = ByteReader::new(&full[..k]);
        assert_eq!(
            decode_string(&mut reader),
            Err(StringEncodeError::IoError(IoErrorKind::UnexpectedEof))
        );
        assert_eq!(reader.remaining_len(), k);
    }
}

#[test]
fn reader_take_bounds_the_sub_reader() {
    let buf = vec![1, 2, 3, 4, 5];
    let mut reader = ByteReader::new(&buf);
    let mut sub = reader.take(2).unwrap();
    assert_eq!(sub.read_u8(), Ok(1));
    assert_eq!(sub.read_u8(), Ok(2));
    assert_eq!(sub.read_u8(), Err(IoErrorKind::UnexpectedEof));
    assert_eq!(reader.remaining_len(), 3);
    assert!(matches!(reader.take(4), Err(IoErrorKind::UnexpectedEof)));
    assert_eq!(reader.remaining_len(), 3);
}

#[test]
fn reader_read_exact_and_read_up_to() {
    let buf = vec![1, 2, 3, 4, 5];
    let mut reader = ByteReader::new(&buf);
    assert_eq!(reader.read_exact(2).unwrap(), &[1, 2]);
    assert!(matches!(reader.read_exact(4), Err(IoErrorKind::UnexpectedEof)));
    assert_eq!(reader.read_up_to(2), vec![3, 4]);
    assert_eq!(reader.read_up_to(9), vec![5]);
    assert_eq!(reader.remaining_len(), 0);
    assert_eq!(reader.read_to_end(), Vec::<u8>::new());
}

#[test]
fn reader_fork_and_advance_to() {
    let buf = vec![1, 2, 3];
    let mut reader = ByteReader::new(&buf);
    let mut probe = reader.fork();
    assert_eq!(probe.read_u8(), Ok(1));
    assert_eq!(reader.remaining_len(), 3);
    reader.advance_to(probe);
    assert_eq!(reader.read_to_end(), vec![2, 3]);
}
