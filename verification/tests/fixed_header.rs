use mqtt_protocol::control::fixed_header::{
    decode_varint, encode_varint, HeaderProgress, MAX_REMAINING_LENGTH,
};
use mqtt_protocol::control::{ControlType, FixedHeader, FixedHeaderError, PacketType};
use mqtt_protocol::{ByteReader, IoErrorKind};

fn varint(n: u32) -> Vec<u8> {
    let mut buf = Vec::new();
    encode_varint(n, &mut buf);
    buf
}

#[test]
fn varint_zero_is_one_zero_byte() {
    assert_eq!(varint(0), vec![0x00]);
}

#[test]
fn varint_boundaries_have_the_documented_bytes() {
    assert_eq!(varint(127), vec![0x7F]);
    assert_eq!(varint(128), vec![0x80, 0x01]);
    assert_eq!(varint(16_383), vec![0xFF, 0x7F]);
    assert_eq!(varint(16_384), vec![0x80, 0x80, 0x01]);
    assert_eq!(varint(2_097_151), vec![0xFF, 0xFF, 0x7F]);
    assert_eq!(varint(2_097_152), vec![0x80, 0x80, 0x80, 0x01]);
    assert_eq!(varint(268_435_455), vec![0xFF, 0xFF, 0xFF, 0x7F]);
    assert_eq!(varint(321), vec![0xC1, 0x02]);
}

#[test]
fn varint_round_trips_up_to_the_maximum() {
    let mut values = vec![0u32, 1, 127, 128, 300, 16_383, 16_384, 2_097_151, 2_097_152];
    values.push(MAX_REMAINING_LENGTH);
    let mut v = 1u32;
    while v <= MAX_REMAINING_LENGTH {
        values.push(v);
        values.push(v - 1);
        v = v.wrapping_mul(3) + 1;
    }
    for n in values {
        let bytes = varint(n);
        let mut reader = ByteReader::new(&bytes);
        assert_eq!(decode_varint(&mut reader), Ok(n));
        assert_eq!(reader.remaining_len(), 0);
    }
}

#[test]
fn varint_that_is_not_minimal_is_accepted() {
    let bytes = vec![0x80, 0x00];
    let mut reader = ByteReader::new(&bytes);
    assert_eq!(decode_varint(&mut reader), Ok(0));
    let bytes = vec![0x81, 0x80, 0x80, 0x00];
    let mut reader = ByteReader::new(&bytes);
    assert_eq!(decode_varint(&mut reader), Ok(1));
}

#[test]
fn varint_with_a_fifth_byte_is_malformed() {
    for last in [0x00u8, 0x01, 0x7F, 0x80, 0xFF] {
        let bytes = vec![0x80, 0x80, 0x80, 0x80, last];
        let mut reader = ByteReader::new(&bytes);
        assert_eq!(decode_varint(&mut reader), Err(FixedHeaderError::MalformedRemainingLength));
        assert_eq!(reader.remaining_len(), 5);
    }
}

#[test]
fn varint_cut_short_is_unexpected_eof() {
    for bytes in [vec![], vec![0x80], vec![0xFF, 0xFF], vec![0x80, 0x80, 0x80], vec![0x80, 0x80, 0x80, 0x80]] {
        let mut reader = ByteReader::new(&bytes);
        assert_eq!(
            decode_varint(&mut reader),
            Err(FixedHeaderError::IoError(IoErrorKind::UnexpectedEof))
        );
        assert_eq!(reader.remaining_len(), bytes.len());
    }
}

#[test]
fn control_type_codes_and_default_flags() {
    let table = [
        (1u8, ControlType::Connect, 0u8),
        (2, ControlType::ConnectAcknowledgement, 0),
        (3, ControlType::Publish, 0),
        (4, ControlType::PublishAcknowledgement, 0),
        (5, ControlType::PublishReceived, 0),
        (6, ControlType::PublishRelease, 2),
        (7, ControlType::PublishComplete, 0),
        (8, ControlType::Subscribe, 2),
        (9, ControlType::SubscribeAcknowledgement, 0),
        (10, ControlType::Unsubscribe, 2),
        (11, ControlType::UnsubscribeAcknowledgement, 0),
        (12, ControlType::PingRequest, 0),
        (13, ControlType::PingResponse, 0),
        (14, ControlType::Disconnect, 0),
    ];
    for (code, control_type, flags) in table {
        assert_eq!(control_type.to_u8(), code);
        assert_eq!(ControlType::from_u8(code), Some(control_type));
        assert_eq!(control_type.default_flags(), flags);
        assert_eq!(PacketType::with_default(control_type).to_u8(), (code << 4) | flags);
    }
    assert_eq!(ControlType::from_u8(0), None);
    assert_eq!(ControlType::from_u8(15), None);
    assert_eq!(ControlType::from_u8(200), None);
}

#[test]
fn fixed_header_bytes() {
    let header = FixedHeader::new(PacketType::with_default(ControlType::Subscribe), 321);
    let mut buf = Vec::new();
    header.encode(&mut buf);
    assert_eq!(buf, vec![0x82, 0xC1, 0x02]);
    assert_eq!(header.encoded_length(), 3);
    let mut reader = ByteReader::new(&buf);
    assert_eq!(FixedHeader::decode(&mut reader), Ok(header));
    assert_eq!(reader.remaining_len(), 0);
}

#[test]
fn fixed_header_lengths() {
    for (len, size) in [(0u32, 2u32), (127, 2), (128, 3), (16_383, 3), (16_384, 4), (2_097_151, 4), (2_097_152, 5), (268_435_455, 5)] {
        let header = FixedHeader::new(PacketType::with_default(ControlType::Publish), len);
        let mut buf = Vec::new();
        header.encode(&mut buf);
        assert_eq!(buf.len() as u32, size);
        assert_eq!(header.encoded_length(), size);
    }
}

#[test]
fn fixed_header_keeps_any_flags() {
    let buf = vec![0x3B, 0x00];
    let mut reader = ByteReader::new(&buf);
    let header = FixedHeader::decode(&mut reader).unwrap();
    assert_eq!(header.packet_type, PacketType::with_flags(ControlType::Publish, 0x0B));
    assert_eq!(header.remaining_length, 0);
}

#[test]
fn fixed_header_of_reserved_type_is_refused_after_its_length() {
    let buf = vec![0x00, 0x85, 0x01, 0xAA];
    let mut reader = ByteReader::new(&buf);
    assert_eq!(FixedHeader::decode(&mut reader), Err(FixedHeaderError::ReservedType(0, 133)));
    assert_eq!(reader.remaining_len(), 1);

    let buf = vec![0xF7, 0x02];
    let mut reader = ByteReader::new(&buf);
    assert_eq!(FixedHeader::decode(&mut reader), Err(FixedHeaderError::ReservedType(15, 2)));
    assert_eq!(reader.remaining_len(), 0);
}

#[test]
fn fixed_header_cut_short_is_unexpected_eof() {
    for bytes in [vec![], vec![0x10], vec![0x10, 0x80], vec![0xF0, 0xFF, 0xFF]] {
        let mut reader = ByteReader::new(&bytes);
        assert_eq!(
            FixedHeader::decode(&mut reader),
            Err(FixedHeaderError::IoError(IoErrorKind::UnexpectedEof))
        );
        assert_eq!(reader.remaining_len(), bytes.len());
    }
}

#[test]
fn fixed_header_with_overlong_length_is_malformed() {
    let bytes = vec![0x10, 0xFF, 0xFF, 0xFF, 0xFF, 0x01];
    let mut reader = ByteReader::new(&bytes);
    assert_eq!(FixedHeader::decode(&mut reader), Err(FixedHeaderError::MalformedRemainingLength));
    assert_eq!(reader.remaining_len(), 6);
}

#[test]
fn header_progress_byte_by_byte() {
    let bytes = vec![0x30, 0x80, 0x80, 0x01, 0x55];
    assert_eq!(FixedHeader::parse_progress(&bytes[..0]), HeaderProgress::NeedByte);
    assert_eq!(FixedHeader::parse_progress(&bytes[..1]), HeaderProgress::NeedByte);
    assert_eq!(FixedHeader::parse_progress(&bytes[..2]), HeaderProgress::NeedByte);
    assert_eq!(FixedHeader::parse_progress(&bytes[..3]), HeaderProgress::NeedByte);
    let done = HeaderProgress::Done(FixedHeader::new(
        PacketType::with_default(ControlType::Publish),
        16_384,
    ));
    assert_eq!(FixedHeader::parse_progress(&bytes[..4]), done);
    assert_eq!(FixedHeader::parse_progress(&bytes), done);
    assert_eq!(
        FixedHeader::parse_progress(&[0x30, 0x80, 0x80, 0x80, 0x80, 0x00]),
        HeaderProgress::Failed(FixedHeaderError::MalformedRemainingLength)
    );
    assert_eq!(
        FixedHeader::parse_progress(&[0xF0, 0x00]),
        HeaderProgress::Failed(FixedHeaderError::ReservedType(15, 0))
    );
}
