use mqtt_protocol::control::variable_header::{ConnectReturnCode, VariableHeaderError};
use mqtt_protocol::control::{ControlType, FixedHeader, FixedHeaderError, PacketType};
use mqtt_protocol::encodable::StringEncodeError;
use mqtt_protocol::packet::publish::QoSWithPacketIdentifier;
use mqtt_protocol::packet::suback::SubscribeReturnCode;
use mqtt_protocol::packet::variable::PeekProgress;
use mqtt_protocol::packet::{
    ConnackPacket, ConnectPacket, DisconnectPacket, MalformedReason, PacketError, PayloadError,
    PingreqPacket, PingrespPacket, PubackPacket, PubcompPacket, PublishPacket, PubrecPacket,
    PubrelPacket, SubackPacket, SubscribePacket, UnsubackPacket, UnsubscribePacket,
    VariablePacket, VariablePacketError,
};
use mqtt_protocol::{
    ByteReader, Encodable, IoErrorKind, QualityOfService, TopicFilter, TopicName, TopicNameError,
};

fn connect_bytes() -> (VariablePacket, Vec<u8>) {
    let packet = ConnectPacket::new("MQTT".to_owned(), "1234".to_owned());
    let var_packet = VariablePacket::new(packet);
    let mut buf = Vec::new();
    var_packet.encode(&mut buf).unwrap();
    (var_packet, buf)
}

/// Feeds the header to the library one byte at a time, as a stream would.
fn peek(buf: &[u8]) -> (FixedHeader, usize) {
    let mut n = 1;
    loop {
        match VariablePacket::peek_progress(&buf[..n]) {
            PeekProgress::NeedByte => n += 1,
            PeekProgress::Header(h) => return (h, n),
            PeekProgress::Failed(e) => panic!("{:?}", e),
        }
    }
}

#[test]
fn test_variable_packet_basic() {
    let packet = ConnectPacket::new("MQTT".to_owned(), "1234".to_owned());

    // Wrap it
    let var_packet = VariablePacket::new(packet);

    // Encode
    let mut buf = Vec::new();
    var_packet.encode(&mut buf).unwrap();

    // Decode
    let mut decode_buf = ByteReader::new(&buf);
    let decoded_packet = VariablePacket::decode(&mut decode_buf).unwrap();

    assert_eq!(var_packet, decoded_packet);
}

#[test]
fn test_variable_packet_async_parse() {
    let (var_packet, buf) = connect_bytes();

    // Parse
    let (fixed_header, n) = peek(&buf);
    let body = &buf[n..n + fixed_header.remaining_length as usize];
    match VariablePacket::parse(fixed_header, body) {
        Err(_) => assert!(false),
        Ok(decoded_packet) => assert_eq!(var_packet, decoded_packet),
    }
}

#[test]
fn test_variable_packet_async_peek() {
    let (var_packet, buf) = connect_bytes();

    // Peek
    let (fixed_header, n) = peek(&buf);
    assert_eq!(fixed_header.packet_type.control_type, ControlType::Connect);

    // Read the rest
    let body = &buf[n..n + fixed_header.remaining_length as usize];
    match VariablePacket::peek_finalize(fixed_header, &buf[..n], body) {
        Err(_) => assert!(false),
        Ok((peeked_buffer, peeked_packet)) => {
            assert_eq!(peeked_buffer, buf);
            assert_eq!(peeked_packet, var_packet);
        }
    }
}

#[test]
fn every_kind_of_packet_round_trips_through_the_union() {
    let filter = |s: &str| TopicFilter::new(s.to_owned()).unwrap();
    let packets = vec![
        VariablePacket::new(ConnectPacket::new("MQTT".to_owned(), "id".to_owned())),
        VariablePacket::new(ConnackPacket::new(false, ConnectReturnCode::ConnectionAccepted)),
        VariablePacket::new(PublishPacket::new(
            TopicName::new("a/b".to_owned()).unwrap(),
            QoSWithPacketIdentifier::Level2(9),
            vec![1, 2, 3],
        )),
        VariablePacket::new(PubackPacket::new(1)),
        VariablePacket::new(PubrecPacket::new(2)),
        VariablePacket::new(PubrelPacket::new(3)),
        VariablePacket::new(PubcompPacket::new(4)),
        VariablePacket::new(PingreqPacket::new()),
        VariablePacket::new(PingrespPacket::new()),
        VariablePacket::new(SubscribePacket::new(5, vec![(filter("a/#"), QualityOfService::Level1)])),
        VariablePacket::new(SubackPacket::new(5, vec![SubscribeReturnCode::MaximumQoSLevel1])),
        VariablePacket::new(UnsubscribePacket::new(6, vec![filter("a/#")])),
        VariablePacket::new(UnsubackPacket::new(6)),
        VariablePacket::new(DisconnectPacket::new()),
    ];

    // One after the other on one stream.
    let mut stream = Vec::new();
    let mut ends = Vec::new();
    for packet in &packets {
        let before = stream.len();
        packet.encode(&mut stream).unwrap();
        assert_eq!((stream.len() - before) as u32, packet.encoded_length());
        ends.push(stream.len());
    }
    let mut reader = ByteReader::new(&stream);
    for (packet, end) in packets.iter().zip(&ends) {
        assert_eq!(VariablePacket::decode(&mut reader).as_ref(), Ok(packet));
        assert_eq!(reader.remaining_len(), stream.len() - end);
    }

    // Each alone, cut short anywhere.
    for packet in &packets {
        let mut buf = Vec::new();
        packet.encode(&mut buf).unwrap();
        for k in 0..buf.len() {
            let mut reader = ByteReader::new(&buf[..k]);
            assert_eq!(
                VariablePacket::decode(&mut reader),
                Err(VariablePacketError::IoError(IoErrorKind::UnexpectedEof))
            );
            assert_eq!(reader.remaining_len(), k);
        }
    }
}

#[test]
fn packet_of_reserved_type_is_passed_over() {
    let mut stream = vec![0xF0, 0x02, 0x11, 0x22];
    VariablePacket::new(PingreqPacket::new()).encode(&mut stream).unwrap();
    let mut reader = ByteReader::new(&stream);
    assert_eq!(
        VariablePacket::decode(&mut reader),
        Err(VariablePacketError::ReservedPacket(15, vec![0x11, 0x22]))
    );
    assert_eq!(reader.remaining_len(), 2);
    assert_eq!(
        VariablePacket::decode(&mut reader),
        Ok(VariablePacket::PingreqPacket(PingreqPacket::new()))
    );
    assert_eq!(reader.remaining_len(), 0);
}

#[test]
fn packet_of_type_zero_is_passed_over_with_a_long_body() {
    let mut stream = vec![0x05, 0xC8, 0x01];
    stream.extend(std::iter::repeat(0xEE).take(200));
    stream.extend_from_slice(&[0xE0, 0x00]);
    let mut reader = ByteReader::new(&stream);
    assert_eq!(
        VariablePacket::decode(&mut reader),
        Err(VariablePacketError::ReservedPacket(0, vec![0xEE; 200]))
    );
    assert_eq!(
        VariablePacket::decode(&mut reader),
        Ok(VariablePacket::DisconnectPacket(DisconnectPacket::new()))
    );
}

#[test]
fn packet_of_reserved_type_cut_short_gives_what_is_left() {
    let stream = vec![0xF0, 0x05, 0x11, 0x22];
    let mut reader = ByteReader::new(&stream);
    assert_eq!(
        VariablePacket::decode(&mut reader),
        Err(VariablePacketError::ReservedPacket(15, vec![0x11, 0x22]))
    );
    assert_eq!(reader.remaining_len(), 0);
}

#[test]
fn errors_of_the_union_name_the_packet() {
    let cases: Vec<(Vec<u8>, VariablePacketError)> = vec![
        (
            vec![0x10, 12, 0, 2, b'M', b'Q', 4, 0x01, 0, 0, 0, 2, b'i', b'd'],
            VariablePacketError::ConnectPacketError(PacketError::VariableHeaderError(
                VariableHeaderError::InvalidReservedFlag,
            )),
        ),
        (
            vec![0x20, 2, 4, 0],
            VariablePacketError::ConnackPacketError(PacketError::VariableHeaderError(
                VariableHeaderError::InvalidReservedFlag,
            )),
        ),
        (
            vec![0x36, 3, 0, 1, b'x'],
            VariablePacketError::PublishPacketError(PacketError::MalformedPacket(
                MalformedReason::UnexpectedFlags,
            )),
        ),
        (
            vec![0x41, 2, 0, 1],
            VariablePacketError::PubackPacketError(PacketError::MalformedPacket(
                MalformedReason::UnexpectedFlags,
            )),
        ),
        (
            vec![0x50, 3, 0, 1, 2],
            VariablePacketError::PubrecPacketError(PacketError::MalformedPacket(
                MalformedReason::TrailingBytes,
            )),
        ),
        (
            vec![0x60, 2, 0, 1],
            VariablePacketError::PubrelPacketError(PacketError::MalformedPacket(
                MalformedReason::UnexpectedFlags,
            )),
        ),
        (
            vec![0x7F, 2, 0, 1],
            VariablePacketError::PubcompPacketError(PacketError::MalformedPacket(
                MalformedReason::UnexpectedFlags,
            )),
        ),
        (
            vec![0xC0, 1, 0],
            VariablePacketError::PingreqPacketError(PacketError::MalformedPacket(
                MalformedReason::TrailingBytes,
            )),
        ),
        (
            vec![0xD8, 0],
            VariablePacketError::PingrespPacketError(PacketError::MalformedPacket(
                MalformedReason::UnexpectedFlags,
            )),
        ),
        (
            vec![0x82, 2, 0, 1],
            VariablePacketError::SubscribePacketError(PacketError::PayloadError(PayloadError::NoTopics)),
        ),
        (
            vec![0x90, 3, 0, 1, 9],
            VariablePacketError::SubackPacketError(PacketError::PayloadError(
                PayloadError::InvalidSubscribeReturnCode(9),
            )),
        ),
        (
            vec![0xA2, 2, 0, 1],
            VariablePacketError::UnsubscribePacketError(PacketError::PayloadError(PayloadError::NoTopics)),
        ),
        (
            vec![0xB0, 3, 0, 1, 2],
            VariablePacketError::UnsubackPacketError(PacketError::MalformedPacket(
                MalformedReason::TrailingBytes,
            )),
        ),
        (
            vec![0xE1, 0],
            VariablePacketError::DisconnectPacketError(PacketError::MalformedPacket(
                MalformedReason::UnexpectedFlags,
            )),
        ),
        (
            vec![0x10, 0x80, 0x80, 0x80, 0x80, 0x00],
            VariablePacketError::FixedHeaderError(FixedHeaderError::MalformedRemainingLength),
        ),
        (vec![0x40, 2, 0], VariablePacketError::IoError(IoErrorKind::UnexpectedEof)),
        (vec![0x40, 1, 0], VariablePacketError::IoError(IoErrorKind::UnexpectedEof)),
    ];
    for (bytes, error) in cases {
        let mut reader = ByteReader::new(&bytes);
        assert_eq!(VariablePacket::decode(&mut reader), Err(error));
        assert_eq!(reader.remaining_len(), bytes.len());
    }
}

#[test]
fn a_packet_that_cannot_be_written_leaves_the_sink_alone() {
    let packet = VariablePacket::new(ConnectPacket::new("MQTT".to_owned(), "c".repeat(70_000)));
    let mut buf = vec![9];
    assert_eq!(
        packet.encode(&mut buf),
        Err(VariablePacketError::ConnectPacketError(PacketError::PayloadError(
            PayloadError::StringEncodeError(StringEncodeError::TooLong)
        )))
    );
    assert_eq!(buf, vec![9]);
}

#[test]
fn peeking_at_a_reserved_type_gives_an_empty_body() {
    assert_eq!(
        VariablePacket::peek_progress(&[0xF0, 0x02]),
        PeekProgress::Failed(VariablePacketError::ReservedPacket(15, Vec::new()))
    );
    assert_eq!(
        VariablePacket::peek_progress(&[0x0F, 0x80, 0x01]),
        PeekProgress::Failed(VariablePacketError::ReservedPacket(0, Vec::new()))
    );
    assert_eq!(VariablePacket::peek_progress(&[0xF0]), PeekProgress::NeedByte);
    assert_eq!(VariablePacket::peek_progress(&[]), PeekProgress::NeedByte);
    assert_eq!(
        VariablePacket::peek_progress(&[0x10, 0xFF, 0xFF, 0xFF, 0xFF, 0x7F]),
        PeekProgress::Failed(VariablePacketError::FixedHeaderError(
            FixedHeaderError::MalformedRemainingLength
        ))
    );
}

#[test]
fn decode_with_and_decode_packet_dispatch_on_the_header() {
    let header = FixedHeader {
        packet_type: PacketType::with_default(ControlType::PublishRelease),
        remaining_length: 2,
    };
    let body = [0, 7, 0xC0, 0x00];
    let mut reader = ByteReader::new(&body);
    assert_eq!(
        VariablePacket::decode_with(&mut reader, Some(header)),
        Ok(VariablePacket::PubrelPacket(PubrelPacket::new(7)))
    );
    assert_eq!(
        VariablePacket::decode_with(&mut reader, None),
        Ok(VariablePacket::PingreqPacket(PingreqPacket::new()))
    );
    let mut reader = ByteReader::new(&body[..1]);
    assert_eq!(
        VariablePacket::decode_packet(&mut reader, header),
        Err(VariablePacketError::IoError(IoErrorKind::UnexpectedEof))
    );
    assert_eq!(
        VariablePacket::parse(header, &body[..3]),
        Ok(VariablePacket::PubrelPacket(PubrelPacket::new(7)))
    );
}

#[test]
fn descriptions() {
    assert_eq!(VariableHeaderError::InvalidReservedFlag.description(), "Invalid reserved flags");
    assert_eq!(
        PacketError::VariableHeaderError(VariableHeaderError::InvalidReservedFlag).description(),
        "Invalid reserved flags"
    );
    assert_eq!(
        PacketError::MalformedPacket(MalformedReason::UnexpectedFlags).description(),
        "unexpected flags"
    );
    assert_eq!(VariablePacketError::UnrecognizedPacket(15, vec![1]).description(), "Unrecognized packet");
    assert_eq!(VariablePacketError::ReservedPacket(0, vec![]).description(), "Reserved packet");
    assert_eq!(
        VariablePacketError::PubackPacketError(PacketError::IoError(IoErrorKind::UnexpectedEof)).description(),
        "unexpected end of input"
    );
}

#[test]
fn conversions_of_errors_flatten_unfinished_reads() {
    let eof = IoErrorKind::UnexpectedEof;
    assert_eq!(PacketError::from(FixedHeaderError::IoError(eof)), PacketError::IoError(eof));
    assert_eq!(
        PacketError::from(FixedHeaderError::ReservedType(0, 1)),
        PacketError::FixedHeaderError(FixedHeaderError::ReservedType(0, 1))
    );
    assert_eq!(PacketError::from(VariableHeaderError::IoError(eof)), PacketError::IoError(eof));
    assert_eq!(
        PacketError::from(VariableHeaderError::InvalidReservedFlag),
        PacketError::VariableHeaderError(VariableHeaderError::InvalidReservedFlag)
    );
    assert_eq!(PacketError::from(StringEncodeError::IoError(eof)), PacketError::IoError(eof));
    assert_eq!(
        PacketError::from(StringEncodeError::TooLong),
        PacketError::StringEncodeError(StringEncodeError::TooLong)
    );
    assert_eq!(PacketError::from(eof), PacketError::IoError(eof));
    assert_eq!(
        PacketError::from(TopicNameError::StringEncodeError(StringEncodeError::IoError(eof))),
        PacketError::IoError(eof)
    );
    assert_eq!(
        PacketError::from(TopicNameError::Empty),
        PacketError::TopicNameError(TopicNameError::Empty)
    );
    assert_eq!(VariableHeaderError::from(eof), VariableHeaderError::IoError(eof));
    assert_eq!(
        VariableHeaderError::from(StringEncodeError::Utf8),
        VariableHeaderError::StringEncodeError(StringEncodeError::Utf8)
    );
    assert_eq!(
        VariableHeaderError::from(TopicNameError::ContainsNul),
        VariableHeaderError::TopicNameError(TopicNameError::ContainsNul)
    );
    assert_eq!(
        VariablePacketError::from_fixed_header_error(FixedHeaderError::IoError(eof)),
        VariablePacketError::IoError(eof)
    );
    assert_eq!(
        VariablePacketError::from_packet_error(ControlType::Publish, PacketError::IoError(eof)),
        VariablePacketError::IoError(eof)
    );
    assert_eq!(
        VariablePacketError::from_packet_error(
            ControlType::Publish,
            PacketError::PayloadError(PayloadError::NoTopics)
        ),
        VariablePacketError::PublishPacketError(PacketError::PayloadError(PayloadError::NoTopics))
    );
}
