use mqtt_protocol::control::variable_header::{
    ConnackFlags, ConnectFlags, ConnectReturnCode, KeepAlive, PacketIdentifier, ProtocolLevel,
    ProtocolName, TopicNameHeader, VariableHeaderError,
};
use mqtt_protocol::control::{ControlType, FixedHeader, FixedHeaderError, PacketType};
use mqtt_protocol::encodable::StringEncodeError;
use mqtt_protocol::packet::publish::QoSWithPacketIdentifier;
use mqtt_protocol::packet::suback::SubscribeReturnCode;
use mqtt_protocol::packet::{
    ConnackPacket, ConnectPacket, DisconnectPacket, MalformedReason, Packet, PacketError,
    PayloadError, PingreqPacket, PingrespPacket, PubackPacket, PubcompPacket, PublishPacket,
    PubrecPacket, PubrelPacket, SubackPacket, SubscribePacket, UnsubackPacket, UnsubscribePacket,
};
use mqtt_protocol::{
    ByteReader, Decodable, Encodable, IoErrorKind, QualityOfService, TopicFilter,
    TopicFilterError, TopicName, TopicNameError,
};

const EOF: PacketError = PacketError::IoError(IoErrorKind::UnexpectedEof);

fn bytes_of<P: Packet>(packet: &P) -> Vec<u8> {
    let mut buf = Vec::new();
    packet.encode(&mut buf).unwrap();
    assert_eq!(buf.len() as u32, packet.encoded_length());
    assert_eq!(
        packet.fixed_header().remaining_length,
        packet.encoded_variable_headers_length() + packet.encoded_payload_length()
    );
    buf
}

/// The packet is read back from its bytes, the read stops where the packet
/// ends, and every truncation of the bytes is an unfinished read.
fn round_trips<P: Packet + PartialEq + std::fmt::Debug>(packet: &P) -> Vec<u8> {
    let mut buf = bytes_of(packet);
    let len = buf.len();
    buf.push(0x5A);
    let mut reader = ByteReader::new(&buf);
    assert_eq!(P::decode(&mut reader).as_ref(), Ok(packet));
    assert_eq!(reader.remaining_len(), 1);
    buf.pop();
    for k in 0..len {
        let mut reader = ByteReader::new(&buf[..k]);
        assert_eq!(P::decode(&mut reader).err(), Some(EOF));
        assert_eq!(reader.remaining_len(), k);
    }
    buf
}

fn body_error<P: Packet + std::fmt::Debug>(bytes: &[u8]) -> PacketError {
    let mut reader = ByteReader::new(bytes);
    let error = P::decode(&mut reader).unwrap_err();
    assert_eq!(reader.remaining_len(), bytes.len());
    error
}

fn filter(s: &str) -> TopicFilter {
    TopicFilter::new(s.to_owned()).unwrap()
}

fn topic(s: &str) -> TopicName {
    TopicName::new(s.to_owned()).unwrap()
}

#[test]
fn connect_minimal() {
    let mut packet = ConnectPacket::new("MQTT".to_owned(), "1234".to_owned());
    packet.set_clean_session(true);
    packet.set_keep_alive(0);
    let buf = round_trips(&packet);
    assert_eq!(buf[0], 0x10);
    assert_eq!(packet.fixed_header().remaining_length, 16);
    assert_eq!(
        buf,
        vec![0x10, 16, 0, 4, b'M', b'Q', b'T', b'T', 4, 0x02, 0, 0, 0, 4, b'1', b'2', b'3', b'4']
    );
    assert_eq!(packet.protocol_name(), "MQTT");
    assert_eq!(packet.protocol_level(), 4);
    assert_eq!(packet.client_identifier(), "1234");
    assert!(packet.clean_session());
    assert_eq!(packet.keep_alive(), 0);
    assert_eq!(packet.user_name(), None);
    assert_eq!(packet.password(), None);
    assert_eq!(packet.will(), None);
}

#[test]
fn connect_with_everything() {
    let mut packet = ConnectPacket::new("MQTT".to_owned(), "id".to_owned());
    packet.set_keep_alive(0x0102);
    packet.set_will(Some((topic("w/t"), "bye".to_owned())));
    packet.set_will_qos(1);
    packet.set_will_retain(true);
    packet.set_user_name(Some("u".to_owned()));
    packet.set_password(Some("pw".to_owned()));
    let buf = round_trips(&packet);
    let expected: Vec<u8> = vec![
        0x10, 31, 0, 4, b'M', b'Q', b'T', b'T', 4, 0xEC, 1, 2, 0, 2, b'i', b'd', 0, 3, b'w',
        b'/', b't', 0, 3, b'b', b'y', b'e', 0, 1, b'u', 0, 2, b'p', b'w',
    ];
    assert_eq!(&buf[..], &expected[..]);
    assert_eq!(packet.will(), Some(("w/t", "bye")));
    assert_eq!(packet.user_name(), Some("u"));
    assert_eq!(packet.password(), Some("pw"));
    let flags = packet.connect_flags();
    assert!(flags.user_name && flags.password && flags.will_flag && flags.will_retain);
    assert_eq!(flags.will_qos, 1);

    packet.set_user_name(None);
    packet.set_will(None);
    packet.set_client_identifier("another".to_owned());
    assert_eq!(packet.fixed_header().remaining_length, 10 + 9 + 4);
    assert!(!packet.connect_flags().user_name && !packet.connect_flags().will_flag);
    round_trips(&packet);
}

#[test]
fn connect_setters_keep_the_remaining_length_up_to_date() {
    let mut packet = ConnectPacket::new("MQTT".to_owned(), String::new());
    assert_eq!(packet.fixed_header().remaining_length, 12);
    packet.set_password(Some("secret".to_owned()));
    assert_eq!(packet.fixed_header().remaining_length, 20);
    packet.set_password(None);
    assert_eq!(packet.fixed_header().remaining_length, 12);
    assert_eq!(bytes_of(&packet).len(), 14);
    let copy = packet.clone();
    assert_eq!(copy, packet);
}

#[test]
fn connect_with_reserved_flag_is_refused() {
    let bytes = [0x10, 16, 0, 4, b'M', b'Q', b'T', b'T', 4, 0x03, 0, 0, 0, 4, b'1', b'2', b'3', b'4'];
    assert_eq!(
        body_error::<ConnectPacket>(&bytes),
        PacketError::VariableHeaderError(VariableHeaderError::InvalidReservedFlag)
    );
}

#[test]
fn connect_with_will_qos_three_is_refused() {
    let bytes = [0x10, 16, 0, 4, b'M', b'Q', b'T', b'T', 4, 0x18, 0, 0, 0, 4, b'1', b'2', b'3', b'4'];
    assert_eq!(
        body_error::<ConnectPacket>(&bytes),
        PacketError::VariableHeaderError(VariableHeaderError::InvalidReservedFlag)
    );
}

#[test]
fn connect_with_bad_strings_is_refused() {
    let bytes = [0x10, 12, 0, 2, 0xFF, 0xFF, 4, 0, 0, 0, 0, 2, b'i', b'd'];
    assert_eq!(
        body_error::<ConnectPacket>(&bytes),
        PacketError::VariableHeaderError(VariableHeaderError::StringEncodeError(StringEncodeError::Utf8))
    );
    let bytes = [0x10, 12, 0, 2, b'M', b'Q', 4, 0, 0, 0, 0, 2, 0xC0, 0x80];
    assert_eq!(
        body_error::<ConnectPacket>(&bytes),
        PacketError::PayloadError(PayloadError::StringEncodeError(StringEncodeError::Utf8))
    );
    let bytes = [0x10, 17, 0, 2, b'M', b'Q', 4, 0x04, 0, 0, 0, 0, 0, 1, b'#', 0, 2, b'h', b'i'];
    assert_eq!(
        body_error::<ConnectPacket>(&bytes),
        PacketError::PayloadError(PayloadError::TopicNameError(TopicNameError::ContainsWildcard))
    );
}

#[test]
fn connect_whose_body_ends_early_or_late_is_refused() {
    let bytes = [0x10, 12, 0, 2, b'M', b'Q', 4, 0x80, 0, 0, 0, 2, b'i', b'd'];
    assert_eq!(body_error::<ConnectPacket>(&bytes), EOF);
    let bytes = [0x10, 13, 0, 2, b'M', b'Q', 4, 0, 0, 0, 0, 2, b'i', b'd', 9];
    assert_eq!(
        body_error::<ConnectPacket>(&bytes),
        PacketError::MalformedPacket(MalformedReason::TrailingBytes)
    );
}

#[test]
fn connect_with_a_string_too_long_cannot_be_written() {
    let packet = ConnectPacket::new("MQTT".to_owned(), "c".repeat(65_536));
    assert_eq!(packet.fixed_header().remaining_length, 10 + 2 + 65_536);
    let mut buf = vec![1, 2];
    assert_eq!(
        packet.encode(&mut buf),
        Err(PacketError::PayloadError(PayloadError::StringEncodeError(StringEncodeError::TooLong)))
    );
    assert_eq!(buf, vec![1, 2]);

    let mut packet = ConnectPacket::new("P".repeat(70_000), "c".to_owned());
    let mut buf = Vec::new();
    assert_eq!(
        packet.encode(&mut buf),
        Err(PacketError::VariableHeaderError(VariableHeaderError::StringEncodeError(
            StringEncodeError::TooLong
        )))
    );
    assert!(buf.is_empty());
    packet.set_user_name(Some("u".repeat(65_536)));
    assert!(packet.encode(&mut buf).is_err());
    assert!(buf.is_empty());
}

#[test]
fn connack_has_two_bytes() {
    let packet = ConnackPacket::new(true, ConnectReturnCode::NotAuthorized);
    let buf = round_trips(&packet);
    assert_eq!(buf, vec![0x20, 2, 1, 5]);
    assert_eq!(packet.connack_flags(), ConnackFlags { session_present: true });
    assert_eq!(packet.connect_return_code(), ConnectReturnCode::NotAuthorized);
    assert_eq!(packet.clone(), packet);
}

#[test]
fn connack_keeps_every_return_code() {
    for code in 0..=255u8 {
        let ret = ConnectReturnCode::from_u8(code);
        assert_eq!(ret.to_u8(), code);
        assert_eq!(matches!(ret, ConnectReturnCode::Reserved(_)), code > 5);
        let packet = ConnackPacket::new(code % 2 == 0, ret);
        let buf = bytes_of(&packet);
        assert_eq!(buf, vec![0x20, 2, (code % 2 == 0) as u8, code]);
        let mut reader = ByteReader::new(&buf);
        assert_eq!(ConnackPacket::decode(&mut reader), Ok(packet));
    }
}

#[test]
fn connack_with_a_reserved_code_in_the_named_range_becomes_the_named_code() {
    let packet = ConnackPacket::new(false, ConnectReturnCode::Reserved(3));
    assert_eq!(packet.connect_return_code(), ConnectReturnCode::ServiceUnavailable);
    round_trips(&packet);
}

#[test]
fn connack_with_reserved_flag_bits_is_refused() {
    for flags in [2u8, 3, 0x80, 0xFF] {
        assert_eq!(
            body_error::<ConnackPacket>(&[0x20, 2, flags, 0]),
            PacketError::VariableHeaderError(VariableHeaderError::InvalidReservedFlag)
        );
    }
}

#[test]
fn publish_qos1() {
    let mut packet = PublishPacket::new(
        topic("a/b"),
        QoSWithPacketIdentifier::Level1(7),
        vec![0xAA, 0xBB],
    );
    packet.set_retain(true);
    let buf = round_trips(&packet);
    assert_eq!(buf[0], 0x33);
    assert_eq!(packet.fixed_header().remaining_length, 9);
    assert_eq!(buf, vec![0x33, 9, 0x00, 0x03, b'a', b'/', b'b', 0x00, 0x07, 0xAA, 0xBB]);
    assert_eq!(packet.encoded_variable_headers_length(), 7);
    assert_eq!(packet.payload_ref(), &vec![0xAA, 0xBB]);
    assert_eq!(packet.topic_name(), "a/b");
    assert_eq!(packet.payload(), vec![0xAA, 0xBB]);
}

#[test]
fn publish_flags_survive_coding() {
    let levels = [
        QoSWithPacketIdentifier::Level0,
        QoSWithPacketIdentifier::Level1(0x1234),
        QoSWithPacketIdentifier::Level2(0xFFFF),
    ];
    for (i, qos) in levels.iter().enumerate() {
        for dup in [false, true] {
            for retain in [false, true] {
                let mut packet = PublishPacket::new(topic("t"), *qos, vec![1, 2, 3]);
                packet.set_dup(dup);
                packet.set_retain(retain);
                let buf = round_trips(&packet);
                let flags = (dup as u8) << 3 | (i as u8) << 1 | retain as u8;
                assert_eq!(buf[0], 0x30 | flags);
                let mut reader = ByteReader::new(&buf);
                let back = PublishPacket::decode(&mut reader).unwrap();
                assert_eq!(back.dup(), dup);
                assert_eq!(back.retain(), retain);
                assert_eq!(back.qos(), *qos);
            }
        }
    }
}

#[test]
fn publish_qos0_has_no_identifier_and_may_be_empty() {
    let packet = PublishPacket::new(topic("x"), QoSWithPacketIdentifier::Level0, Vec::new());
    let buf = round_trips(&packet);
    assert_eq!(buf, vec![0x30, 3, 0, 1, b'x']);
    assert_eq!(packet.clone(), packet);
}

#[test]
fn publish_with_a_long_payload_has_a_long_header() {
    let packet = PublishPacket::new(topic("big"), QoSWithPacketIdentifier::Level2(1), vec![7; 20_000]);
    let buf = bytes_of(&packet);
    assert_eq!(packet.fixed_header().remaining_length, 20_007);
    assert_eq!(&buf[..4], &[0x34, 0xA7, 0x9C, 0x01]);
    let mut reader = ByteReader::new(&buf);
    assert_eq!(PublishPacket::decode(&mut reader), Ok(packet));
}

#[test]
fn publish_with_a_bad_topic_or_bad_flags_is_refused() {
    assert_eq!(
        body_error::<PublishPacket>(&[0x30, 3, 0, 1, b'#']),
        PacketError::VariableHeaderError(VariableHeaderError::TopicNameError(
            TopicNameError::ContainsWildcard
        ))
    );
    assert_eq!(
        body_error::<PublishPacket>(&[0x30, 2, 0, 0]),
        PacketError::VariableHeaderError(VariableHeaderError::TopicNameError(TopicNameError::Empty))
    );
    assert_eq!(
        body_error::<PublishPacket>(&[0x36, 5, 0, 1, b'x', 0, 1]),
        PacketError::MalformedPacket(MalformedReason::UnexpectedFlags)
    );
    assert_eq!(body_error::<PublishPacket>(&[0x32, 4, 0, 1, b'x', 0]), EOF);
}

#[test]
fn qos_with_packet_identifier() {
    assert_eq!(QoSWithPacketIdentifier::new(QualityOfService::Level0, 9), QoSWithPacketIdentifier::Level0);
    assert_eq!(QoSWithPacketIdentifier::new(QualityOfService::Level1, 9), QoSWithPacketIdentifier::Level1(9));
    assert_eq!(QoSWithPacketIdentifier::new(QualityOfService::Level2, 9), QoSWithPacketIdentifier::Level2(9));
    assert_eq!(QoSWithPacketIdentifier::Level2(4).split(), (QualityOfService::Level2, Some(4)));
    assert_eq!(QoSWithPacketIdentifier::Level0.split(), (QualityOfService::Level0, None));
    assert_eq!(QualityOfService::from_u8(3), None);
    assert_eq!(QualityOfService::from_u8(2).map(|q| q.to_u8()), Some(2));
}

#[test]
fn acknowledgements_carry_a_packet_identifier() {
    let buf = round_trips(&PubackPacket::new(0x0102));
    assert_eq!(buf, vec![0x40, 2, 1, 2]);
    let buf = round_trips(&PubrecPacket::new(0));
    assert_eq!(buf, vec![0x50, 2, 0, 0]);
    let buf = round_trips(&PubrelPacket::new(0xFFFF));
    assert_eq!(buf, vec![0x62, 2, 0xFF, 0xFF]);
    let buf = round_trips(&PubcompPacket::new(258));
    assert_eq!(buf, vec![0x70, 2, 1, 2]);
    let buf = round_trips(&UnsubackPacket::new(10));
    assert_eq!(buf, vec![0xB0, 2, 0, 10]);
}

#[test]
fn pubcomp_identifier_can_be_replaced() {
    let mut packet = PubcompPacket::new(1);
    assert_eq!(packet.packet_identifier(), 1);
    packet.set_packet_identifier(0xBEEF);
    assert_eq!(packet.packet_identifier(), 0xBEEF);
    assert_eq!(packet.fixed_header().remaining_length, 2);
    assert_eq!(packet.encoded_variable_headers_length(), 2);
    assert_eq!(bytes_of(&packet), vec![0x70, 2, 0xBE, 0xEF]);
    assert_eq!(packet.clone(), packet);
    assert_eq!(packet.payload_ref(), &());
}

#[test]
fn acknowledgement_with_wrong_type_flags_or_length_is_refused() {
    assert_eq!(
        body_error::<PubcompPacket>(&[0x40, 2, 0, 1]),
        PacketError::MalformedPacket(MalformedReason::UnexpectedControlType)
    );
    assert_eq!(
        body_error::<PubcompPacket>(&[0x71, 2, 0, 1]),
        PacketError::MalformedPacket(MalformedReason::UnexpectedFlags)
    );
    assert_eq!(
        body_error::<PubrelPacket>(&[0x60, 2, 0, 1]),
        PacketError::MalformedPacket(MalformedReason::UnexpectedFlags)
    );
    assert_eq!(
        body_error::<PubcompPacket>(&[0x70, 3, 0, 1, 2]),
        PacketError::MalformedPacket(MalformedReason::TrailingBytes)
    );
    assert_eq!(body_error::<PubcompPacket>(&[0x70, 1, 0]), EOF);
    assert_eq!(body_error::<PubcompPacket>(&[0x70, 0]), EOF);
    assert_eq!(
        body_error::<PubcompPacket>(&[0xF0, 0]),
        PacketError::FixedHeaderError(FixedHeaderError::ReservedType(15, 0))
    );
    assert_eq!(
        body_error::<PubcompPacket>(&[0x70, 0x80, 0x80, 0x80, 0x80, 0x01]),
        PacketError::FixedHeaderError(FixedHeaderError::MalformedRemainingLength)
    );
}

#[test]
fn pingreq() {
    let packet = PingreqPacket::new();
    let buf = round_trips(&packet);
    assert_eq!(buf, vec![0xC0, 0x00]);
    assert_eq!(packet.encoded_length(), 2);
}

#[test]
fn pingresp_and_disconnect() {
    assert_eq!(round_trips(&PingrespPacket::new()), vec![0xD0, 0x00]);
    assert_eq!(round_trips(&DisconnectPacket::new()), vec![0xE0, 0x00]);
    assert_eq!(
        body_error::<DisconnectPacket>(&[0xE0, 1, 0]),
        PacketError::MalformedPacket(MalformedReason::TrailingBytes)
    );
    assert_eq!(
        body_error::<PingreqPacket>(&[0xC1, 0]),
        PacketError::MalformedPacket(MalformedReason::UnexpectedFlags)
    );
    assert_eq!(
        body_error::<PingrespPacket>(&[0xC0, 0]),
        PacketError::MalformedPacket(MalformedReason::UnexpectedControlType)
    );
}

#[test]
fn subscribe() {
    let packet = SubscribePacket::new(
        10,
        vec![(filter("x"), QualityOfService::Level0), (filter("y/z"), QualityOfService::Level2)],
    );
    let buf = round_trips(&packet);
    assert_eq!(&buf[..4], &[0x82, 12, 0, 10]);
    assert_eq!(&buf[4..], &[0, 1, b'x', 0, 0, 3, b'y', b'/', b'z', 2]);
    assert_eq!(packet.packet_identifier(), 10);
    assert_eq!(packet.encoded_payload_length(), 10);
    assert_eq!(packet.payload_ref().len(), 2);
    assert_eq!(packet.clone(), packet);
}

#[test]
fn subscribe_with_many_filters_round_trips() {
    let mut subs = Vec::new();
    for i in 0..50u32 {
        let qos = QualityOfService::from_u8((i % 3) as u8).unwrap();
        subs.push((filter(&format!("level{}/+/{}/#", i, "n".repeat(i as usize + 1))), qos));
    }
    let mut packet = SubscribePacket::new(0xABCD, subs);
    round_trips(&packet);
    packet.set_packet_identifier(1);
    assert_eq!(packet.packet_identifier(), 1);
    round_trips(&packet);
}

#[test]
fn subscribe_with_a_bad_payload_is_refused() {
    assert_eq!(
        body_error::<SubscribePacket>(&[0x82, 2, 0, 1]),
        PacketError::PayloadError(PayloadError::NoTopics)
    );
    assert_eq!(
        body_error::<SubscribePacket>(&[0x82, 6, 0, 1, 0, 1, b'x', 3]),
        PacketError::PayloadError(PayloadError::InvalidQualityOfService(3))
    );
    assert_eq!(
        body_error::<SubscribePacket>(&[0x82, 6, 0, 1, 0, 1, b'x', 0x81]),
        PacketError::PayloadError(PayloadError::InvalidQualityOfService(0x81))
    );
    assert_eq!(
        body_error::<SubscribePacket>(&[0x82, 7, 0, 1, 0, 2, b'x', b'#', 0]),
        PacketError::PayloadError(PayloadError::TopicFilterError(TopicFilterError::MisplacedWildcard))
    );
    assert_eq!(body_error::<SubscribePacket>(&[0x82, 5, 0, 1, 0, 1, b'x']), EOF);
    assert_eq!(body_error::<SubscribePacket>(&[0x82, 4, 0, 1, 0, 9]), EOF);
    assert_eq!(
        body_error::<SubscribePacket>(&[0x80, 6, 0, 1, 0, 1, b'x', 0]),
        PacketError::MalformedPacket(MalformedReason::UnexpectedFlags)
    );
}

#[test]
fn suback() {
    let codes = vec![
        SubscribeReturnCode::MaximumQoSLevel0,
        SubscribeReturnCode::MaximumQoSLevel1,
        SubscribeReturnCode::MaximumQoSLevel2,
        SubscribeReturnCode::Failure,
    ];
    let mut packet = SubackPacket::new(0x0A0B, codes.clone());
    let buf = round_trips(&packet);
    assert_eq!(buf, vec![0x90, 6, 0x0A, 0x0B, 0x00, 0x01, 0x02, 0x80]);
    assert_eq!(packet.payload_ref(), &codes);
    packet.set_packet_identifier(2);
    assert_eq!(packet.packet_identifier(), 2);
    assert_eq!(packet.clone(), packet);
    round_trips(&SubackPacket::new(1, Vec::new()));
    round_trips(&SubackPacket::new(1, vec![SubscribeReturnCode::Failure; 300]));
}

#[test]
fn suback_with_an_unknown_return_code_is_refused() {
    for code in [3u8, 0x7F, 0x81, 0xFF] {
        assert_eq!(
            body_error::<SubackPacket>(&[0x90, 4, 0, 1, 0, code]),
            PacketError::PayloadError(PayloadError::InvalidSubscribeReturnCode(code))
        );
        assert_eq!(SubscribeReturnCode::from_u8(code), None);
    }
    assert_eq!(SubscribeReturnCode::from_u8(0x80), Some(SubscribeReturnCode::Failure));
    assert_eq!(SubscribeReturnCode::MaximumQoSLevel2.to_u8(), 2);
}

#[test]
fn unsubscribe() {
    let mut packet = UnsubscribePacket::new(3, vec![filter("a/+"), filter("#")]);
    let buf = round_trips(&packet);
    assert_eq!(buf, vec![0xA2, 10, 0, 3, 0, 3, b'a', b'/', b'+', 0, 1, b'#']);
    assert_eq!(packet.packet_identifier(), 3);
    packet.set_packet_identifier(4);
    assert_eq!(packet.payload_ref().len(), 2);
    assert_eq!(packet.clone(), packet);
    round_trips(&packet);
}

#[test]
fn unsubscribe_with_a_bad_payload_is_refused() {
    assert_eq!(
        body_error::<UnsubscribePacket>(&[0xA2, 2, 0, 1]),
        PacketError::PayloadError(PayloadError::NoTopics)
    );
    assert_eq!(
        body_error::<UnsubscribePacket>(&[0xA2, 4, 0, 1, 0, 0]),
        PacketError::PayloadError(PayloadError::TopicFilterError(TopicFilterError::Empty))
    );
    assert_eq!(
        body_error::<UnsubscribePacket>(&[0xA2, 5, 0, 1, 0, 1, 0]),
        PacketError::PayloadError(PayloadError::TopicFilterError(TopicFilterError::ContainsNul))
    );
    assert_eq!(body_error::<UnsubscribePacket>(&[0xA2, 5, 0, 1, 0, 2, b'a']), EOF);
}

#[test]
fn decode_with_a_header_read_ahead() {
    let header = FixedHeader::new(PacketType::with_default(ControlType::PublishComplete), 2);
    let body = [0x12, 0x34, 0x99];
    let mut reader = ByteReader::new(&body);
    let packet = PubcompPacket::decode_with(&mut reader, Some(header)).unwrap();
    assert_eq!(packet, PubcompPacket::new(0x1234));
    assert_eq!(reader.remaining_len(), 1);

    let mut reader = ByteReader::new(&body[..1]);
    assert_eq!(PubcompPacket::decode_with(&mut reader, Some(header)), Err(EOF));
    assert_eq!(reader.remaining_len(), 1);
}

#[test]
fn header_parts_have_the_documented_bytes() {
    let mut buf = Vec::new();
    PacketIdentifier(0x0102).encode(&mut buf);
    KeepAlive(0x0304).encode(&mut buf);
    ProtocolLevel(4).encode(&mut buf);
    ConnackFlags { session_present: true }.encode(&mut buf);
    ConnectReturnCode::IdentifierRejected.encode(&mut buf);
    ProtocolName("MQ".to_owned()).encode(&mut buf).unwrap();
    TopicNameHeader::new("t".to_owned()).unwrap().encode(&mut buf);
    assert_eq!(buf, vec![1, 2, 3, 4, 4, 1, 2, 0, 2, b'M', b'Q', 0, 1, b't']);

    let mut reader = ByteReader::new(&buf);
    assert_eq!(PacketIdentifier::decode(&mut reader), Ok(PacketIdentifier(0x0102)));
    assert_eq!(KeepAlive::decode(&mut reader), Ok(KeepAlive(0x0304)));
    assert_eq!(ProtocolLevel::decode(&mut reader), Ok(ProtocolLevel(4)));
    assert_eq!(ConnackFlags::decode(&mut reader), Ok(ConnackFlags { session_present: true }));
    assert_eq!(ConnectReturnCode::decode(&mut reader), Ok(ConnectReturnCode::IdentifierRejected));
    assert_eq!(ProtocolName::decode(&mut reader), Ok(ProtocolName("MQ".to_owned())));
    assert_eq!(
        TopicNameHeader::decode(&mut reader).map(|t| t.topic_name().as_str().to_owned()),
        Ok("t".to_owned())
    );
    assert_eq!(PacketIdentifier::decode(&mut reader), Err(VariableHeaderError::IoError(IoErrorKind::UnexpectedEof)));
}

#[test]
fn connect_flags_byte() {
    let flags = ConnectFlags {
        user_name: true,
        password: false,
        will_retain: true,
        will_qos: 2,
        will_flag: true,
        clean_session: true,
    };
    assert_eq!(flags.to_u8(), 0b1011_0110);
    let buf = [0b1011_0110u8];
    let mut reader = ByteReader::new(&buf);
    assert_eq!(ConnectFlags::decode(&mut reader), Ok(flags));
    assert_eq!(ConnectFlags::empty().to_u8(), 0);
    for byte in 0..=255u8 {
        let buf = [byte];
        let mut reader = ByteReader::new(&buf);
        let decoded = ConnectFlags::decode(&mut reader);
        if byte & 1 == 1 || (byte >> 3) & 3 == 3 {
            assert_eq!(decoded, Err(VariableHeaderError::InvalidReservedFlag));
        } else {
            assert_eq!(decoded.map(|f| f.to_u8()), Ok(byte));
        }
    }
}

#[test]
fn topic_name_header_refuses_what_is_no_topic_name() {
    assert_eq!(
        TopicNameHeader::new("a/#".to_owned()).err(),
        Some(VariableHeaderError::TopicNameError(TopicNameError::ContainsWildcard))
    );
    assert_eq!(
        TopicNameHeader::new("n\0".to_owned()).err(),
        Some(VariableHeaderError::TopicNameError(TopicNameError::ContainsNul))
    );
    let cut = [0u8, 5, b'a'];
    let mut reader = ByteReader::new(&cut);
    assert_eq!(
        TopicNameHeader::decode(&mut reader).err(),
        Some(VariableHeaderError::IoError(IoErrorKind::UnexpectedEof))
    );
}

#[test]
fn publish_setters_keep_the_remaining_length_up_to_date() {
    let mut packet = PublishPacket::new(topic("a"), QoSWithPacketIdentifier::Level0, vec![1]);
    packet.set_dup(true);
    assert_eq!(packet.fixed_header().remaining_length, 4);
    packet.set_qos(QoSWithPacketIdentifier::Level2(0x0102));
    assert_eq!(packet.fixed_header().remaining_length, 6);
    assert_eq!(packet.qos(), QoSWithPacketIdentifier::Level2(0x0102));
    assert!(packet.dup() && !packet.retain());
    packet.set_topic_name(topic("long/er"));
    assert_eq!(packet.topic_name(), "long/er");
    assert_eq!(packet.fixed_header().remaining_length, 12);
    packet.set_payload(vec![9, 8, 7]);
    assert_eq!(packet.fixed_header().remaining_length, 14);
    let buf = round_trips(&packet);
    assert_eq!(
        buf,
        vec![0x3C, 14, 0, 7, b'l', b'o', b'n', b'g', b'/', b'e', b'r', 1, 2, 9, 8, 7]
    );
    packet.set_qos(QoSWithPacketIdentifier::Level0);
    assert_eq!(packet.fixed_header().remaining_length, 12);
    assert_eq!(round_trips(&packet)[0], 0x38);
}
