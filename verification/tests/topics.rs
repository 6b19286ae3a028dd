use mqtt_protocol::encodable::StringEncodeError;
use mqtt_protocol::topic_filter::check_topic_filter;
use mqtt_protocol::topic_name::check_topic_name;
use mqtt_protocol::{ByteReader, IoErrorKind, TopicFilter, TopicFilterError, TopicName, TopicNameError};

#[test]
fn topic_names_without_wildcards_are_accepted() {
    for name in ["a", "a/b", "/", "//", "sport/tennis/player1", "$SYS/broker", "caf\u{e9}/\u{4e16}\u{754c}", " "] {
        let topic = TopicName::new(name.to_owned()).unwrap();
        assert_eq!(topic.as_str(), name);
        assert_eq!(topic.encoded_length() as usize, 2 + name.len());
    }
}

#[test]
fn topic_names_with_wildcards_are_refused() {
    for name in ["#", "+", "a/#", "a/+/b", "a#", "+a", "x\u{e9}#"] {
        assert_eq!(TopicName::new(name.to_owned()), Err(TopicNameError::ContainsWildcard));
        assert_eq!(check_topic_name(name), Err(TopicNameError::ContainsWildcard));
    }
}

#[test]
fn topic_names_with_nul_are_refused() {
    for name in ["\0", "a\0b", "a/b\0", "\0#"] {
        assert_eq!(TopicName::new(name.to_owned()), Err(TopicNameError::ContainsNul));
    }
}

#[test]
fn empty_topic_name_is_refused() {
    assert_eq!(TopicName::new(String::new()), Err(TopicNameError::Empty));
}

#[test]
fn topic_name_of_65535_bytes_is_accepted_and_one_more_is_too_long() {
    assert!(TopicName::new("t".repeat(65_535)).is_ok());
    assert_eq!(
        TopicName::new("t".repeat(65_536)),
        Err(TopicNameError::StringEncodeError(StringEncodeError::TooLong))
    );
}

#[test]
fn topic_name_round_trips() {
    let topic = TopicName::new("a/b".to_owned()).unwrap();
    let mut buf = Vec::new();
    topic.encode(&mut buf);
    assert_eq!(buf, vec![0, 3, b'a', b'/', b'b']);
    let mut reader = ByteReader::new(&buf);
    assert_eq!(TopicName::decode(&mut reader), Ok(topic.clone()));
    assert_eq!(reader.remaining_len(), 0);
}

#[test]
fn topic_name_is_validated_when_read() {
    let cases: [(&[u8], TopicNameError); 7] = [
        (&[0, 1, b'#'], TopicNameError::ContainsWildcard),
        (&[0, 3, b'a', b'/', b'+'], TopicNameError::ContainsWildcard),
        (&[0, 2, b'a', 0], TopicNameError::ContainsNul),
        (&[0, 0], TopicNameError::Empty),
        (&[0, 2, 0xFF, 0xFE], TopicNameError::StringEncodeError(StringEncodeError::Utf8)),
        (&[0, 2, b'a'], TopicNameError::StringEncodeError(StringEncodeError::IoError(IoErrorKind::UnexpectedEof))),
        (&[0], TopicNameError::StringEncodeError(StringEncodeError::IoError(IoErrorKind::UnexpectedEof))),
    ];
    for (bytes, error) in cases {
        let mut reader = ByteReader::new(bytes);
        assert_eq!(TopicName::decode(&mut reader), Err(error));
        assert_eq!(reader.remaining_len(), bytes.len());
    }
}

#[test]
fn topic_filters_with_well_placed_wildcards_are_accepted() {
    for filter in ["a", "a/b", "#", "+", "a/#", "/#", "+/+", "a/+/b", "+/a/#", "/", "$SYS/#", "sport/+/player1", "caf\u{e9}/+"] {
        let f = TopicFilter::new(filter.to_owned()).unwrap();
        assert_eq!(f.as_str(), filter);
        assert_eq!(check_topic_filter(filter), Ok(()));
    }
}

#[test]
fn topic_filters_with_misplaced_wildcards_are_refused() {
    for filter in ["a#", "#/a", "a/#/b", "a+", "+a", "a/+b", "a/b+/c", "##", "#+", "a/#/", "\u{e9}+"] {
        assert_eq!(TopicFilter::new(filter.to_owned()), Err(TopicFilterError::MisplacedWildcard));
    }
}

#[test]
fn topic_filters_that_are_empty_or_hold_nul_or_are_too_long_are_refused() {
    assert_eq!(TopicFilter::new(String::new()), Err(TopicFilterError::Empty));
    assert_eq!(TopicFilter::new("a\0".to_owned()), Err(TopicFilterError::ContainsNul));
    assert_eq!(
        TopicFilter::new("f".repeat(65_536)),
        Err(TopicFilterError::StringEncodeError(StringEncodeError::TooLong))
    );
    assert!(TopicFilter::new("f".repeat(65_535)).is_ok());
}

#[test]
fn topic_filter_round_trips_and_is_validated_when_read() {
    let filter = TopicFilter::new("y/+/#".to_owned()).unwrap();
    let mut buf = Vec::new();
    filter.encode(&mut buf);
    assert_eq!(buf, vec![0, 5, b'y', b'/', b'+', b'/', b'#']);
    assert_eq!(filter.encoded_length(), 7);
    let mut reader = ByteReader::new(&buf);
    assert_eq!(TopicFilter::decode(&mut reader), Ok(filter));

    let bad = [0u8, 2, b'a', b'#'];
    let mut reader = ByteReader::new(&bad);
    assert_eq!(TopicFilter::decode(&mut reader), Err(TopicFilterError::MisplacedWildcard));
    assert_eq!(reader.remaining_len(), 4);

    let cut = [0u8, 2, b'a'];
    let mut reader = ByteReader::new(&cut);
    assert_eq!(
        TopicFilter::decode(&mut reader),
        Err(TopicFilterError::StringEncodeError(StringEncodeError::IoError(IoErrorKind::UnexpectedEof)))
    );
}
