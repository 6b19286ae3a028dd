//! Topic name of a published message.

use crate::control::variable_header::VariableHeaderError;
use crate::encodable::spec_string_wire;
use crate::reader::ByteReader;
use crate::topic_name::{spec_decode_topic_name, spec_topic_name_error, TopicName};
use vstd::prelude::*;
use vstd::utf8::encode_utf8;

verus! {

/// The topic that a message is published to.
#[derive(Debug, PartialEq, Eq)]
pub struct TopicNameHeader(TopicName);

impl Clone for TopicNameHeader {
    fn clone(&self) -> (r: TopicNameHeader)
        ensures
            r@ == self@,
    {
        TopicNameHeader(self.0.clone())
    }
}

impl View for TopicNameHeader {
    type V = Seq<char>;

    closed spec fn view(&self) -> Seq<char> {
        self.0@
    }
}

impl TopicNameHeader {
    /// Reading a topic name header from the front of `input`.
    pub open spec fn spec_decode(input: Seq<u8>) -> Result<(Seq<char>, int), VariableHeaderError> {
        match spec_decode_topic_name(input) {
            Ok((s, n)) => Ok((s, n)),
            Err(e) => Err(VariableHeaderError::spec_from_topic_name_error(e)),
        }
    }

    /// A header for `topic_name`, if that is a topic name.
    pub fn new(topic_name: String) -> (r: Result<TopicNameHeader, VariableHeaderError>)
        ensures
            match spec_topic_name_error(topic_name@) {
                Some(e) => r == Err::<TopicNameHeader, VariableHeaderError>(
                    VariableHeaderError::spec_from_topic_name_error(e),
                ),
                None => r is Ok && r->Ok_0@ == topic_name@,
            },
    {
        match TopicName::new(topic_name) {
            Ok(t) => Ok(TopicNameHeader(t)),
            Err(e) => Err(VariableHeaderError::from(e)),
        }
    }

    /// A header for a topic name.
    pub fn from_topic_name(topic_name: TopicName) -> (r: TopicNameHeader)
        ensures
            r@ == topic_name@,
    {
        TopicNameHeader(topic_name)
    }

    /// The topic name.
    pub fn topic_name(&self) -> (r: &TopicName)
        ensures
            r@ == self@,
    {
        &self.0
    }

    /// Number of bytes the header takes on the wire.
    pub fn encoded_length(&self) -> (n: u32)
        ensures
            n == spec_string_wire(self@).len(),
            n == 2 + encode_utf8(self@).len(),
            3 <= n <= 65_537,
            spec_topic_name_error(self@) is None,
    {
        self.0.encoded_length()
    }

    /// Appends the header.
    pub fn encode(&self, out: &mut Vec<u8>)
        ensures
            final(out)@ == old(out)@ + spec_string_wire(self@),
            spec_topic_name_error(self@) is None,
    {
        self.0.encode(out);
    }

    /// Reads a topic name header; a string that is no topic name is refused.
    pub fn decode(reader: &mut ByteReader) -> (r: Result<TopicNameHeader, VariableHeaderError>)
        ensures
            match Self::spec_decode(old(reader).remaining()) {
                Ok((s, n)) => r is Ok && r->Ok_0@ == s && final(reader).remaining()
                    == old(reader).remaining().skip(n),
                Err(e) => r == Err::<TopicNameHeader, VariableHeaderError>(e)
                    && final(reader).remaining() == old(reader).remaining(),
            },
    {
        match TopicName::decode(reader) {
            Ok(t) => Ok(TopicNameHeader(t)),
            Err(e) => Err(VariableHeaderError::from(e)),
        }
    }
}

} // verus!
