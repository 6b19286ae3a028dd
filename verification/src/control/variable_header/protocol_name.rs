//! Protocol name.

use crate::control::variable_header::VariableHeaderError;
use crate::encodable::{
    decode_string, encode_string, spec_decode_string, spec_string_encoded_length,
    spec_string_wire, string_encoded_length, StringEncodeError, MAX_STRING_BYTES,
};
use crate::reader::ByteReader;
use vstd::prelude::*;
use vstd::utf8::encode_utf8;

verus! {

/// The name of the protocol that a client speaks, `MQTT` for MQTT 3.1.1.
#[derive(Debug, PartialEq, Eq)]
pub struct ProtocolName(pub String);

impl Clone for ProtocolName {
    fn clone(&self) -> (r: ProtocolName)
        ensures
            r@ == self@,
    {
        ProtocolName(self.0.clone())
    }
}

impl View for ProtocolName {
    type V = Seq<char>;

    open spec fn view(&self) -> Seq<char> {
        self.0@
    }
}

impl ProtocolName {
    /// Reading a protocol name from the front of `input`.
    pub open spec fn spec_decode(input: Seq<u8>) -> Result<(Seq<char>, int), VariableHeaderError> {
        match spec_decode_string(input) {
            Ok((s, n)) => Ok((s, n)),
            Err(e) => Err(VariableHeaderError::spec_from_string_error(e)),
        }
    }

    /// Number of bytes the name takes on the wire.
    pub fn encoded_length(&self) -> (n: u32)
        requires
            spec_string_encoded_length(self@) <= u32::MAX,
        ensures
            n == spec_string_encoded_length(self@),
    {
        string_encoded_length(self.0.as_str())
    }

    /// Appends the name, or refuses one that is too long and leaves `out`
    /// as it was.
    pub fn encode(&self, out: &mut Vec<u8>) -> (r: Result<(), VariableHeaderError>)
        ensures
            encode_utf8(self@).len() <= MAX_STRING_BYTES ==> r is Ok && final(out)@ == old(out)@
                + spec_string_wire(self@),
            encode_utf8(self@).len() > MAX_STRING_BYTES ==> r == Err::<(), VariableHeaderError>(
                VariableHeaderError::StringEncodeError(StringEncodeError::TooLong),
            ) && final(out)@ == old(out)@,
    {
        match encode_string(self.0.as_str(), out) {
            Ok(()) => Ok(()),
            Err(e) => Err(VariableHeaderError::StringEncodeError(e)),
        }
    }

    /// Reads a protocol name.
    pub fn decode(reader: &mut ByteReader) -> (r: Result<ProtocolName, VariableHeaderError>)
        ensures
            match Self::spec_decode(old(reader).remaining()) {
                Ok((s, n)) => r is Ok && r->Ok_0@ == s && final(reader).remaining()
                    == old(reader).remaining().skip(n),
                Err(e) => r == Err::<ProtocolName, VariableHeaderError>(e)
                    && final(reader).remaining() == old(reader).remaining(),
            },
    {
        match decode_string(reader) {
            Ok(s) => Ok(ProtocolName(s)),
            Err(e) => Err(VariableHeaderError::from(e)),
        }
    }
}

} // verus!
