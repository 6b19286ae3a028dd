//! Protocol level.

use crate::control::variable_header::VariableHeaderError;
use crate::encodable::{decode_u8, encode_u8, spec_decode_u8};
use crate::reader::ByteReader;
use vstd::prelude::*;

verus! {

/// Protocol level of MQTT 3.1.1.
pub const SPEC_3_1_1: u8 = 0x04;

/// The revision of the protocol that a client speaks.
#[derive(Debug, Clone, Copy, PartialEq, Eq, Structural)]
pub struct ProtocolLevel(pub u8);

impl ProtocolLevel {
    /// The byte of the level.
    pub open spec fn spec_wire(self) -> Seq<u8> {
        seq![self.0]
    }

    /// Reading a level from the front of `input`.
    pub open spec fn spec_decode(input: Seq<u8>) -> Result<
        (ProtocolLevel, int),
        VariableHeaderError,
    > {
        match spec_decode_u8(input) {
            Ok((v, n)) => Ok((ProtocolLevel(v), n)),
            Err(e) => Err(VariableHeaderError::IoError(e)),
        }
    }

    /// Number of bytes of the level.
    pub fn encoded_length(&self) -> (n: u32)
        ensures
            n == 1,
            n == self.spec_wire().len(),
    {
        1
    }

    /// Appends the level.
    pub fn encode(&self, out: &mut Vec<u8>)
        ensures
            final(out)@ == old(out)@ + self.spec_wire(),
    {
        encode_u8(self.0, out);
    }

    /// Reads a level.
    pub fn decode(reader: &mut ByteReader) -> (r: Result<ProtocolLevel, VariableHeaderError>)
        ensures
            match Self::spec_decode(old(reader).remaining()) {
                Ok((v, n)) => r == Ok::<ProtocolLevel, VariableHeaderError>(v)
                    && final(reader).remaining() == old(reader).remaining().skip(n),
                Err(e) => r == Err::<ProtocolLevel, VariableHeaderError>(e)
                    && final(reader).remaining() == old(reader).remaining(),
            },
    {
        match decode_u8(reader) {
            Ok(v) => Ok(ProtocolLevel(v)),
            Err(e) => Err(VariableHeaderError::IoError(e)),
        }
    }
}

} // verus!
