//! Packet identifier.

use crate::control::variable_header::VariableHeaderError;
use crate::encodable::{decode_u16, encode_u16, spec_decode_u16, spec_u16_wire};
use crate::reader::ByteReader;
use vstd::prelude::*;

verus! {

/// The number that ties a packet to its acknowledgements.
#[derive(Debug, Clone, Copy, PartialEq, Eq, Structural)]
pub struct PacketIdentifier(pub u16);

impl PacketIdentifier {
    /// The two bytes of the identifier.
    pub open spec fn spec_wire(self) -> Seq<u8> {
        spec_u16_wire(self.0)
    }

    /// Reading an identifier from the front of `input`.
    pub open spec fn spec_decode(input: Seq<u8>) -> Result<
        (PacketIdentifier, int),
        VariableHeaderError,
    > {
        match spec_decode_u16(input) {
            Ok((v, n)) => Ok((PacketIdentifier(v), n)),
            Err(e) => Err(VariableHeaderError::IoError(e)),
        }
    }

    /// Number of bytes of the identifier.
    pub fn encoded_length(&self) -> (n: u32)
        ensures
            n == 2,
            n == self.spec_wire().len(),
    {
        2
    }

    /// Appends the identifier.
    pub fn encode(&self, out: &mut Vec<u8>)
        ensures
            final(out)@ == old(out)@ + self.spec_wire(),
    {
        encode_u16(self.0, out);
    }

    /// Reads an identifier.
    pub fn decode(reader: &mut ByteReader) -> (r: Result<PacketIdentifier, VariableHeaderError>)
        ensures
            match Self::spec_decode(old(reader).remaining()) {
                Ok((v, n)) => r == Ok::<PacketIdentifier, VariableHeaderError>(v)
                    && final(reader).remaining() == old(reader).remaining().skip(n),
                Err(e) => r == Err::<PacketIdentifier, VariableHeaderError>(e)
                    && final(reader).remaining() == old(reader).remaining(),
            },
    {
        match decode_u16(reader) {
            Ok(v) => Ok(PacketIdentifier(v)),
            Err(e) => Err(VariableHeaderError::IoError(e)),
        }
    }
}

} // verus!
