//! Keep-alive interval.

use crate::control::variable_header::VariableHeaderError;
use crate::encodable::{decode_u16, encode_u16, spec_decode_u16, spec_u16_wire};
use crate::reader::ByteReader;
use vstd::prelude::*;

verus! {

/// Longest silence, in seconds, that the client allows itself.
#[derive(Debug, Clone, Copy, PartialEq, Eq, Structural)]
pub struct KeepAlive(pub u16);

impl KeepAlive {
    /// The two bytes of the interval.
    pub open spec fn spec_wire(self) -> Seq<u8> {
        spec_u16_wire(self.0)
    }

    /// Reading a keep-alive interval from the front of `input`.
    pub open spec fn spec_decode(input: Seq<u8>) -> Result<
        (KeepAlive, int),
        VariableHeaderError,
    > {
        match spec_decode_u16(input) {
            Ok((v, n)) => Ok((KeepAlive(v), n)),
            Err(e) => Err(VariableHeaderError::IoError(e)),
        }
    }

    /// Number of bytes of the interval.
    pub fn encoded_length(&self) -> (n: u32)
        ensures
            n == 2,
            n == self.spec_wire().len(),
    {
        2
    }

    /// Appends the interval.
    pub fn encode(&self, out: &mut Vec<u8>)
        ensures
            final(out)@ == old(out)@ + self.spec_wire(),
    {
        encode_u16(self.0, out);
    }

    /// Reads a keep-alive interval.
    pub fn decode(reader: &mut ByteReader) -> (r: Result<KeepAlive, VariableHeaderError>)
        ensures
            match Self::spec_decode(old(reader).remaining()) {
                Ok((v, n)) => r == Ok::<KeepAlive, VariableHeaderError>(v)
                    && final(reader).remaining() == old(reader).remaining().skip(n),
                Err(e) => r == Err::<KeepAlive, VariableHeaderError>(e)
                    && final(reader).remaining() == old(reader).remaining(),
            },
    {
        match decode_u16(reader) {
            Ok(v) => Ok(KeepAlive(v)),
            Err(e) => Err(VariableHeaderError::IoError(e)),
        }
    }
}

} // verus!
