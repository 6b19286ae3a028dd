//! Flags of a connect acknowledgement.

use crate::control::variable_header::VariableHeaderError;
use crate::encodable::{decode_u8, encode_u8};
use crate::reader::{ByteReader, IoErrorKind};
use vstd::prelude::*;

verus! {

/// The flags byte of a CONNACK: bit 0 says whether the server holds a
/// session for the client, the other bits are zero.
#[derive(Debug, Clone, Copy, PartialEq, Eq, Structural)]
pub struct ConnackFlags {
    /// Whether the server already holds a session for the client.
    pub session_present: bool,
}

impl ConnackFlags {
    /// The byte of the flags.
    pub open spec fn spec_wire(self) -> Seq<u8> {
        seq![if self.session_present { 1u8 } else { 0u8 }]
    }

    /// Reading the flags from the front of `input`.
    pub open spec fn spec_decode(input: Seq<u8>) -> Result<
        (ConnackFlags, int),
        VariableHeaderError,
    > {
        if input.len() < 1 {
            Err(VariableHeaderError::IoError(IoErrorKind::UnexpectedEof))
        } else if input[0] > 1 {
            Err(VariableHeaderError::InvalidReservedFlag)
        } else {
            Ok((ConnackFlags { session_present: input[0] == 1 }, 1))
        }
    }

    /// Flags with no session present.
    pub fn empty() -> (r: ConnackFlags)
        ensures
            r == (ConnackFlags { session_present: false }),
    {
        ConnackFlags { session_present: false }
    }

    /// Number of bytes of the flags.
    pub fn encoded_length(&self) -> (n: u32)
        ensures
            n == 1,
            n == self.spec_wire().len(),
    {
        1
    }

    /// Appends the flags.
    pub fn encode(&self, out: &mut Vec<u8>)
        ensures
            final(out)@ == old(out)@ + self.spec_wire(),
    {
        let code: u8 = if self.session_present {
            1
        } else {
            0
        };
        encode_u8(code, out);
    }

    /// Reads the flags; a byte with any bit but the lowest set is refused.
    pub fn decode(reader: &mut ByteReader) -> (r: Result<ConnackFlags, VariableHeaderError>)
        ensures
            match Self::spec_decode(old(reader).remaining()) {
                Ok((v, n)) => r == Ok::<ConnackFlags, VariableHeaderError>(v)
                    && final(reader).remaining() == old(reader).remaining().skip(n),
                Err(e) => r == Err::<ConnackFlags, VariableHeaderError>(e)
                    && final(reader).remaining() == old(reader).remaining(),
            },
    {
        let mut cur = reader.fork();
        match decode_u8(&mut cur) {
            Ok(code) => {
                if code > 1 {
                    Err(VariableHeaderError::InvalidReservedFlag)
                } else {
                    reader.advance_to(cur);
                    Ok(ConnackFlags { session_present: code == 1 })
                }
            },
            Err(e) => Err(VariableHeaderError::IoError(e)),
        }
    }
}

} // verus!
