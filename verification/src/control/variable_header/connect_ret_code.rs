//! Return code of a connect acknowledgement.

use crate::control::variable_header::VariableHeaderError;
use crate::encodable::{decode_u8, encode_u8, spec_decode_u8};
use crate::reader::ByteReader;
use vstd::prelude::*;

verus! {

/// What the server made of a connection request.
#[derive(Debug, Clone, Copy, PartialEq, Eq, Structural)]
pub enum ConnectReturnCode {
    /// Code 0: connection accepted.
    ConnectionAccepted,
    /// Code 1: the server does not speak the protocol level asked for.
    UnacceptableProtocolVersion,
    /// Code 2: the client identifier is not allowed.
    IdentifierRejected,
    /// Code 3: the MQTT service is unavailable.
    ServiceUnavailable,
    /// Code 4: the user name or password is malformed.
    BadUserNameOrPassword,
    /// Code 5: the client is not authorised to connect.
    NotAuthorized,
    /// Codes 6 to 255, kept as they came.
    Reserved(u8),
}

impl ConnectReturnCode {
    /// The byte of the code.
    pub open spec fn spec_to_u8(self) -> u8 {
        match self {
            ConnectReturnCode::ConnectionAccepted => 0,
            ConnectReturnCode::UnacceptableProtocolVersion => 1,
            ConnectReturnCode::IdentifierRejected => 2,
            ConnectReturnCode::ServiceUnavailable => 3,
            ConnectReturnCode::BadUserNameOrPassword => 4,
            ConnectReturnCode::NotAuthorized => 5,
            ConnectReturnCode::Reserved(code) => code,
        }
    }

    /// The code that the byte `code` stands for.
    pub open spec fn spec_from_u8(code: u8) -> ConnectReturnCode {
        if code == 0 {
            ConnectReturnCode::ConnectionAccepted
        } else if code == 1 {
            ConnectReturnCode::UnacceptableProtocolVersion
        } else if code == 2 {
            ConnectReturnCode::IdentifierRejected
        } else if code == 3 {
            ConnectReturnCode::ServiceUnavailable
        } else if code == 4 {
            ConnectReturnCode::BadUserNameOrPassword
        } else if code == 5 {
            ConnectReturnCode::NotAuthorized
        } else {
            ConnectReturnCode::Reserved(code)
        }
    }

    /// A named code, or a reserved one whose byte is above 5.
    pub open spec fn valid(self) -> bool {
        self matches ConnectReturnCode::Reserved(code) ==> code > 5
    }

    /// The byte of the code.
    pub open spec fn spec_wire(self) -> Seq<u8> {
        seq![self.spec_to_u8()]
    }

    /// Reading a code from the front of `input`.
    pub open spec fn spec_decode(input: Seq<u8>) -> Result<
        (ConnectReturnCode, int),
        VariableHeaderError,
    > {
        match spec_decode_u8(input) {
            Ok((v, n)) => Ok((Self::spec_from_u8(v), n)),
            Err(e) => Err(VariableHeaderError::IoError(e)),
        }
    }

    /// The byte of the code.
    pub fn to_u8(self) -> (r: u8)
        ensures
            r == self.spec_to_u8(),
    {
        match self {
            ConnectReturnCode::ConnectionAccepted => 0,
            ConnectReturnCode::UnacceptableProtocolVersion => 1,
            ConnectReturnCode::IdentifierRejected => 2,
            ConnectReturnCode::ServiceUnavailable => 3,
            ConnectReturnCode::BadUserNameOrPassword => 4,
            ConnectReturnCode::NotAuthorized => 5,
            ConnectReturnCode::Reserved(code) => code,
        }
    }

    /// The code that the byte `code` stands for: every byte stands for one.
    pub fn from_u8(code: u8) -> (r: ConnectReturnCode)
        ensures
            r == Self::spec_from_u8(code),
            r.valid(),
            r.spec_to_u8() == code,
    {
        match code {
            0 => ConnectReturnCode::ConnectionAccepted,
            1 => ConnectReturnCode::UnacceptableProtocolVersion,
            2 => ConnectReturnCode::IdentifierRejected,
            3 => ConnectReturnCode::ServiceUnavailable,
            4 => ConnectReturnCode::BadUserNameOrPassword,
            5 => ConnectReturnCode::NotAuthorized,
            _ => ConnectReturnCode::Reserved(code),
        }
    }

    /// Number of bytes of the code.
    pub fn encoded_length(&self) -> (n: u32)
        ensures
            n == 1,
            n == self.spec_wire().len(),
    {
        1
    }

    /// Appends the code.
    pub fn encode(&self, out: &mut Vec<u8>)
        ensures
            final(out)@ == old(out)@ + self.spec_wire(),
    {
        encode_u8(self.to_u8(), out);
    }

    /// Reads a code.
    pub fn decode(reader: &mut ByteReader) -> (r: Result<ConnectReturnCode, VariableHeaderError>)
        ensures
            match Self::spec_decode(old(reader).remaining()) {
                Ok((v, n)) => r == Ok::<ConnectReturnCode, VariableHeaderError>(v) && v.valid()
                    && final(reader).remaining() == old(reader).remaining().skip(n),
                Err(e) => r == Err::<ConnectReturnCode, VariableHeaderError>(e)
                    && final(reader).remaining() == old(reader).remaining(),
            },
    {
        match decode_u8(reader) {
            Ok(v) => Ok(Self::from_u8(v)),
            Err(e) => Err(VariableHeaderError::IoError(e)),
        }
    }
}

} // verus!
