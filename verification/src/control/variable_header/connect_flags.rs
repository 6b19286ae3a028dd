//! Flags of a connection request.

use crate::control::variable_header::VariableHeaderError;
use crate::encodable::{decode_u8, encode_u8};
use crate::reader::{ByteReader, IoErrorKind};
use vstd::prelude::*;

verus! {

/// The flags byte of a CONNECT. Bit 7 user name, bit 6 password, bit 5 will
/// retain, bits 4 and 3 will QoS, bit 2 will flag, bit 1 clean session;
/// bit 0 is reserved and zero.
#[derive(Debug, Clone, Copy, PartialEq, Eq, Structural)]
pub struct ConnectFlags {
    /// The payload holds a user name.
    pub user_name: bool,
    /// The payload holds a password.
    pub password: bool,
    /// The will message is to be retained.
    pub will_retain: bool,
    /// Quality of service of the will message, 0 to 2.
    pub will_qos: u8,
    /// The payload holds a will topic and a will message.
    pub will_flag: bool,
    /// The session starts afresh.
    pub clean_session: bool,
}

/// 1 for `true`, 0 for `false`.
pub open spec fn spec_bit(b: bool) -> int {
    if b {
        1
    } else {
        0
    }
}

impl ConnectFlags {
    /// The will QoS is one of the three levels.
    pub open spec fn valid(self) -> bool {
        self.will_qos <= 2
    }

    /// The flags as a byte.
    pub open spec fn spec_to_u8(self) -> u8 {
        (128 * spec_bit(self.user_name) + 64 * spec_bit(self.password) + 32 * spec_bit(
            self.will_retain,
        ) + 8 * (self.will_qos % 4) + 4 * spec_bit(self.will_flag) + 2 * spec_bit(
            self.clean_session,
        )) as u8
    }

    /// The flags that the byte `b` holds in bits 7 to 1.
    pub open spec fn spec_from_u8(b: u8) -> ConnectFlags {
        ConnectFlags {
            user_name: b / 128 == 1,
            password: (b / 64) % 2 == 1,
            will_retain: (b / 32) % 2 == 1,
            will_qos: (b / 8) % 4,
            will_flag: (b / 4) % 2 == 1,
            clean_session: (b / 2) % 2 == 1,
        }
    }

    /// The byte of the flags.
    pub open spec fn spec_wire(self) -> Seq<u8> {
        seq![self.spec_to_u8()]
    }

    /// Reading the flags from the front of `input`.
    pub open spec fn spec_decode(input: Seq<u8>) -> Result<
        (ConnectFlags, int),
        VariableHeaderError,
    > {
        if input.len() < 1 {
            Err(VariableHeaderError::IoError(IoErrorKind::UnexpectedEof))
        } else if input[0] % 2 == 1 || (input[0] / 8) % 4 == 3 {
            Err(VariableHeaderError::InvalidReservedFlag)
        } else {
            Ok((Self::spec_from_u8(input[0]), 1))
        }
    }

    /// Flags with nothing set.
    pub fn empty() -> (r: ConnectFlags)
        ensures
            r == (ConnectFlags {
                user_name: false,
                password: false,
                will_retain: false,
                will_qos: 0,
                will_flag: false,
                clean_session: false,
            }),
    {
        ConnectFlags {
            user_name: false,
            password: false,
            will_retain: false,
            will_qos: 0,
            will_flag: false,
            clean_session: false,
        }
    }

    /// The flags as a byte.
    pub fn to_u8(&self) -> (r: u8)
        ensures
            r == self.spec_to_u8(),
    {
        let mut code: u8 = 8 * (self.will_qos % 4);
        if self.user_name {
            code = code + 128;
        }
        if self.password {
            code = code + 64;
        }
        if self.will_retain {
            code = code + 32;
        }
        if self.will_flag {
            code = code + 4;
        }
        if self.clean_session {
            code = code + 2;
        }
        code
    }

    /// Number of bytes of the flags.
    pub fn encoded_length(&self) -> (n: u32)
        ensures
            n == 1,
            n == self.spec_wire().len(),
    {
        1
    }

    /// Appends the flags.
    pub fn encode(&self, out: &mut Vec<u8>)
        ensures
            final(out)@ == old(out)@ + self.spec_wire(),
    {
        encode_u8(self.to_u8(), out);
    }

    /// Reads the flags; a byte with the reserved bit set, or with will QoS 3,
    /// is refused.
    pub fn decode(reader: &mut ByteReader) -> (r: Result<ConnectFlags, VariableHeaderError>)
        ensures
            match Self::spec_decode(old(reader).remaining()) {
                Ok((v, n)) => r == Ok::<ConnectFlags, VariableHeaderError>(v) && v.valid()
                    && final(reader).remaining() == old(reader).remaining().skip(n),
                Err(e) => r == Err::<ConnectFlags, VariableHeaderError>(e)
                    && final(reader).remaining() == old(reader).remaining(),
            },
    {
        let mut cur = reader.fork();
        match decode_u8(&mut cur) {
            Ok(code) => {
                if code % 2 == 1 || (code / 8) % 4 == 3 {
                    Err(VariableHeaderError::InvalidReservedFlag)
                } else {
                    reader.advance_to(cur);
                    Ok(
                        ConnectFlags {
                            user_name: code / 128 == 1,
                            password: (code / 64) % 2 == 1,
                            will_retain: (code / 32) % 2 == 1,
                            will_qos: (code / 8) % 4,
                            will_flag: (code / 4) % 2 == 1,
                            clean_session: (code / 2) % 2 == 1,
                        },
                    )
                }
            },
            Err(e) => Err(VariableHeaderError::IoError(e)),
        }
    }
}

/// Valid flags are read back from their byte, whatever follows it.
pub proof fn lemma_connect_flags_roundtrip(f: ConnectFlags, rest: Seq<u8>)
    requires
        f.valid(),
    ensures
        ConnectFlags::spec_decode(f.spec_wire() + rest) == Ok::<
            (ConnectFlags, int),
            VariableHeaderError,
        >((f, 1)),
{
}

} // verus!
