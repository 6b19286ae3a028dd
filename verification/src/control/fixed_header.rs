//! The fixed header and the variable-length integer it ends with.

use crate::control::packet_type::{ControlType, PacketType};
use crate::encodable::encode_u8;
use crate::reader::{ByteReader, IoErrorKind};
use vstd::prelude::*;

verus! {

/// Largest remaining length a fixed header can carry: 2^28 - 1.
pub const MAX_REMAINING_LENGTH: u32 = 268_435_455;

/// Errors of the fixed-header codec.
#[derive(Debug, Clone, Copy, PartialEq, Eq, Structural)]
pub enum FixedHeaderError {
    /// The source ended inside the header.
    IoError(IoErrorKind),
    /// The remaining length goes on past its fourth byte.
    MalformedRemainingLength,
    /// A control-type code that is neither known nor reserved, with the
    /// remaining length that followed it. With four bits to a code, every
    /// code is one or the other: see `lemma_code_known_or_reserved`.
    Unrecognized(u8, u32),
    /// Control-type code 0 or 15, with the remaining length that followed it.
    ReservedType(u8, u32),
}

/// The variable-length form of `n`: seven bits to a byte, least significant
/// group first, the top bit set on every byte but the last.
pub open spec fn spec_varint_wire(n: nat) -> Seq<u8>
    decreases n,
{
    if n < 128 {
        seq![n as u8]
    } else {
        seq![(n % 128 + 128) as u8] + spec_varint_wire(n / 128)
    }
}

/// Number of bytes of the variable-length form of a value up to 2^28 - 1.
pub open spec fn spec_varint_len(n: nat) -> int {
    if n < 128 {
        1
    } else if n < 16_384 {
        2
    } else if n < 2_097_152 {
        3
    } else {
        4
    }
}

/// Reading a variable-length integer from the front of `input`: one to four
/// bytes, of which the last alone has its top bit clear. Any fifth byte is an
/// error.
pub open spec fn spec_decode_varint(input: Seq<u8>) -> Result<(u32, int), FixedHeaderError> {
    let eof = Err::<(u32, int), FixedHeaderError>(
        FixedHeaderError::IoError(IoErrorKind::UnexpectedEof),
    );
    if input.len() < 1 {
        eof
    } else if input[0] < 128 {
        Ok((input[0] as u32, 1))
    } else if input.len() < 2 {
        eof
    } else if input[1] < 128 {
        Ok((((input[0] - 128) + input[1] * 128) as u32, 2))
    } else if input.len() < 3 {
        eof
    } else if input[2] < 128 {
        Ok((((input[0] - 128) + (input[1] - 128) * 128 + input[2] * 16_384) as u32, 3))
    } else if input.len() < 4 {
        eof
    } else if input[3] < 128 {
        Ok(
            (
                ((input[0] - 128) + (input[1] - 128) * 128 + (input[2] - 128) * 16_384 + input[3]
                    * 2_097_152) as u32,
                4,
            ),
        )
    } else if input.len() < 5 {
        eof
    } else {
        Err(FixedHeaderError::MalformedRemainingLength)
    }
}

/// Appends the variable-length form of `n`.
pub fn encode_varint(n: u32, out: &mut Vec<u8>)
    ensures
        final(out)@ == old(out)@ + spec_varint_wire(n as nat),
{
    let mut cur: u32 = n;
    while cur > 127
        invariant
            out@ + spec_varint_wire(cur as nat) == old(out)@ + spec_varint_wire(n as nat),
        decreases cur,
    {
        let ghost before = out@;
        out.push((cur % 128 + 128) as u8);
        assert(out@ + spec_varint_wire((cur / 128) as nat) =~= before + spec_varint_wire(
            cur as nat,
        ));
        cur = cur / 128;
    }
    let ghost before = out@;
    out.push(cur as u8);
    assert(out@ =~= before + spec_varint_wire(cur as nat));
}

/// Reads a variable-length integer.
pub fn decode_varint(reader: &mut ByteReader) -> (r: Result<u32, FixedHeaderError>)
    ensures
        match spec_decode_varint(old(reader).remaining()) {
            Ok((v, n)) => r == Ok::<u32, FixedHeaderError>(v) && final(reader).remaining()
                == old(reader).remaining().skip(n),
            Err(e) => r == Err::<u32, FixedHeaderError>(e) && final(reader).remaining()
                == old(reader).remaining(),
        },
{
    let ghost input = reader.remaining();
    let mut cur = reader.fork();
    let mut value: u32 = 0;
    let mut scale: u32 = 1;
    let mut i: usize = 0;
    while i < 4
        invariant
            i <= 4,
            reader.remaining() == input,
            old(reader).remaining() == input,
            input.len() >= i,
            cur.remaining() == input.skip(i as int),
            forall|j: int| 0 <= j < i ==> input[j] >= 128,
            i == 0 ==> scale == 1 && value == 0,
            i == 1 ==> scale == 128 && value == input[0] - 128,
            i == 2 ==> scale == 16_384 && value == (input[0] - 128) + (input[1] - 128) * 128,
            i == 3 ==> scale == 2_097_152 && value == (input[0] - 128) + (input[1] - 128) * 128 + (
            input[2] - 128) * 16_384,
            i == 4 ==> scale == 2_097_152 * 128,
        decreases 4 - i,
    {
        let byte = match cur.read_u8() {
            Ok(b) => b,
            Err(e) => {
                return Err(FixedHeaderError::IoError(e));
            },
        };
        assert(byte == input[i as int]);
        assert(cur.remaining() =~= input.skip(i + 1));
        if byte < 128 {
            reader.advance_to(cur);
            let v: u32 = byte as u32;
            return Ok(value + v * scale);
        }
        let v: u32 = (byte - 128) as u32;
        value = value + v * scale;
        scale = scale * 128;
        i = i + 1;
    }
    match cur.read_u8() {
        Ok(_) => Err(FixedHeaderError::MalformedRemainingLength),
        Err(e) => Err(FixedHeaderError::IoError(e)),
    }
}

/// A value up to 2^28 - 1 is read back from its variable-length form,
/// whatever follows it.
pub proof fn lemma_varint_roundtrip(n: u32, rest: Seq<u8>)
    requires
        n <= MAX_REMAINING_LENGTH,
    ensures
        spec_decode_varint(spec_varint_wire(n as nat) + rest) == Ok::<(u32, int), FixedHeaderError>(
            (n, spec_varint_len(n as nat)),
        ),
        spec_varint_wire(n as nat).len() == spec_varint_len(n as nat),
        (spec_varint_wire(n as nat) + rest).skip(spec_varint_len(n as nat)) == rest,
{
    reveal_with_fuel(spec_varint_wire, 4);
    let w = spec_varint_wire(n as nat);
    assert((w + rest).skip(spec_varint_len(n as nat)) =~= rest);
}

/// Cut short, the variable-length form of a value is an unfinished read.
pub proof fn lemma_varint_prefix(n: u32, k: int)
    requires
        n <= MAX_REMAINING_LENGTH,
        0 <= k < spec_varint_len(n as nat),
    ensures
        spec_decode_varint(spec_varint_wire(n as nat).take(k)) == Err::<
            (u32, int),
            FixedHeaderError,
        >(FixedHeaderError::IoError(IoErrorKind::UnexpectedEof)),
{
    reveal_with_fuel(spec_varint_wire, 4);
}

/// Four bytes with the top bit set, followed by any fifth byte, are refused.
pub proof fn lemma_varint_fifth_byte(input: Seq<u8>)
    requires
        input.len() >= 5,
        forall|i: int| 0 <= i < 4 ==> input[i] >= 128,
    ensures
        spec_decode_varint(input) == Err::<(u32, int), FixedHeaderError>(
            FixedHeaderError::MalformedRemainingLength,
        ),
{
}

/// The frame that starts every packet.
#[derive(Debug, Clone, Copy, PartialEq, Eq, Structural)]
pub struct FixedHeader {
    /// Control type and flags.
    pub packet_type: PacketType,
    /// Number of bytes that follow the header, at most 2^28 - 1.
    pub remaining_length: u32,
}

/// What became of the bytes of a header read so far.
#[derive(Debug, Clone, Copy, PartialEq, Eq, Structural)]
pub enum HeaderProgress {
    /// The header is not complete: another byte is needed.
    NeedByte,
    /// The bytes start with this header.
    Done(FixedHeader),
    /// The bytes are no header.
    Failed(FixedHeaderError),
}

impl FixedHeader {
    /// The flags fit in four bits and the remaining length in four bytes.
    pub open spec fn valid(self) -> bool {
        self.packet_type.flags < 16 && self.remaining_length <= MAX_REMAINING_LENGTH
    }

    /// The bytes of the header.
    pub open spec fn spec_wire(self) -> Seq<u8> {
        seq![self.packet_type.spec_to_u8()] + spec_varint_wire(self.remaining_length as nat)
    }

    /// Number of bytes of the header.
    pub open spec fn spec_encoded_length(self) -> int {
        1 + spec_varint_len(self.remaining_length as nat)
    }

    /// Reading a header from the front of `input`.
    pub open spec fn spec_decode(input: Seq<u8>) -> Result<(FixedHeader, int), FixedHeaderError> {
        if input.len() < 1 {
            Err(FixedHeaderError::IoError(IoErrorKind::UnexpectedEof))
        } else {
            match spec_decode_varint(input.skip(1)) {
                Err(e) => Err(e),
                Ok((len, n)) => {
                    let code = input[0] / 16;
                    match ControlType::spec_from_u8(code) {
                        Some(control_type) => Ok(
                            (
                                FixedHeader {
                                    packet_type: PacketType { control_type, flags: input[0] % 16 },
                                    remaining_length: len,
                                },
                                1 + n,
                            ),
                        ),
                        None => if code == 0 || code == 15 {
                            Err(FixedHeaderError::ReservedType(code, len))
                        } else {
                            Err(FixedHeaderError::Unrecognized(code, len))
                        },
                    }
                },
            }
        }
    }

    /// Number of bytes that reading a header takes from `input`: those of the
    /// header, also where its control type is reserved or unknown, and none
    /// where the header cannot be read.
    pub open spec fn spec_consumed(input: Seq<u8>) -> int {
        if input.len() < 1 {
            0
        } else {
            match spec_decode_varint(input.skip(1)) {
                Err(_) => 0,
                Ok((_, n)) => 1 + n,
            }
        }
    }

    /// A header of the given type and remaining length.
    pub fn new(packet_type: PacketType, remaining_length: u32) -> (r: FixedHeader)
        requires
            remaining_length <= MAX_REMAINING_LENGTH,
        ensures
            r == (FixedHeader { packet_type, remaining_length }),
    {
        FixedHeader { packet_type, remaining_length }
    }

    /// Number of bytes of the header.
    pub fn encoded_length(&self) -> (n: u32)
        requires
            self.valid(),
        ensures
            n == self.spec_encoded_length(),
            n == self.spec_wire().len(),
            2 <= n <= 5,
    {
        proof {
            lemma_varint_roundtrip(self.remaining_length, Seq::empty());
        }
        let rem_size: u32 = if self.remaining_length >= 2_097_152 {
            4
        } else if self.remaining_length >= 16_384 {
            3
        } else if self.remaining_length >= 128 {
            2
        } else {
            1
        };
        1 + rem_size
    }

    /// Appends the header.
    pub fn encode(&self, out: &mut Vec<u8>)
        requires
            self.valid(),
        ensures
            final(out)@ == old(out)@ + self.spec_wire(),
    {
        encode_u8(self.packet_type.to_u8(), out);
        encode_varint(self.remaining_length, out);
        assert(out@ =~= old(out)@ + self.spec_wire());
    }

    /// Reads a header. Where the control type is reserved or unknown the
    /// header is consumed all the same; any other failure consumes nothing.
    pub fn decode(reader: &mut ByteReader) -> (r: Result<FixedHeader, FixedHeaderError>)
        ensures
            match Self::spec_decode(old(reader).remaining()) {
                Ok((h, n)) => r == Ok::<FixedHeader, FixedHeaderError>(h) && h.valid(),
                Err(e) => r == Err::<FixedHeader, FixedHeaderError>(e),
            },
            0 <= Self::spec_consumed(old(reader).remaining()) <= old(reader).remaining().len(),
            final(reader).remaining() == old(reader).remaining().skip(
                Self::spec_consumed(old(reader).remaining()),
            ),
    {
        let ghost input = reader.remaining();
        let mut cur = reader.fork();
        proof {
            assert(input.skip(0) =~= input);
        }
        let first = match cur.read_u8() {
            Ok(b) => b,
            Err(e) => {
                return Err(FixedHeaderError::IoError(e));
            },
        };
        let remaining_length = match decode_varint(&mut cur) {
            Ok(v) => v,
            Err(e) => {
                return Err(e);
            },
        };
        proof {
            let n = spec_decode_varint(input.skip(1))->Ok_0.1;
            assert(input.skip(1).skip(n) =~= input.skip(1 + n));
        }
        reader.advance_to(cur);
        let code = first / 16;
        match ControlType::from_u8(code) {
            Some(control_type) => Ok(
                FixedHeader {
                    packet_type: PacketType { control_type, flags: first % 16 },
                    remaining_length,
                },
            ),
            None => if code == 0 || code == 15 {
                Err(FixedHeaderError::ReservedType(code, remaining_length))
            } else {
                Err(FixedHeaderError::Unrecognized(code, remaining_length))
            },
        }
    }

    /// Says what the bytes of a header read so far amount to: a header,
    /// an error, or a header that lacks a byte.
    pub fn parse_progress(bytes: &[u8]) -> (r: HeaderProgress)
        ensures
            match Self::spec_decode(bytes@) {
                Ok((h, n)) => r == HeaderProgress::Done(h) && h.valid(),
                Err(FixedHeaderError::IoError(_)) => r == HeaderProgress::NeedByte,
                Err(e) => r == HeaderProgress::Failed(e),
            },
    {
        let mut reader = ByteReader::new(bytes);
        match Self::decode(&mut reader) {
            Ok(h) => HeaderProgress::Done(h),
            Err(FixedHeaderError::IoError(_)) => HeaderProgress::NeedByte,
            Err(e) => HeaderProgress::Failed(e),
        }
    }
}

/// A valid header is read back from its bytes, whatever follows them.
pub proof fn lemma_fixed_header_roundtrip(h: FixedHeader, rest: Seq<u8>)
    requires
        h.valid(),
    ensures
        FixedHeader::spec_decode(h.spec_wire() + rest)
            == Ok::<(FixedHeader, int), FixedHeaderError>(
            (h, h.spec_encoded_length()),
        ),
        FixedHeader::spec_consumed(h.spec_wire() + rest) == h.spec_encoded_length(),
        h.spec_wire().len() == h.spec_encoded_length(),
        (h.spec_wire() + rest).skip(h.spec_encoded_length()) == rest,
{
    let w = spec_varint_wire(h.remaining_length as nat);
    let input = h.spec_wire() + rest;
    lemma_varint_roundtrip(h.remaining_length, rest);
    assert(input.skip(1) =~= w + rest);
    assert(input.skip(h.spec_encoded_length()) =~= rest);
    assert(input[0] == h.packet_type.spec_to_u8());
}

/// Cut short, the bytes of a valid header are an unfinished read.
pub proof fn lemma_fixed_header_prefix(h: FixedHeader, k: int)
    requires
        h.valid(),
        0 <= k < h.spec_encoded_length(),
    ensures
        FixedHeader::spec_decode(h.spec_wire().take(k)) == Err::<
            (FixedHeader, int),
            FixedHeaderError,
        >(FixedHeaderError::IoError(IoErrorKind::UnexpectedEof)),
        FixedHeader::spec_consumed(h.spec_wire().take(k)) == 0,
{
    lemma_varint_roundtrip(h.remaining_length, Seq::empty());
    if k >= 1 {
        lemma_varint_prefix(h.remaining_length, k - 1);
        assert(h.spec_wire().take(k).skip(1) =~= spec_varint_wire(
            h.remaining_length as nat,
        ).take(k - 1));
    }
}

/// Every control-type code is that of a known type or a reserved one: no
/// header is refused as unrecognized.
pub proof fn lemma_code_known_or_reserved(input: Seq<u8>)
    ensures
        !(FixedHeader::spec_decode(input) matches Err(FixedHeaderError::Unrecognized(_, _))),
{
}

} // verus!
