//! The primitive codec: single bytes, big-endian 16-bit integers and
//! length-prefixed UTF-8 strings.

use crate::reader::{ByteReader, IoErrorKind};
use std::string::FromUtf8Error;
use vstd::prelude::*;
use vstd::slice::slice_to_vec;
use vstd::utf8::{decode_utf8, encode_utf8, valid_utf8};

verus! {

/// Largest number of bytes a length-prefixed string can carry.
pub const MAX_STRING_BYTES: usize = 65_535;

/// Errors of the string codec.
#[derive(Debug, Clone, Copy, PartialEq, Eq, Structural)]
pub enum StringEncodeError {
    /// The source ended inside the length prefix or the string.
    IoError(IoErrorKind),
    /// The bytes on the wire are not valid UTF-8.
    Utf8,
    /// The string takes more than 65 535 bytes.
    TooLong,
}

/// The two bytes of `v`, most significant first.
pub open spec fn spec_u16_wire(v: u16) -> Seq<u8> {
    seq![(v / 256) as u8, (v % 256) as u8]
}

/// The integer whose big-endian bytes are `hi`, `lo`.
pub open spec fn spec_u16_from(hi: u8, lo: u8) -> u16 {
    (hi * 256 + lo) as u16
}

/// Reading one byte from the front of `input`.
pub open spec fn spec_decode_u8(input: Seq<u8>) -> Result<(u8, int), IoErrorKind> {
    if input.len() < 1 {
        Err(IoErrorKind::UnexpectedEof)
    } else {
        Ok((input[0], 1))
    }
}

/// Reading a big-endian 16-bit integer from the front of `input`.
pub open spec fn spec_decode_u16(input: Seq<u8>) -> Result<(u16, int), IoErrorKind> {
    if input.len() < 2 {
        Err(IoErrorKind::UnexpectedEof)
    } else {
        Ok((spec_u16_from(input[0], input[1]), 2))
    }
}

/// Number of bytes a string takes on the wire: the prefix and its UTF-8 bytes.
pub open spec fn spec_string_encoded_length(s: Seq<char>) -> nat {
    2 + encode_utf8(s).len()
}

/// Wire form of a string of at most 65 535 bytes: length prefix, then UTF-8.
pub open spec fn spec_string_wire(s: Seq<char>) -> Seq<u8> {
    spec_u16_wire(encode_utf8(s).len() as u16) + encode_utf8(s)
}

/// Reading a length-prefixed string from the front of `input`.
pub open spec fn spec_decode_string(input: Seq<u8>) -> Result<(Seq<char>, int), StringEncodeError> {
    if input.len() < 2 {
        Err(StringEncodeError::IoError(IoErrorKind::UnexpectedEof))
    } else {
        let n = spec_u16_from(input[0], input[1]) as int;
        if input.len() < 2 + n {
            Err(StringEncodeError::IoError(IoErrorKind::UnexpectedEof))
        } else if !valid_utf8(input.subrange(2, 2 + n)) {
            Err(StringEncodeError::Utf8)
        } else {
            Ok((decode_utf8(input.subrange(2, 2 + n)), 2 + n))
        }
    }
}

/// Appends one byte.
pub fn encode_u8(v: u8, out: &mut Vec<u8>)
    ensures
        final(out)@ == old(out)@ + seq![v],
{
    out.push(v);
    assert(out@ =~= old(out)@ + seq![v]);
}

/// Appends `v` as two bytes, most significant first.
pub fn encode_u16(v: u16, out: &mut Vec<u8>)
    ensures
        final(out)@ == old(out)@ + spec_u16_wire(v),
{
    out.push((v / 256) as u8);
    out.push((v % 256) as u8);
    assert(out@ =~= old(out)@ + spec_u16_wire(v));
}

/// Appends `bytes` unchanged.
pub fn encode_bytes(bytes: &[u8], out: &mut Vec<u8>)
    ensures
        final(out)@ == old(out)@ + bytes@,
{
    let mut i: usize = 0;
    while i < bytes.len()
        invariant
            i <= bytes@.len(),
            out@ == old(out)@ + bytes@.take(i as int),
        decreases bytes@.len() - i,
    {
        out.push(bytes[i]);
        i = i + 1;
        assert(out@ =~= old(out)@ + bytes@.take(i as int));
    }
    assert(bytes@.take(i as int) =~= bytes@);
}

/// Reads one byte.
pub fn decode_u8(reader: &mut ByteReader) -> (r: Result<u8, IoErrorKind>)
    ensures
        match spec_decode_u8(old(reader).remaining()) {
            Ok((v, n)) => r == Ok::<u8, IoErrorKind>(v) && final(reader).remaining()
                == old(reader).remaining().skip(n),
            Err(e) => r == Err::<u8, IoErrorKind>(e) && final(reader).remaining()
                == old(reader).remaining(),
        },
{
    reader.read_u8()
}

/// Reads a big-endian 16-bit integer.
pub fn decode_u16(reader: &mut ByteReader) -> (r: Result<u16, IoErrorKind>)
    ensures
        match spec_decode_u16(old(reader).remaining()) {
            Ok((v, n)) => r == Ok::<u16, IoErrorKind>(v) && final(reader).remaining()
                == old(reader).remaining().skip(n),
            Err(e) => r == Err::<u16, IoErrorKind>(e) && final(reader).remaining()
                == old(reader).remaining(),
        },
{
    match reader.read_exact(2) {
        Ok(b) => {
            let hi: u16 = b[0] as u16;
            let lo: u16 = b[1] as u16;
            Ok(hi * 256 + lo)
        },
        Err(e) => Err(e),
    }
}

/// Number of bytes `s` takes on the wire.
pub fn string_encoded_length(s: &str) -> (n: u32)
    requires
        spec_string_encoded_length(s@) <= u32::MAX,
    ensures
        n == spec_string_encoded_length(s@),
{
    let len: usize = s.as_bytes().len();
    (len + 2) as u32
}

/// Appends the wire form of `s`, or refuses a string that is too long and
/// leaves `out` as it was.
pub fn encode_string(s: &str, out: &mut Vec<u8>) -> (r: Result<(), StringEncodeError>)
    ensures
        encode_utf8(s@).len() <= MAX_STRING_BYTES ==> r is Ok && final(out)@ == old(out)@
            + spec_string_wire(s@),
        encode_utf8(s@).len() > MAX_STRING_BYTES ==> r == Err::<(), StringEncodeError>(
            StringEncodeError::TooLong,
        ) && final(out)@ == old(out)@,
{
    let bytes = s.as_bytes();
    if bytes.len() > MAX_STRING_BYTES {
        return Err(StringEncodeError::TooLong);
    }
    encode_u16(bytes.len() as u16, out);
    encode_bytes(bytes, out);
    assert(out@ =~= old(out)@ + spec_string_wire(s@));
    Ok(())
}

#[verifier::external_type_specification]
#[verifier::external_body]
pub struct ExFromUtf8Error(FromUtf8Error);

/// `String::from_utf8`: succeeds exactly on well-formed UTF-8, and the string
/// it returns is made of the bytes it was given.
#[verifier::external_body]
fn string_from_utf8(bytes: Vec<u8>) -> (r: Result<String, FromUtf8Error>)
    ensures
        r is Ok <==> valid_utf8(bytes@),
        r matches Ok(s) ==> encode_utf8(s@) == bytes@,
{
    String::from_utf8(bytes)
}

/// Reads a length-prefixed UTF-8 string.
pub fn decode_string(reader: &mut ByteReader) -> (r: Result<String, StringEncodeError>)
    ensures
        match spec_decode_string(old(reader).remaining()) {
            Ok((s, n)) => r is Ok && r->Ok_0@ == s && final(reader).remaining()
                == old(reader).remaining().skip(n),
            Err(e) => r is Err && r->Err_0 == e && final(reader).remaining()
                == old(reader).remaining(),
        },
{
    let mut cur = reader.fork();
    let len = match decode_u16(&mut cur) {
        Ok(v) => v,
        Err(e) => {
            return Err(StringEncodeError::IoError(e));
        },
    };
    let bytes = match cur.read_exact(len as usize) {
        Ok(b) => b,
        Err(e) => {
            return Err(StringEncodeError::IoError(e));
        },
    };
    let ghost input = old(reader).remaining();
    assert(bytes@ =~= input.subrange(2, 2 + len));
    assert(cur.remaining() =~= input.skip(2 + len));
    match string_from_utf8(slice_to_vec(bytes)) {
        Ok(s) => {
            proof {
                vstd::utf8::encode_utf8_decode_utf8(s@);
            }
            reader.advance_to(cur);
            Ok(s)
        },
        Err(_) => Err(StringEncodeError::Utf8),
    }
}

/// A 16-bit integer is read back from its two bytes.
pub proof fn lemma_u16_roundtrip(v: u16, rest: Seq<u8>)
    ensures
        spec_decode_u16(spec_u16_wire(v) + rest) == Ok::<(u16, int), IoErrorKind>((v, 2)),
        (spec_u16_wire(v) + rest).skip(2) == rest,
        spec_u16_wire(v).len() == 2,
{
    assert((spec_u16_wire(v) + rest).skip(2) =~= rest);
}

/// A string of at most 65 535 bytes is read back from its wire form,
/// whatever follows it.
pub proof fn lemma_string_roundtrip(s: Seq<char>, rest: Seq<u8>)
    requires
        encode_utf8(s).len() <= MAX_STRING_BYTES,
    ensures
        spec_decode_string(spec_string_wire(s) + rest) == Ok::<(Seq<char>, int), StringEncodeError>(
            (s, spec_string_encoded_length(s) as int),
        ),
        (spec_string_wire(s) + rest).skip(spec_string_encoded_length(s) as int) == rest,
        spec_string_wire(s).len() == spec_string_encoded_length(s),
{
    let bytes = encode_utf8(s);
    let input = spec_string_wire(s) + rest;
    let n = bytes.len() as int;
    assert(spec_u16_from(input[0], input[1]) == n);
    assert(input.subrange(2, 2 + n) =~= bytes);
    assert(input.skip(2 + n) =~= rest);
    vstd::utf8::encode_utf8_valid_utf8(s);
    vstd::utf8::encode_utf8_decode_utf8(s);
}

/// The bytes that a string was read from are its wire form.
pub proof fn lemma_string_canonical(input: Seq<u8>)
    ensures
        spec_decode_string(input) matches Ok((s, n)) ==> spec_string_wire(s) == input.take(n) && n
            == spec_string_encoded_length(s) && encode_utf8(s).len() <= MAX_STRING_BYTES,
{
    if let Ok((s, n)) = spec_decode_string(input) {
        vstd::utf8::decode_utf8_encode_utf8(input.subrange(2, n));
        assert(spec_string_wire(s) =~= input.take(n));
    }
}

} // verus!
