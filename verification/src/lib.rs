//! MQTT v3.1.1 wire-format codec: typed control packets with byte-exact
//! encoders and decoders, each stated against a mathematical model of the
//! wire format and proved to agree with it.

use vstd::prelude::*;

pub mod control;
pub mod encodable;
pub mod packet;
pub mod qos;
pub mod reader;
pub mod topic_filter;
pub mod topic_name;

pub use self::qos::QualityOfService;
pub use self::reader::{ByteReader, IoErrorKind};
pub use self::topic_filter::{TopicFilter, TopicFilterError};
pub use self::topic_name::{TopicName, TopicNameError};

verus! {

/// A value that can be written to a byte sink.
pub trait Encodable {
    /// Why a value may refuse to be written.
    type Error;

    /// The bytes that stand for the value.
    spec fn spec_wire(&self) -> Seq<u8>;

    /// Why the value cannot be written, if it cannot.
    spec fn spec_encode_error(&self) -> Option<Self::Error>;

    /// Appends the bytes of the value to `out`, or says why it cannot be
    /// written and leaves `out` as it was.
    fn encode(&self, out: &mut Vec<u8>) -> (r: Result<(), Self::Error>)
        ensures
            match self.spec_encode_error() {
                None => r is Ok && final(out)@ == old(out)@ + self.spec_wire(),
                Some(e) => r is Err && r->Err_0 == e && final(out)@ == old(out)@,
            },
    ;

    /// Number of bytes that `encode` appends.
    fn encoded_length(&self) -> (n: u32)
        ensures
            n == self.spec_wire().len(),
    ;
}

/// A value that can be read from a byte source.
pub trait Decodable: Sized + View {
    /// Why the bytes may be refused.
    type Error;

    /// What a caller may have read ahead of the value.
    type Cond;

    /// The value at the front of `input` and the number of bytes it takes.
    spec fn spec_decode_with(input: Seq<u8>, cond: Option<Self::Cond>) -> Result<
        (Self::V, int),
        Self::Error,
    >;

    /// Reads a value, given what was read ahead of it. A failure consumes
    /// nothing.
    fn decode_with(reader: &mut ByteReader, cond: Option<Self::Cond>) -> (r: Result<
        Self,
        Self::Error,
    >)
        ensures
            match Self::spec_decode_with(old(reader).remaining(), cond) {
                Ok((v, n)) => r is Ok && r->Ok_0@ == v && final(reader).remaining()
                    == old(reader).remaining().skip(n),
                Err(e) => r is Err && r->Err_0 == e && final(reader).remaining()
                    == old(reader).remaining(),
            },
    ;

    /// Reads a value with nothing read ahead of it. A failure consumes
    /// nothing.
    fn decode(reader: &mut ByteReader) -> (r: Result<Self, Self::Error>)
        ensures
            match Self::spec_decode_with(old(reader).remaining(), None) {
                Ok((v, n)) => r is Ok && r->Ok_0@ == v && final(reader).remaining()
                    == old(reader).remaining().skip(n),
                Err(e) => r is Err && r->Err_0 == e && final(reader).remaining()
                    == old(reader).remaining(),
            },
    {
        Self::decode_with(reader, None)
    }
}

} // verus!
