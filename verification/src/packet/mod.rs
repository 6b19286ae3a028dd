//! The typed packets and their uniform coding.

use crate::control::fixed_header::{lemma_fixed_header_prefix, lemma_fixed_header_roundtrip};
use crate::control::variable_header::{PacketIdentifier, VariableHeaderError};
use crate::control::{ControlType, FixedHeader, FixedHeaderError};
use crate::encodable::StringEncodeError;
use crate::reader::{ByteReader, IoErrorKind};
use crate::{Decodable, Encodable};
use crate::topic_filter::TopicFilterError;
use crate::topic_name::TopicNameError;
use vstd::prelude::*;
use vstd::std_specs::convert::FromSpecImpl;

pub mod connack;
pub mod connect;
pub mod disconnect;
pub mod pingreq;
pub mod pingresp;
pub mod puback;
pub mod pubcomp;
pub mod publish;
pub mod pubrec;
pub mod pubrel;
pub mod suback;
pub mod subscribe;
pub mod unsuback;
pub mod unsubscribe;
pub mod variable;

pub use self::connack::ConnackPacket;
pub use self::connect::ConnectPacket;
pub use self::disconnect::DisconnectPacket;
pub use self::pingreq::PingreqPacket;
pub use self::pingresp::PingrespPacket;
pub use self::puback::PubackPacket;
pub use self::pubcomp::PubcompPacket;
pub use self::publish::{PublishPacket, QoSWithPacketIdentifier};
pub use self::pubrec::PubrecPacket;
pub use self::pubrel::PubrelPacket;
pub use self::suback::{SubackPacket, SubscribeReturnCode};
pub use self::subscribe::SubscribePacket;
pub use self::unsuback::UnsubackPacket;
pub use self::unsubscribe::UnsubscribePacket;
pub use self::variable::{VariablePacket, VariablePacketError};

verus! {

/// What makes a packet malformed as a whole.
#[derive(Debug, Clone, Copy, PartialEq, Eq, Structural)]
pub enum MalformedReason {
    /// The fixed header belongs to another kind of packet.
    UnexpectedControlType,
    /// The flags of the fixed header are not those of this kind of packet.
    UnexpectedFlags,
    /// The body goes on after the packet is complete.
    TrailingBytes,
}

/// Errors of the payload of a packet.
#[derive(Debug, Clone, Copy, PartialEq, Eq, Structural)]
pub enum PayloadError {
    /// A string of the payload is not valid UTF-8, or too long to be written.
    StringEncodeError(StringEncodeError),
    /// A topic of the payload is no topic name.
    TopicNameError(TopicNameError),
    /// A topic of the payload is no topic filter.
    TopicFilterError(TopicFilterError),
    /// A byte that is no quality of service stands where one is expected.
    InvalidQualityOfService(u8),
    /// A byte that is no subscribe return code stands where one is expected.
    InvalidSubscribeReturnCode(u8),
    /// The payload names no topic at all.
    NoTopics,
}

/// Errors while coding a packet.
#[derive(Debug, Clone, Copy, PartialEq, Eq, Structural)]
pub enum PacketError {
    /// The fixed header could not be read.
    FixedHeaderError(FixedHeaderError),
    /// A variable header is wrong.
    VariableHeaderError(VariableHeaderError),
    /// The payload is wrong.
    PayloadError(PayloadError),
    /// The packet as a whole is wrong.
    MalformedPacket(MalformedReason),
    /// A string is not valid UTF-8, or too long to be written.
    StringEncodeError(StringEncodeError),
    /// The source ended inside the packet.
    IoError(IoErrorKind),
    /// A topic is no topic name.
    TopicNameError(TopicNameError),
}

impl PayloadError {
    /// A string error of the payload as a packet error: an unfinished read
    /// stays an unfinished read, anything else is wrapped.
    pub open spec fn spec_from_string_error(e: StringEncodeError) -> PacketError {
        match e {
            StringEncodeError::IoError(k) => PacketError::IoError(k),
            _ => PacketError::PayloadError(PayloadError::StringEncodeError(e)),
        }
    }

    /// A topic-name error of the payload as a packet error.
    pub open spec fn spec_from_topic_name_error(e: TopicNameError) -> PacketError {
        match e {
            TopicNameError::StringEncodeError(StringEncodeError::IoError(k)) => {
                PacketError::IoError(k)
            },
            _ => PacketError::PayloadError(PayloadError::TopicNameError(e)),
        }
    }

    /// A topic-filter error of the payload as a packet error.
    pub open spec fn spec_from_topic_filter_error(e: TopicFilterError) -> PacketError {
        match e {
            TopicFilterError::StringEncodeError(StringEncodeError::IoError(k)) => {
                PacketError::IoError(k)
            },
            _ => PacketError::PayloadError(PayloadError::TopicFilterError(e)),
        }
    }

    /// A string error of the payload as a packet error.
    pub fn from_string_error(e: StringEncodeError) -> (r: PacketError)
        ensures
            r == Self::spec_from_string_error(e),
    {
        match e {
            StringEncodeError::IoError(k) => PacketError::IoError(k),
            _ => PacketError::PayloadError(PayloadError::StringEncodeError(e)),
        }
    }

    /// A topic-name error of the payload as a packet error.
    pub fn from_topic_name_error(e: TopicNameError) -> (r: PacketError)
        ensures
            r == Self::spec_from_topic_name_error(e),
    {
        match e {
            TopicNameError::StringEncodeError(StringEncodeError::IoError(k)) => {
                PacketError::IoError(k)
            },
            _ => PacketError::PayloadError(PayloadError::TopicNameError(e)),
        }
    }

    /// A topic-filter error of the payload as a packet error.
    pub fn from_topic_filter_error(e: TopicFilterError) -> (r: PacketError)
        ensures
            r == Self::spec_from_topic_filter_error(e),
    {
        match e {
            TopicFilterError::StringEncodeError(StringEncodeError::IoError(k)) => {
                PacketError::IoError(k)
            },
            _ => PacketError::PayloadError(PayloadError::TopicFilterError(e)),
        }
    }
}

impl PacketError {
    /// A fixed-header error as a packet error: an unfinished read stays an
    /// unfinished read, anything else is wrapped.
    pub open spec fn spec_from_fixed_header_error(e: FixedHeaderError) -> PacketError {
        match e {
            FixedHeaderError::IoError(k) => PacketError::IoError(k),
            _ => PacketError::FixedHeaderError(e),
        }
    }

    /// A variable-header error as a packet error: an unfinished read stays an
    /// unfinished read, anything else is wrapped.
    pub open spec fn spec_from_variable_header_error(e: VariableHeaderError) -> PacketError {
        match e {
            VariableHeaderError::IoError(k) => PacketError::IoError(k),
            _ => PacketError::VariableHeaderError(e),
        }
    }

    /// A string error as a packet error: an unfinished read stays an
    /// unfinished read, anything else is wrapped.
    pub open spec fn spec_from_string_error(e: StringEncodeError) -> PacketError {
        match e {
            StringEncodeError::IoError(k) => PacketError::IoError(k),
            _ => PacketError::StringEncodeError(e),
        }
    }

    /// A topic-name error as a packet error: an unfinished read stays an
    /// unfinished read, anything else is wrapped.
    pub open spec fn spec_from_topic_name_error(e: TopicNameError) -> PacketError {
        match e {
            TopicNameError::StringEncodeError(StringEncodeError::IoError(k)) => {
                PacketError::IoError(k)
            },
            _ => PacketError::TopicNameError(e),
        }
    }

    /// A fixed-header error as a packet error.
    pub fn from_fixed_header_error(e: FixedHeaderError) -> (r: PacketError)
        ensures
            r == Self::spec_from_fixed_header_error(e),
    {
        match e {
            FixedHeaderError::IoError(k) => PacketError::IoError(k),
            _ => PacketError::FixedHeaderError(e),
        }
    }

    /// A variable-header error as a packet error.
    pub fn from_variable_header_error(e: VariableHeaderError) -> (r: PacketError)
        ensures
            r == Self::spec_from_variable_header_error(e),
    {
        match e {
            VariableHeaderError::IoError(k) => PacketError::IoError(k),
            _ => PacketError::VariableHeaderError(e),
        }
    }

    /// The text that describes the error.
    pub open spec fn spec_description(self) -> Seq<char> {
        match self {
            PacketError::FixedHeaderError(_) => "invalid fixed header"@,
            PacketError::VariableHeaderError(e) => e.spec_description(),
            PacketError::PayloadError(_) => "invalid payload"@,
            PacketError::MalformedPacket(MalformedReason::UnexpectedControlType) => {
                "unexpected control type"@
            },
            PacketError::MalformedPacket(MalformedReason::UnexpectedFlags) => "unexpected flags"@,
            PacketError::MalformedPacket(MalformedReason::TrailingBytes) => {
                "bytes left over after the packet"@
            },
            PacketError::StringEncodeError(StringEncodeError::Utf8) => "string is not valid UTF-8"@,
            PacketError::StringEncodeError(StringEncodeError::TooLong) => {
                "string is longer than 65535 bytes"@
            },
            PacketError::StringEncodeError(StringEncodeError::IoError(_)) => {
                "unexpected end of input"@
            },
            PacketError::IoError(_) => "unexpected end of input"@,
            PacketError::TopicNameError(_) => "invalid topic name"@,
        }
    }

    /// The text that describes the error.
    pub fn description(&self) -> (r: &'static str)
        ensures
            r@ == self.spec_description(),
    {
        match self {
            PacketError::FixedHeaderError(_) => "invalid fixed header",
            PacketError::VariableHeaderError(e) => e.description(),
            PacketError::PayloadError(_) => "invalid payload",
            PacketError::MalformedPacket(MalformedReason::UnexpectedControlType) => {
                "unexpected control type"
            },
            PacketError::MalformedPacket(MalformedReason::UnexpectedFlags) => "unexpected flags",
            PacketError::MalformedPacket(MalformedReason::TrailingBytes) => {
                "bytes left over after the packet"
            },
            PacketError::StringEncodeError(StringEncodeError::Utf8) => "string is not valid UTF-8",
            PacketError::StringEncodeError(StringEncodeError::TooLong) => {
                "string is longer than 65535 bytes"
            },
            PacketError::StringEncodeError(StringEncodeError::IoError(_)) => {
                "unexpected end of input"
            },
            PacketError::IoError(_) => "unexpected end of input",
            PacketError::TopicNameError(_) => "invalid topic name",
        }
    }
}

impl From<FixedHeaderError> for PacketError {
    fn from(err: FixedHeaderError) -> (r: PacketError) {
        match err {
            FixedHeaderError::IoError(k) => PacketError::IoError(k),
            _ => PacketError::FixedHeaderError(err),
        }
    }
}

impl FromSpecImpl<FixedHeaderError> for PacketError {
    open spec fn obeys_from_spec() -> bool {
        true
    }

    open spec fn from_spec(err: FixedHeaderError) -> PacketError {
        PacketError::spec_from_fixed_header_error(err)
    }
}

impl From<VariableHeaderError> for PacketError {
    fn from(err: VariableHeaderError) -> (r: PacketError) {
        match err {
            VariableHeaderError::IoError(k) => PacketError::IoError(k),
            _ => PacketError::VariableHeaderError(err),
        }
    }
}

impl FromSpecImpl<VariableHeaderError> for PacketError {
    open spec fn obeys_from_spec() -> bool {
        true
    }

    open spec fn from_spec(err: VariableHeaderError) -> PacketError {
        PacketError::spec_from_variable_header_error(err)
    }
}

impl From<StringEncodeError> for PacketError {
    fn from(err: StringEncodeError) -> (r: PacketError) {
        match err {
            StringEncodeError::IoError(k) => PacketError::IoError(k),
            _ => PacketError::StringEncodeError(err),
        }
    }
}

impl FromSpecImpl<StringEncodeError> for PacketError {
    open spec fn obeys_from_spec() -> bool {
        true
    }

    open spec fn from_spec(err: StringEncodeError) -> PacketError {
        PacketError::spec_from_string_error(err)
    }
}

impl From<IoErrorKind> for PacketError {
    fn from(err: IoErrorKind) -> (r: PacketError) {
        PacketError::IoError(err)
    }
}

impl FromSpecImpl<IoErrorKind> for PacketError {
    open spec fn obeys_from_spec() -> bool {
        true
    }

    open spec fn from_spec(err: IoErrorKind) -> PacketError {
        PacketError::IoError(err)
    }
}

impl From<TopicNameError> for PacketError {
    fn from(err: TopicNameError) -> (r: PacketError) {
        match err {
            TopicNameError::StringEncodeError(StringEncodeError::IoError(k)) => {
                PacketError::IoError(k)
            },
            _ => PacketError::TopicNameError(err),
        }
    }
}

impl FromSpecImpl<TopicNameError> for PacketError {
    open spec fn obeys_from_spec() -> bool {
        true
    }

    open spec fn from_spec(err: TopicNameError) -> PacketError {
        PacketError::spec_from_topic_name_error(err)
    }
}

/// What is wrong with `fixed_header` as the header of a packet of type
/// `control_type` that is no PUBLISH, if anything.
pub open spec fn spec_header_error(control_type: ControlType, fixed_header: FixedHeader) -> Option<
    PacketError,
> {
    if fixed_header.packet_type.control_type != control_type {
        Some(PacketError::MalformedPacket(MalformedReason::UnexpectedControlType))
    } else if fixed_header.packet_type.flags != control_type.spec_default_flags() {
        Some(PacketError::MalformedPacket(MalformedReason::UnexpectedFlags))
    } else {
        None
    }
}

/// Says what is wrong with `fixed_header` as the header of a packet of type
/// `control_type` that is no PUBLISH: `Ok` when nothing is.
pub fn check_header(control_type: ControlType, fixed_header: &FixedHeader) -> (r: Result<
    (),
    PacketError,
>)
    ensures
        match spec_header_error(control_type, *fixed_header) {
            Some(e) => r == Err::<(), PacketError>(e),
            None => r is Ok,
        },
{
    if fixed_header.packet_type.control_type.to_u8() != control_type.to_u8() {
        Err(PacketError::MalformedPacket(MalformedReason::UnexpectedControlType))
    } else if fixed_header.packet_type.flags != control_type.default_flags() {
        Err(PacketError::MalformedPacket(MalformedReason::UnexpectedFlags))
    } else {
        Ok(())
    }
}

/// What a typed packet offers: its parts, and how its body is coded. The
/// coding of the whole packet follows from these in the same way for every
/// kind: see the impls of [`Encodable`] and [`Decodable`] for packets.
pub trait Packet: Sized + View {
    /// What the packet carries after its variable headers.
    type Payload;

    /// The control type of this kind of packet.
    spec fn spec_control_type() -> ControlType;

    /// What holds of every packet of this kind.
    spec fn spec_valid(v: Self::V) -> bool;

    /// The fixed header.
    spec fn spec_fixed_header(v: Self::V) -> FixedHeader;

    /// The bytes of the variable headers.
    spec fn spec_variable_headers(v: Self::V) -> Seq<u8>;

    /// Why the variable headers cannot be written, if they cannot.
    spec fn spec_variable_headers_error(v: Self::V) -> Option<PacketError>;

    /// The bytes of the payload.
    spec fn spec_payload(v: Self::V) -> Seq<u8>;

    /// Why the payload cannot be written, if it cannot.
    spec fn spec_payload_error(v: Self::V) -> Option<PacketError>;

    /// The bytes that a payload stands for.
    spec fn spec_payload_wire(payload: &Self::Payload) -> Seq<u8>;

    /// The packet that the bytes after the fixed header hold.
    spec fn spec_decode_body(fixed_header: FixedHeader, body: Seq<u8>) -> Result<
        Self::V,
        PacketError,
    >;

    /// The fixed header of the packet.
    fn fixed_header(&self) -> (r: &FixedHeader)
        ensures
            *r == Self::spec_fixed_header(self@),
            Self::spec_valid(self@),
    ;

    /// The payload of the packet.
    fn payload(self) -> (r: Self::Payload)
        ensures
            Self::spec_payload_wire(&r) == Self::spec_payload(self@),
    ;

    /// The payload of the packet, borrowed.
    fn payload_ref(&self) -> (r: &Self::Payload)
        ensures
            Self::spec_payload_wire(r) == Self::spec_payload(self@),
    ;

    /// Appends the variable headers, or says why they cannot be written and
    /// leaves `out` as it was.
    fn encode_variable_headers(&self, out: &mut Vec<u8>) -> (r: Result<(), PacketError>)
        ensures
            match Self::spec_variable_headers_error(self@) {
                None => r is Ok && final(out)@ == old(out)@ + Self::spec_variable_headers(self@),
                Some(e) => r == Err::<(), PacketError>(e) && final(out)@ == old(out)@,
            },
    ;

    /// Number of bytes of the variable headers.
    fn encoded_variable_headers_length(&self) -> (n: u32)
        ensures
            n == Self::spec_variable_headers(self@).len(),
    ;

    /// Appends the payload, or says why it cannot be written and leaves
    /// `out` as it was.
    fn encode_payload(&self, out: &mut Vec<u8>) -> (r: Result<(), PacketError>)
        ensures
            match Self::spec_payload_error(self@) {
                None => r is Ok && final(out)@ == old(out)@ + Self::spec_payload(self@),
                Some(e) => r == Err::<(), PacketError>(e) && final(out)@ == old(out)@,
            },
    ;

    /// Number of bytes of the payload.
    fn encoded_payload_length(&self) -> (n: u32)
        ensures
            n == Self::spec_payload(self@).len(),
    ;

    /// Reads a packet from the bytes that follow its fixed header, all of
    /// which `body` holds.
    fn decode_body(body: ByteReader, fixed_header: FixedHeader) -> (r: Result<Self, PacketError>)
        requires
            body.remaining().len() == fixed_header.remaining_length,
        ensures
            match Self::spec_decode_body(fixed_header, body.remaining()) {
                Ok(v) => r is Ok && r->Ok_0@ == v,
                Err(e) => r is Err && r->Err_0 == e,
            },
    ;

    /// The fixed header of a packet is valid, has the control type of the
    /// packet's kind, and its remaining length is the number of bytes of the
    /// variable headers and the payload.
    proof fn lemma_remaining_length(v: Self::V)
        requires
            Self::spec_valid(v),
        ensures
            Self::spec_fixed_header(v).valid(),
            Self::spec_fixed_header(v).packet_type.control_type == Self::spec_control_type(),
            Self::spec_fixed_header(v).remaining_length == Self::spec_variable_headers(v).len()
                + Self::spec_payload(v).len(),
    ;

    /// A packet that was read from a body of the announced length holds
    /// the fixed header it was read under, is valid, and can be written.
    proof fn lemma_decoded_valid(fixed_header: FixedHeader, body: Seq<u8>)
        requires
            body.len() == fixed_header.remaining_length,
        ensures
            Self::spec_decode_body(fixed_header, body) matches Ok(v) ==> Self::spec_valid(v)
                && Self::spec_fixed_header(v) == fixed_header
                && Self::spec_variable_headers_error(v) is None && Self::spec_payload_error(v)
                is None,
    ;

    /// A packet that can be written is read back from its body.
    proof fn lemma_body_roundtrip(v: Self::V)
        requires
            Self::spec_valid(v),
            Self::spec_variable_headers_error(v) is None,
            Self::spec_payload_error(v) is None,
        ensures
            Self::spec_decode_body(
                Self::spec_fixed_header(v),
                Self::spec_variable_headers(v) + Self::spec_payload(v),
            ) == Ok::<Self::V, PacketError>(v),
    ;
}

/// The bytes of a packet: fixed header, variable headers, payload.
pub open spec fn spec_wire<T: Packet>(v: T::V) -> Seq<u8> {
    T::spec_fixed_header(v).spec_wire() + T::spec_variable_headers(v) + T::spec_payload(v)
}

/// Why a packet cannot be written, if it cannot: what is wrong with its
/// variable headers, else what is wrong with its payload.
pub open spec fn spec_encode_error<T: Packet>(v: T::V) -> Option<PacketError> {
    match T::spec_variable_headers_error(v) {
        Some(e) => Some(e),
        None => T::spec_payload_error(v),
    }
}

/// Reading the body of a packet from the front of `input`: the source must
/// hold all of the `remaining_length` bytes that the fixed header announces.
pub open spec fn spec_decode_packet<T: Packet>(fixed_header: FixedHeader, input: Seq<u8>) -> Result<
    T::V,
    PacketError,
> {
    if input.len() < fixed_header.remaining_length {
        Err(PacketError::IoError(IoErrorKind::UnexpectedEof))
    } else {
        T::spec_decode_body(fixed_header, input.take(fixed_header.remaining_length as int))
    }
}

/// Reading a packet from the front of `input`, fixed header first unless
/// one is given. The result holds the number of bytes read.
pub open spec fn spec_decode_with<T: Packet>(
    input: Seq<u8>,
    fixed_header: Option<FixedHeader>,
) -> Result<(T::V, int), PacketError> {
    match fixed_header {
        Some(h) => match spec_decode_packet::<T>(h, input) {
            Ok(v) => Ok((v, h.remaining_length as int)),
            Err(e) => Err(e),
        },
        None => match FixedHeader::spec_decode(input) {
            Err(e) => Err(PacketError::spec_from_fixed_header_error(e)),
            Ok((h, n)) => match spec_decode_packet::<T>(h, input.skip(n)) {
                Ok(v) => Ok((v, n + h.remaining_length)),
                Err(e) => Err(e),
            },
        },
    }
}

/// Reading a packet from the front of `input`, fixed header first.
pub open spec fn spec_decode<T: Packet>(input: Seq<u8>) -> Result<(T::V, int), PacketError> {
    spec_decode_with::<T>(input, None)
}

/// Reads the body of a packet whose fixed header was read already: the next
/// `remaining_length` bytes, no more and no less. A failure consumes nothing.
pub fn decode_packet<T: Packet>(reader: &mut ByteReader, fixed_header: FixedHeader) -> (r: Result<
    T,
    PacketError,
>)
    ensures
        match spec_decode_packet::<T>(fixed_header, old(reader).remaining()) {
            Ok(v) => r is Ok && r->Ok_0@ == v && final(reader).remaining()
                == old(reader).remaining().skip(fixed_header.remaining_length as int),
            Err(e) => r is Err && r->Err_0 == e && final(reader).remaining()
                == old(reader).remaining(),
        },
{
    let mut cur = reader.fork();
    let body = match cur.take(fixed_header.remaining_length as usize) {
        Ok(b) => b,
        Err(e) => {
            return Err(PacketError::IoError(e));
        },
    };
    match T::decode_body(body, fixed_header) {
        Ok(p) => {
            reader.advance_to(cur);
            Ok(p)
        },
        Err(e) => Err(e),
    }
}

impl<T: Packet> Encodable for T {
    type Error = PacketError;

    open spec fn spec_wire(&self) -> Seq<u8> {
        spec_wire::<T>(self@)
    }

    open spec fn spec_encode_error(&self) -> Option<PacketError> {
        spec_encode_error::<T>(self@)
    }

    /// Appends the packet: fixed header, variable headers, payload.
    fn encode(&self, out: &mut Vec<u8>) -> (r: Result<(), PacketError>) {
        let start = out.len();
        let header = self.fixed_header();
        proof {
            T::lemma_remaining_length(self@);
        }
        header.encode(out);
        match self.encode_variable_headers(out) {
            Ok(()) => {},
            Err(e) => {
                out.truncate(start);
                assert(out@ =~= old(out)@);
                return Err(e);
            },
        }
        match self.encode_payload(out) {
            Ok(()) => {},
            Err(e) => {
                out.truncate(start);
                assert(out@ =~= old(out)@);
                return Err(e);
            },
        }
        assert(out@ =~= old(out)@ + spec_wire::<T>(self@));
        Ok(())
    }

    /// Number of bytes of the packet: those of the fixed header, of the
    /// variable headers and of the payload.
    fn encoded_length(&self) -> (n: u32) {
        let header = self.fixed_header();
        proof {
            T::lemma_remaining_length(self@);
        }
        header.encoded_length() + self.encoded_variable_headers_length()
            + self.encoded_payload_length()
    }
}

impl<T: Packet> Decodable for T {
    type Error = PacketError;

    type Cond = FixedHeader;

    open spec fn spec_decode_with(input: Seq<u8>, fixed_header: Option<FixedHeader>) -> Result<
        (T::V, int),
        PacketError,
    > {
        spec_decode_with::<T>(input, fixed_header)
    }

    /// Reads a packet. With `fixed_header` given, the source stands at the
    /// body; without, at the fixed header.
    fn decode_with(reader: &mut ByteReader, fixed_header: Option<FixedHeader>) -> (r: Result<
        Self,
        PacketError,
    >) {
        let ghost input = reader.remaining();
        let mut cur = reader.fork();
        let header = match fixed_header {
            Some(h) => {
                proof {
                    assert(input.skip(0) =~= input);
                }
                h
            },
            None => match FixedHeader::decode(&mut cur) {
                Ok(h) => h,
                Err(e) => {
                    return Err(PacketError::from_fixed_header_error(e));
                },
            },
        };
        match decode_packet::<T>(&mut cur, header) {
            Ok(p) => {
                proof {
                    let n = if fixed_header is Some {
                        0
                    } else {
                        FixedHeader::spec_consumed(input)
                    };
                    assert(input.skip(n).skip(header.remaining_length as int) =~= input.skip(
                        n + header.remaining_length,
                    ));
                }
                reader.advance_to(cur);
                Ok(p)
            },
            Err(e) => Err(e),
        }
    }
}

/// Decoding inverts encoding: a packet that can be written is read back
/// from its bytes, whatever follows them.
pub proof fn lemma_packet_roundtrip<T: Packet>(v: T::V, rest: Seq<u8>)
    requires
        T::spec_valid(v),
        spec_encode_error::<T>(v) is None,
    ensures
        spec_decode::<T>(spec_wire::<T>(v) + rest) == Ok::<(T::V, int), PacketError>(
            (v, spec_wire::<T>(v).len() as int),
        ),
{
    let h = T::spec_fixed_header(v);
    let body = T::spec_variable_headers(v) + T::spec_payload(v);
    let input = spec_wire::<T>(v) + rest;
    T::lemma_remaining_length(v);
    T::lemma_body_roundtrip(v);
    assert(input =~= h.spec_wire() + (body + rest));
    lemma_fixed_header_roundtrip(h, body + rest);
    assert((body + rest).take(h.remaining_length as int) =~= body);
}

/// The number of bytes of a packet is that of its fixed header plus the
/// remaining length that the header announces.
pub proof fn lemma_packet_length<T: Packet>(v: T::V)
    requires
        T::spec_valid(v),
    ensures
        spec_wire::<T>(v).len() == T::spec_fixed_header(v).spec_encoded_length()
            + T::spec_fixed_header(v).remaining_length,
{
    let h = T::spec_fixed_header(v);
    T::lemma_remaining_length(v);
    lemma_fixed_header_roundtrip(h, Seq::empty());
}

/// Cut short anywhere, the bytes of a packet are an unfinished read.
pub proof fn lemma_packet_short_read<T: Packet>(v: T::V, k: int)
    requires
        T::spec_valid(v),
        0 <= k < spec_wire::<T>(v).len(),
    ensures
        spec_decode::<T>(spec_wire::<T>(v).take(k)) == Err::<(T::V, int), PacketError>(
            PacketError::IoError(IoErrorKind::UnexpectedEof),
        ),
{
    let h = T::spec_fixed_header(v);
    let body = T::spec_variable_headers(v) + T::spec_payload(v);
    let wire = spec_wire::<T>(v);
    let n = h.spec_encoded_length();
    T::lemma_remaining_length(v);
    lemma_fixed_header_roundtrip(h, Seq::empty());
    assert(wire =~= h.spec_wire() + body);
    if k < n {
        lemma_fixed_header_prefix(h, k);
        assert(wire.take(k) =~= h.spec_wire().take(k));
    } else {
        let part = body.take(k - n);
        assert(wire.take(k) =~= h.spec_wire() + part);
        lemma_fixed_header_roundtrip(h, part);
    }
}

/// The model of a packet that carries a packet identifier and nothing else.
pub struct IdentifierPacketView {
    /// The fixed header.
    pub fixed_header: FixedHeader,
    /// The packet identifier.
    pub packet_identifier: u16,
}

/// The packet of type `control_type` that `body` holds, where packets of
/// that type carry a packet identifier and nothing else.
pub open spec fn spec_decode_identifier_body(
    control_type: ControlType,
    fixed_header: FixedHeader,
    body: Seq<u8>,
) -> Result<IdentifierPacketView, PacketError> {
    match spec_header_error(control_type, fixed_header) {
        Some(e) => Err(e),
        None => match PacketIdentifier::spec_decode(body) {
            Err(e) => Err(PacketError::spec_from_variable_header_error(e)),
            Ok((id, n)) => if body.len() != n {
                Err(PacketError::MalformedPacket(MalformedReason::TrailingBytes))
            } else {
                Ok(IdentifierPacketView { fixed_header, packet_identifier: id.0 })
            },
        },
    }
}

/// What holds of a packet of type `control_type` that carries a packet
/// identifier and nothing else.
pub open spec fn spec_identifier_packet_valid(
    control_type: ControlType,
    v: IdentifierPacketView,
) -> bool {
    &&& v.fixed_header.packet_type.control_type == control_type
    &&& v.fixed_header.packet_type.flags == control_type.spec_default_flags()
    &&& v.fixed_header.remaining_length == 2
}

/// Reads the body of a packet of type `control_type` that carries a packet
/// identifier and nothing else.
pub fn decode_identifier_body(
    control_type: ControlType,
    body: ByteReader,
    fixed_header: FixedHeader,
) -> (r: Result<PacketIdentifier, PacketError>)
    requires
        body.remaining().len() == fixed_header.remaining_length,
    ensures
        match spec_decode_identifier_body(control_type, fixed_header, body.remaining()) {
            Ok(v) => r is Ok && r->Ok_0.0 == v.packet_identifier && v.fixed_header == fixed_header
                && spec_identifier_packet_valid(control_type, v),
            Err(e) => r is Err && r->Err_0 == e,
        },
{
    let mut body = body;
    match check_header(control_type, &fixed_header) {
        Ok(()) => {},
        Err(e) => {
            return Err(e);
        },
    }
    let id = match PacketIdentifier::decode(&mut body) {
        Ok(id) => id,
        Err(e) => {
            return Err(PacketError::from_variable_header_error(e));
        },
    };
    if body.remaining_len() != 0 {
        return Err(PacketError::MalformedPacket(MalformedReason::TrailingBytes));
    }
    Ok(id)
}

/// A valid packet that carries a packet identifier and nothing else is read
/// back from the two bytes of the identifier.
pub proof fn lemma_identifier_body_roundtrip(control_type: ControlType, v: IdentifierPacketView)
    requires
        spec_identifier_packet_valid(control_type, v),
    ensures
        spec_decode_identifier_body(
            control_type,
            v.fixed_header,
            PacketIdentifier(v.packet_identifier).spec_wire(),
        ) == Ok::<IdentifierPacketView, PacketError>(v),
{
    crate::encodable::lemma_u16_roundtrip(v.packet_identifier, Seq::empty());
    assert(PacketIdentifier(v.packet_identifier).spec_wire() + Seq::<u8>::empty()
        =~= PacketIdentifier(v.packet_identifier).spec_wire());
}

/// The model of a packet that is a fixed header and nothing else.
pub struct EmptyPacketView {
    /// The fixed header.
    pub fixed_header: FixedHeader,
}

/// The packet of type `control_type` that `body` holds, where packets of
/// that type have no body.
pub open spec fn spec_decode_empty_body(
    control_type: ControlType,
    fixed_header: FixedHeader,
    body: Seq<u8>,
) -> Result<EmptyPacketView, PacketError> {
    match spec_header_error(control_type, fixed_header) {
        Some(e) => Err(e),
        None => if body.len() != 0 {
            Err(PacketError::MalformedPacket(MalformedReason::TrailingBytes))
        } else {
            Ok(EmptyPacketView { fixed_header })
        },
    }
}

/// What holds of a packet of type `control_type` that is a fixed header and
/// nothing else.
pub open spec fn spec_empty_packet_valid(control_type: ControlType, v: EmptyPacketView) -> bool {
    &&& v.fixed_header.packet_type.control_type == control_type
    &&& v.fixed_header.packet_type.flags == control_type.spec_default_flags()
    &&& v.fixed_header.remaining_length == 0
}

/// Reads the body of a packet of type `control_type` that has none.
pub fn decode_empty_body(control_type: ControlType, body: ByteReader,
    fixed_header: FixedHeader) -> (r:
    Result<(), PacketError>)
    requires
        body.remaining().len() == fixed_header.remaining_length,
    ensures
        match spec_decode_empty_body(control_type, fixed_header, body.remaining()) {
            Ok(v) => r is Ok && v.fixed_header == fixed_header && spec_empty_packet_valid(
                control_type,
                v,
            ),
            Err(e) => r is Err && r->Err_0 == e,
        },
{
    match check_header(control_type, &fixed_header) {
        Ok(()) => {},
        Err(e) => {
            return Err(e);
        },
    }
    if body.remaining_len() != 0 {
        return Err(PacketError::MalformedPacket(MalformedReason::TrailingBytes));
    }
    Ok(())
}

} // verus!
