//! The union of the fourteen packets, and the framed reading of a stream.

use crate::control::fixed_header::{
    lemma_fixed_header_prefix, lemma_fixed_header_roundtrip, lemma_varint_roundtrip,
    spec_varint_len, spec_varint_wire, HeaderProgress, MAX_REMAINING_LENGTH,
};
use crate::control::{ControlType, FixedHeader, FixedHeaderError};
use crate::encodable::encode_bytes;
use crate::packet::connack::ConnackPacketView;
use crate::packet::connect::ConnectPacketView;
use crate::packet::publish::PublishPacketView;
use crate::packet::suback::SubackPacketView;
use crate::packet::subscribe::SubscribePacketView;
use crate::packet::unsubscribe::UnsubscribePacketView;
use crate::packet::{
    decode_packet, spec_decode_packet,
    spec_encode_error, spec_wire, ConnackPacket, ConnectPacket, DisconnectPacket, EmptyPacketView,
    IdentifierPacketView, Packet, PacketError, PingreqPacket, PingrespPacket, PubackPacket,
    PubcompPacket, PublishPacket, PubrecPacket, PubrelPacket, SubackPacket, SubscribePacket,
    UnsubackPacket, UnsubscribePacket,
};
use crate::reader::{ByteReader, IoErrorKind};
use crate::Encodable;
use vstd::prelude::*;
use vstd::std_specs::convert::{FromSpec, FromSpecImpl};

verus! {

/// Any one of the fourteen packets.
#[derive(Debug, Eq, PartialEq)]
pub enum VariablePacket {
    /// A CONNECT.
    ConnectPacket(ConnectPacket),
    /// A CONNACK.
    ConnackPacket(ConnackPacket),
    /// A PUBLISH.
    PublishPacket(PublishPacket),
    /// A PUBACK.
    PubackPacket(PubackPacket),
    /// A PUBREC.
    PubrecPacket(PubrecPacket),
    /// A PUBREL.
    PubrelPacket(PubrelPacket),
    /// A PUBCOMP.
    PubcompPacket(PubcompPacket),
    /// A PINGREQ.
    PingreqPacket(PingreqPacket),
    /// A PINGRESP.
    PingrespPacket(PingrespPacket),
    /// A SUBSCRIBE.
    SubscribePacket(SubscribePacket),
    /// A SUBACK.
    SubackPacket(SubackPacket),
    /// An UNSUBSCRIBE.
    UnsubscribePacket(UnsubscribePacket),
    /// An UNSUBACK.
    UnsubackPacket(UnsubackPacket),
    /// A DISCONNECT.
    DisconnectPacket(DisconnectPacket),
}

/// The model of any one of the fourteen packets.
pub enum VariablePacketView {
    /// The model of a CONNECT.
    ConnectPacket(ConnectPacketView),
    /// The model of a CONNACK.
    ConnackPacket(ConnackPacketView),
    /// The model of a PUBLISH.
    PublishPacket(PublishPacketView),
    /// The model of a PUBACK.
    PubackPacket(IdentifierPacketView),
    /// The model of a PUBREC.
    PubrecPacket(IdentifierPacketView),
    /// The model of a PUBREL.
    PubrelPacket(IdentifierPacketView),
    /// The model of a PUBCOMP.
    PubcompPacket(IdentifierPacketView),
    /// The model of a PINGREQ.
    PingreqPacket(EmptyPacketView),
    /// The model of a PINGRESP.
    PingrespPacket(EmptyPacketView),
    /// The model of a SUBSCRIBE.
    SubscribePacket(SubscribePacketView),
    /// The model of a SUBACK.
    SubackPacket(SubackPacketView),
    /// The model of an UNSUBSCRIBE.
    UnsubscribePacket(UnsubscribePacketView),
    /// The model of an UNSUBACK.
    UnsubackPacket(IdentifierPacketView),
    /// The model of a DISCONNECT.
    DisconnectPacket(EmptyPacketView),
}

impl View for VariablePacket {
    type V = VariablePacketView;

    open spec fn view(&self) -> VariablePacketView {
        match self {
            VariablePacket::ConnectPacket(p) => VariablePacketView::ConnectPacket(p@),
            VariablePacket::ConnackPacket(p) => VariablePacketView::ConnackPacket(p@),
            VariablePacket::PublishPacket(p) => VariablePacketView::PublishPacket(p@),
            VariablePacket::PubackPacket(p) => VariablePacketView::PubackPacket(p@),
            VariablePacket::PubrecPacket(p) => VariablePacketView::PubrecPacket(p@),
            VariablePacket::PubrelPacket(p) => VariablePacketView::PubrelPacket(p@),
            VariablePacket::PubcompPacket(p) => VariablePacketView::PubcompPacket(p@),
            VariablePacket::PingreqPacket(p) => VariablePacketView::PingreqPacket(p@),
            VariablePacket::PingrespPacket(p) => VariablePacketView::PingrespPacket(p@),
            VariablePacket::SubscribePacket(p) => VariablePacketView::SubscribePacket(p@),
            VariablePacket::SubackPacket(p) => VariablePacketView::SubackPacket(p@),
            VariablePacket::UnsubscribePacket(p) => VariablePacketView::UnsubscribePacket(p@),
            VariablePacket::UnsubackPacket(p) => VariablePacketView::UnsubackPacket(p@),
            VariablePacket::DisconnectPacket(p) => VariablePacketView::DisconnectPacket(p@),
        }
    }
}

impl Clone for VariablePacket {
    fn clone(&self) -> (r: VariablePacket)
        ensures
            r@ == self@,
    {
        match self {
            VariablePacket::ConnectPacket(p) => VariablePacket::ConnectPacket(p.clone()),
            VariablePacket::ConnackPacket(p) => VariablePacket::ConnackPacket(p.clone()),
            VariablePacket::PublishPacket(p) => VariablePacket::PublishPacket(p.clone()),
            VariablePacket::PubackPacket(p) => VariablePacket::PubackPacket(p.clone()),
            VariablePacket::PubrecPacket(p) => VariablePacket::PubrecPacket(p.clone()),
            VariablePacket::PubrelPacket(p) => VariablePacket::PubrelPacket(p.clone()),
            VariablePacket::PubcompPacket(p) => VariablePacket::PubcompPacket(p.clone()),
            VariablePacket::PingreqPacket(p) => VariablePacket::PingreqPacket(p.clone()),
            VariablePacket::PingrespPacket(p) => VariablePacket::PingrespPacket(p.clone()),
            VariablePacket::SubscribePacket(p) => VariablePacket::SubscribePacket(p.clone()),
            VariablePacket::SubackPacket(p) => VariablePacket::SubackPacket(p.clone()),
            VariablePacket::UnsubscribePacket(p) => VariablePacket::UnsubscribePacket(p.clone()),
            VariablePacket::UnsubackPacket(p) => VariablePacket::UnsubackPacket(p.clone()),
            VariablePacket::DisconnectPacket(p) => VariablePacket::DisconnectPacket(p.clone()),
        }
    }
}

/// Errors while coding any one of the fourteen packets.
#[derive(Debug, Clone, PartialEq, Eq)]
pub enum VariablePacketError {
    /// The fixed header could not be read.
    FixedHeaderError(FixedHeaderError),
    /// A packet of unknown type: its code, and the bytes of its body.
    UnrecognizedPacket(u8, Vec<u8>),
    /// A packet of a reserved type: its code, and the bytes of its body.
    ReservedPacket(u8, Vec<u8>),
    /// The source ended inside the packet.
    IoError(IoErrorKind),
    /// A CONNECT is wrong.
    ConnectPacketError(PacketError),
    /// A CONNACK is wrong.
    ConnackPacketError(PacketError),
    /// A PUBLISH is wrong.
    PublishPacketError(PacketError),
    /// A PUBACK is wrong.
    PubackPacketError(PacketError),
    /// A PUBREC is wrong.
    PubrecPacketError(PacketError),
    /// A PUBREL is wrong.
    PubrelPacketError(PacketError),
    /// A PUBCOMP is wrong.
    PubcompPacketError(PacketError),
    /// A PINGREQ is wrong.
    PingreqPacketError(PacketError),
    /// A PINGRESP is wrong.
    PingrespPacketError(PacketError),
    /// A SUBSCRIBE is wrong.
    SubscribePacketError(PacketError),
    /// A SUBACK is wrong.
    SubackPacketError(PacketError),
    /// An UNSUBSCRIBE is wrong.
    UnsubscribePacketError(PacketError),
    /// An UNSUBACK is wrong.
    UnsubackPacketError(PacketError),
    /// A DISCONNECT is wrong.
    DisconnectPacketError(PacketError),
}

impl VariablePacketError {
    /// A fixed-header error as an error of the union: an unfinished read
    /// stays an unfinished read, anything else is wrapped.
    pub open spec fn spec_from_fixed_header_error(e: FixedHeaderError) -> VariablePacketError {
        match e {
            FixedHeaderError::IoError(k) => VariablePacketError::IoError(k),
            _ => VariablePacketError::FixedHeaderError(e),
        }
    }

    /// The error of a packet of type `control_type` as an error of the
    /// union: an unfinished read stays an unfinished read, anything else is
    /// wrapped under the name of the packet.
    pub open spec fn spec_from_packet_error(
        control_type: ControlType,
        e: PacketError,
    ) -> VariablePacketError {
        match e {
            PacketError::IoError(k) => VariablePacketError::IoError(k),
            _ => match control_type {
                ControlType::Connect => VariablePacketError::ConnectPacketError(e),
                ControlType::ConnectAcknowledgement => VariablePacketError::ConnackPacketError(e),
                ControlType::Publish => VariablePacketError::PublishPacketError(e),
                ControlType::PublishAcknowledgement => VariablePacketError::PubackPacketError(e),
                ControlType::PublishReceived => VariablePacketError::PubrecPacketError(e),
                ControlType::PublishRelease => VariablePacketError::PubrelPacketError(e),
                ControlType::PublishComplete => VariablePacketError::PubcompPacketError(e),
                ControlType::PingRequest => VariablePacketError::PingreqPacketError(e),
                ControlType::PingResponse => VariablePacketError::PingrespPacketError(e),
                ControlType::Subscribe => VariablePacketError::SubscribePacketError(e),
                ControlType::SubscribeAcknowledgement => VariablePacketError::SubackPacketError(e),
                ControlType::Unsubscribe => VariablePacketError::UnsubscribePacketError(e),
                ControlType::UnsubscribeAcknowledgement =>
                    VariablePacketError::UnsubackPacketError(e),
                ControlType::Disconnect => VariablePacketError::DisconnectPacketError(e),
            },
        }
    }

    /// A fixed-header error as an error of the union.
    pub fn from_fixed_header_error(e: FixedHeaderError) -> (r: VariablePacketError)
        ensures
            r == Self::spec_from_fixed_header_error(e),
    {
        match e {
            FixedHeaderError::IoError(k) => VariablePacketError::IoError(k),
            _ => VariablePacketError::FixedHeaderError(e),
        }
    }

    /// The error of a packet of type `control_type` as an error of the union.
    pub fn from_packet_error(control_type: ControlType, e: PacketError) -> (r: VariablePacketError)
        ensures
            r == Self::spec_from_packet_error(control_type, e),
    {
        match e {
            PacketError::IoError(k) => VariablePacketError::IoError(k),
            _ => match control_type {
                ControlType::Connect => VariablePacketError::ConnectPacketError(e),
                ControlType::ConnectAcknowledgement => VariablePacketError::ConnackPacketError(e),
                ControlType::Publish => VariablePacketError::PublishPacketError(e),
                ControlType::PublishAcknowledgement => VariablePacketError::PubackPacketError(e),
                ControlType::PublishReceived => VariablePacketError::PubrecPacketError(e),
                ControlType::PublishRelease => VariablePacketError::PubrelPacketError(e),
                ControlType::PublishComplete => VariablePacketError::PubcompPacketError(e),
                ControlType::PingRequest => VariablePacketError::PingreqPacketError(e),
                ControlType::PingResponse => VariablePacketError::PingrespPacketError(e),
                ControlType::Subscribe => VariablePacketError::SubscribePacketError(e),
                ControlType::SubscribeAcknowledgement => VariablePacketError::SubackPacketError(e),
                ControlType::Unsubscribe => VariablePacketError::UnsubscribePacketError(e),
                ControlType::UnsubscribeAcknowledgement =>
                    VariablePacketError::UnsubackPacketError(e),
                ControlType::Disconnect => VariablePacketError::DisconnectPacketError(e),
            },
        }
    }

    /// The text that describes the error.
    pub open spec fn spec_description(&self) -> Seq<char> {
        match self {
            VariablePacketError::FixedHeaderError(_) => "invalid fixed header"@,
            VariablePacketError::UnrecognizedPacket(_, _) => "Unrecognized packet"@,
            VariablePacketError::ReservedPacket(_, _) => "Reserved packet"@,
            VariablePacketError::IoError(_) => "unexpected end of input"@,
            VariablePacketError::ConnectPacketError(e) => e.spec_description(),
            VariablePacketError::ConnackPacketError(e) => e.spec_description(),
            VariablePacketError::PublishPacketError(e) => e.spec_description(),
            VariablePacketError::PubackPacketError(e) => e.spec_description(),
            VariablePacketError::PubrecPacketError(e) => e.spec_description(),
            VariablePacketError::PubrelPacketError(e) => e.spec_description(),
            VariablePacketError::PubcompPacketError(e) => e.spec_description(),
            VariablePacketError::PingreqPacketError(e) => e.spec_description(),
            VariablePacketError::PingrespPacketError(e) => e.spec_description(),
            VariablePacketError::SubscribePacketError(e) => e.spec_description(),
            VariablePacketError::SubackPacketError(e) => e.spec_description(),
            VariablePacketError::UnsubscribePacketError(e) => e.spec_description(),
            VariablePacketError::UnsubackPacketError(e) => e.spec_description(),
            VariablePacketError::DisconnectPacketError(e) => e.spec_description(),
        }
    }

    /// The text that describes the error.
    pub fn description(&self) -> (r: &'static str)
        ensures
            r@ == self.spec_description(),
    {
        match self {
            VariablePacketError::FixedHeaderError(_) => "invalid fixed header",
            VariablePacketError::UnrecognizedPacket(_, _) => "Unrecognized packet",
            VariablePacketError::ReservedPacket(_, _) => "Reserved packet",
            VariablePacketError::IoError(_) => "unexpected end of input",
            VariablePacketError::ConnectPacketError(e) => e.description(),
            VariablePacketError::ConnackPacketError(e) => e.description(),
            VariablePacketError::PublishPacketError(e) => e.description(),
            VariablePacketError::PubackPacketError(e) => e.description(),
            VariablePacketError::PubrecPacketError(e) => e.description(),
            VariablePacketError::PubrelPacketError(e) => e.description(),
            VariablePacketError::PubcompPacketError(e) => e.description(),
            VariablePacketError::PingreqPacketError(e) => e.description(),
            VariablePacketError::PingrespPacketError(e) => e.description(),
            VariablePacketError::SubscribePacketError(e) => e.description(),
            VariablePacketError::SubackPacketError(e) => e.description(),
            VariablePacketError::UnsubscribePacketError(e) => e.description(),
            VariablePacketError::UnsubackPacketError(e) => e.description(),
            VariablePacketError::DisconnectPacketError(e) => e.description(),
        }
    }
}

impl VariablePacketView {
    /// What holds of every packet of the kind that this is.
    pub open spec fn spec_valid(self) -> bool {
        match self {
            VariablePacketView::ConnectPacket(v) => <ConnectPacket as Packet>::spec_valid(v),
            VariablePacketView::ConnackPacket(v) => <ConnackPacket as Packet>::spec_valid(v),
            VariablePacketView::PublishPacket(v) => <PublishPacket as Packet>::spec_valid(v),
            VariablePacketView::PubackPacket(v) => <PubackPacket as Packet>::spec_valid(v),
            VariablePacketView::PubrecPacket(v) => <PubrecPacket as Packet>::spec_valid(v),
            VariablePacketView::PubrelPacket(v) => <PubrelPacket as Packet>::spec_valid(v),
            VariablePacketView::PubcompPacket(v) => <PubcompPacket as Packet>::spec_valid(v),
            VariablePacketView::PingreqPacket(v) => <PingreqPacket as Packet>::spec_valid(v),
            VariablePacketView::PingrespPacket(v) => <PingrespPacket as Packet>::spec_valid(v),
            VariablePacketView::SubscribePacket(v) => <SubscribePacket as Packet>::spec_valid(v),
            VariablePacketView::SubackPacket(v) => <SubackPacket as Packet>::spec_valid(v),
            VariablePacketView::UnsubscribePacket(v) =>
                <UnsubscribePacket as Packet>::spec_valid(v),
            VariablePacketView::UnsubackPacket(v) => <UnsubackPacket as Packet>::spec_valid(v),
            VariablePacketView::DisconnectPacket(v) => <DisconnectPacket as Packet>::spec_valid(v),
        }
    }

    /// The bytes of the packet.
    pub open spec fn spec_wire(self) -> Seq<u8> {
        match self {
            VariablePacketView::ConnectPacket(v) => spec_wire::<ConnectPacket>(v),
            VariablePacketView::ConnackPacket(v) => spec_wire::<ConnackPacket>(v),
            VariablePacketView::PublishPacket(v) => spec_wire::<PublishPacket>(v),
            VariablePacketView::PubackPacket(v) => spec_wire::<PubackPacket>(v),
            VariablePacketView::PubrecPacket(v) => spec_wire::<PubrecPacket>(v),
            VariablePacketView::PubrelPacket(v) => spec_wire::<PubrelPacket>(v),
            VariablePacketView::PubcompPacket(v) => spec_wire::<PubcompPacket>(v),
            VariablePacketView::PingreqPacket(v) => spec_wire::<PingreqPacket>(v),
            VariablePacketView::PingrespPacket(v) => spec_wire::<PingrespPacket>(v),
            VariablePacketView::SubscribePacket(v) => spec_wire::<SubscribePacket>(v),
            VariablePacketView::SubackPacket(v) => spec_wire::<SubackPacket>(v),
            VariablePacketView::UnsubscribePacket(v) => spec_wire::<UnsubscribePacket>(v),
            VariablePacketView::UnsubackPacket(v) => spec_wire::<UnsubackPacket>(v),
            VariablePacketView::DisconnectPacket(v) => spec_wire::<DisconnectPacket>(v),
        }
    }

    /// Why the packet cannot be written, if it cannot.
    pub open spec fn spec_encode_error(self) -> Option<VariablePacketError> {
        match self {
            VariablePacketView::ConnectPacket(v) => match spec_encode_error::<ConnectPacket>(v) {
                Some(e) => Some(
                    VariablePacketError::spec_from_packet_error(ControlType::Connect, e),
                ),
                None => None,
            },
            VariablePacketView::ConnackPacket(v) => match spec_encode_error::<ConnackPacket>(v) {
                Some(e) => Some(
                    VariablePacketError::spec_from_packet_error(ControlType::ConnectAcknowledgement, e),
                ),
                None => None,
            },
            VariablePacketView::PublishPacket(v) => match spec_encode_error::<PublishPacket>(v) {
                Some(e) => Some(
                    VariablePacketError::spec_from_packet_error(ControlType::Publish, e),
                ),
                None => None,
            },
            VariablePacketView::PubackPacket(v) => match spec_encode_error::<PubackPacket>(v) {
                Some(e) => Some(
                    VariablePacketError::spec_from_packet_error(ControlType::PublishAcknowledgement, e),
                ),
                None => None,
            },
            VariablePacketView::PubrecPacket(v) => match spec_encode_error::<PubrecPacket>(v) {
                Some(e) => Some(
                    VariablePacketError::spec_from_packet_error(ControlType::PublishReceived, e),
                ),
                None => None,
            },
            VariablePacketView::PubrelPacket(v) => match spec_encode_error::<PubrelPacket>(v) {
                Some(e) => Some(
                    VariablePacketError::spec_from_packet_error(ControlType::PublishRelease, e),
                ),
                None => None,
            },
            VariablePacketView::PubcompPacket(v) => match spec_encode_error::<PubcompPacket>(v) {
                Some(e) => Some(
                    VariablePacketError::spec_from_packet_error(ControlType::PublishComplete, e),
                ),
                None => None,
            },
            VariablePacketView::PingreqPacket(v) => match spec_encode_error::<PingreqPacket>(v) {
                Some(e) => Some(
                    VariablePacketError::spec_from_packet_error(ControlType::PingRequest, e),
                ),
                None => None,
            },
            VariablePacketView::PingrespPacket(v) => match spec_encode_error::<PingrespPacket>(v) {
                Some(e) => Some(
                    VariablePacketError::spec_from_packet_error(ControlType::PingResponse, e),
                ),
                None => None,
            },
            VariablePacketView::SubscribePacket(v) =>
                match spec_encode_error::<SubscribePacket>(v) {
                Some(e) => Some(
                    VariablePacketError::spec_from_packet_error(ControlType::Subscribe, e),
                ),
                None => None,
            },
            VariablePacketView::SubackPacket(v) => match spec_encode_error::<SubackPacket>(v) {
                Some(e) => Some(
                    VariablePacketError::spec_from_packet_error(ControlType::SubscribeAcknowledgement, e),
                ),
                None => None,
            },
            VariablePacketView::UnsubscribePacket(v) =>
                match spec_encode_error::<UnsubscribePacket>(v) {
                Some(e) => Some(
                    VariablePacketError::spec_from_packet_error(ControlType::Unsubscribe, e),
                ),
                None => None,
            },
            VariablePacketView::UnsubackPacket(v) => match spec_encode_error::<UnsubackPacket>(v) {
                Some(e) => Some(
                    VariablePacketError::spec_from_packet_error(ControlType::UnsubscribeAcknowledgement, e),
                ),
                None => None,
            },
            VariablePacketView::DisconnectPacket(v) =>
                match spec_encode_error::<DisconnectPacket>(v) {
                Some(e) => Some(
                    VariablePacketError::spec_from_packet_error(ControlType::Disconnect, e),
                ),
                None => None,
            },
        }
    }
}

/// What reading one packet from a stream comes to.
pub enum DecodeOutcome {
    /// A packet.
    Packet(VariablePacketView),
    /// A packet of a reserved type was passed over: its code and its body.
    Reserved(u8, Seq<u8>),
    /// A packet of unknown type was passed over: its code and its body.
    Unrecognized(u8, Seq<u8>),
    /// An error.
    Failed(VariablePacketError),
}

impl DecodeOutcome {
    /// Whether `r` is this outcome.
    pub open spec fn is_result(self, r: Result<VariablePacket, VariablePacketError>) -> bool {
        match self {
            DecodeOutcome::Packet(v) => r is Ok && r->Ok_0@ == v,
            DecodeOutcome::Reserved(code, body) => r matches Err(
                VariablePacketError::ReservedPacket(c, b),
            ) && c == code && b@ == body,
            DecodeOutcome::Unrecognized(code, body) => r matches Err(
                VariablePacketError::UnrecognizedPacket(c, b),
            ) && c == code && b@ == body,
            DecodeOutcome::Failed(e) => r is Err && r->Err_0 == e,
        }
    }
}

/// The packet whose body is at the front of `input`, by the control type of
/// its fixed header.
#[verifier::opaque]
pub open spec fn spec_decode_dispatch(fixed_header: FixedHeader, input: Seq<u8>) -> Result<
    VariablePacketView,
    VariablePacketError,
> {
    match fixed_header.packet_type.control_type {
        ControlType::Connect => match spec_decode_packet::<ConnectPacket>(fixed_header, input) {
            Ok(v) => Ok(VariablePacketView::ConnectPacket(v)),
            Err(e) => Err(VariablePacketError::spec_from_packet_error(ControlType::Connect, e)),
        },
        ControlType::ConnectAcknowledgement =>
            match spec_decode_packet::<ConnackPacket>(fixed_header, input) {
            Ok(v) => Ok(VariablePacketView::ConnackPacket(v)),
            Err(e) =>
                Err(VariablePacketError::spec_from_packet_error(ControlType::ConnectAcknowledgement, e)),
        },
        ControlType::Publish => match spec_decode_packet::<PublishPacket>(fixed_header, input) {
            Ok(v) => Ok(VariablePacketView::PublishPacket(v)),
            Err(e) => Err(VariablePacketError::spec_from_packet_error(ControlType::Publish, e)),
        },
        ControlType::PublishAcknowledgement =>
            match spec_decode_packet::<PubackPacket>(fixed_header, input) {
            Ok(v) => Ok(VariablePacketView::PubackPacket(v)),
            Err(e) =>
                Err(VariablePacketError::spec_from_packet_error(ControlType::PublishAcknowledgement, e)),
        },
        ControlType::PublishReceived =>
            match spec_decode_packet::<PubrecPacket>(fixed_header, input) {
            Ok(v) => Ok(VariablePacketView::PubrecPacket(v)),
            Err(e) =>
                Err(VariablePacketError::spec_from_packet_error(ControlType::PublishReceived, e)),
        },
        ControlType::PublishRelease =>
            match spec_decode_packet::<PubrelPacket>(fixed_header, input) {
            Ok(v) => Ok(VariablePacketView::PubrelPacket(v)),
            Err(e) =>
                Err(VariablePacketError::spec_from_packet_error(ControlType::PublishRelease, e)),
        },
        ControlType::PublishComplete =>
            match spec_decode_packet::<PubcompPacket>(fixed_header, input) {
            Ok(v) => Ok(VariablePacketView::PubcompPacket(v)),
            Err(e) =>
                Err(VariablePacketError::spec_from_packet_error(ControlType::PublishComplete, e)),
        },
        ControlType::PingRequest => match spec_decode_packet::<PingreqPacket>(fixed_header, input) {
            Ok(v) => Ok(VariablePacketView::PingreqPacket(v)),
            Err(e) => Err(VariablePacketError::spec_from_packet_error(ControlType::PingRequest, e)),
        },
        ControlType::PingResponse =>
            match spec_decode_packet::<PingrespPacket>(fixed_header, input) {
            Ok(v) => Ok(VariablePacketView::PingrespPacket(v)),
            Err(e) =>
                Err(VariablePacketError::spec_from_packet_error(ControlType::PingResponse, e)),
        },
        ControlType::Subscribe => match spec_decode_packet::<SubscribePacket>(fixed_header, input) {
            Ok(v) => Ok(VariablePacketView::SubscribePacket(v)),
            Err(e) => Err(VariablePacketError::spec_from_packet_error(ControlType::Subscribe, e)),
        },
        ControlType::SubscribeAcknowledgement =>
            match spec_decode_packet::<SubackPacket>(fixed_header, input) {
            Ok(v) => Ok(VariablePacketView::SubackPacket(v)),
            Err(e) =>
                Err(VariablePacketError::spec_from_packet_error(ControlType::SubscribeAcknowledgement, e)),
        },
        ControlType::Unsubscribe =>
            match spec_decode_packet::<UnsubscribePacket>(fixed_header, input) {
            Ok(v) => Ok(VariablePacketView::UnsubscribePacket(v)),
            Err(e) => Err(VariablePacketError::spec_from_packet_error(ControlType::Unsubscribe, e)),
        },
        ControlType::UnsubscribeAcknowledgement =>
            match spec_decode_packet::<UnsubackPacket>(fixed_header, input) {
            Ok(v) => Ok(VariablePacketView::UnsubackPacket(v)),
            Err(e) =>
                Err(VariablePacketError::spec_from_packet_error(ControlType::UnsubscribeAcknowledgement, e)),
        },
        ControlType::Disconnect =>
            match spec_decode_packet::<DisconnectPacket>(fixed_header, input) {
            Ok(v) => Ok(VariablePacketView::DisconnectPacket(v)),
            Err(e) => Err(VariablePacketError::spec_from_packet_error(ControlType::Disconnect, e)),
        },
    }
}

/// The body that goes with the header of a packet of reserved or unknown
/// type: the next `len` bytes of `rest`, or all of `rest` if it is shorter.
pub open spec fn spec_skipped_body(rest: Seq<u8>, len: u32) -> Seq<u8> {
    if rest.len() >= len {
        rest.take(len as int)
    } else {
        rest
    }
}

/// Reading one packet from the front of `input`: what it comes to, and the
/// number of bytes that it takes. A packet of reserved or unknown type is
/// passed over whole; any other failure takes nothing.
pub open spec fn spec_decode_variable(input: Seq<u8>) -> (DecodeOutcome, int) {
    match FixedHeader::spec_decode(input) {
        Err(FixedHeaderError::ReservedType(code, len)) => {
            let n = FixedHeader::spec_consumed(input);
            let body = spec_skipped_body(input.skip(n), len);
            (DecodeOutcome::Reserved(code, body), n + body.len())
        },
        Err(FixedHeaderError::Unrecognized(code, len)) => {
            let n = FixedHeader::spec_consumed(input);
            let body = spec_skipped_body(input.skip(n), len);
            (DecodeOutcome::Unrecognized(code, body), n + body.len())
        },
        Err(e) => (DecodeOutcome::Failed(VariablePacketError::spec_from_fixed_header_error(e)), 0),
        Ok((fixed_header, n)) => match spec_decode_dispatch(fixed_header, input.skip(n)) {
            Ok(v) => (DecodeOutcome::Packet(v), n + fixed_header.remaining_length),
            Err(e) => (DecodeOutcome::Failed(e), 0),
        },
    }
}

/// What the bytes of a fixed header read so far amount to.
#[derive(Debug, Clone, PartialEq, Eq)]
pub enum PeekProgress {
    /// The header is not complete: another byte is needed.
    NeedByte,
    /// The bytes are this header.
    Header(FixedHeader),
    /// The bytes are no header of a known packet.
    Failed(VariablePacketError),
}

impl VariablePacket {
    /// Wraps a packet.
    pub fn new<T>(t: T) -> (r: VariablePacket) where VariablePacket: From<T>
        ensures
            <VariablePacket as FromSpec<T>>::obeys_from_spec() ==> r == <VariablePacket as FromSpec<
                T,
            >>::from_spec(t),
    {
        From::from(t)
    }

    /// Reads the body of the packet that `fixed_header` announces: the next
    /// `remaining_length` bytes. A failure consumes nothing.
    #[verifier::rlimit(50)]
    pub fn decode_packet(reader: &mut ByteReader, fixed_header: FixedHeader) -> (r: Result<
        VariablePacket,
        VariablePacketError,
    >)
        ensures
            match spec_decode_dispatch(fixed_header, old(reader).remaining()) {
                Ok(v) => r is Ok && r->Ok_0@ == v && final(reader).remaining()
                    == old(reader).remaining().skip(fixed_header.remaining_length as int),
                Err(e) => r is Err && r->Err_0 == e && final(reader).remaining()
                    == old(reader).remaining(),
            },
    {
        reveal(spec_decode_dispatch);
        match fixed_header.packet_type.control_type {
            ControlType::Connect => match decode_packet::<ConnectPacket>(reader, fixed_header) {
                Ok(p) => Ok(VariablePacket::ConnectPacket(p)),
                Err(e) => Err(VariablePacketError::from_packet_error(ControlType::Connect, e)),
            },
            ControlType::ConnectAcknowledgement =>
                match decode_packet::<ConnackPacket>(reader, fixed_header) {
                Ok(p) => Ok(VariablePacket::ConnackPacket(p)),
                Err(e) =>
                    Err(VariablePacketError::from_packet_error(ControlType::ConnectAcknowledgement,
                    e)),
            },
            ControlType::Publish => match decode_packet::<PublishPacket>(reader, fixed_header) {
                Ok(p) => Ok(VariablePacket::PublishPacket(p)),
                Err(e) => Err(VariablePacketError::from_packet_error(ControlType::Publish, e)),
            },
            ControlType::PublishAcknowledgement =>
                match decode_packet::<PubackPacket>(reader, fixed_header) {
                Ok(p) => Ok(VariablePacket::PubackPacket(p)),
                Err(e) =>
                    Err(VariablePacketError::from_packet_error(ControlType::PublishAcknowledgement,
                    e)),
            },
            ControlType::PublishReceived =>
                match decode_packet::<PubrecPacket>(reader, fixed_header) {
                Ok(p) => Ok(VariablePacket::PubrecPacket(p)),
                Err(e) =>
                    Err(VariablePacketError::from_packet_error(ControlType::PublishReceived, e)),
            },
            ControlType::PublishRelease =>
                match decode_packet::<PubrelPacket>(reader, fixed_header) {
                Ok(p) => Ok(VariablePacket::PubrelPacket(p)),
                Err(e) =>
                    Err(VariablePacketError::from_packet_error(ControlType::PublishRelease, e)),
            },
            ControlType::PublishComplete =>
                match decode_packet::<PubcompPacket>(reader, fixed_header) {
                Ok(p) => Ok(VariablePacket::PubcompPacket(p)),
                Err(e) =>
                    Err(VariablePacketError::from_packet_error(ControlType::PublishComplete, e)),
            },
            ControlType::PingRequest => match decode_packet::<PingreqPacket>(reader, fixed_header) {
                Ok(p) => Ok(VariablePacket::PingreqPacket(p)),
                Err(e) => Err(VariablePacketError::from_packet_error(ControlType::PingRequest, e)),
            },
            ControlType::PingResponse =>
                match decode_packet::<PingrespPacket>(reader, fixed_header) {
                Ok(p) => Ok(VariablePacket::PingrespPacket(p)),
                Err(e) => Err(VariablePacketError::from_packet_error(ControlType::PingResponse, e)),
            },
            ControlType::Subscribe => match decode_packet::<SubscribePacket>(reader, fixed_header) {
                Ok(p) => Ok(VariablePacket::SubscribePacket(p)),
                Err(e) => Err(VariablePacketError::from_packet_error(ControlType::Subscribe, e)),
            },
            ControlType::SubscribeAcknowledgement =>
                match decode_packet::<SubackPacket>(reader, fixed_header) {
                Ok(p) => Ok(VariablePacket::SubackPacket(p)),
                Err(e) =>
                    Err(VariablePacketError::from_packet_error(ControlType::SubscribeAcknowledgement, e)),
            },
            ControlType::Unsubscribe =>
                match decode_packet::<UnsubscribePacket>(reader, fixed_header) {
                Ok(p) => Ok(VariablePacket::UnsubscribePacket(p)),
                Err(e) => Err(VariablePacketError::from_packet_error(ControlType::Unsubscribe, e)),
            },
            ControlType::UnsubscribeAcknowledgement =>
                match decode_packet::<UnsubackPacket>(reader, fixed_header) {
                Ok(p) => Ok(VariablePacket::UnsubackPacket(p)),
                Err(e) =>
                    Err(VariablePacketError::from_packet_error(ControlType::UnsubscribeAcknowledgement, e)),
            },
            ControlType::Disconnect =>
                match decode_packet::<DisconnectPacket>(reader, fixed_header) {
                Ok(p) => Ok(VariablePacket::DisconnectPacket(p)),
                Err(e) => Err(VariablePacketError::from_packet_error(ControlType::Disconnect, e)),
            },
        }
    }

    /// Reads one packet from a stream. A packet of reserved or unknown type
    /// is passed over whole, so that the next read finds the packet that
    /// follows it; any other failure consumes nothing.
    #[verifier::rlimit(50)]
    pub fn decode(reader: &mut ByteReader) -> (r: Result<VariablePacket, VariablePacketError>)
        ensures
            spec_decode_variable(old(reader).remaining()).0.is_result(r),
            0 <= spec_decode_variable(old(reader).remaining()).1 <= old(reader).remaining().len(),
            final(reader).remaining() == old(reader).remaining().skip(
                spec_decode_variable(old(reader).remaining()).1,
            ),
    {
        let ghost input = reader.remaining();
        let mut cur = reader.fork();
        proof {
            assert(input.skip(0) =~= input);
        }
        match FixedHeader::decode(&mut cur) {
            Ok(fixed_header) => match Self::decode_packet(&mut cur, fixed_header) {
                Ok(p) => {
                    proof {
                        let n = FixedHeader::spec_consumed(input);
                        lemma_dispatch_length(fixed_header, input.skip(n));
                        assert(input.skip(n).skip(fixed_header.remaining_length as int)
                            =~= input.skip(n + fixed_header.remaining_length));
                    }
                    reader.advance_to(cur);
                    Ok(p)
                },
                Err(e) => Err(e),
            },
            Err(FixedHeaderError::ReservedType(code, len)) => {
                let ghost n = FixedHeader::spec_consumed(input);
                let body = cur.read_up_to(len as usize);
                proof {
                    assert(input.skip(n).skip(body@.len() as int) =~= input.skip(n + body@.len()));
                }
                reader.advance_to(cur);
                Err(VariablePacketError::ReservedPacket(code, body))
            },
            Err(FixedHeaderError::Unrecognized(code, len)) => {
                let ghost n = FixedHeader::spec_consumed(input);
                let body = cur.read_up_to(len as usize);
                proof {
                    assert(input.skip(n).skip(body@.len() as int) =~= input.skip(n + body@.len()));
                }
                reader.advance_to(cur);
                Err(VariablePacketError::UnrecognizedPacket(code, body))
            },
            Err(e) => Err(VariablePacketError::from_fixed_header_error(e)),
        }
    }

    /// Reads one packet. With `fixed_header` given, the source stands at the
    /// body; without, at the fixed header.
    pub fn decode_with(reader: &mut ByteReader, fixed_header: Option<FixedHeader>) -> (r: Result<
        VariablePacket,
        VariablePacketError,
    >)
        ensures
            match fixed_header {
                Some(h) => match spec_decode_dispatch(h, old(reader).remaining()) {
                    Ok(v) => r is Ok && r->Ok_0@ == v && final(reader).remaining()
                        == old(reader).remaining().skip(h.remaining_length as int),
                    Err(e) => r is Err && r->Err_0 == e && final(reader).remaining()
                        == old(reader).remaining(),
                },
                None => spec_decode_variable(old(reader).remaining()).0.is_result(r)
                    && final(reader).remaining() == old(reader).remaining().skip(
                    spec_decode_variable(old(reader).remaining()).1,
                ),
            },
    {
        match fixed_header {
            Some(h) => Self::decode_packet(reader, h),
            None => Self::decode(reader),
        }
    }

    /// Says what the bytes of a fixed header read so far amount to. A header
    /// of reserved or unknown type comes with an empty body: nothing
    /// of the body was read yet.
    pub fn peek_progress(header_bytes: &[u8]) -> (r: PeekProgress)
        ensures
            match FixedHeader::spec_decode(header_bytes@) {
                Ok((h, n)) => r == PeekProgress::Header(h) && h.valid(),
                Err(FixedHeaderError::IoError(_)) => r == PeekProgress::NeedByte,
                Err(FixedHeaderError::ReservedType(code, _)) => r matches PeekProgress::Failed(
                    VariablePacketError::ReservedPacket(c, b),
                ) && c == code && b@.len() == 0,
                Err(FixedHeaderError::Unrecognized(code, _)) => r matches PeekProgress::Failed(
                    VariablePacketError::UnrecognizedPacket(c, b),
                ) && c == code && b@.len() == 0,
                Err(e) => r == PeekProgress::Failed(VariablePacketError::FixedHeaderError(e)),
            },
    {
        match FixedHeader::parse_progress(header_bytes) {
            HeaderProgress::NeedByte => PeekProgress::NeedByte,
            HeaderProgress::Done(h) => PeekProgress::Header(h),
            HeaderProgress::Failed(FixedHeaderError::ReservedType(code, _)) => PeekProgress::Failed(
                VariablePacketError::ReservedPacket(code, Vec::new()),
            ),
            HeaderProgress::Failed(FixedHeaderError::Unrecognized(code, _)) => PeekProgress::Failed(
                VariablePacketError::UnrecognizedPacket(code, Vec::new()),
            ),
            HeaderProgress::Failed(e) => PeekProgress::Failed(
                VariablePacketError::FixedHeaderError(e),
            ),
        }
    }

    /// Reads the packet that `fixed_header` announces from `body`, and gives
    /// it back together with the bytes of the whole packet: those of the
    /// header as they were read, then those of the body.
    pub fn peek_finalize(fixed_header: FixedHeader, header_bytes: &[u8], body: &[u8]) -> (r: Result<
        (Vec<u8>, VariablePacket),
        VariablePacketError,
    >)
        ensures
            match spec_decode_dispatch(fixed_header, body@) {
                Ok(v) => r is Ok && r->Ok_0.1@ == v && r->Ok_0.0@ == header_bytes@ + body@,
                Err(e) => r is Err && r->Err_0 == e,
            },
    {
        let mut reader = ByteReader::new(body);
        match Self::decode_packet(&mut reader, fixed_header) {
            Ok(p) => {
                let mut all: Vec<u8> = Vec::new();
                encode_bytes(header_bytes, &mut all);
                encode_bytes(body, &mut all);
                assert(all@ =~= header_bytes@ + body@);
                Ok((all, p))
            },
            Err(e) => Err(e),
        }
    }

    /// Reads the packet that `fixed_header` announces from `body`.
    pub fn parse(fixed_header: FixedHeader, body: &[u8]) -> (r: Result<
        VariablePacket,
        VariablePacketError,
    >)
        ensures
            match spec_decode_dispatch(fixed_header, body@) {
                Ok(v) => r is Ok && r->Ok_0@ == v,
                Err(e) => r is Err && r->Err_0 == e,
            },
    {
        let mut reader = ByteReader::new(body);
        Self::decode_packet(&mut reader, fixed_header)
    }
}

impl Encodable for VariablePacket {
    type Error = VariablePacketError;

    open spec fn spec_wire(&self) -> Seq<u8> {
        self@.spec_wire()
    }

    open spec fn spec_encode_error(&self) -> Option<VariablePacketError> {
        self@.spec_encode_error()
    }

    /// Appends the packet.
    #[verifier::rlimit(50)]
    fn encode(&self, out: &mut Vec<u8>) -> (r: Result<(), VariablePacketError>) {
        match self {
            VariablePacket::ConnectPacket(p) => match p.encode(out) {
                Ok(()) => Ok(()),
                Err(e) => Err(VariablePacketError::from_packet_error(ControlType::Connect, e)),
            },
            VariablePacket::ConnackPacket(p) => match p.encode(out) {
                Ok(()) => Ok(()),
                Err(e) =>
                    Err(VariablePacketError::from_packet_error(ControlType::ConnectAcknowledgement,
                    e)),
            },
            VariablePacket::PublishPacket(p) => match p.encode(out) {
                Ok(()) => Ok(()),
                Err(e) => Err(VariablePacketError::from_packet_error(ControlType::Publish, e)),
            },
            VariablePacket::PubackPacket(p) => match p.encode(out) {
                Ok(()) => Ok(()),
                Err(e) =>
                    Err(VariablePacketError::from_packet_error(ControlType::PublishAcknowledgement,
                    e)),
            },
            VariablePacket::PubrecPacket(p) => match p.encode(out) {
                Ok(()) => Ok(()),
                Err(e) =>
                    Err(VariablePacketError::from_packet_error(ControlType::PublishReceived, e)),
            },
            VariablePacket::PubrelPacket(p) => match p.encode(out) {
                Ok(()) => Ok(()),
                Err(e) =>
                    Err(VariablePacketError::from_packet_error(ControlType::PublishRelease, e)),
            },
            VariablePacket::PubcompPacket(p) => match p.encode(out) {
                Ok(()) => Ok(()),
                Err(e) =>
                    Err(VariablePacketError::from_packet_error(ControlType::PublishComplete, e)),
            },
            VariablePacket::PingreqPacket(p) => match p.encode(out) {
                Ok(()) => Ok(()),
                Err(e) => Err(VariablePacketError::from_packet_error(ControlType::PingRequest, e)),
            },
            VariablePacket::PingrespPacket(p) => match p.encode(out) {
                Ok(()) => Ok(()),
                Err(e) => Err(VariablePacketError::from_packet_error(ControlType::PingResponse, e)),
            },
            VariablePacket::SubscribePacket(p) => match p.encode(out) {
                Ok(()) => Ok(()),
                Err(e) => Err(VariablePacketError::from_packet_error(ControlType::Subscribe, e)),
            },
            VariablePacket::SubackPacket(p) => match p.encode(out) {
                Ok(()) => Ok(()),
                Err(e) =>
                    Err(VariablePacketError::from_packet_error(ControlType::SubscribeAcknowledgement, e)),
            },
            VariablePacket::UnsubscribePacket(p) => match p.encode(out) {
                Ok(()) => Ok(()),
                Err(e) => Err(VariablePacketError::from_packet_error(ControlType::Unsubscribe, e)),
            },
            VariablePacket::UnsubackPacket(p) => match p.encode(out) {
                Ok(()) => Ok(()),
                Err(e) =>
                    Err(VariablePacketError::from_packet_error(ControlType::UnsubscribeAcknowledgement, e)),
            },
            VariablePacket::DisconnectPacket(p) => match p.encode(out) {
                Ok(()) => Ok(()),
                Err(e) => Err(VariablePacketError::from_packet_error(ControlType::Disconnect, e)),
            },
        }
    }

    /// Number of bytes of the packet on the wire.
    fn encoded_length(&self) -> (n: u32) {
        match self {
            VariablePacket::ConnectPacket(p) => p.encoded_length(),
            VariablePacket::ConnackPacket(p) => p.encoded_length(),
            VariablePacket::PublishPacket(p) => p.encoded_length(),
            VariablePacket::PubackPacket(p) => p.encoded_length(),
            VariablePacket::PubrecPacket(p) => p.encoded_length(),
            VariablePacket::PubrelPacket(p) => p.encoded_length(),
            VariablePacket::PubcompPacket(p) => p.encoded_length(),
            VariablePacket::PingreqPacket(p) => p.encoded_length(),
            VariablePacket::PingrespPacket(p) => p.encoded_length(),
            VariablePacket::SubscribePacket(p) => p.encoded_length(),
            VariablePacket::SubackPacket(p) => p.encoded_length(),
            VariablePacket::UnsubscribePacket(p) => p.encoded_length(),
            VariablePacket::UnsubackPacket(p) => p.encoded_length(),
            VariablePacket::DisconnectPacket(p) => p.encoded_length(),
        }
    }
}

impl From<ConnectPacket> for VariablePacket {
    fn from(pk: ConnectPacket) -> (r: VariablePacket) {
        VariablePacket::ConnectPacket(pk)
    }
}

impl FromSpecImpl<ConnectPacket> for VariablePacket {
    open spec fn obeys_from_spec() -> bool {
        true
    }

    open spec fn from_spec(pk: ConnectPacket) -> VariablePacket {
        VariablePacket::ConnectPacket(pk)
    }
}

impl From<ConnackPacket> for VariablePacket {
    fn from(pk: ConnackPacket) -> (r: VariablePacket) {
        VariablePacket::ConnackPacket(pk)
    }
}

impl FromSpecImpl<ConnackPacket> for VariablePacket {
    open spec fn obeys_from_spec() -> bool {
        true
    }

    open spec fn from_spec(pk: ConnackPacket) -> VariablePacket {
        VariablePacket::ConnackPacket(pk)
    }
}

impl From<PublishPacket> for VariablePacket {
    fn from(pk: PublishPacket) -> (r: VariablePacket) {
        VariablePacket::PublishPacket(pk)
    }
}

impl FromSpecImpl<PublishPacket> for VariablePacket {
    open spec fn obeys_from_spec() -> bool {
        true
    }

    open spec fn from_spec(pk: PublishPacket) -> VariablePacket {
        VariablePacket::PublishPacket(pk)
    }
}

impl From<PubackPacket> for VariablePacket {
    fn from(pk: PubackPacket) -> (r: VariablePacket) {
        VariablePacket::PubackPacket(pk)
    }
}

impl FromSpecImpl<PubackPacket> for VariablePacket {
    open spec fn obeys_from_spec() -> bool {
        true
    }

    open spec fn from_spec(pk: PubackPacket) -> VariablePacket {
        VariablePacket::PubackPacket(pk)
    }
}

impl From<PubrecPacket> for VariablePacket {
    fn from(pk: PubrecPacket) -> (r: VariablePacket) {
        VariablePacket::PubrecPacket(pk)
    }
}

impl FromSpecImpl<PubrecPacket> for VariablePacket {
    open spec fn obeys_from_spec() -> bool {
        true
    }

    open spec fn from_spec(pk: PubrecPacket) -> VariablePacket {
        VariablePacket::PubrecPacket(pk)
    }
}

impl From<PubrelPacket> for VariablePacket {
    fn from(pk: PubrelPacket) -> (r: VariablePacket) {
        VariablePacket::PubrelPacket(pk)
    }
}

impl FromSpecImpl<PubrelPacket> for VariablePacket {
    open spec fn obeys_from_spec() -> bool {
        true
    }

    open spec fn from_spec(pk: PubrelPacket) -> VariablePacket {
        VariablePacket::PubrelPacket(pk)
    }
}

impl From<PubcompPacket> for VariablePacket {
    fn from(pk: PubcompPacket) -> (r: VariablePacket) {
        VariablePacket::PubcompPacket(pk)
    }
}

impl FromSpecImpl<PubcompPacket> for VariablePacket {
    open spec fn obeys_from_spec() -> bool {
        true
    }

    open spec fn from_spec(pk: PubcompPacket) -> VariablePacket {
        VariablePacket::PubcompPacket(pk)
    }
}

impl From<PingreqPacket> for VariablePacket {
    fn from(pk: PingreqPacket) -> (r: VariablePacket) {
        VariablePacket::PingreqPacket(pk)
    }
}

impl FromSpecImpl<PingreqPacket> for VariablePacket {
    open spec fn obeys_from_spec() -> bool {
        true
    }

    open spec fn from_spec(pk: PingreqPacket) -> VariablePacket {
        VariablePacket::PingreqPacket(pk)
    }
}

impl From<PingrespPacket> for VariablePacket {
    fn from(pk: PingrespPacket) -> (r: VariablePacket) {
        VariablePacket::PingrespPacket(pk)
    }
}

impl FromSpecImpl<PingrespPacket> for VariablePacket {
    open spec fn obeys_from_spec() -> bool {
        true
    }

    open spec fn from_spec(pk: PingrespPacket) -> VariablePacket {
        VariablePacket::PingrespPacket(pk)
    }
}

impl From<SubscribePacket> for VariablePacket {
    fn from(pk: SubscribePacket) -> (r: VariablePacket) {
        VariablePacket::SubscribePacket(pk)
    }
}

impl FromSpecImpl<SubscribePacket> for VariablePacket {
    open spec fn obeys_from_spec() -> bool {
        true
    }

    open spec fn from_spec(pk: SubscribePacket) -> VariablePacket {
        VariablePacket::SubscribePacket(pk)
    }
}

impl From<SubackPacket> for VariablePacket {
    fn from(pk: SubackPacket) -> (r: VariablePacket) {
        VariablePacket::SubackPacket(pk)
    }
}

impl FromSpecImpl<SubackPacket> for VariablePacket {
    open spec fn obeys_from_spec() -> bool {
        true
    }

    open spec fn from_spec(pk: SubackPacket) -> VariablePacket {
        VariablePacket::SubackPacket(pk)
    }
}

impl From<UnsubscribePacket> for VariablePacket {
    fn from(pk: UnsubscribePacket) -> (r: VariablePacket) {
        VariablePacket::UnsubscribePacket(pk)
    }
}

impl FromSpecImpl<UnsubscribePacket> for VariablePacket {
    open spec fn obeys_from_spec() -> bool {
        true
    }

    open spec fn from_spec(pk: UnsubscribePacket) -> VariablePacket {
        VariablePacket::UnsubscribePacket(pk)
    }
}

impl From<UnsubackPacket> for VariablePacket {
    fn from(pk: UnsubackPacket) -> (r: VariablePacket) {
        VariablePacket::UnsubackPacket(pk)
    }
}

impl FromSpecImpl<UnsubackPacket> for VariablePacket {
    open spec fn obeys_from_spec() -> bool {
        true
    }

    open spec fn from_spec(pk: UnsubackPacket) -> VariablePacket {
        VariablePacket::UnsubackPacket(pk)
    }
}

impl From<DisconnectPacket> for VariablePacket {
    fn from(pk: DisconnectPacket) -> (r: VariablePacket) {
        VariablePacket::DisconnectPacket(pk)
    }
}

impl FromSpecImpl<DisconnectPacket> for VariablePacket {
    open spec fn obeys_from_spec() -> bool {
        true
    }

    open spec fn from_spec(pk: DisconnectPacket) -> VariablePacket {
        VariablePacket::DisconnectPacket(pk)
    }
}

/// A body that is read as a packet holds the bytes that its fixed header
/// announces.
pub proof fn lemma_dispatch_length(fixed_header: FixedHeader, input: Seq<u8>)
    ensures
        spec_decode_dispatch(fixed_header, input) is Ok ==> fixed_header.remaining_length
            <= input.len(),
{
    reveal(spec_decode_dispatch);
}

/// Decoding inverts encoding: a packet that can be written is read back
/// from its bytes, whatever follows them, and the read takes exactly those
/// bytes.
#[verifier::rlimit(50)]
pub proof fn lemma_variable_packet_roundtrip(v: VariablePacketView, rest: Seq<u8>)
    requires
        v.spec_valid(),
        v.spec_encode_error() is None,
    ensures
        spec_decode_variable(v.spec_wire() + rest) == (
            DecodeOutcome::Packet(v),
            v.spec_wire().len() as int,
        ),
{
    match v {
        VariablePacketView::ConnectPacket(p) => {
            lemma_roundtrip_connectpacket(p, rest);
        },
        VariablePacketView::ConnackPacket(p) => {
            lemma_roundtrip_connackpacket(p, rest);
        },
        VariablePacketView::PublishPacket(p) => {
            lemma_roundtrip_publishpacket(p, rest);
        },
        VariablePacketView::PubackPacket(p) => {
            lemma_roundtrip_pubackpacket(p, rest);
        },
        VariablePacketView::PubrecPacket(p) => {
            lemma_roundtrip_pubrecpacket(p, rest);
        },
        VariablePacketView::PubrelPacket(p) => {
            lemma_roundtrip_pubrelpacket(p, rest);
        },
        VariablePacketView::PubcompPacket(p) => {
            lemma_roundtrip_pubcomppacket(p, rest);
        },
        VariablePacketView::PingreqPacket(p) => {
            lemma_roundtrip_pingreqpacket(p, rest);
        },
        VariablePacketView::PingrespPacket(p) => {
            lemma_roundtrip_pingresppacket(p, rest);
        },
        VariablePacketView::SubscribePacket(p) => {
            lemma_roundtrip_subscribepacket(p, rest);
        },
        VariablePacketView::SubackPacket(p) => {
            lemma_roundtrip_subackpacket(p, rest);
        },
        VariablePacketView::UnsubscribePacket(p) => {
            lemma_roundtrip_unsubscribepacket(p, rest);
        },
        VariablePacketView::UnsubackPacket(p) => {
            lemma_roundtrip_unsubackpacket(p, rest);
        },
        VariablePacketView::DisconnectPacket(p) => {
            lemma_roundtrip_disconnectpacket(p, rest);
        },
    }
}

/// Cut short anywhere, the bytes of a packet are an unfinished read, which
/// takes nothing from the stream.
#[verifier::rlimit(50)]
pub proof fn lemma_variable_packet_short_read(v: VariablePacketView, k: int)
    requires
        v.spec_valid(),
        0 <= k < v.spec_wire().len(),
    ensures
        spec_decode_variable(v.spec_wire().take(k)) == (
            DecodeOutcome::Failed(VariablePacketError::IoError(IoErrorKind::UnexpectedEof)),
            0int,
        ),
{
    reveal(spec_decode_dispatch);
    match v {
        VariablePacketView::ConnectPacket(p) => {
            lemma_short_read_dispatch::<ConnectPacket>(p, k);
        },
        VariablePacketView::ConnackPacket(p) => {
            lemma_short_read_dispatch::<ConnackPacket>(p, k);
        },
        VariablePacketView::PublishPacket(p) => {
            lemma_short_read_dispatch::<PublishPacket>(p, k);
        },
        VariablePacketView::PubackPacket(p) => {
            lemma_short_read_dispatch::<PubackPacket>(p, k);
        },
        VariablePacketView::PubrecPacket(p) => {
            lemma_short_read_dispatch::<PubrecPacket>(p, k);
        },
        VariablePacketView::PubrelPacket(p) => {
            lemma_short_read_dispatch::<PubrelPacket>(p, k);
        },
        VariablePacketView::PubcompPacket(p) => {
            lemma_short_read_dispatch::<PubcompPacket>(p, k);
        },
        VariablePacketView::PingreqPacket(p) => {
            lemma_short_read_dispatch::<PingreqPacket>(p, k);
        },
        VariablePacketView::PingrespPacket(p) => {
            lemma_short_read_dispatch::<PingrespPacket>(p, k);
        },
        VariablePacketView::SubscribePacket(p) => {
            lemma_short_read_dispatch::<SubscribePacket>(p, k);
        },
        VariablePacketView::SubackPacket(p) => {
            lemma_short_read_dispatch::<SubackPacket>(p, k);
        },
        VariablePacketView::UnsubscribePacket(p) => {
            lemma_short_read_dispatch::<UnsubscribePacket>(p, k);
        },
        VariablePacketView::UnsubackPacket(p) => {
            lemma_short_read_dispatch::<UnsubackPacket>(p, k);
        },
        VariablePacketView::DisconnectPacket(p) => {
            lemma_short_read_dispatch::<DisconnectPacket>(p, k);
        },
    }
}


/// A CONNECT that can be written is read back from its bytes.
#[verifier::rlimit(50)]
proof fn lemma_roundtrip_connectpacket(p: ConnectPacketView, rest: Seq<u8>)
    requires
        <ConnectPacket as Packet>::spec_valid(p),
        spec_encode_error::<ConnectPacket>(p) is None,
    ensures
        spec_decode_variable(spec_wire::<ConnectPacket>(p) + rest) == (
            DecodeOutcome::Packet(VariablePacketView::ConnectPacket(p)),
            spec_wire::<ConnectPacket>(p).len() as int,
        ),
{
    reveal(spec_decode_dispatch);
    lemma_roundtrip_dispatch::<ConnectPacket>(p, rest);
    assert(<ConnectPacket as Packet>::spec_control_type() == ControlType::Connect);
}

/// A CONNACK that can be written is read back from its bytes.
#[verifier::rlimit(50)]
proof fn lemma_roundtrip_connackpacket(p: ConnackPacketView, rest: Seq<u8>)
    requires
        <ConnackPacket as Packet>::spec_valid(p),
        spec_encode_error::<ConnackPacket>(p) is None,
    ensures
        spec_decode_variable(spec_wire::<ConnackPacket>(p) + rest) == (
            DecodeOutcome::Packet(VariablePacketView::ConnackPacket(p)),
            spec_wire::<ConnackPacket>(p).len() as int,
        ),
{
    reveal(spec_decode_dispatch);
    lemma_roundtrip_dispatch::<ConnackPacket>(p, rest);
    assert(<ConnackPacket as Packet>::spec_control_type() == ControlType::ConnectAcknowledgement);
}

/// A PUBLISH that can be written is read back from its bytes.
#[verifier::rlimit(50)]
proof fn lemma_roundtrip_publishpacket(p: PublishPacketView, rest: Seq<u8>)
    requires
        <PublishPacket as Packet>::spec_valid(p),
        spec_encode_error::<PublishPacket>(p) is None,
    ensures
        spec_decode_variable(spec_wire::<PublishPacket>(p) + rest) == (
            DecodeOutcome::Packet(VariablePacketView::PublishPacket(p)),
            spec_wire::<PublishPacket>(p).len() as int,
        ),
{
    reveal(spec_decode_dispatch);
    lemma_roundtrip_dispatch::<PublishPacket>(p, rest);
    assert(<PublishPacket as Packet>::spec_control_type() == ControlType::Publish);
}

/// A PUBACK that can be written is read back from its bytes.
#[verifier::rlimit(50)]
proof fn lemma_roundtrip_pubackpacket(p: IdentifierPacketView, rest: Seq<u8>)
    requires
        <PubackPacket as Packet>::spec_valid(p),
        spec_encode_error::<PubackPacket>(p) is None,
    ensures
        spec_decode_variable(spec_wire::<PubackPacket>(p) + rest) == (
            DecodeOutcome::Packet(VariablePacketView::PubackPacket(p)),
            spec_wire::<PubackPacket>(p).len() as int,
        ),
{
    reveal(spec_decode_dispatch);
    lemma_roundtrip_dispatch::<PubackPacket>(p, rest);
    assert(<PubackPacket as Packet>::spec_control_type() == ControlType::PublishAcknowledgement);
}

/// A PUBREC that can be written is read back from its bytes.
#[verifier::rlimit(50)]
proof fn lemma_roundtrip_pubrecpacket(p: IdentifierPacketView, rest: Seq<u8>)
    requires
        <PubrecPacket as Packet>::spec_valid(p),
        spec_encode_error::<PubrecPacket>(p) is None,
    ensures
        spec_decode_variable(spec_wire::<PubrecPacket>(p) + rest) == (
            DecodeOutcome::Packet(VariablePacketView::PubrecPacket(p)),
            spec_wire::<PubrecPacket>(p).len() as int,
        ),
{
    reveal(spec_decode_dispatch);
    lemma_roundtrip_dispatch::<PubrecPacket>(p, rest);
    assert(<PubrecPacket as Packet>::spec_control_type() == ControlType::PublishReceived);
}

/// A PUBREL that can be written is read back from its bytes.
#[verifier::rlimit(50)]
proof fn lemma_roundtrip_pubrelpacket(p: IdentifierPacketView, rest: Seq<u8>)
    requires
        <PubrelPacket as Packet>::spec_valid(p),
        spec_encode_error::<PubrelPacket>(p) is None,
    ensures
        spec_decode_variable(spec_wire::<PubrelPacket>(p) + rest) == (
            DecodeOutcome::Packet(VariablePacketView::PubrelPacket(p)),
            spec_wire::<PubrelPacket>(p).len() as int,
        ),
{
    reveal(spec_decode_dispatch);
    lemma_roundtrip_dispatch::<PubrelPacket>(p, rest);
    assert(<PubrelPacket as Packet>::spec_control_type() == ControlType::PublishRelease);
}

/// A PUBCOMP that can be written is read back from its bytes.
#[verifier::rlimit(50)]
proof fn lemma_roundtrip_pubcomppacket(p: IdentifierPacketView, rest: Seq<u8>)
    requires
        <PubcompPacket as Packet>::spec_valid(p),
        spec_encode_error::<PubcompPacket>(p) is None,
    ensures
        spec_decode_variable(spec_wire::<PubcompPacket>(p) + rest) == (
            DecodeOutcome::Packet(VariablePacketView::PubcompPacket(p)),
            spec_wire::<PubcompPacket>(p).len() as int,
        ),
{
    reveal(spec_decode_dispatch);
    lemma_roundtrip_dispatch::<PubcompPacket>(p, rest);
    assert(<PubcompPacket as Packet>::spec_control_type() == ControlType::PublishComplete);
}

/// A PINGREQ that can be written is read back from its bytes.
#[verifier::rlimit(50)]
proof fn lemma_roundtrip_pingreqpacket(p: EmptyPacketView, rest: Seq<u8>)
    requires
        <PingreqPacket as Packet>::spec_valid(p),
        spec_encode_error::<PingreqPacket>(p) is None,
    ensures
        spec_decode_variable(spec_wire::<PingreqPacket>(p) + rest) == (
            DecodeOutcome::Packet(VariablePacketView::PingreqPacket(p)),
            spec_wire::<PingreqPacket>(p).len() as int,
        ),
{
    reveal(spec_decode_dispatch);
    lemma_roundtrip_dispatch::<PingreqPacket>(p, rest);
    assert(<PingreqPacket as Packet>::spec_control_type() == ControlType::PingRequest);
}

/// A PINGRESP that can be written is read back from its bytes.
#[verifier::rlimit(50)]
proof fn lemma_roundtrip_pingresppacket(p: EmptyPacketView, rest: Seq<u8>)
    requires
        <PingrespPacket as Packet>::spec_valid(p),
        spec_encode_error::<PingrespPacket>(p) is None,
    ensures
        spec_decode_variable(spec_wire::<PingrespPacket>(p) + rest) == (
            DecodeOutcome::Packet(VariablePacketView::PingrespPacket(p)),
            spec_wire::<PingrespPacket>(p).len() as int,
        ),
{
    reveal(spec_decode_dispatch);
    lemma_roundtrip_dispatch::<PingrespPacket>(p, rest);
    assert(<PingrespPacket as Packet>::spec_control_type() == ControlType::PingResponse);
}

/// A SUBSCRIBE that can be written is read back from its bytes.
#[verifier::rlimit(50)]
proof fn lemma_roundtrip_subscribepacket(p: SubscribePacketView, rest: Seq<u8>)
    requires
        <SubscribePacket as Packet>::spec_valid(p),
        spec_encode_error::<SubscribePacket>(p) is None,
    ensures
        spec_decode_variable(spec_wire::<SubscribePacket>(p) + rest) == (
            DecodeOutcome::Packet(VariablePacketView::SubscribePacket(p)),
            spec_wire::<SubscribePacket>(p).len() as int,
        ),
{
    reveal(spec_decode_dispatch);
    lemma_roundtrip_dispatch::<SubscribePacket>(p, rest);
    assert(<SubscribePacket as Packet>::spec_control_type() == ControlType::Subscribe);
}

/// A SUBACK that can be written is read back from its bytes.
#[verifier::rlimit(50)]
proof fn lemma_roundtrip_subackpacket(p: SubackPacketView, rest: Seq<u8>)
    requires
        <SubackPacket as Packet>::spec_valid(p),
        spec_encode_error::<SubackPacket>(p) is None,
    ensures
        spec_decode_variable(spec_wire::<SubackPacket>(p) + rest) == (
            DecodeOutcome::Packet(VariablePacketView::SubackPacket(p)),
            spec_wire::<SubackPacket>(p).len() as int,
        ),
{
    reveal(spec_decode_dispatch);
    lemma_roundtrip_dispatch::<SubackPacket>(p, rest);
    assert(<SubackPacket as Packet>::spec_control_type() == ControlType::SubscribeAcknowledgement);
}

/// An UNSUBSCRIBE that can be written is read back from its bytes.
#[verifier::rlimit(50)]
proof fn lemma_roundtrip_unsubscribepacket(p: UnsubscribePacketView, rest: Seq<u8>)
    requires
        <UnsubscribePacket as Packet>::spec_valid(p),
        spec_encode_error::<UnsubscribePacket>(p) is None,
    ensures
        spec_decode_variable(spec_wire::<UnsubscribePacket>(p) + rest) == (
            DecodeOutcome::Packet(VariablePacketView::UnsubscribePacket(p)),
            spec_wire::<UnsubscribePacket>(p).len() as int,
        ),
{
    reveal(spec_decode_dispatch);
    lemma_roundtrip_dispatch::<UnsubscribePacket>(p, rest);
    assert(<UnsubscribePacket as Packet>::spec_control_type() == ControlType::Unsubscribe);
}

/// An UNSUBACK that can be written is read back from its bytes.
#[verifier::rlimit(50)]
proof fn lemma_roundtrip_unsubackpacket(p: IdentifierPacketView, rest: Seq<u8>)
    requires
        <UnsubackPacket as Packet>::spec_valid(p),
        spec_encode_error::<UnsubackPacket>(p) is None,
    ensures
        spec_decode_variable(spec_wire::<UnsubackPacket>(p) + rest) == (
            DecodeOutcome::Packet(VariablePacketView::UnsubackPacket(p)),
            spec_wire::<UnsubackPacket>(p).len() as int,
        ),
{
    reveal(spec_decode_dispatch);
    lemma_roundtrip_dispatch::<UnsubackPacket>(p, rest);
    assert(<UnsubackPacket as Packet>::spec_control_type()
        == ControlType::UnsubscribeAcknowledgement);
}

/// A DISCONNECT that can be written is read back from its bytes.
#[verifier::rlimit(50)]
proof fn lemma_roundtrip_disconnectpacket(p: EmptyPacketView, rest: Seq<u8>)
    requires
        <DisconnectPacket as Packet>::spec_valid(p),
        spec_encode_error::<DisconnectPacket>(p) is None,
    ensures
        spec_decode_variable(spec_wire::<DisconnectPacket>(p) + rest) == (
            DecodeOutcome::Packet(VariablePacketView::DisconnectPacket(p)),
            spec_wire::<DisconnectPacket>(p).len() as int,
        ),
{
    reveal(spec_decode_dispatch);
    lemma_roundtrip_dispatch::<DisconnectPacket>(p, rest);
    assert(<DisconnectPacket as Packet>::spec_control_type() == ControlType::Disconnect);
}

/// The bytes of a packet of one kind start with its fixed header, and what
/// follows the header is read as the packet.
proof fn lemma_roundtrip_dispatch<T: Packet>(v: T::V, rest: Seq<u8>)
    requires
        T::spec_valid(v),
        spec_encode_error::<T>(v) is None,
    ensures
        ({
            let h = T::spec_fixed_header(v);
            let input = spec_wire::<T>(v) + rest;
            let n = h.spec_encoded_length();
            &&& h.packet_type.control_type == T::spec_control_type()
            &&& FixedHeader::spec_decode(input) == Ok::<(FixedHeader, int), FixedHeaderError>(
                (h, n),
            )
            &&& spec_decode_packet::<T>(h, input.skip(n)) == Ok::<T::V, PacketError>(v)
            &&& n + h.remaining_length == spec_wire::<T>(v).len()
        }),
{
    let h = T::spec_fixed_header(v);
    let body = T::spec_variable_headers(v) + T::spec_payload(v);
    let input = spec_wire::<T>(v) + rest;
    T::lemma_remaining_length(v);
    T::lemma_body_roundtrip(v);
    assert(input =~= h.spec_wire() + (body + rest));
    lemma_fixed_header_roundtrip(h, body + rest);
    assert((body + rest).take(h.remaining_length as int) =~= body);
    assert(spec_wire::<T>(v) =~= h.spec_wire() + body);
}

/// Cut short anywhere, the bytes of a packet of one kind are an unfinished
/// read for the union too.
proof fn lemma_short_read_dispatch<T: Packet>(v: T::V, k: int)
    requires
        T::spec_valid(v),
        0 <= k < spec_wire::<T>(v).len(),
    ensures
        FixedHeader::spec_decode(spec_wire::<T>(v).take(k)) matches Err(
            FixedHeaderError::IoError(_),
        ) || (FixedHeader::spec_decode(spec_wire::<T>(v).take(k)) matches Ok((h, n)) && h
            == T::spec_fixed_header(v) && spec_wire::<T>(v).take(k).skip(n).len()
            < h.remaining_length),
{
    let h = T::spec_fixed_header(v);
    let body = T::spec_variable_headers(v) + T::spec_payload(v);
    let wire = spec_wire::<T>(v);
    let n = h.spec_encoded_length();
    T::lemma_remaining_length(v);
    lemma_fixed_header_roundtrip(h, Seq::empty());
    assert(wire =~= h.spec_wire() + body);
    if k < n {
        lemma_fixed_header_prefix(h, k);
        assert(wire.take(k) =~= h.spec_wire().take(k));
    } else {
        let part = body.take(k - n);
        assert(wire.take(k) =~= h.spec_wire() + part);
        lemma_fixed_header_roundtrip(h, part);
    }
}

/// A packet of a reserved type is passed over whole: after its first byte,
/// its remaining length and its body, the read stands at what follows.
pub proof fn lemma_reserved_packet_skipped(first: u8, len: u32, body: Seq<u8>, rest: Seq<u8>)
    requires
        first / 16 == 0 || first / 16 == 15,
        len <= MAX_REMAINING_LENGTH,
        body.len() == len,
    ensures
        ({
            let input = seq![first] + spec_varint_wire(len as nat) + body + rest;
            &&& spec_decode_variable(input).0 == DecodeOutcome::Reserved(first / 16, body)
            &&& input.skip(spec_decode_variable(input).1) == rest
        }),
{
    let header = seq![first] + spec_varint_wire(len as nat);
    let input = header + body + rest;
    lemma_varint_roundtrip(len, body + rest);
    assert(input.skip(1) =~= spec_varint_wire(len as nat) + (body + rest));
    let n = 1 + spec_varint_len(len as nat);
    assert(input.skip(n) =~= body + rest);
    assert((body + rest).take(len as int) =~= body);
    assert(input.skip(n + body.len()) =~= rest);
}

/// After a packet of a reserved type was passed over, the next read finds
/// the packet that follows it.
pub proof fn lemma_packet_after_reserved(
    first: u8,
    len: u32,
    body: Seq<u8>,
    next: VariablePacketView,
    rest: Seq<u8>,
)
    requires
        first / 16 == 0 || first / 16 == 15,
        len <= MAX_REMAINING_LENGTH,
        body.len() == len,
        next.spec_valid(),
        next.spec_encode_error() is None,
    ensures
        ({
            let input = seq![first] + spec_varint_wire(len as nat) + body + (next.spec_wire()
                + rest);
            let after = input.skip(spec_decode_variable(input).1);
            &&& spec_decode_variable(input).0 == DecodeOutcome::Reserved(first / 16, body)
            &&& spec_decode_variable(after).0 == DecodeOutcome::Packet(next)
            &&& after.skip(spec_decode_variable(after).1) == rest
        }),
{
    lemma_reserved_packet_skipped(first, len, body, next.spec_wire() + rest);
    lemma_variable_packet_roundtrip(next, rest);
    assert((next.spec_wire() + rest).skip(next.spec_wire().len() as int) =~= rest);
}

} // verus!
