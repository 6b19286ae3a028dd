//! PUBREL

use crate::control::variable_header::PacketIdentifier;
use crate::control::{ControlType, FixedHeader, PacketType};
use crate::packet::{
    decode_identifier_body, lemma_identifier_body_roundtrip, spec_decode_identifier_body,
    spec_identifier_packet_valid, IdentifierPacketView, Packet, PacketError,
};
use crate::reader::ByteReader;
use vstd::prelude::*;

verus! {

/// `PUBREL` packet: publish release, the answer to a PUBREC in an exactly-once
/// delivery.
#[derive(Debug, Eq, PartialEq)]
pub struct PubrelPacket {
    fixed_header: FixedHeader,
    packet_identifier: PacketIdentifier,
}

impl View for PubrelPacket {
    type V = IdentifierPacketView;

    closed spec fn view(&self) -> IdentifierPacketView {
        IdentifierPacketView {
            fixed_header: self.fixed_header,
            packet_identifier: self.packet_identifier.0,
        }
    }
}

impl Clone for PubrelPacket {
    fn clone(&self) -> (r: PubrelPacket)
        ensures
            r@ == self@,
    {
        proof {
            use_type_invariant(self);
        }
        PubrelPacket {
            fixed_header: self.fixed_header,
            packet_identifier: self.packet_identifier,
        }
    }
}

impl PubrelPacket {
    #[verifier::type_invariant]
    spec fn well_formed(&self) -> bool {
        spec_identifier_packet_valid(ControlType::PublishRelease, self@)
    }

    /// A PUBREL for the packet identifier `pkid`.
    pub fn new(pkid: u16) -> (r: PubrelPacket)
        ensures
            r@.packet_identifier == pkid,
            r@.fixed_header == (FixedHeader {
                packet_type: PacketType { control_type: ControlType::PublishRelease, flags: 2 },
                remaining_length: 2,
            }),
    {
        PubrelPacket {
            fixed_header: FixedHeader::new(
                PacketType::with_default(ControlType::PublishRelease),
                2,
            ),
            packet_identifier: PacketIdentifier(pkid),
        }
    }

    /// The packet identifier.
    pub fn packet_identifier(&self) -> (r: u16)
        ensures
            r == self@.packet_identifier,
    {
        self.packet_identifier.0
    }

    /// Replaces the packet identifier.
    pub fn set_packet_identifier(&mut self, pkid: u16)
        ensures
            final(self)@.packet_identifier == pkid,
            final(self)@.fixed_header == old(self)@.fixed_header,
    {
        proof {
            use_type_invariant(&*self);
        }
        self.packet_identifier = PacketIdentifier(pkid);
    }
}

impl Packet for PubrelPacket {
    type Payload = ();

    open spec fn spec_control_type() -> ControlType {
        ControlType::PublishRelease
    }

    open spec fn spec_valid(v: IdentifierPacketView) -> bool {
        spec_identifier_packet_valid(ControlType::PublishRelease, v)
    }

    open spec fn spec_fixed_header(v: IdentifierPacketView) -> FixedHeader {
        v.fixed_header
    }

    open spec fn spec_variable_headers(v: IdentifierPacketView) -> Seq<u8> {
        PacketIdentifier(v.packet_identifier).spec_wire()
    }

    open spec fn spec_variable_headers_error(v: IdentifierPacketView) -> Option<PacketError> {
        None
    }

    open spec fn spec_payload(v: IdentifierPacketView) -> Seq<u8> {
        Seq::empty()
    }

    open spec fn spec_payload_error(v: IdentifierPacketView) -> Option<PacketError> {
        None
    }

    open spec fn spec_decode_body(fixed_header: FixedHeader, body: Seq<u8>) -> Result<
        IdentifierPacketView,
        PacketError,
    > {
        spec_decode_identifier_body(ControlType::PublishRelease, fixed_header, body)
    }

    open spec fn spec_payload_wire(payload: &()) -> Seq<u8> {
        Seq::empty()
    }

    fn fixed_header(&self) -> (r: &FixedHeader) {
        proof {
            use_type_invariant(self);
            assert(Self::spec_valid(self@));
        }
        &self.fixed_header
    }

    fn payload(self) -> (r: ()) {
        ()
    }

    fn payload_ref(&self) -> (r: &()) {
        &()
    }

    fn encode_variable_headers(&self, out: &mut Vec<u8>) -> (r: Result<(), PacketError>) {
        self.packet_identifier.encode(out);
        Ok(())
    }

    fn encoded_variable_headers_length(&self) -> (n: u32) {
        self.packet_identifier.encoded_length()
    }

    fn encode_payload(&self, out: &mut Vec<u8>) -> (r: Result<(), PacketError>) {
        assert(out@ + Seq::<u8>::empty() =~= out@);
        Ok(())
    }

    fn encoded_payload_length(&self) -> (n: u32) {
        0
    }

    fn decode_body(body: ByteReader, fixed_header: FixedHeader) -> (r: Result<Self, PacketError>) {
        match decode_identifier_body(ControlType::PublishRelease, body, fixed_header) {
            Ok(packet_identifier) => Ok(PubrelPacket { fixed_header, packet_identifier }),
            Err(e) => Err(e),
        }
    }

    proof fn lemma_remaining_length(v: IdentifierPacketView) {
        assert(Self::spec_control_type() == ControlType::PublishRelease);
        assert(Self::spec_fixed_header(v) == v.fixed_header);
    }

    proof fn lemma_decoded_valid(fixed_header: FixedHeader, body: Seq<u8>) {
        if let Ok(v) = Self::spec_decode_body(fixed_header, body) {
            assert(Self::spec_valid(v));
            assert(Self::spec_fixed_header(v) == fixed_header);
        }
    }

    proof fn lemma_body_roundtrip(v: IdentifierPacketView) {
        lemma_identifier_body_roundtrip(ControlType::PublishRelease, v);
        assert(Self::spec_variable_headers(v) + Self::spec_payload(v)
            =~= PacketIdentifier(v.packet_identifier).spec_wire());
    }
}

} // verus!
