//! DISCONNECT

use crate::control::{ControlType, FixedHeader, PacketType};
use crate::packet::{
    decode_empty_body, spec_decode_empty_body, spec_empty_packet_valid, EmptyPacketView, Packet,
    PacketError,
};
use crate::reader::ByteReader;
use vstd::prelude::*;

verus! {

/// `DISCONNECT` packet: the client takes its leave.
#[derive(Debug, Eq, PartialEq)]
pub struct DisconnectPacket {
    fixed_header: FixedHeader,
}

impl View for DisconnectPacket {
    type V = EmptyPacketView;

    closed spec fn view(&self) -> EmptyPacketView {
        EmptyPacketView { fixed_header: self.fixed_header }
    }
}

impl Clone for DisconnectPacket {
    fn clone(&self) -> (r: DisconnectPacket)
        ensures
            r@ == self@,
    {
        proof {
            use_type_invariant(self);
        }
        DisconnectPacket { fixed_header: self.fixed_header }
    }
}

impl DisconnectPacket {
    #[verifier::type_invariant]
    spec fn well_formed(&self) -> bool {
        spec_empty_packet_valid(ControlType::Disconnect, self@)
    }

    /// A DISCONNECT.
    pub fn new() -> (r: DisconnectPacket)
        ensures
            r@.fixed_header == (FixedHeader {
                packet_type: PacketType { control_type: ControlType::Disconnect, flags: 0 },
                remaining_length: 0,
            }),
    {
        DisconnectPacket {
            fixed_header: FixedHeader::new(PacketType::with_default(ControlType::Disconnect), 0),
        }
    }
}

impl Packet for DisconnectPacket {
    type Payload = ();

    open spec fn spec_control_type() -> ControlType {
        ControlType::Disconnect
    }

    open spec fn spec_valid(v: EmptyPacketView) -> bool {
        spec_empty_packet_valid(ControlType::Disconnect, v)
    }

    open spec fn spec_fixed_header(v: EmptyPacketView) -> FixedHeader {
        v.fixed_header
    }

    open spec fn spec_variable_headers(v: EmptyPacketView) -> Seq<u8> {
        Seq::empty()
    }

    open spec fn spec_variable_headers_error(v: EmptyPacketView) -> Option<PacketError> {
        None
    }

    open spec fn spec_payload(v: EmptyPacketView) -> Seq<u8> {
        Seq::empty()
    }

    open spec fn spec_payload_error(v: EmptyPacketView) -> Option<PacketError> {
        None
    }

    open spec fn spec_decode_body(fixed_header: FixedHeader, body: Seq<u8>) -> Result<
        EmptyPacketView,
        PacketError,
    > {
        spec_decode_empty_body(ControlType::Disconnect, fixed_header, body)
    }

    open spec fn spec_payload_wire(payload: &()) -> Seq<u8> {
        Seq::empty()
    }

    fn fixed_header(&self) -> (r: &FixedHeader) {
        proof {
            use_type_invariant(self);
            assert(Self::spec_valid(self@));
        }
        &self.fixed_header
    }

    fn payload(self) -> (r: ()) {
        ()
    }

    fn payload_ref(&self) -> (r: &()) {
        &()
    }

    fn encode_variable_headers(&self, out: &mut Vec<u8>) -> (r: Result<(), PacketError>) {
        assert(out@ + Seq::<u8>::empty() =~= out@);
        Ok(())
    }

    fn encoded_variable_headers_length(&self) -> (n: u32) {
        0
    }

    fn encode_payload(&self, out: &mut Vec<u8>) -> (r: Result<(), PacketError>) {
        assert(out@ + Seq::<u8>::empty() =~= out@);
        Ok(())
    }

    fn encoded_payload_length(&self) -> (n: u32) {
        0
    }

    fn decode_body(body: ByteReader, fixed_header: FixedHeader) -> (r: Result<Self, PacketError>) {
        match decode_empty_body(ControlType::Disconnect, body, fixed_header) {
            Ok(()) => Ok(DisconnectPacket { fixed_header }),
            Err(e) => Err(e),
        }
    }

    proof fn lemma_remaining_length(v: EmptyPacketView) {
        assert(Self::spec_control_type() == ControlType::Disconnect);
        assert(Self::spec_fixed_header(v) == v.fixed_header);
    }

    proof fn lemma_decoded_valid(fixed_header: FixedHeader, body: Seq<u8>) {
        if let Ok(v) = Self::spec_decode_body(fixed_header, body) {
            assert(Self::spec_valid(v));
            assert(Self::spec_fixed_header(v) == fixed_header);
        }
    }

    proof fn lemma_body_roundtrip(v: EmptyPacketView) {
        assert(Self::spec_variable_headers(v) + Self::spec_payload(v) =~= Seq::<u8>::empty());
    }
}

} // verus!
