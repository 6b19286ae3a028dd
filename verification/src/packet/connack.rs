//! CONNACK

use crate::control::variable_header::{ConnackFlags, ConnectReturnCode};
use crate::control::{ControlType, FixedHeader, PacketType};
use crate::packet::{check_header, spec_header_error, MalformedReason, Packet, PacketError};
use crate::reader::ByteReader;
use vstd::prelude::*;

verus! {

/// `CONNACK` packet: the server's answer to a CONNECT.
#[derive(Debug, Eq, PartialEq)]
pub struct ConnackPacket {
    fixed_header: FixedHeader,
    flags: ConnackFlags,
    ret_code: ConnectReturnCode,
}

/// The model of a CONNACK.
pub struct ConnackPacketView {
    /// The fixed header.
    pub fixed_header: FixedHeader,
    /// The acknowledge flags.
    pub flags: ConnackFlags,
    /// The return code.
    pub ret_code: ConnectReturnCode,
}

impl View for ConnackPacket {
    type V = ConnackPacketView;

    closed spec fn view(&self) -> ConnackPacketView {
        ConnackPacketView {
            fixed_header: self.fixed_header,
            flags: self.flags,
            ret_code: self.ret_code,
        }
    }
}

impl Clone for ConnackPacket {
    fn clone(&self) -> (r: ConnackPacket)
        ensures
            r@ == self@,
    {
        proof {
            use_type_invariant(self);
        }
        ConnackPacket { fixed_header: self.fixed_header, flags: self.flags,
            ret_code: self.ret_code }
    }
}

impl ConnackPacket {
    #[verifier::type_invariant]
    spec fn well_formed(&self) -> bool {
        <ConnackPacket as Packet>::spec_valid(self@)
    }

    /// A CONNACK with the given session flag and return code. A reserved
    /// code whose byte is one of the named codes becomes that code.
    pub fn new(session_present: bool, ret_code: ConnectReturnCode) -> (r: ConnackPacket)
        ensures
            r@.flags.session_present == session_present,
            r@.ret_code == ConnectReturnCode::spec_from_u8(ret_code.spec_to_u8()),
            r@.fixed_header == (FixedHeader {
                packet_type: PacketType {
                    control_type: ControlType::ConnectAcknowledgement,
                    flags: 0,
                },
                remaining_length: 2,
            }),
    {
        ConnackPacket {
            fixed_header: FixedHeader::new(
                PacketType::with_default(ControlType::ConnectAcknowledgement),
                2,
            ),
            flags: ConnackFlags { session_present },
            ret_code: ConnectReturnCode::from_u8(ret_code.to_u8()),
        }
    }

    /// The acknowledge flags.
    pub fn connack_flags(&self) -> (r: ConnackFlags)
        ensures
            r == self@.flags,
    {
        self.flags
    }

    /// The return code.
    pub fn connect_return_code(&self) -> (r: ConnectReturnCode)
        ensures
            r == self@.ret_code,
            r.valid(),
    {
        proof {
            use_type_invariant(self);
        }
        self.ret_code
    }
}

impl Packet for ConnackPacket {
    type Payload = ();

    open spec fn spec_control_type() -> ControlType {
        ControlType::ConnectAcknowledgement
    }

    open spec fn spec_valid(v: ConnackPacketView) -> bool {
        &&& v.fixed_header.packet_type.control_type == ControlType::ConnectAcknowledgement
        &&& v.fixed_header.packet_type.flags == 0
        &&& v.fixed_header.remaining_length == 2
        &&& v.ret_code.valid()
    }

    open spec fn spec_fixed_header(v: ConnackPacketView) -> FixedHeader {
        v.fixed_header
    }

    open spec fn spec_variable_headers(v: ConnackPacketView) -> Seq<u8> {
        v.flags.spec_wire() + v.ret_code.spec_wire()
    }

    open spec fn spec_variable_headers_error(v: ConnackPacketView) -> Option<PacketError> {
        None
    }

    open spec fn spec_payload(v: ConnackPacketView) -> Seq<u8> {
        Seq::empty()
    }

    open spec fn spec_payload_error(v: ConnackPacketView) -> Option<PacketError> {
        None
    }

    open spec fn spec_decode_body(fixed_header: FixedHeader, body: Seq<u8>) -> Result<
        ConnackPacketView,
        PacketError,
    > {
        match spec_header_error(ControlType::ConnectAcknowledgement, fixed_header) {
            Some(e) => Err(e),
            None => match ConnackFlags::spec_decode(body) {
                Err(e) => Err(PacketError::spec_from_variable_header_error(e)),
                Ok((flags, n)) => match ConnectReturnCode::spec_decode(body.skip(n)) {
                    Err(e) => Err(PacketError::spec_from_variable_header_error(e)),
                    Ok((ret_code, m)) => if body.len() != n + m {
                        Err(PacketError::MalformedPacket(MalformedReason::TrailingBytes))
                    } else {
                        Ok(ConnackPacketView { fixed_header, flags, ret_code })
                    },
                },
            },
        }
    }

    open spec fn spec_payload_wire(payload: &()) -> Seq<u8> {
        Seq::empty()
    }

    fn fixed_header(&self) -> (r: &FixedHeader) {
        proof {
            use_type_invariant(self);
            assert(Self::spec_valid(self@));
        }
        &self.fixed_header
    }

    fn payload(self) -> (r: ()) {
        ()
    }

    fn payload_ref(&self) -> (r: &()) {
        &()
    }

    fn encode_variable_headers(&self, out: &mut Vec<u8>) -> (r: Result<(), PacketError>) {
        self.flags.encode(out);
        self.ret_code.encode(out);
        assert(out@ =~= old(out)@ + Self::spec_variable_headers(self@));
        Ok(())
    }

    fn encoded_variable_headers_length(&self) -> (n: u32) {
        self.flags.encoded_length() + self.ret_code.encoded_length()
    }

    fn encode_payload(&self, out: &mut Vec<u8>) -> (r: Result<(), PacketError>) {
        assert(out@ + Seq::<u8>::empty() =~= out@);
        Ok(())
    }

    fn encoded_payload_length(&self) -> (n: u32) {
        0
    }

    fn decode_body(body: ByteReader, fixed_header: FixedHeader) -> (r: Result<Self, PacketError>) {
        let mut body = body;
        match check_header(ControlType::ConnectAcknowledgement, &fixed_header) {
            Ok(()) => {},
            Err(e) => {
                return Err(e);
            },
        }
        let flags = match ConnackFlags::decode(&mut body) {
            Ok(f) => f,
            Err(e) => {
                return Err(PacketError::from_variable_header_error(e));
            },
        };
        let ret_code = match ConnectReturnCode::decode(&mut body) {
            Ok(c) => c,
            Err(e) => {
                return Err(PacketError::from_variable_header_error(e));
            },
        };
        if body.remaining_len() != 0 {
            return Err(PacketError::MalformedPacket(MalformedReason::TrailingBytes));
        }
        Ok(ConnackPacket { fixed_header, flags, ret_code })
    }

    proof fn lemma_remaining_length(v: ConnackPacketView) {
        assert(Self::spec_control_type() == ControlType::ConnectAcknowledgement);
        assert(Self::spec_fixed_header(v) == v.fixed_header);
    }

    proof fn lemma_decoded_valid(fixed_header: FixedHeader, body: Seq<u8>) {
        if let Ok(v) = Self::spec_decode_body(fixed_header, body) {
            assert(Self::spec_valid(v));
            assert(Self::spec_fixed_header(v) == fixed_header);
        }
    }

    proof fn lemma_body_roundtrip(v: ConnackPacketView) {
        let body = Self::spec_variable_headers(v) + Self::spec_payload(v);
        assert(body =~= seq![v.flags.spec_wire()[0], v.ret_code.spec_to_u8()]);
        assert(body.skip(1)[0] == v.ret_code.spec_to_u8());
    }
}

} // verus!
