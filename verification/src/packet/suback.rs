//! SUBACK

use crate::control::fixed_header::MAX_REMAINING_LENGTH;
use crate::control::variable_header::PacketIdentifier;
use crate::control::{ControlType, FixedHeader, FixedHeaderError, PacketType};
use crate::encodable::encode_u8;
use crate::packet::{check_header, spec_header_error, Packet, PacketError, PayloadError};
use crate::reader::ByteReader;
use vstd::prelude::*;

verus! {

/// What the server made of one subscription.
#[derive(Debug, Clone, Copy, PartialEq, Eq, Structural)]
pub enum SubscribeReturnCode {
    /// Granted, at most once: byte 0x00.
    MaximumQoSLevel0,
    /// Granted, at least once: byte 0x01.
    MaximumQoSLevel1,
    /// Granted, exactly once: byte 0x02.
    MaximumQoSLevel2,
    /// Refused: byte 0x80.
    Failure,
}

impl SubscribeReturnCode {
    /// The byte of the code.
    pub open spec fn spec_to_u8(self) -> u8 {
        match self {
            SubscribeReturnCode::MaximumQoSLevel0 => 0x00,
            SubscribeReturnCode::MaximumQoSLevel1 => 0x01,
            SubscribeReturnCode::MaximumQoSLevel2 => 0x02,
            SubscribeReturnCode::Failure => 0x80,
        }
    }

    /// The code that the byte `b` stands for, if any.
    pub open spec fn spec_from_u8(b: u8) -> Option<SubscribeReturnCode> {
        if b == 0x00 {
            Some(SubscribeReturnCode::MaximumQoSLevel0)
        } else if b == 0x01 {
            Some(SubscribeReturnCode::MaximumQoSLevel1)
        } else if b == 0x02 {
            Some(SubscribeReturnCode::MaximumQoSLevel2)
        } else if b == 0x80 {
            Some(SubscribeReturnCode::Failure)
        } else {
            None
        }
    }

    /// The byte of the code.
    pub fn to_u8(self) -> (r: u8)
        ensures
            r == self.spec_to_u8(),
            Self::spec_from_u8(r) == Some(self),
    {
        match self {
            SubscribeReturnCode::MaximumQoSLevel0 => 0x00,
            SubscribeReturnCode::MaximumQoSLevel1 => 0x01,
            SubscribeReturnCode::MaximumQoSLevel2 => 0x02,
            SubscribeReturnCode::Failure => 0x80,
        }
    }

    /// The code that the byte `b` stands for: `None` unless `b` is 0x00,
    /// 0x01, 0x02 or 0x80.
    pub fn from_u8(b: u8) -> (r: Option<SubscribeReturnCode>)
        ensures
            r == Self::spec_from_u8(b),
            r matches Some(c) ==> c.spec_to_u8() == b,
    {
        match b {
            0x00 => Some(SubscribeReturnCode::MaximumQoSLevel0),
            0x01 => Some(SubscribeReturnCode::MaximumQoSLevel1),
            0x02 => Some(SubscribeReturnCode::MaximumQoSLevel2),
            0x80 => Some(SubscribeReturnCode::Failure),
            _ => None,
        }
    }
}

/// The bytes of a list of return codes: one byte each.
pub open spec fn spec_return_codes_wire(codes: Seq<SubscribeReturnCode>) -> Seq<u8> {
    Seq::new(codes.len(), |i: int| codes[i].spec_to_u8())
}

/// The list of return codes that `body` holds from its first byte to its
/// last; the first byte that is no return code is the error.
pub open spec fn spec_decode_return_codes(body: Seq<u8>) -> Result<
    Seq<SubscribeReturnCode>,
    PacketError,
>
    decreases body.len(),
{
    if body.len() == 0 {
        Ok(Seq::empty())
    } else {
        match SubscribeReturnCode::spec_from_u8(body[0]) {
            None => Err(
                PacketError::PayloadError(PayloadError::InvalidSubscribeReturnCode(body[0])),
            ),
            Some(code) => match spec_decode_return_codes(body.skip(1)) {
                Err(e) => Err(e),
                Ok(rest) => Ok(seq![code] + rest),
            },
        }
    }
}

/// `body` is the wire form of the list of return codes that was read from it.
pub proof fn lemma_return_codes_canonical(body: Seq<u8>)
    ensures
        spec_decode_return_codes(body) matches Ok(codes) ==> spec_return_codes_wire(codes) == body,
    decreases body.len(),
{
    if body.len() > 0 {
        if let Some(code) = SubscribeReturnCode::spec_from_u8(body[0]) {
            lemma_return_codes_canonical(body.skip(1));
            if let Ok(rest) = spec_decode_return_codes(body.skip(1)) {
                let codes = seq![code] + rest;
                assert(spec_return_codes_wire(rest) == body.skip(1));
                assert forall|i: int| 0 <= i < body.len() implies spec_return_codes_wire(codes)[i]
                    == body[i] by {
                    if i > 0 {
                        assert(codes[i] == rest[i - 1]);
                        assert(spec_return_codes_wire(rest)[i - 1] == body.skip(1)[i - 1]);
                    }
                }
                assert(spec_return_codes_wire(codes) =~= body);
            }
        }
    } else {
        assert(spec_return_codes_wire(Seq::empty()) =~= body);
    }
}

/// A list of return codes is read back from its wire form.
pub proof fn lemma_return_codes_roundtrip(codes: Seq<SubscribeReturnCode>)
    ensures
        spec_decode_return_codes(spec_return_codes_wire(codes)) == Ok::<
            Seq<SubscribeReturnCode>,
            PacketError,
        >(codes),
    decreases codes.len(),
{
    let body = spec_return_codes_wire(codes);
    if codes.len() > 0 {
        let rest = codes.drop_first();
        lemma_return_codes_roundtrip(rest);
        assert(body.skip(1) =~= spec_return_codes_wire(rest));
        assert(body[0] == codes[0].spec_to_u8());
        assert(seq![codes[0]] + rest =~= codes);
    } else {
        assert(codes =~= Seq::empty());
    }
}

/// `SUBACK` packet: the server's answer to a SUBSCRIBE, one return code for
/// each subscription, in the order of the request.
#[derive(Debug, Eq, PartialEq)]
pub struct SubackPacket {
    fixed_header: FixedHeader,
    packet_identifier: PacketIdentifier,
    payload: Vec<SubscribeReturnCode>,
}

/// The model of a SUBACK.
pub struct SubackPacketView {
    /// The fixed header.
    pub fixed_header: FixedHeader,
    /// The packet identifier.
    pub packet_identifier: u16,
    /// The return codes, in order.
    pub return_codes: Seq<SubscribeReturnCode>,
}

impl View for SubackPacket {
    type V = SubackPacketView;

    closed spec fn view(&self) -> SubackPacketView {
        SubackPacketView {
            fixed_header: self.fixed_header,
            packet_identifier: self.packet_identifier.0,
            return_codes: self.payload@,
        }
    }
}

/// A copy of a list of return codes.
fn clone_return_codes(codes: &Vec<SubscribeReturnCode>) -> (r: Vec<SubscribeReturnCode>)
    ensures
        r@ == codes@,
{
    let mut out: Vec<SubscribeReturnCode> = Vec::new();
    let mut i: usize = 0;
    while i < codes.len()
        invariant
            i <= codes@.len(),
            out@ == codes@.take(i as int),
        decreases codes@.len() - i,
    {
        out.push(codes[i]);
        i = i + 1;
        assert(out@ =~= codes@.take(i as int));
    }
    assert(codes@.take(i as int) =~= codes@);
    out
}

impl Clone for SubackPacket {
    fn clone(&self) -> (r: SubackPacket)
        ensures
            r@ == self@,
    {
        proof {
            use_type_invariant(self);
        }
        SubackPacket {
            fixed_header: self.fixed_header,
            packet_identifier: self.packet_identifier,
            payload: clone_return_codes(&self.payload),
        }
    }
}

/// Reads a list of return codes that fills `source` to its last byte.
fn decode_return_codes(source: ByteReader) -> (r: Result<Vec<SubscribeReturnCode>, PacketError>)
    ensures
        match spec_decode_return_codes(source.remaining()) {
            Ok(codes) => r is Ok && r->Ok_0@ == codes,
            Err(e) => r is Err && r->Err_0 == e,
        },
{
    let ghost input = source.remaining();
    let mut body = source.fork();
    let mut payload: Vec<SubscribeReturnCode> = Vec::new();
    proof {
        if let Ok(rest) = spec_decode_return_codes(input) {
            assert(payload@ + rest =~= rest);
        }
    }
    while body.remaining_len() > 0
        invariant
            input == source.remaining(),
            match spec_decode_return_codes(body.remaining()) {
                Ok(rest) => spec_decode_return_codes(input) == Ok::<
                    Seq<SubscribeReturnCode>,
                    PacketError,
                >(payload@ + rest),
                Err(e) => spec_decode_return_codes(input) == Err::<
                    Seq<SubscribeReturnCode>,
                    PacketError,
                >(e),
            },
        decreases body.remaining().len(),
    {
        let ghost done = payload@;
        let byte = match body.read_u8() {
            Ok(b) => b,
            Err(e) => {
                return Err(PacketError::IoError(e));
            },
        };
        let code = match SubscribeReturnCode::from_u8(byte) {
            Some(c) => c,
            None => {
                return Err(
                    PacketError::PayloadError(PayloadError::InvalidSubscribeReturnCode(byte)),
                );
            },
        };
        payload.push(code);
        proof {
            if let Ok(rest) = spec_decode_return_codes(body.remaining()) {
                assert(done + (seq![code] + rest) =~= done.push(code) + rest);
            }
        }
    }
    proof {
        assert(payload@ + Seq::<SubscribeReturnCode>::empty() =~= payload@);
    }
    Ok(payload)
}

impl SubackPacket {
    #[verifier::type_invariant]
    spec fn well_formed(&self) -> bool {
        <SubackPacket as Packet>::spec_valid(self@)
    }

    /// A SUBACK with the given return codes.
    pub fn new(pkid: u16, subscribes: Vec<SubscribeReturnCode>) -> (r: SubackPacket)
        requires
            2 + subscribes@.len() <= MAX_REMAINING_LENGTH,
        ensures
            r@.packet_identifier == pkid,
            r@.return_codes == subscribes@,
            r@.fixed_header == (FixedHeader {
                packet_type: PacketType {
                    control_type: ControlType::SubscribeAcknowledgement,
                    flags: 0,
                },
                remaining_length: (2 + subscribes@.len()) as u32,
            }),
            <SubackPacket as Packet>::spec_valid(r@),
    {
        let payload_len = subscribes.len() as u32;
        SubackPacket {
            fixed_header: FixedHeader::new(
                PacketType::with_default(ControlType::SubscribeAcknowledgement),
                2 + payload_len,
            ),
            packet_identifier: PacketIdentifier(pkid),
            payload: subscribes,
        }
    }

    /// The packet identifier.
    pub fn packet_identifier(&self) -> (r: u16)
        ensures
            r == self@.packet_identifier,
    {
        self.packet_identifier.0
    }

    /// Replaces the packet identifier.
    pub fn set_packet_identifier(&mut self, pkid: u16)
        ensures
            final(self)@ == (SubackPacketView { packet_identifier: pkid, ..old(self)@ }),
    {
        proof {
            use_type_invariant(&*self);
        }
        self.packet_identifier = PacketIdentifier(pkid);
    }
}

impl Packet for SubackPacket {
    type Payload = Vec<SubscribeReturnCode>;

    open spec fn spec_control_type() -> ControlType {
        ControlType::SubscribeAcknowledgement
    }

    open spec fn spec_valid(v: SubackPacketView) -> bool {
        &&& v.fixed_header.packet_type.control_type == ControlType::SubscribeAcknowledgement
        &&& v.fixed_header.packet_type.flags == 0
        &&& v.fixed_header.remaining_length <= MAX_REMAINING_LENGTH
        &&& v.fixed_header.remaining_length == 2 + v.return_codes.len()
    }

    open spec fn spec_fixed_header(v: SubackPacketView) -> FixedHeader {
        v.fixed_header
    }

    open spec fn spec_variable_headers(v: SubackPacketView) -> Seq<u8> {
        PacketIdentifier(v.packet_identifier).spec_wire()
    }

    open spec fn spec_variable_headers_error(v: SubackPacketView) -> Option<PacketError> {
        None
    }

    open spec fn spec_payload(v: SubackPacketView) -> Seq<u8> {
        spec_return_codes_wire(v.return_codes)
    }

    open spec fn spec_payload_error(v: SubackPacketView) -> Option<PacketError> {
        None
    }

    open spec fn spec_decode_body(fixed_header: FixedHeader, body: Seq<u8>) -> Result<
        SubackPacketView,
        PacketError,
    > {
        match spec_header_error(ControlType::SubscribeAcknowledgement, fixed_header) {
            Some(e) => Err(e),
            None => if fixed_header.remaining_length > MAX_REMAINING_LENGTH {
                Err(PacketError::FixedHeaderError(FixedHeaderError::MalformedRemainingLength))
            } else {
                match PacketIdentifier::spec_decode(body) {
                    Err(e) => Err(PacketError::spec_from_variable_header_error(e)),
                    Ok((id, n)) => match spec_decode_return_codes(body.skip(n)) {
                        Err(e) => Err(e),
                        Ok(return_codes) => Ok(
                            SubackPacketView { fixed_header, packet_identifier: id.0,
                                return_codes },
                        ),
                    },
                }
            },
        }
    }

    open spec fn spec_payload_wire(payload: &Vec<SubscribeReturnCode>) -> Seq<u8> {
        spec_return_codes_wire(payload@)
    }

    fn fixed_header(&self) -> (r: &FixedHeader) {
        proof {
            use_type_invariant(self);
            assert(Self::spec_valid(self@));
        }
        &self.fixed_header
    }

    fn payload(self) -> (r: Vec<SubscribeReturnCode>)
        ensures
            r@ == self@.return_codes,
    {
        self.payload
    }

    fn payload_ref(&self) -> (r: &Vec<SubscribeReturnCode>)
        ensures
            r@ == self@.return_codes,
    {
        &self.payload
    }

    fn encode_variable_headers(&self, out: &mut Vec<u8>) -> (r: Result<(), PacketError>) {
        self.packet_identifier.encode(out);
        Ok(())
    }

    fn encoded_variable_headers_length(&self) -> (n: u32) {
        self.packet_identifier.encoded_length()
    }

    fn encode_payload(&self, out: &mut Vec<u8>) -> (r: Result<(), PacketError>) {
        let ghost wire = spec_return_codes_wire(self.payload@);
        let mut i: usize = 0;
        assert(out@ =~= old(out)@ + wire.take(0));
        while i < self.payload.len()
            invariant
                i <= self.payload@.len(),
                wire == spec_return_codes_wire(self.payload@),
                out@ == old(out)@ + wire.take(i as int),
            decreases self.payload@.len() - i,
        {
            encode_u8(self.payload[i].to_u8(), out);
            i = i + 1;
            assert(out@ =~= old(out)@ + wire.take(i as int));
        }
        assert(wire.take(i as int) =~= wire);
        Ok(())
    }

    fn encoded_payload_length(&self) -> (n: u32) {
        proof {
            use_type_invariant(self);
        }
        self.payload.len() as u32
    }

    fn decode_body(body: ByteReader, fixed_header: FixedHeader) -> (r: Result<Self, PacketError>) {
        let mut body = body;
        match check_header(ControlType::SubscribeAcknowledgement, &fixed_header) {
            Ok(()) => {},
            Err(e) => {
                return Err(e);
            },
        }
        if fixed_header.remaining_length > MAX_REMAINING_LENGTH {
            return Err(PacketError::FixedHeaderError(FixedHeaderError::MalformedRemainingLength));
        }
        let packet_identifier = match PacketIdentifier::decode(&mut body) {
            Ok(id) => id,
            Err(e) => {
                return Err(PacketError::from_variable_header_error(e));
            },
        };
        let ghost input = body.remaining();
        let payload = match decode_return_codes(body) {
            Ok(p) => p,
            Err(e) => {
                return Err(e);
            },
        };
        proof {
            lemma_return_codes_canonical(input);
        }
        Ok(SubackPacket { fixed_header, packet_identifier, payload })
    }

    proof fn lemma_remaining_length(v: SubackPacketView) {
        assert(Self::spec_control_type() == ControlType::SubscribeAcknowledgement);
        assert(Self::spec_fixed_header(v) == v.fixed_header);
    }

    proof fn lemma_decoded_valid(fixed_header: FixedHeader, body: Seq<u8>) {
        if let Ok(v) = Self::spec_decode_body(fixed_header, body) {
            lemma_return_codes_canonical(body.skip(2));
            assert(Self::spec_valid(v));
            assert(Self::spec_fixed_header(v) == fixed_header);
        }
    }

    proof fn lemma_body_roundtrip(v: SubackPacketView) {
        let payload = spec_return_codes_wire(v.return_codes);
        crate::encodable::lemma_u16_roundtrip(v.packet_identifier, payload);
        lemma_return_codes_roundtrip(v.return_codes);
    }
}

} // verus!
