//! PUBLISH

use crate::control::fixed_header::MAX_REMAINING_LENGTH;
use crate::control::variable_header::{PacketIdentifier, TopicNameHeader};
use crate::control::{ControlType, FixedHeader, FixedHeaderError, PacketType};
use crate::encodable::{encode_bytes, spec_string_wire};
use crate::packet::{MalformedReason, Packet, PacketError};
use crate::qos::QualityOfService;
use crate::reader::ByteReader;
use crate::topic_name::{lemma_topic_name_roundtrip, spec_topic_name_error, TopicName};
use vstd::prelude::*;
use vstd::slice::slice_to_vec;

verus! {

/// A quality of service together with the packet identifier that levels 1
/// and 2 call for.
#[derive(Debug, Clone, Copy, PartialEq, Eq, Structural)]
pub enum QoSWithPacketIdentifier {
    /// At most once: no identifier.
    Level0,
    /// At least once.
    Level1(u16),
    /// Exactly once.
    Level2(u16),
}

impl QoSWithPacketIdentifier {
    /// The quality of service.
    pub open spec fn spec_qos(self) -> QualityOfService {
        match self {
            QoSWithPacketIdentifier::Level0 => QualityOfService::Level0,
            QoSWithPacketIdentifier::Level1(_) => QualityOfService::Level1,
            QoSWithPacketIdentifier::Level2(_) => QualityOfService::Level2,
        }
    }

    /// The packet identifier, if the level has one.
    pub open spec fn spec_packet_identifier(self) -> Option<u16> {
        match self {
            QoSWithPacketIdentifier::Level0 => None,
            QoSWithPacketIdentifier::Level1(id) => Some(id),
            QoSWithPacketIdentifier::Level2(id) => Some(id),
        }
    }

    /// The level `qos`, with the identifier `id` where the level has one.
    pub fn new(qos: QualityOfService, id: u16) -> (r: QoSWithPacketIdentifier)
        ensures
            r.spec_qos() == qos,
            r.spec_packet_identifier() == if qos == QualityOfService::Level0 {
                None
            } else {
                Some(id)
            },
    {
        match qos {
            QualityOfService::Level0 => QoSWithPacketIdentifier::Level0,
            QualityOfService::Level1 => QoSWithPacketIdentifier::Level1(id),
            QualityOfService::Level2 => QoSWithPacketIdentifier::Level2(id),
        }
    }

    /// The quality of service and the packet identifier, apart.
    pub fn split(self) -> (r: (QualityOfService, Option<u16>))
        ensures
            r.0 == self.spec_qos(),
            r.1 == self.spec_packet_identifier(),
    {
        match self {
            QoSWithPacketIdentifier::Level0 => (QualityOfService::Level0, None),
            QoSWithPacketIdentifier::Level1(id) => (QualityOfService::Level1, Some(id)),
            QoSWithPacketIdentifier::Level2(id) => (QualityOfService::Level2, Some(id)),
        }
    }
}

/// The flags of a PUBLISH: bit 3 duplicate delivery, bits 2 and 1 quality
/// of service, bit 0 retain.
pub open spec fn spec_publish_flags(dup: bool, qos: QualityOfService, retain: bool) -> u8 {
    ((if dup {
        8int
    } else {
        0int
    }) + 2 * qos.spec_to_u8() + (if retain {
        1int
    } else {
        0int
    })) as u8
}

/// `PUBLISH` packet: a message for a topic.
#[derive(Debug, Eq, PartialEq)]
pub struct PublishPacket {
    fixed_header: FixedHeader,
    topic_name: TopicNameHeader,
    packet_identifier: Option<PacketIdentifier>,
    payload: Vec<u8>,
}

/// The model of a PUBLISH.
pub struct PublishPacketView {
    /// The fixed header; its flags hold duplicate, quality of service and
    /// retain.
    pub fixed_header: FixedHeader,
    /// The topic.
    pub topic_name: Seq<char>,
    /// The packet identifier, present at quality of service 1 and 2.
    pub packet_identifier: Option<u16>,
    /// The message.
    pub payload: Seq<u8>,
}

impl PublishPacketView {
    /// Whether the packet is a repeated delivery.
    pub open spec fn dup(self) -> bool {
        self.fixed_header.packet_type.flags / 8 == 1
    }

    /// The number of the quality of service.
    pub open spec fn qos_bits(self) -> u8 {
        (self.fixed_header.packet_type.flags / 2) % 4
    }

    /// Whether the server is to keep the message for later subscribers.
    pub open spec fn retain(self) -> bool {
        self.fixed_header.packet_type.flags % 2 == 1
    }

    /// The bytes of the packet identifier, if there is one.
    pub open spec fn identifier_wire(self) -> Seq<u8> {
        match self.packet_identifier {
            Some(id) => PacketIdentifier(id).spec_wire(),
            None => Seq::empty(),
        }
    }
}

impl View for PublishPacket {
    type V = PublishPacketView;

    closed spec fn view(&self) -> PublishPacketView {
        PublishPacketView {
            fixed_header: self.fixed_header,
            topic_name: self.topic_name@,
            packet_identifier: match self.packet_identifier {
                Some(id) => Some(id.0),
                None => None,
            },
            payload: self.payload@,
        }
    }
}

impl Clone for PublishPacket {
    fn clone(&self) -> (r: PublishPacket)
        ensures
            r@ == self@,
    {
        proof {
            use_type_invariant(self);
        }
        let payload = slice_to_vec(self.payload.as_slice());
        PublishPacket {
            fixed_header: self.fixed_header,
            topic_name: self.topic_name.clone(),
            packet_identifier: self.packet_identifier,
            payload,
        }
    }
}

impl PublishPacket {
    #[verifier::type_invariant]
    spec fn well_formed(&self) -> bool {
        <PublishPacket as Packet>::spec_valid(self@)
    }

    /// A PUBLISH of `payload` to `topic_name`, not a duplicate and not
    /// retained.
    pub fn new(topic_name: TopicName, qos: QoSWithPacketIdentifier, payload: Vec<u8>) -> (r:
        PublishPacket)
        requires
            spec_string_wire(topic_name@).len() + 2 + payload@.len() <= MAX_REMAINING_LENGTH,
        ensures
            r@.topic_name == topic_name@,
            r@.packet_identifier == qos.spec_packet_identifier(),
            r@.payload == payload@,
            r@.fixed_header.packet_type.control_type == ControlType::Publish,
            r@.fixed_header.packet_type.flags == spec_publish_flags(false, qos.spec_qos(), false),
            !r@.dup() && !r@.retain() && r@.qos_bits() == qos.spec_qos().spec_to_u8(),
            <PublishPacket as Packet>::spec_valid(r@),
    {
        Self::assemble(false, false, TopicNameHeader::from_topic_name(topic_name), qos, payload)
    }

    /// Marks the packet as a repeated delivery, or not.
    pub fn set_dup(&mut self, dup: bool)
        ensures
            final(self)@.dup() == dup,
            final(self)@.retain() == old(self)@.retain(),
            final(self)@.qos_bits() == old(self)@.qos_bits(),
            final(self)@ == (PublishPacketView {
                fixed_header: final(self)@.fixed_header,
                ..old(self)@
            }),
            final(self)@.fixed_header.remaining_length == old(self)@.fixed_header.remaining_length,
    {
        proof {
            use_type_invariant(&*self);
        }
        let flags = self.fixed_header.packet_type.flags;
        let low: u8 = flags % 8;
        let new_flags: u8 = if dup {
            low + 8
        } else {
            low
        };
        self.fixed_header.packet_type.flags = new_flags;
    }

    /// Asks the server to keep the message for later subscribers, or not.
    pub fn set_retain(&mut self, retain: bool)
        ensures
            final(self)@.retain() == retain,
            final(self)@.dup() == old(self)@.dup(),
            final(self)@.qos_bits() == old(self)@.qos_bits(),
            final(self)@ == (PublishPacketView {
                fixed_header: final(self)@.fixed_header,
                ..old(self)@
            }),
            final(self)@.fixed_header.remaining_length == old(self)@.fixed_header.remaining_length,
    {
        proof {
            use_type_invariant(&*self);
        }
        let flags = self.fixed_header.packet_type.flags;
        let high: u8 = flags - flags % 2;
        let new_flags: u8 = if retain {
            high + 1
        } else {
            high
        };
        self.fixed_header.packet_type.flags = new_flags;
    }

    /// A packet that stands in while another is taken apart: an empty
    /// message for the topic `-` at quality of service 0.
    fn placeholder() -> (r: PublishPacket)
        ensures
            r@ == (PublishPacketView {
                fixed_header: FixedHeader {
                    packet_type: PacketType { control_type: ControlType::Publish, flags: 0 },
                    remaining_length: 3,
                },
                topic_name: "-"@,
                packet_identifier: None,
                payload: Seq::empty(),
            }),
    {
        proof {
            reveal_strlit("-");
            reveal_with_fuel(vstd::utf8::encode_utf8, 2);
            assert("-"@.len() == 1);
            assert(vstd::utf8::encode_utf8("-"@).len() == 1);
        }
        match TopicName::new("-".to_owned()) {
            Ok(topic_name) => Self::new(topic_name, QoSWithPacketIdentifier::Level0, Vec::new()),
            Err(_) => vstd::pervasive::unreached(),
        }
    }

    /// Puts a packet together from its parts and works out its remaining
    /// length.
    fn assemble(
        dup: bool,
        retain: bool,
        topic_name: TopicNameHeader,
        qos: QoSWithPacketIdentifier,
        payload: Vec<u8>,
    ) -> (r: PublishPacket)
        requires
            spec_string_wire(topic_name@).len() + 2 + payload@.len() <= MAX_REMAINING_LENGTH,
        ensures
            r@.topic_name == topic_name@,
            r@.packet_identifier == qos.spec_packet_identifier(),
            r@.payload == payload@,
            r@.fixed_header.packet_type.control_type == ControlType::Publish,
            r@.fixed_header.packet_type.flags == spec_publish_flags(dup, qos.spec_qos(), retain),
            r@.dup() == dup && r@.retain() == retain && r@.qos_bits()
                == qos.spec_qos().spec_to_u8(),
            r@.fixed_header.remaining_length == spec_string_wire(r@.topic_name).len()
                + r@.identifier_wire().len() + r@.payload.len(),
            <PublishPacket as Packet>::spec_valid(r@),
    {
        let (level, id) = qos.split();
        let topic_len = topic_name.encoded_length();
        let id_len: u32 = if id.is_some() {
            2
        } else {
            0
        };
        let remaining_length = topic_len + id_len + payload.len() as u32;
        let packet_identifier = match id {
            Some(v) => Some(PacketIdentifier(v)),
            None => None,
        };
        let mut flags: u8 = 2 * level.to_u8();
        if dup {
            flags = flags + 8;
        }
        if retain {
            flags = flags + 1;
        }
        PublishPacket {
            fixed_header: FixedHeader::new(
                PacketType::with_flags(ControlType::Publish, flags),
                remaining_length,
            ),
            topic_name,
            packet_identifier,
            payload,
        }
    }

    /// Sets the quality of service, with the packet identifier where the
    /// level has one, and brings the remaining length up to date.
    pub fn set_qos(&mut self, qos: QoSWithPacketIdentifier)
        requires
            spec_string_wire(old(self)@.topic_name).len() + 2 + old(self)@.payload.len()
                <= MAX_REMAINING_LENGTH,
        ensures
            final(self)@.packet_identifier == qos.spec_packet_identifier(),
            final(self)@.qos_bits() == qos.spec_qos().spec_to_u8(),
            final(self)@.dup() == old(self)@.dup(),
            final(self)@.retain() == old(self)@.retain(),
            final(self)@.topic_name == old(self)@.topic_name,
            final(self)@.payload == old(self)@.payload,
            <PublishPacket as Packet>::spec_valid(final(self)@),
    {
        proof {
            use_type_invariant(&*self);
        }
        let dup = self.dup();
        let retain = self.retain();
        let mut taken = Self::placeholder();
        core::mem::swap(self, &mut taken);
        let PublishPacket { fixed_header: _, topic_name, packet_identifier: _, payload } = taken;
        let n = topic_name.encoded_length();
        *self = Self::assemble(dup, retain, topic_name, qos, payload);
    }

    /// Replaces the topic and brings the remaining length up to date.
    pub fn set_topic_name(&mut self, topic_name: TopicName)
        requires
            spec_string_wire(topic_name@).len() + 2 + old(self)@.payload.len()
                <= MAX_REMAINING_LENGTH,
        ensures
            final(self)@.topic_name == topic_name@,
            final(self)@.packet_identifier == old(self)@.packet_identifier,
            final(self)@.fixed_header.packet_type == old(self)@.fixed_header.packet_type,
            final(self)@.payload == old(self)@.payload,
            <PublishPacket as Packet>::spec_valid(final(self)@),
    {
        proof {
            use_type_invariant(&*self);
        }
        let dup = self.dup();
        let retain = self.retain();
        let qos = self.qos();
        let mut taken = Self::placeholder();
        core::mem::swap(self, &mut taken);
        let PublishPacket { fixed_header: _, topic_name: _, packet_identifier: _, payload } = taken;
        *self = Self::assemble(
            dup,
            retain,
            TopicNameHeader::from_topic_name(topic_name),
            qos,
            payload,
        );
    }

    /// Replaces the message and brings the remaining length up to date.
    pub fn set_payload(&mut self, payload: Vec<u8>)
        requires
            spec_string_wire(old(self)@.topic_name).len() + 2 + payload@.len()
                <= MAX_REMAINING_LENGTH,
        ensures
            final(self)@.payload == payload@,
            final(self)@.topic_name == old(self)@.topic_name,
            final(self)@.packet_identifier == old(self)@.packet_identifier,
            final(self)@.fixed_header.packet_type == old(self)@.fixed_header.packet_type,
            <PublishPacket as Packet>::spec_valid(final(self)@),
    {
        proof {
            use_type_invariant(&*self);
        }
        let dup = self.dup();
        let retain = self.retain();
        let qos = self.qos();
        let mut taken = Self::placeholder();
        core::mem::swap(self, &mut taken);
        let PublishPacket { fixed_header: _, topic_name, packet_identifier: _, payload: _ } = taken;
        *self = Self::assemble(dup, retain, topic_name, qos, payload);
    }

    /// Whether the packet is a repeated delivery.
    pub fn dup(&self) -> (r: bool)
        ensures
            r == self@.dup(),
    {
        self.fixed_header.packet_type.flags / 8 == 1
    }

    /// The quality of service, with the packet identifier where the level
    /// has one.
    pub fn qos(&self) -> (r: QoSWithPacketIdentifier)
        ensures
            r.spec_qos().spec_to_u8() == self@.qos_bits(),
            r.spec_packet_identifier() == self@.packet_identifier,
    {
        proof {
            use_type_invariant(self);
        }
        let bits = (self.fixed_header.packet_type.flags / 2) % 4;
        match self.packet_identifier {
            None => QoSWithPacketIdentifier::Level0,
            Some(id) => if bits == 1 {
                QoSWithPacketIdentifier::Level1(id.0)
            } else {
                QoSWithPacketIdentifier::Level2(id.0)
            },
        }
    }

    /// Whether the server is to keep the message for later subscribers.
    pub fn retain(&self) -> (r: bool)
        ensures
            r == self@.retain(),
    {
        self.fixed_header.packet_type.flags % 2 == 1
    }

    /// The topic.
    pub fn topic_name(&self) -> (r: &str)
        ensures
            r@ == self@.topic_name,
    {
        self.topic_name.topic_name().as_str()
    }
}

impl Packet for PublishPacket {
    type Payload = Vec<u8>;

    open spec fn spec_control_type() -> ControlType {
        ControlType::Publish
    }

    open spec fn spec_valid(v: PublishPacketView) -> bool {
        &&& v.fixed_header.packet_type.control_type == ControlType::Publish
        &&& v.fixed_header.packet_type.flags < 16
        &&& v.qos_bits() <= 2
        &&& v.packet_identifier is Some <==> v.qos_bits() > 0
        &&& spec_topic_name_error(v.topic_name) is None
        &&& v.fixed_header.remaining_length <= MAX_REMAINING_LENGTH
        &&& v.fixed_header.remaining_length == spec_string_wire(v.topic_name).len()
            + v.identifier_wire().len() + v.payload.len()
    }

    open spec fn spec_fixed_header(v: PublishPacketView) -> FixedHeader {
        v.fixed_header
    }

    open spec fn spec_variable_headers(v: PublishPacketView) -> Seq<u8> {
        spec_string_wire(v.topic_name) + v.identifier_wire()
    }

    open spec fn spec_variable_headers_error(v: PublishPacketView) -> Option<PacketError> {
        None
    }

    open spec fn spec_payload(v: PublishPacketView) -> Seq<u8> {
        v.payload
    }

    open spec fn spec_payload_error(v: PublishPacketView) -> Option<PacketError> {
        None
    }

    open spec fn spec_decode_body(fixed_header: FixedHeader, body: Seq<u8>) -> Result<
        PublishPacketView,
        PacketError,
    > {
        let flags = fixed_header.packet_type.flags;
        if fixed_header.packet_type.control_type != ControlType::Publish {
            Err(PacketError::MalformedPacket(MalformedReason::UnexpectedControlType))
        } else if flags >= 16 || (flags / 2) % 4 == 3 {
            Err(PacketError::MalformedPacket(MalformedReason::UnexpectedFlags))
        } else if fixed_header.remaining_length > MAX_REMAINING_LENGTH {
            Err(PacketError::FixedHeaderError(FixedHeaderError::MalformedRemainingLength))
        } else {
            match TopicNameHeader::spec_decode(body) {
                Err(e) => Err(PacketError::spec_from_variable_header_error(e)),
                Ok((topic_name, n)) => if (flags / 2) % 4 == 0 {
                    Ok(
                        PublishPacketView {
                            fixed_header,
                            topic_name,
                            packet_identifier: None,
                            payload: body.skip(n),
                        },
                    )
                } else {
                    match PacketIdentifier::spec_decode(body.skip(n)) {
                        Err(e) => Err(PacketError::spec_from_variable_header_error(e)),
                        Ok((id, m)) => Ok(
                            PublishPacketView {
                                fixed_header,
                                topic_name,
                                packet_identifier: Some(id.0),
                                payload: body.skip(n + m),
                            },
                        ),
                    }
                },
            }
        }
    }

    open spec fn spec_payload_wire(payload: &Vec<u8>) -> Seq<u8> {
        payload@
    }

    fn fixed_header(&self) -> (r: &FixedHeader) {
        proof {
            use_type_invariant(self);
            assert(Self::spec_valid(self@));
        }
        &self.fixed_header
    }

    fn payload(self) -> (r: Vec<u8>)
        ensures
            r@ == self@.payload,
    {
        self.payload
    }

    fn payload_ref(&self) -> (r: &Vec<u8>)
        ensures
            r@ == self@.payload,
    {
        &self.payload
    }

    fn encode_variable_headers(&self, out: &mut Vec<u8>) -> (r: Result<(), PacketError>) {
        self.topic_name.encode(out);
        match self.packet_identifier {
            Some(id) => {
                id.encode(out);
            },
            None => {},
        }
        assert(out@ =~= old(out)@ + Self::spec_variable_headers(self@));
        Ok(())
    }

    fn encoded_variable_headers_length(&self) -> (n: u32) {
        let id_len: u32 = if self.packet_identifier.is_some() {
            2
        } else {
            0
        };
        self.topic_name.encoded_length() + id_len
    }

    fn encode_payload(&self, out: &mut Vec<u8>) -> (r: Result<(), PacketError>) {
        encode_bytes(self.payload.as_slice(), out);
        Ok(())
    }

    fn encoded_payload_length(&self) -> (n: u32) {
        proof {
            use_type_invariant(self);
        }
        self.payload.len() as u32
    }

    fn decode_body(body: ByteReader, fixed_header: FixedHeader) -> (r: Result<Self, PacketError>) {
        let mut body = body;
        let ghost input = body.remaining();
        let flags = fixed_header.packet_type.flags;
        if fixed_header.packet_type.control_type.to_u8() != ControlType::Publish.to_u8() {
            return Err(PacketError::MalformedPacket(MalformedReason::UnexpectedControlType));
        }
        if flags >= 16 || (flags / 2) % 4 == 3 {
            return Err(PacketError::MalformedPacket(MalformedReason::UnexpectedFlags));
        }
        if fixed_header.remaining_length > MAX_REMAINING_LENGTH {
            return Err(PacketError::FixedHeaderError(FixedHeaderError::MalformedRemainingLength));
        }
        let topic_name = match TopicNameHeader::decode(&mut body) {
            Ok(t) => t,
            Err(e) => {
                return Err(PacketError::from_variable_header_error(e));
            },
        };
        let ghost n = TopicNameHeader::spec_decode(input)->Ok_0.1;
        let topic_len = topic_name.encoded_length();
        proof {
            vstd::utf8::decode_utf8_encode_utf8(input.subrange(2, n));
        }
        let packet_identifier = if (flags / 2) % 4 == 0 {
            None
        } else {
            match PacketIdentifier::decode(&mut body) {
                Ok(id) => {
                    proof {
                        assert(input.skip(n).skip(2) =~= input.skip(n + 2));
                    }
                    Some(id)
                },
                Err(e) => {
                    return Err(PacketError::from_variable_header_error(e));
                },
            }
        };
        let payload = body.read_to_end();
        Ok(PublishPacket { fixed_header, topic_name, packet_identifier, payload })
    }

    proof fn lemma_remaining_length(v: PublishPacketView) {
        assert(Self::spec_control_type() == ControlType::Publish);
        assert(Self::spec_fixed_header(v) == v.fixed_header);
    }

    proof fn lemma_decoded_valid(fixed_header: FixedHeader, body: Seq<u8>) {
        if let Ok(v) = Self::spec_decode_body(fixed_header, body) {
            crate::encodable::lemma_string_canonical(body);
            assert(Self::spec_valid(v));
            assert(Self::spec_fixed_header(v) == fixed_header);
        }
    }

    proof fn lemma_body_roundtrip(v: PublishPacketView) {
        let body = Self::spec_variable_headers(v) + Self::spec_payload(v);
        let topic = spec_string_wire(v.topic_name);
        let rest = v.identifier_wire() + v.payload;
        assert(body =~= topic + rest);
        lemma_topic_name_roundtrip(v.topic_name, rest);
        match v.packet_identifier {
            Some(id) => {
                crate::encodable::lemma_u16_roundtrip(id, v.payload);
                assert(body.skip(topic.len() as int + 2) =~= v.payload);
            },
            None => {
                assert(rest =~= v.payload);
            },
        }
    }
}

/// The flags of a PUBLISH give back the duplicate mark, the quality of
/// service and the retain mark that they were made of.
pub proof fn lemma_publish_flags(dup: bool, qos: QualityOfService, retain: bool)
    ensures
        spec_publish_flags(dup, qos, retain) < 16,
        spec_publish_flags(dup, qos, retain) / 8 == 1 <==> dup,
        (spec_publish_flags(dup, qos, retain) / 2) % 4 == qos.spec_to_u8(),
        spec_publish_flags(dup, qos, retain) % 2 == 1 <==> retain,
{
}

/// The duplicate mark, the quality of service, the retain mark and the
/// packet identifier of a PUBLISH survive writing and reading.
pub proof fn lemma_publish_flag_fidelity(v: PublishPacketView, rest: Seq<u8>)
    requires
        <PublishPacket as Packet>::spec_valid(v),
    ensures
        crate::packet::spec_decode::<PublishPacket>(
            crate::packet::spec_wire::<PublishPacket>(v) + rest,
        ) matches Ok((w, _)) && w.dup() == v.dup() && w.qos_bits() == v.qos_bits() && w.retain()
            == v.retain() && w.packet_identifier == v.packet_identifier,
{
    assert(crate::packet::spec_encode_error::<PublishPacket>(v) is None);
    crate::packet::lemma_packet_roundtrip::<PublishPacket>(v, rest);
}

} // verus!
