//! SUBSCRIBE

use crate::control::fixed_header::MAX_REMAINING_LENGTH;
use crate::control::variable_header::PacketIdentifier;
use crate::control::{ControlType, FixedHeader, FixedHeaderError, PacketType};
use crate::encodable::{encode_u8, spec_string_wire};
use crate::packet::{
    check_header, spec_header_error, Packet, PacketError, PayloadError,
};
use crate::qos::QualityOfService;
use crate::reader::{ByteReader, IoErrorKind};
use crate::topic_filter::{
    lemma_topic_filter_roundtrip, spec_decode_topic_filter, spec_topic_filter_error, TopicFilter,
};
use vstd::prelude::*;

verus! {

/// The model of one subscription: a topic filter and the quality of service
/// asked for.
pub type SubscriptionView = (Seq<char>, QualityOfService);

/// The models of a list of subscriptions.
pub open spec fn spec_subscribes_view(subs: Seq<(TopicFilter, QualityOfService)>) -> Seq<
    SubscriptionView,
> {
    Seq::new(subs.len(), |i: int| (subs[i].0@, subs[i].1))
}

/// The bytes of a list of subscriptions: for each, the filter as a string
/// and the quality of service as a byte.
pub open spec fn spec_subscribes_wire(subs: Seq<SubscriptionView>) -> Seq<u8>
    decreases subs.len(),
{
    if subs.len() == 0 {
        Seq::empty()
    } else {
        spec_string_wire(subs[0].0) + seq![subs[0].1.spec_to_u8()] + spec_subscribes_wire(
            subs.drop_first(),
        )
    }
}

/// Every filter of the list is a topic filter.
pub open spec fn spec_subscribes_valid(subs: Seq<SubscriptionView>) -> bool {
    forall|i: int| 0 <= i < subs.len() ==> spec_topic_filter_error(#[trigger] subs[i].0) is None
}

/// The list of subscriptions that `body` holds from its first byte to its
/// last.
pub open spec fn spec_decode_subscribes(body: Seq<u8>) -> Result<Seq<SubscriptionView>, PacketError>
    decreases body.len(),
{
    if body.len() == 0 {
        Ok(Seq::empty())
    } else {
        match spec_decode_topic_filter(body) {
            Err(e) => Err(PayloadError::spec_from_topic_filter_error(e)),
            Ok((filter, n)) => if n < 2 || body.len() < n + 1 {
                Err(PacketError::IoError(IoErrorKind::UnexpectedEof))
            } else {
                match QualityOfService::spec_from_u8(body[n]) {
                    None => Err(
                        PacketError::PayloadError(PayloadError::InvalidQualityOfService(body[n])),
                    ),
                    Some(qos) => match spec_decode_subscribes(body.skip(n + 1)) {
                        Err(e) => Err(e),
                        Ok(rest) => Ok(seq![(filter, qos)] + rest),
                    },
                }
            },
        }
    }
}

/// A list of subscriptions that was read from `body` is made of topic
/// filters, and `body` is its wire form.
#[verifier::rlimit(50)]
pub proof fn lemma_subscribes_canonical(body: Seq<u8>)
    ensures
        spec_decode_subscribes(body) matches Ok(subs) ==> spec_subscribes_valid(subs)
            && spec_subscribes_wire(subs) == body,
    decreases body.len(),
{
    if body.len() > 0 {
        if let Ok((filter, n)) = spec_decode_topic_filter(body) {
            if n >= 2 && body.len() >= n + 1 {
                if let Some(qos) = QualityOfService::spec_from_u8(body[n]) {
                    lemma_subscribes_canonical(body.skip(n + 1));
                    if let Ok(rest) = spec_decode_subscribes(body.skip(n + 1)) {
                        let subs = seq![(filter, qos)] + rest;
                        assert(subs.drop_first() =~= rest);
                        vstd::utf8::decode_utf8_encode_utf8(body.subrange(2, n));
                        assert(spec_string_wire(filter) =~= body.take(n));
                        assert(spec_subscribes_wire(subs) =~= body);
                        assert forall|i: int| 0 <= i < subs.len() implies spec_topic_filter_error(
                            #[trigger] subs[i].0,
                        ) is None by {
                            if i > 0 {
                                assert(subs[i] == rest[i - 1]);
                            }
                        }
                    }
                }
            }
        }
    }
}

/// A list of topic filters with their qualities of service is read back
/// from its wire form.
#[verifier::rlimit(50)]
pub proof fn lemma_subscribes_roundtrip(subs: Seq<SubscriptionView>)
    requires
        spec_subscribes_valid(subs),
    ensures
        spec_decode_subscribes(spec_subscribes_wire(subs)) == Ok::<
            Seq<SubscriptionView>,
            PacketError,
        >(subs),
    decreases subs.len(),
{
    if subs.len() > 0 {
        let rest = subs.drop_first();
        let tail = seq![subs[0].1.spec_to_u8()] + spec_subscribes_wire(rest);
        let body = spec_subscribes_wire(subs);
        assert(spec_topic_filter_error(subs[0].0) is None);
        assert forall|i: int| 0 <= i < rest.len() implies spec_topic_filter_error(
            #[trigger] rest[i].0,
        ) is None by {
            assert(rest[i] == subs[i + 1]);
        }
        lemma_subscribes_roundtrip(rest);
        assert(body =~= spec_string_wire(subs[0].0) + tail);
        lemma_topic_filter_roundtrip(subs[0].0, tail);
        let n = spec_string_wire(subs[0].0).len() as int;
        assert(body[n] == subs[0].1.spec_to_u8());
        assert(body.skip(n + 1) =~= spec_subscribes_wire(rest));
        assert(seq![subs[0]] + rest =~= subs);
    } else {
        assert(subs =~= Seq::empty());
    }
}

/// `SUBSCRIBE` packet: the client asks for the messages of some topics.
#[derive(Debug, Eq, PartialEq)]
pub struct SubscribePacket {
    fixed_header: FixedHeader,
    packet_identifier: PacketIdentifier,
    payload: Vec<(TopicFilter, QualityOfService)>,
}

/// The model of a SUBSCRIBE.
pub struct SubscribePacketView {
    /// The fixed header.
    pub fixed_header: FixedHeader,
    /// The packet identifier.
    pub packet_identifier: u16,
    /// The subscriptions, in order.
    pub subscribes: Seq<SubscriptionView>,
}

impl View for SubscribePacket {
    type V = SubscribePacketView;

    closed spec fn view(&self) -> SubscribePacketView {
        SubscribePacketView {
            fixed_header: self.fixed_header,
            packet_identifier: self.packet_identifier.0,
            subscribes: spec_subscribes_view(self.payload@),
        }
    }
}

/// A copy of a list of subscriptions.
fn clone_subscribes(subs: &Vec<(TopicFilter, QualityOfService)>) -> (r: Vec<
    (TopicFilter, QualityOfService),
>)
    ensures
        spec_subscribes_view(r@) == spec_subscribes_view(subs@),
{
    let mut out: Vec<(TopicFilter, QualityOfService)> = Vec::new();
    let mut i: usize = 0;
    while i < subs.len()
        invariant
            i <= subs@.len(),
            out@.len() == i,
            forall|j: int| 0 <= j < i ==> out@[j].0@ == subs@[j].0@ && out@[j].1 == subs@[j].1,
        decreases subs@.len() - i,
    {
        let item = &subs[i];
        out.push((item.0.clone(), item.1));
        i = i + 1;
    }
    assert(spec_subscribes_view(out@) =~= spec_subscribes_view(subs@));
    out
}

impl Clone for SubscribePacket {
    fn clone(&self) -> (r: SubscribePacket)
        ensures
            r@ == self@,
    {
        proof {
            use_type_invariant(self);
        }
        SubscribePacket {
            fixed_header: self.fixed_header,
            packet_identifier: self.packet_identifier,
            payload: clone_subscribes(&self.payload),
        }
    }
}

/// Number of bytes of a list of subscriptions, and the proof that each of
/// its filters is a topic filter.
fn subscribes_encoded_length(subs: &Vec<(TopicFilter, QualityOfService)>) -> (n: u32)
    requires
        spec_subscribes_wire(spec_subscribes_view(subs@)).len() <= MAX_REMAINING_LENGTH,
    ensures
        n == spec_subscribes_wire(spec_subscribes_view(subs@)).len(),
        spec_subscribes_valid(spec_subscribes_view(subs@)),
{
    let ghost view = spec_subscribes_view(subs@);
    let mut sum: u32 = 0;
    let mut i: usize = 0;
    proof {
        assert(view.skip(0) =~= view);
    }
    while i < subs.len()
        invariant
            i <= subs@.len(),
            view == spec_subscribes_view(subs@),
            sum + spec_subscribes_wire(view.skip(i as int)).len() == spec_subscribes_wire(
                view,
            ).len(),
            spec_subscribes_wire(view).len() <= MAX_REMAINING_LENGTH,
            forall|j: int| 0 <= j < i ==> spec_topic_filter_error(#[trigger] view[j].0) is None,
        decreases subs@.len() - i,
    {
        let item_len = subs[i].0.encoded_length();
        proof {
            assert(view.skip(i as int)[0] == view[i as int]);
            assert(view.skip(i as int).drop_first() =~= view.skip(i + 1));
        }
        sum = sum + item_len + 1;
        i = i + 1;
    }
    sum
}

/// Reads a list of subscriptions that fills `body` to its last byte.
#[verifier::rlimit(50)]
fn decode_subscribes(source: ByteReader) -> (r: Result<
    Vec<(TopicFilter, QualityOfService)>,
    PacketError,
>)
    ensures
        match spec_decode_subscribes(source.remaining()) {
            Ok(subs) => r is Ok && spec_subscribes_view(r->Ok_0@) == subs,
            Err(e) => r is Err && r->Err_0 == e,
        },
{
    let ghost input = source.remaining();
    let mut body = source.fork();
    let mut payload: Vec<(TopicFilter, QualityOfService)> = Vec::new();
    proof {
        assert(spec_subscribes_view(payload@) =~= Seq::empty());
        if let Ok(rest) = spec_decode_subscribes(input) {
            assert(spec_subscribes_view(payload@) + rest =~= rest);
        }
    }
    while body.remaining_len() > 0
        invariant
            input == source.remaining(),
            match spec_decode_subscribes(body.remaining()) {
                Ok(rest) => spec_decode_subscribes(input) == Ok::<
                    Seq<SubscriptionView>,
                    PacketError,
                >(spec_subscribes_view(payload@) + rest),
                Err(e) => spec_decode_subscribes(input) == Err::<
                    Seq<SubscriptionView>,
                    PacketError,
                >(e),
            },
        decreases body.remaining().len(),
    {
        let ghost current = body.remaining();
        let ghost done = spec_subscribes_view(payload@);
        let filter = match TopicFilter::decode(&mut body) {
            Ok(f) => f,
            Err(e) => {
                return Err(PayloadError::from_topic_filter_error(e));
            },
        };
        let byte = match body.read_u8() {
            Ok(b) => b,
            Err(e) => {
                return Err(PacketError::IoError(e));
            },
        };
        let qos = match QualityOfService::from_u8(byte) {
            Some(q) => q,
            None => {
                return Err(
                    PacketError::PayloadError(PayloadError::InvalidQualityOfService(byte)),
                );
            },
        };
        proof {
            let n = spec_decode_topic_filter(current)->Ok_0.1;
            assert(current.skip(n).skip(1) =~= current.skip(n + 1));
        }
        payload.push((filter, qos));
        proof {
            let item = (filter@, qos);
            assert(spec_subscribes_view(payload@) =~= done.push(item));
            if let Ok(rest) = spec_decode_subscribes(body.remaining()) {
                assert(done + (seq![item] + rest) =~= done.push(item) + rest);
            }
        }
    }
    proof {
        assert(spec_subscribes_view(payload@) + Seq::<SubscriptionView>::empty()
            =~= spec_subscribes_view(payload@));
    }
    Ok(payload)
}

impl SubscribePacket {
    #[verifier::type_invariant]
    spec fn well_formed(&self) -> bool {
        <SubscribePacket as Packet>::spec_valid(self@)
    }

    /// A SUBSCRIBE for the given subscriptions, of which there is at least
    /// one.
    pub fn new(pkid: u16, subscribes: Vec<(TopicFilter, QualityOfService)>) -> (r: SubscribePacket)
        requires
            subscribes@.len() > 0,
            2 + spec_subscribes_wire(spec_subscribes_view(subscribes@)).len()
                <= MAX_REMAINING_LENGTH,
        ensures
            r@.packet_identifier == pkid,
            r@.subscribes == spec_subscribes_view(subscribes@),
            r@.fixed_header == (FixedHeader {
                packet_type: PacketType { control_type: ControlType::Subscribe, flags: 2 },
                remaining_length: (2 + spec_subscribes_wire(r@.subscribes).len()) as u32,
            }),
            <SubscribePacket as Packet>::spec_valid(r@),
    {
        let payload_len = subscribes_encoded_length(&subscribes);
        SubscribePacket {
            fixed_header: FixedHeader::new(
                PacketType::with_default(ControlType::Subscribe),
                2 + payload_len,
            ),
            packet_identifier: PacketIdentifier(pkid),
            payload: subscribes,
        }
    }

    /// The packet identifier.
    pub fn packet_identifier(&self) -> (r: u16)
        ensures
            r == self@.packet_identifier,
    {
        self.packet_identifier.0
    }

    /// Replaces the packet identifier.
    pub fn set_packet_identifier(&mut self, pkid: u16)
        ensures
            final(self)@ == (SubscribePacketView { packet_identifier: pkid, ..old(self)@ }),
    {
        proof {
            use_type_invariant(&*self);
        }
        self.packet_identifier = PacketIdentifier(pkid);
    }
}

impl Packet for SubscribePacket {
    type Payload = Vec<(TopicFilter, QualityOfService)>;

    open spec fn spec_control_type() -> ControlType {
        ControlType::Subscribe
    }

    open spec fn spec_valid(v: SubscribePacketView) -> bool {
        &&& v.fixed_header.packet_type.control_type == ControlType::Subscribe
        &&& v.fixed_header.packet_type.flags == 2
        &&& v.subscribes.len() > 0
        &&& spec_subscribes_valid(v.subscribes)
        &&& v.fixed_header.remaining_length <= MAX_REMAINING_LENGTH
        &&& v.fixed_header.remaining_length == 2 + spec_subscribes_wire(v.subscribes).len()
    }

    open spec fn spec_fixed_header(v: SubscribePacketView) -> FixedHeader {
        v.fixed_header
    }

    open spec fn spec_variable_headers(v: SubscribePacketView) -> Seq<u8> {
        PacketIdentifier(v.packet_identifier).spec_wire()
    }

    open spec fn spec_variable_headers_error(v: SubscribePacketView) -> Option<PacketError> {
        None
    }

    open spec fn spec_payload(v: SubscribePacketView) -> Seq<u8> {
        spec_subscribes_wire(v.subscribes)
    }

    open spec fn spec_payload_error(v: SubscribePacketView) -> Option<PacketError> {
        None
    }

    open spec fn spec_decode_body(fixed_header: FixedHeader, body: Seq<u8>) -> Result<
        SubscribePacketView,
        PacketError,
    > {
        match spec_header_error(ControlType::Subscribe, fixed_header) {
            Some(e) => Err(e),
            None => if fixed_header.remaining_length > MAX_REMAINING_LENGTH {
                Err(PacketError::FixedHeaderError(FixedHeaderError::MalformedRemainingLength))
            } else {
                match PacketIdentifier::spec_decode(body) {
                    Err(e) => Err(PacketError::spec_from_variable_header_error(e)),
                    Ok((id, n)) => match spec_decode_subscribes(body.skip(n)) {
                        Err(e) => Err(e),
                        Ok(subscribes) => if subscribes.len() == 0 {
                            Err(PacketError::PayloadError(PayloadError::NoTopics))
                        } else {
                            Ok(
                                SubscribePacketView {
                                    fixed_header,
                                    packet_identifier: id.0,
                                    subscribes,
                                },
                            )
                        },
                    },
                }
            },
        }
    }

    open spec fn spec_payload_wire(payload: &Vec<(TopicFilter, QualityOfService)>) -> Seq<u8> {
        spec_subscribes_wire(spec_subscribes_view(payload@))
    }

    fn fixed_header(&self) -> (r: &FixedHeader) {
        proof {
            use_type_invariant(self);
            assert(Self::spec_valid(self@));
        }
        &self.fixed_header
    }

    fn payload(self) -> (r: Vec<(TopicFilter, QualityOfService)>)
        ensures
            spec_subscribes_view(r@) == self@.subscribes,
    {
        self.payload
    }

    fn payload_ref(&self) -> (r: &Vec<(TopicFilter, QualityOfService)>)
        ensures
            spec_subscribes_view(r@) == self@.subscribes,
    {
        &self.payload
    }

    fn encode_variable_headers(&self, out: &mut Vec<u8>) -> (r: Result<(), PacketError>) {
        self.packet_identifier.encode(out);
        Ok(())
    }

    fn encoded_variable_headers_length(&self) -> (n: u32) {
        self.packet_identifier.encoded_length()
    }

    fn encode_payload(&self, out: &mut Vec<u8>) -> (r: Result<(), PacketError>) {
        let ghost view = self@.subscribes;
        let mut i: usize = 0;
        proof {
            assert(view.skip(0) =~= view);
        }
        while i < self.payload.len()
            invariant
                i <= self.payload@.len(),
                view == spec_subscribes_view(self.payload@),
                out@ + spec_subscribes_wire(view.skip(i as int)) == old(out)@
                    + spec_subscribes_wire(view),
            decreases self.payload@.len() - i,
        {
            let ghost before = out@;
            let item = &self.payload[i];
            item.0.encode(out);
            encode_u8(item.1.to_u8(), out);
            proof {
                assert(view.skip(i as int)[0] == view[i as int]);
                assert(view.skip(i as int).drop_first() =~= view.skip(i + 1));
                assert(out@ + spec_subscribes_wire(view.skip(i + 1)) =~= before
                    + spec_subscribes_wire(view.skip(i as int)));
            }
            i = i + 1;
        }
        assert(out@ + spec_subscribes_wire(view.skip(i as int)) =~= out@);
        Ok(())
    }

    fn encoded_payload_length(&self) -> (n: u32) {
        proof {
            use_type_invariant(self);
        }
        self.fixed_header.remaining_length - 2
    }

    fn decode_body(body: ByteReader, fixed_header: FixedHeader) -> (r: Result<Self, PacketError>) {
        let mut body = body;
        match check_header(ControlType::Subscribe, &fixed_header) {
            Ok(()) => {},
            Err(e) => {
                return Err(e);
            },
        }
        if fixed_header.remaining_length > MAX_REMAINING_LENGTH {
            return Err(PacketError::FixedHeaderError(FixedHeaderError::MalformedRemainingLength));
        }
        let packet_identifier = match PacketIdentifier::decode(&mut body) {
            Ok(id) => id,
            Err(e) => {
                return Err(PacketError::from_variable_header_error(e));
            },
        };
        let ghost input = body.remaining();
        let payload = match decode_subscribes(body) {
            Ok(p) => p,
            Err(e) => {
                return Err(e);
            },
        };
        proof {
            lemma_subscribes_canonical(input);
        }
        if payload.len() == 0 {
            return Err(PacketError::PayloadError(PayloadError::NoTopics));
        }
        Ok(SubscribePacket { fixed_header, packet_identifier, payload })
    }

    proof fn lemma_remaining_length(v: SubscribePacketView) {
        assert(Self::spec_control_type() == ControlType::Subscribe);
        assert(Self::spec_fixed_header(v) == v.fixed_header);
    }

    proof fn lemma_decoded_valid(fixed_header: FixedHeader, body: Seq<u8>) {
        if let Ok(v) = Self::spec_decode_body(fixed_header, body) {
            lemma_subscribes_canonical(body.skip(2));
            assert(Self::spec_valid(v));
            assert(Self::spec_fixed_header(v) == fixed_header);
        }
    }

    proof fn lemma_body_roundtrip(v: SubscribePacketView) {
        let payload = spec_subscribes_wire(v.subscribes);
        let body = Self::spec_variable_headers(v) + Self::spec_payload(v);
        crate::encodable::lemma_u16_roundtrip(v.packet_identifier, payload);
        lemma_subscribes_roundtrip(v.subscribes);
    }
}

} // verus!
