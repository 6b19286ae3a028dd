//! UNSUBSCRIBE

use crate::control::fixed_header::MAX_REMAINING_LENGTH;
use crate::control::variable_header::PacketIdentifier;
use crate::control::{ControlType, FixedHeader, FixedHeaderError, PacketType};
use crate::encodable::spec_string_wire;
use crate::packet::{check_header, spec_header_error, Packet, PacketError, PayloadError};
use crate::reader::ByteReader;
use crate::topic_filter::{
    lemma_topic_filter_roundtrip, spec_decode_topic_filter, spec_topic_filter_error, TopicFilter,
};
use vstd::prelude::*;

verus! {

/// The models of a list of topic filters.
pub open spec fn spec_filters_view(filters: Seq<TopicFilter>) -> Seq<Seq<char>> {
    Seq::new(filters.len(), |i: int| filters[i]@)
}

/// The bytes of a list of topic filters: one string after the other.
pub open spec fn spec_filters_wire(filters: Seq<Seq<char>>) -> Seq<u8>
    decreases filters.len(),
{
    if filters.len() == 0 {
        Seq::empty()
    } else {
        spec_string_wire(filters[0]) + spec_filters_wire(filters.drop_first())
    }
}

/// Every string of the list is a topic filter.
pub open spec fn spec_filters_valid(filters: Seq<Seq<char>>) -> bool {
    forall|i: int| 0 <= i < filters.len() ==> spec_topic_filter_error(#[trigger] filters[i]) is None
}

/// The list of topic filters that `body` holds from its first byte to its
/// last.
pub open spec fn spec_decode_filters(body: Seq<u8>) -> Result<Seq<Seq<char>>, PacketError>
    decreases body.len(),
{
    if body.len() == 0 {
        Ok(Seq::empty())
    } else {
        match spec_decode_topic_filter(body) {
            Err(e) => Err(PayloadError::spec_from_topic_filter_error(e)),
            Ok((filter, n)) => if n < 2 || body.len() < n {
                Err(PacketError::IoError(crate::reader::IoErrorKind::UnexpectedEof))
            } else {
                match spec_decode_filters(body.skip(n)) {
                    Err(e) => Err(e),
                    Ok(rest) => Ok(seq![filter] + rest),
                }
            },
        }
    }
}

/// A list that was read from `body` is made of topic filters, and `body` is
/// its wire form.
#[verifier::rlimit(50)]
pub proof fn lemma_filters_canonical(body: Seq<u8>)
    ensures
        spec_decode_filters(body) matches Ok(filters) ==> spec_filters_valid(filters)
            && spec_filters_wire(filters) == body,
    decreases body.len(),
{
    if body.len() > 0 {
        if let Ok((filter, n)) = spec_decode_topic_filter(body) {
            if n >= 2 && body.len() >= n {
                lemma_filters_canonical(body.skip(n));
                if let Ok(rest) = spec_decode_filters(body.skip(n)) {
                    let filters = seq![filter] + rest;
                    assert(filters.drop_first() =~= rest);
                    vstd::utf8::decode_utf8_encode_utf8(body.subrange(2, n));
                    assert(spec_string_wire(filter) =~= body.take(n));
                    assert(spec_filters_wire(filters) =~= body);
                    assert forall|i: int| 0 <= i < filters.len() implies spec_topic_filter_error(
                        #[trigger] filters[i],
                    ) is None by {
                        if i > 0 {
                            assert(filters[i] == rest[i - 1]);
                        }
                    }
                }
            }
        }
    }
}

/// A list of topic filters is read back from its wire form.
#[verifier::rlimit(50)]
pub proof fn lemma_filters_roundtrip(filters: Seq<Seq<char>>)
    requires
        spec_filters_valid(filters),
    ensures
        spec_decode_filters(spec_filters_wire(filters)) == Ok::<Seq<Seq<char>>, PacketError>(
            filters,
        ),
    decreases filters.len(),
{
    if filters.len() > 0 {
        let rest = filters.drop_first();
        let tail = spec_filters_wire(rest);
        let body = spec_filters_wire(filters);
        assert(spec_topic_filter_error(filters[0]) is None);
        assert forall|i: int| 0 <= i < rest.len() implies spec_topic_filter_error(
            #[trigger] rest[i],
        ) is None by {
            assert(rest[i] == filters[i + 1]);
        }
        lemma_filters_roundtrip(rest);
        lemma_topic_filter_roundtrip(filters[0], tail);
        assert(seq![filters[0]] + rest =~= filters);
    } else {
        assert(filters =~= Seq::empty());
    }
}

/// `UNSUBSCRIBE` packet: the client gives up some subscriptions.
#[derive(Debug, Eq, PartialEq)]
pub struct UnsubscribePacket {
    fixed_header: FixedHeader,
    packet_identifier: PacketIdentifier,
    payload: Vec<TopicFilter>,
}

/// The model of an UNSUBSCRIBE.
pub struct UnsubscribePacketView {
    /// The fixed header.
    pub fixed_header: FixedHeader,
    /// The packet identifier.
    pub packet_identifier: u16,
    /// The topic filters, in order.
    pub filters: Seq<Seq<char>>,
}

impl View for UnsubscribePacket {
    type V = UnsubscribePacketView;

    closed spec fn view(&self) -> UnsubscribePacketView {
        UnsubscribePacketView {
            fixed_header: self.fixed_header,
            packet_identifier: self.packet_identifier.0,
            filters: spec_filters_view(self.payload@),
        }
    }
}

/// A copy of a list of topic filters.
fn clone_filters(filters: &Vec<TopicFilter>) -> (r: Vec<TopicFilter>)
    ensures
        spec_filters_view(r@) == spec_filters_view(filters@),
{
    let mut out: Vec<TopicFilter> = Vec::new();
    let mut i: usize = 0;
    while i < filters.len()
        invariant
            i <= filters@.len(),
            out@.len() == i,
            forall|j: int| 0 <= j < i ==> out@[j]@ == filters@[j]@,
        decreases filters@.len() - i,
    {
        out.push(filters[i].clone());
        i = i + 1;
    }
    assert(spec_filters_view(out@) =~= spec_filters_view(filters@));
    out
}

impl Clone for UnsubscribePacket {
    fn clone(&self) -> (r: UnsubscribePacket)
        ensures
            r@ == self@,
    {
        proof {
            use_type_invariant(self);
        }
        UnsubscribePacket {
            fixed_header: self.fixed_header,
            packet_identifier: self.packet_identifier,
            payload: clone_filters(&self.payload),
        }
    }
}

/// Number of bytes of a list of topic filters, and the proof that each of
/// them is one.
fn filters_encoded_length(filters: &Vec<TopicFilter>) -> (n: u32)
    requires
        spec_filters_wire(spec_filters_view(filters@)).len() <= MAX_REMAINING_LENGTH,
    ensures
        n == spec_filters_wire(spec_filters_view(filters@)).len(),
        spec_filters_valid(spec_filters_view(filters@)),
{
    let ghost view = spec_filters_view(filters@);
    let mut sum: u32 = 0;
    let mut i: usize = 0;
    proof {
        assert(view.skip(0) =~= view);
    }
    while i < filters.len()
        invariant
            i <= filters@.len(),
            view == spec_filters_view(filters@),
            sum + spec_filters_wire(view.skip(i as int)).len() == spec_filters_wire(view).len(),
            spec_filters_wire(view).len() <= MAX_REMAINING_LENGTH,
            forall|j: int| 0 <= j < i ==> spec_topic_filter_error(#[trigger] view[j]) is None,
        decreases filters@.len() - i,
    {
        let item_len = filters[i].encoded_length();
        proof {
            assert(view.skip(i as int)[0] == view[i as int]);
            assert(view.skip(i as int).drop_first() =~= view.skip(i + 1));
        }
        sum = sum + item_len;
        i = i + 1;
    }
    sum
}

/// Reads a list of topic filters that fills `source` to its last byte.
#[verifier::rlimit(50)]
fn decode_filters(source: ByteReader) -> (r: Result<Vec<TopicFilter>, PacketError>)
    ensures
        match spec_decode_filters(source.remaining()) {
            Ok(filters) => r is Ok && spec_filters_view(r->Ok_0@) == filters,
            Err(e) => r is Err && r->Err_0 == e,
        },
{
    let ghost input = source.remaining();
    let mut body = source.fork();
    let mut payload: Vec<TopicFilter> = Vec::new();
    proof {
        assert(spec_filters_view(payload@) =~= Seq::empty());
        if let Ok(rest) = spec_decode_filters(input) {
            assert(spec_filters_view(payload@) + rest =~= rest);
        }
    }
    while body.remaining_len() > 0
        invariant
            input == source.remaining(),
            match spec_decode_filters(body.remaining()) {
                Ok(rest) => spec_decode_filters(input) == Ok::<Seq<Seq<char>>, PacketError>(
                    spec_filters_view(payload@) + rest,
                ),
                Err(e) => spec_decode_filters(input) == Err::<Seq<Seq<char>>, PacketError>(e),
            },
        decreases body.remaining().len(),
    {
        let ghost done = spec_filters_view(payload@);
        let filter = match TopicFilter::decode(&mut body) {
            Ok(f) => f,
            Err(e) => {
                return Err(PayloadError::from_topic_filter_error(e));
            },
        };
        payload.push(filter);
        proof {
            let item = filter@;
            assert(spec_filters_view(payload@) =~= done.push(item));
            if let Ok(rest) = spec_decode_filters(body.remaining()) {
                assert(done + (seq![item] + rest) =~= done.push(item) + rest);
            }
        }
    }
    proof {
        assert(spec_filters_view(payload@) + Seq::<Seq<char>>::empty() =~= spec_filters_view(
            payload@,
        ));
    }
    Ok(payload)
}

impl UnsubscribePacket {
    #[verifier::type_invariant]
    spec fn well_formed(&self) -> bool {
        <UnsubscribePacket as Packet>::spec_valid(self@)
    }

    /// An UNSUBSCRIBE for the given topic filters, of which there is at
    /// least one.
    pub fn new(pkid: u16, subscribes: Vec<TopicFilter>) -> (r: UnsubscribePacket)
        requires
            subscribes@.len() > 0,
            2 + spec_filters_wire(spec_filters_view(subscribes@)).len() <= MAX_REMAINING_LENGTH,
        ensures
            r@.packet_identifier == pkid,
            r@.filters == spec_filters_view(subscribes@),
            r@.fixed_header == (FixedHeader {
                packet_type: PacketType { control_type: ControlType::Unsubscribe, flags: 2 },
                remaining_length: (2 + spec_filters_wire(r@.filters).len()) as u32,
            }),
            <UnsubscribePacket as Packet>::spec_valid(r@),
    {
        let payload_len = filters_encoded_length(&subscribes);
        UnsubscribePacket {
            fixed_header: FixedHeader::new(
                PacketType::with_default(ControlType::Unsubscribe),
                2 + payload_len,
            ),
            packet_identifier: PacketIdentifier(pkid),
            payload: subscribes,
        }
    }

    /// The packet identifier.
    pub fn packet_identifier(&self) -> (r: u16)
        ensures
            r == self@.packet_identifier,
    {
        self.packet_identifier.0
    }

    /// Replaces the packet identifier.
    pub fn set_packet_identifier(&mut self, pkid: u16)
        ensures
            final(self)@ == (UnsubscribePacketView { packet_identifier: pkid, ..old(self)@ }),
    {
        proof {
            use_type_invariant(&*self);
        }
        self.packet_identifier = PacketIdentifier(pkid);
    }
}

impl Packet for UnsubscribePacket {
    type Payload = Vec<TopicFilter>;

    open spec fn spec_control_type() -> ControlType {
        ControlType::Unsubscribe
    }

    open spec fn spec_valid(v: UnsubscribePacketView) -> bool {
        &&& v.fixed_header.packet_type.control_type == ControlType::Unsubscribe
        &&& v.fixed_header.packet_type.flags == 2
        &&& v.filters.len() > 0
        &&& spec_filters_valid(v.filters)
        &&& v.fixed_header.remaining_length <= MAX_REMAINING_LENGTH
        &&& v.fixed_header.remaining_length == 2 + spec_filters_wire(v.filters).len()
    }

    open spec fn spec_fixed_header(v: UnsubscribePacketView) -> FixedHeader {
        v.fixed_header
    }

    open spec fn spec_variable_headers(v: UnsubscribePacketView) -> Seq<u8> {
        PacketIdentifier(v.packet_identifier).spec_wire()
    }

    open spec fn spec_variable_headers_error(v: UnsubscribePacketView) -> Option<PacketError> {
        None
    }

    open spec fn spec_payload(v: UnsubscribePacketView) -> Seq<u8> {
        spec_filters_wire(v.filters)
    }

    open spec fn spec_payload_error(v: UnsubscribePacketView) -> Option<PacketError> {
        None
    }

    open spec fn spec_decode_body(fixed_header: FixedHeader, body: Seq<u8>) -> Result<
        UnsubscribePacketView,
        PacketError,
    > {
        match spec_header_error(ControlType::Unsubscribe, fixed_header) {
            Some(e) => Err(e),
            None => if fixed_header.remaining_length > MAX_REMAINING_LENGTH {
                Err(PacketError::FixedHeaderError(FixedHeaderError::MalformedRemainingLength))
            } else {
                match PacketIdentifier::spec_decode(body) {
                    Err(e) => Err(PacketError::spec_from_variable_header_error(e)),
                    Ok((id, n)) => match spec_decode_filters(body.skip(n)) {
                        Err(e) => Err(e),
                        Ok(filters) => if filters.len() == 0 {
                            Err(PacketError::PayloadError(PayloadError::NoTopics))
                        } else {
                            Ok(
                                UnsubscribePacketView {
                                    fixed_header,
                                    packet_identifier: id.0,
                                    filters,
                                },
                            )
                        },
                    },
                }
            },
        }
    }

    open spec fn spec_payload_wire(payload: &Vec<TopicFilter>) -> Seq<u8> {
        spec_filters_wire(spec_filters_view(payload@))
    }

    fn fixed_header(&self) -> (r: &FixedHeader) {
        proof {
            use_type_invariant(self);
            assert(Self::spec_valid(self@));
        }
        &self.fixed_header
    }

    fn payload(self) -> (r: Vec<TopicFilter>)
        ensures
            spec_filters_view(r@) == self@.filters,
    {
        self.payload
    }

    fn payload_ref(&self) -> (r: &Vec<TopicFilter>)
        ensures
            spec_filters_view(r@) == self@.filters,
    {
        &self.payload
    }

    fn encode_variable_headers(&self, out: &mut Vec<u8>) -> (r: Result<(), PacketError>) {
        self.packet_identifier.encode(out);
        Ok(())
    }

    fn encoded_variable_headers_length(&self) -> (n: u32) {
        self.packet_identifier.encoded_length()
    }

    fn encode_payload(&self, out: &mut Vec<u8>) -> (r: Result<(), PacketError>) {
        let ghost view = self@.filters;
        let mut i: usize = 0;
        proof {
            assert(view.skip(0) =~= view);
        }
        while i < self.payload.len()
            invariant
                i <= self.payload@.len(),
                view == spec_filters_view(self.payload@),
                out@ + spec_filters_wire(view.skip(i as int)) == old(out)@ + spec_filters_wire(
                    view,
                ),
            decreases self.payload@.len() - i,
        {
            let ghost before = out@;
            self.payload[i].encode(out);
            proof {
                assert(view.skip(i as int)[0] == view[i as int]);
                assert(view.skip(i as int).drop_first() =~= view.skip(i + 1));
                assert(out@ + spec_filters_wire(view.skip(i + 1)) =~= before + spec_filters_wire(
                    view.skip(i as int),
                ));
            }
            i = i + 1;
        }
        assert(out@ + spec_filters_wire(view.skip(i as int)) =~= out@);
        Ok(())
    }

    fn encoded_payload_length(&self) -> (n: u32) {
        proof {
            use_type_invariant(self);
        }
        self.fixed_header.remaining_length - 2
    }

    fn decode_body(body: ByteReader, fixed_header: FixedHeader) -> (r: Result<Self, PacketError>) {
        let mut body = body;
        match check_header(ControlType::Unsubscribe, &fixed_header) {
            Ok(()) => {},
            Err(e) => {
                return Err(e);
            },
        }
        if fixed_header.remaining_length > MAX_REMAINING_LENGTH {
            return Err(PacketError::FixedHeaderError(FixedHeaderError::MalformedRemainingLength));
        }
        let packet_identifier = match PacketIdentifier::decode(&mut body) {
            Ok(id) => id,
            Err(e) => {
                return Err(PacketError::from_variable_header_error(e));
            },
        };
        let ghost input = body.remaining();
        let payload = match decode_filters(body) {
            Ok(p) => p,
            Err(e) => {
                return Err(e);
            },
        };
        proof {
            lemma_filters_canonical(input);
        }
        if payload.len() == 0 {
            return Err(PacketError::PayloadError(PayloadError::NoTopics));
        }
        Ok(UnsubscribePacket { fixed_header, packet_identifier, payload })
    }

    proof fn lemma_remaining_length(v: UnsubscribePacketView) {
        assert(Self::spec_control_type() == ControlType::Unsubscribe);
        assert(Self::spec_fixed_header(v) == v.fixed_header);
    }

    proof fn lemma_decoded_valid(fixed_header: FixedHeader, body: Seq<u8>) {
        if let Ok(v) = Self::spec_decode_body(fixed_header, body) {
            lemma_filters_canonical(body.skip(2));
            assert(Self::spec_valid(v));
            assert(Self::spec_fixed_header(v) == fixed_header);
        }
    }

    proof fn lemma_body_roundtrip(v: UnsubscribePacketView) {
        let payload = spec_filters_wire(v.filters);
        crate::encodable::lemma_u16_roundtrip(v.packet_identifier, payload);
        lemma_filters_roundtrip(v.filters);
    }
}

} // verus!
