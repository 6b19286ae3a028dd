//! CONNECT

use crate::control::fixed_header::MAX_REMAINING_LENGTH;
use crate::control::variable_header::protocol_level::SPEC_3_1_1;
use crate::control::variable_header::{
    ConnectFlags, KeepAlive, ProtocolLevel, ProtocolName, VariableHeaderError,
};
use crate::control::{ControlType, FixedHeader, FixedHeaderError, PacketType};
use crate::encodable::{
    decode_string, encode_string, lemma_string_canonical, lemma_string_roundtrip,
    spec_decode_string, spec_string_wire, spec_u16_wire, StringEncodeError, MAX_STRING_BYTES,
};
use crate::packet::{
    check_header, spec_header_error, MalformedReason, Packet, PacketError, PayloadError,
};
use crate::reader::ByteReader;
use crate::topic_name::{
    lemma_topic_name_roundtrip, spec_decode_topic_name, spec_topic_name_error, TopicName,
};
use vstd::prelude::*;
use vstd::utf8::encode_utf8;

verus! {

/// The payload of a CONNECT.
#[derive(Debug, Eq, PartialEq)]
pub struct ConnectPacketPayload {
    /// The name by which the server knows the client.
    pub client_identifier: String,
    /// The will: a topic and the message to publish to it should the
    /// client be lost.
    pub will: Option<(TopicName, String)>,
    /// The user name.
    pub user_name: Option<String>,
    /// The password.
    pub password: Option<String>,
}

/// The model of the payload of a CONNECT.
pub struct ConnectPacketPayloadView {
    /// The client identifier.
    pub client_identifier: Seq<char>,
    /// The will topic and the will message.
    pub will: Option<(Seq<char>, Seq<char>)>,
    /// The user name.
    pub user_name: Option<Seq<char>>,
    /// The password.
    pub password: Option<Seq<char>>,
}

/// The model of an optional string.
pub open spec fn spec_opt_string_view(s: Option<String>) -> Option<Seq<char>> {
    match s {
        Some(s) => Some(s@),
        None => None,
    }
}

/// The model of an optional will.
pub open spec fn spec_will_view(w: Option<(TopicName, String)>) -> Option<(Seq<char>, Seq<char>)> {
    match w {
        Some((topic, message)) => Some((topic@, message@)),
        None => None,
    }
}

/// The bytes of an optional string: none if it is absent.
pub open spec fn spec_opt_string_wire(s: Option<Seq<char>>) -> Seq<u8> {
    match s {
        Some(s) => spec_string_wire(s),
        None => Seq::empty(),
    }
}

/// The bytes of an optional will: topic, then message; none if it is absent.
pub open spec fn spec_will_wire(w: Option<(Seq<char>, Seq<char>)>) -> Seq<u8> {
    match w {
        Some((topic, message)) => spec_string_wire(topic) + spec_string_wire(message),
        None => Seq::empty(),
    }
}

/// Whether an optional string fits the length prefix.
pub open spec fn spec_opt_string_fits(s: Option<Seq<char>>) -> bool {
    s matches Some(s) ==> encode_utf8(s).len() <= MAX_STRING_BYTES
}

/// Reading a string that is there only if `present`.
#[verifier::opaque]
pub open spec fn spec_decode_opt_string(present: bool, input: Seq<u8>) -> Result<
    (Option<Seq<char>>, int),
    PacketError,
> {
    if !present {
        Ok((None, 0))
    } else {
        match spec_decode_string(input) {
            Err(e) => Err(PayloadError::spec_from_string_error(e)),
            Ok((s, n)) => Ok((Some(s), n)),
        }
    }
}

/// Reading a will that is there only if `present`.
#[verifier::opaque]
pub open spec fn spec_decode_will(present: bool, input: Seq<u8>) -> Result<
    (Option<(Seq<char>, Seq<char>)>, int),
    PacketError,
> {
    if !present {
        Ok((None, 0))
    } else {
        match spec_decode_topic_name(input) {
            Err(e) => Err(PayloadError::spec_from_topic_name_error(e)),
            Ok((topic, n)) => match spec_decode_string(input.skip(n)) {
                Err(e) => Err(PayloadError::spec_from_string_error(e)),
                Ok((message, m)) => Ok((Some((topic, message)), n + m)),
            },
        }
    }
}

impl ConnectPacketPayloadView {
    /// The bytes of the payload: client identifier, will, user name,
    /// password.
    pub open spec fn spec_wire(self) -> Seq<u8> {
        spec_string_wire(self.client_identifier) + spec_will_wire(self.will)
            + spec_opt_string_wire(self.user_name) + spec_opt_string_wire(self.password)
    }

    /// Every string of the payload fits its length prefix.
    pub open spec fn fits(self) -> bool {
        &&& encode_utf8(self.client_identifier).len() <= MAX_STRING_BYTES
        &&& self.will matches Some((_, message)) ==> encode_utf8(message).len()
            <= MAX_STRING_BYTES
        &&& spec_opt_string_fits(self.user_name)
        &&& spec_opt_string_fits(self.password)
    }

    /// Reading the payload that `flags` announce from the front of `input`.
    pub open spec fn spec_decode(flags: ConnectFlags, input: Seq<u8>) -> Result<
        (ConnectPacketPayloadView, int),
        PacketError,
    > {
        match spec_decode_string(input) {
            Err(e) => Err(PayloadError::spec_from_string_error(e)),
            Ok((client_identifier, a)) => match spec_decode_will(flags.will_flag, input.skip(a)) {
                Err(e) => Err(e),
                Ok((will, b)) => match spec_decode_opt_string(
                    flags.user_name,
                    input.skip(a + b),
                ) {
                    Err(e) => Err(e),
                    Ok((user_name, c)) => match spec_decode_opt_string(
                        flags.password,
                        input.skip(a + b + c),
                    ) {
                        Err(e) => Err(e),
                        Ok((password, d)) => Ok(
                            (
                                ConnectPacketPayloadView {
                                    client_identifier,
                                    will,
                                    user_name,
                                    password,
                                },
                                a + b + c + d,
                            ),
                        ),
                    },
                },
            },
        }
    }
}

impl View for ConnectPacketPayload {
    type V = ConnectPacketPayloadView;

    open spec fn view(&self) -> ConnectPacketPayloadView {
        ConnectPacketPayloadView {
            client_identifier: self.client_identifier@,
            will: spec_will_view(self.will),
            user_name: spec_opt_string_view(self.user_name),
            password: spec_opt_string_view(self.password),
        }
    }
}

/// A copy of an optional string.
fn clone_opt_string(s: &Option<String>) -> (r: Option<String>)
    ensures
        spec_opt_string_view(r) == spec_opt_string_view(*s),
{
    match s {
        Some(s) => Some(s.clone()),
        None => None,
    }
}

impl Clone for ConnectPacketPayload {
    fn clone(&self) -> (r: ConnectPacketPayload)
        ensures
            r@ == self@,
    {
        let will = match &self.will {
            Some(w) => Some((w.0.clone(), w.1.clone())),
            None => None,
        };
        ConnectPacketPayload {
            client_identifier: self.client_identifier.clone(),
            will,
            user_name: clone_opt_string(&self.user_name),
            password: clone_opt_string(&self.password),
        }
    }
}

/// Number of UTF-8 bytes of `s`.
fn string_bytes(s: &str) -> (n: usize)
    ensures
        n == encode_utf8(s@).len(),
{
    s.as_bytes().len()
}

/// Number of UTF-8 bytes of `s` with its length prefix; nothing if absent.
fn opt_string_bytes(s: &Option<String>) -> (n: usize)
    requires
        spec_opt_string_wire(spec_opt_string_view(*s)).len() <= MAX_REMAINING_LENGTH,
    ensures
        n == spec_opt_string_wire(spec_opt_string_view(*s)).len(),
{
    match s {
        Some(s) => string_bytes(s.as_str()) + 2,
        None => 0,
    }
}

/// Appends an optional string; one that is too long is refused and leaves
/// `out` as it was.
fn encode_opt_string(s: &Option<String>, out: &mut Vec<u8>) -> (r: Result<(), PacketError>)
    ensures
        spec_opt_string_fits(spec_opt_string_view(*s)) ==> r is Ok && final(out)@ == old(out)@
            + spec_opt_string_wire(spec_opt_string_view(*s)),
        !spec_opt_string_fits(spec_opt_string_view(*s)) ==> r == Err::<(), PacketError>(
            PacketError::PayloadError(PayloadError::StringEncodeError(StringEncodeError::TooLong)),
        ) && final(out)@ == old(out)@,
{
    match s {
        Some(s) => match encode_string(s.as_str(), out) {
            Ok(()) => Ok(()),
            Err(e) => Err(PacketError::PayloadError(PayloadError::StringEncodeError(e))),
        },
        None => {
            assert(out@ + Seq::<u8>::empty() =~= out@);
            Ok(())
        },
    }
}

/// Reads a string that is there only if `present`. A failure consumes
/// nothing.
fn decode_opt_string(present: bool, reader: &mut ByteReader) -> (r: Result<
    Option<String>,
    PacketError,
>)
    ensures
        match spec_decode_opt_string(present, old(reader).remaining()) {
            Ok((s, n)) => r is Ok && spec_opt_string_view(r->Ok_0) == s
                && final(reader).remaining() == old(reader).remaining().skip(n),
            Err(e) => r is Err && r->Err_0 == e && final(reader).remaining()
                == old(reader).remaining(),
        },
{
    reveal(spec_decode_opt_string);
    if !present {
        assert(reader.remaining().skip(0) =~= reader.remaining());
        return Ok(None);
    }
    match decode_string(reader) {
        Ok(s) => Ok(Some(s)),
        Err(e) => Err(PayloadError::from_string_error(e)),
    }
}

/// Reads a will that is there only if `present`. A failure consumes nothing.
fn decode_will(present: bool, reader: &mut ByteReader) -> (r: Result<
    Option<(TopicName, String)>,
    PacketError,
>)
    ensures
        match spec_decode_will(present, old(reader).remaining()) {
            Ok((w, n)) => r is Ok && spec_will_view(r->Ok_0) == w && final(reader).remaining()
                == old(reader).remaining().skip(n),
            Err(e) => r is Err && r->Err_0 == e && final(reader).remaining()
                == old(reader).remaining(),
        },
{
    reveal(spec_decode_will);
    if !present {
        assert(reader.remaining().skip(0) =~= reader.remaining());
        return Ok(None);
    }
    let ghost input = reader.remaining();
    let mut cur = reader.fork();
    let topic = match TopicName::decode(&mut cur) {
        Ok(t) => t,
        Err(e) => {
            return Err(PayloadError::from_topic_name_error(e));
        },
    };
    let message = match decode_string(&mut cur) {
        Ok(s) => s,
        Err(e) => {
            return Err(PayloadError::from_string_error(e));
        },
    };
    proof {
        let n = spec_decode_topic_name(input)->Ok_0.1;
        let m = spec_decode_string(input.skip(n))->Ok_0.1;
        assert(input.skip(n).skip(m) =~= input.skip(n + m));
    }
    reader.advance_to(cur);
    Ok(Some((topic, message)))
}

impl ConnectPacketPayload {
    /// Reads the payload that `flags` announce. A failure consumes nothing.
    #[verifier::rlimit(50)]
    pub fn decode_with(reader: &mut ByteReader, flags: ConnectFlags) -> (r: Result<
        ConnectPacketPayload,
        PacketError,
    >)
        ensures
            match ConnectPacketPayloadView::spec_decode(flags, old(reader).remaining()) {
                Ok((p, n)) => r is Ok && r->Ok_0@ == p && final(reader).remaining()
                    == old(reader).remaining().skip(n),
                Err(e) => r is Err && r->Err_0 == e && final(reader).remaining()
                    == old(reader).remaining(),
            },
    {
        let ghost input = reader.remaining();
        let mut cur = reader.fork();
        let client_identifier = match decode_string(&mut cur) {
            Ok(v) => v,
            Err(e) => {
                return Err(PayloadError::from_string_error(e));
            },
        };
        let ghost a = spec_decode_string(input)->Ok_0.1;
        let will = match decode_will(flags.will_flag, &mut cur) {
            Ok(v) => v,
            Err(e) => {
                return Err(e);
            },
        };
        let ghost b = spec_decode_will(flags.will_flag, input.skip(a))->Ok_0.1;
        proof {
            lemma_string_canonical(input);
            lemma_will_canonical(flags.will_flag, input.skip(a));
            assert(input.skip(a).skip(b) =~= input.skip(a + b));
        }
        let user_name = match decode_opt_string(flags.user_name, &mut cur) {
            Ok(v) => v,
            Err(e) => {
                return Err(e);
            },
        };
        let ghost c = spec_decode_opt_string(flags.user_name, input.skip(a + b))->Ok_0.1;
        proof {
            lemma_opt_string_canonical(flags.user_name, input.skip(a + b));
            assert(input.skip(a + b).skip(c) =~= input.skip(a + b + c));
        }
        let password = match decode_opt_string(flags.password, &mut cur) {
            Ok(v) => v,
            Err(e) => {
                return Err(e);
            },
        };
        let ghost d = spec_decode_opt_string(flags.password, input.skip(a + b + c))->Ok_0.1;
        proof {
            lemma_opt_string_canonical(flags.password, input.skip(a + b + c));
            assert(input.skip(a + b + c).skip(d) =~= input.skip(a + b + c + d));
        }
        reader.advance_to(cur);
        Ok(ConnectPacketPayload { client_identifier, will, user_name, password })
    }
}

/// Reads the variable headers of a CONNECT.
fn decode_connect_headers(reader: &mut ByteReader) -> (r: Result<
    (ProtocolName, ProtocolLevel, ConnectFlags, KeepAlive),
    VariableHeaderError,
>)
    ensures
        match spec_decode_connect_headers(old(reader).remaining()) {
            Ok(((name, level, flags, keep_alive), n)) => r is Ok && r->Ok_0.0@ == name
                && r->Ok_0.1.0 == level && r->Ok_0.2 == flags && r->Ok_0.3.0 == keep_alive
                && final(reader).remaining() == old(reader).remaining().skip(n),
            Err(e) => r is Err && r->Err_0 == e,
        },
{
    let ghost input = reader.remaining();
    let protocol_name = match ProtocolName::decode(reader) {
        Ok(v) => v,
        Err(e) => {
            return Err(e);
        },
    };
    let ghost a = ProtocolName::spec_decode(input)->Ok_0.1;
    proof {
        lemma_string_canonical(input);
    }
    let protocol_level = match ProtocolLevel::decode(reader) {
        Ok(v) => v,
        Err(e) => {
            return Err(e);
        },
    };
    assert(input.skip(a).skip(1) =~= input.skip(a + 1));
    let flags = match ConnectFlags::decode(reader) {
        Ok(v) => v,
        Err(e) => {
            return Err(e);
        },
    };
    assert(input.skip(a + 1).skip(1) =~= input.skip(a + 1 + 1));
    let keep_alive = match KeepAlive::decode(reader) {
        Ok(v) => v,
        Err(e) => {
            return Err(e);
        },
    };
    assert(input.skip(a + 1 + 1).skip(2) =~= input.skip(a + 1 + 1 + 2));
    Ok((protocol_name, protocol_level, flags, keep_alive))
}

/// `CONNECT` packet: the client asks for a connection.
#[derive(Debug, Eq, PartialEq)]
pub struct ConnectPacket {
    fixed_header: FixedHeader,
    protocol_name: ProtocolName,
    protocol_level: ProtocolLevel,
    flags: ConnectFlags,
    keep_alive: KeepAlive,
    payload: ConnectPacketPayload,
}

/// The model of a CONNECT.
pub struct ConnectPacketView {
    /// The fixed header.
    pub fixed_header: FixedHeader,
    /// The protocol name.
    pub protocol_name: Seq<char>,
    /// The protocol level.
    pub protocol_level: u8,
    /// The connect flags.
    pub flags: ConnectFlags,
    /// The keep-alive interval in seconds.
    pub keep_alive: u16,
    /// The payload.
    pub payload: ConnectPacketPayloadView,
}

impl ConnectPacketView {
    /// The bytes of the variable headers after the protocol name: level,
    /// flags, keep-alive.
    pub open spec fn spec_fixed_part(self) -> Seq<u8> {
        seq![self.protocol_level] + self.flags.spec_wire() + spec_u16_wire(self.keep_alive)
    }

    /// Number of bytes of the variable headers and the payload.
    pub open spec fn spec_body_length(self) -> nat {
        spec_string_wire(self.protocol_name).len() + 4 + self.payload.spec_wire().len()
    }

    /// The flags say what the payload holds, and the will topic is a topic
    /// name.
    pub open spec fn spec_consistent(self) -> bool {
        &&& self.flags.valid()
        &&& self.flags.will_flag == (self.payload.will is Some)
        &&& self.flags.user_name == (self.payload.user_name is Some)
        &&& self.flags.password == (self.payload.password is Some)
        &&& self.payload.will matches Some((topic, _)) ==> spec_topic_name_error(topic) is None
    }
}

impl View for ConnectPacket {
    type V = ConnectPacketView;

    closed spec fn view(&self) -> ConnectPacketView {
        ConnectPacketView {
            fixed_header: self.fixed_header,
            protocol_name: self.protocol_name@,
            protocol_level: self.protocol_level.0,
            flags: self.flags,
            keep_alive: self.keep_alive.0,
            payload: self.payload@,
        }
    }
}

impl Clone for ConnectPacket {
    fn clone(&self) -> (r: ConnectPacket)
        ensures
            r@ == self@,
    {
        proof {
            use_type_invariant(self);
        }
        ConnectPacket {
            fixed_header: self.fixed_header,
            protocol_name: self.protocol_name.clone(),
            protocol_level: self.protocol_level,
            flags: self.flags,
            keep_alive: self.keep_alive,
            payload: self.payload.clone(),
        }
    }
}

impl ConnectPacket {
    #[verifier::type_invariant]
    spec fn well_formed(&self) -> bool {
        <ConnectPacket as Packet>::spec_valid(self@)
    }

    /// Puts a packet together from its parts and works out its remaining
    /// length.
    #[verifier::rlimit(50)]
    fn assemble(
        protocol_name: ProtocolName,
        protocol_level: ProtocolLevel,
        flags: ConnectFlags,
        keep_alive: KeepAlive,
        payload: ConnectPacketPayload,
    ) -> (r: ConnectPacket)
        requires
            ({
                let v = ConnectPacketView {
                    fixed_header: arbitrary(),
                    protocol_name: protocol_name@,
                    protocol_level: protocol_level.0,
                    flags,
                    keep_alive: keep_alive.0,
                    payload: payload@,
                };
                v.spec_consistent() && v.spec_body_length() <= MAX_REMAINING_LENGTH
            }),
        ensures
            r@.protocol_name == protocol_name@,
            r@.protocol_level == protocol_level.0,
            r@.flags == flags,
            r@.keep_alive == keep_alive.0,
            r@.payload == payload@,
            r@.fixed_header == (FixedHeader {
                packet_type: PacketType { control_type: ControlType::Connect, flags: 0 },
                remaining_length: r@.spec_body_length() as u32,
            }),
            <ConnectPacket as Packet>::spec_valid(r@),
    {
        let will_len: usize = match &payload.will {
            Some(w) => {
                let topic_len = w.0.encoded_length();
                topic_len as usize + string_bytes(w.1.as_str()) + 2
            },
            None => 0,
        };
        let total: usize = string_bytes(protocol_name.0.as_str()) + 2 + 4 + string_bytes(
            payload.client_identifier.as_str(),
        ) + 2 + will_len + opt_string_bytes(&payload.user_name) + opt_string_bytes(
            &payload.password,
        );
        ConnectPacket {
            fixed_header: FixedHeader::new(
                PacketType::with_default(ControlType::Connect),
                total as u32,
            ),
            protocol_name,
            protocol_level,
            flags,
            keep_alive,
            payload,
        }
    }

    /// A CONNECT at the protocol level of MQTT 3.1.1 with no flag set, no
    /// keep-alive, and a payload of the client identifier alone.
    pub fn new(protocol_name: String, client_identifier: String) -> (r: ConnectPacket)
        requires
            spec_string_wire(protocol_name@).len() + 4 + spec_string_wire(client_identifier@).len()
                <= MAX_REMAINING_LENGTH,
        ensures
            r@.protocol_name == protocol_name@,
            r@.protocol_level == SPEC_3_1_1,
            r@.flags == (ConnectFlags {
                user_name: false,
                password: false,
                will_retain: false,
                will_qos: 0,
                will_flag: false,
                clean_session: false,
            }),
            r@.keep_alive == 0,
            r@.payload == (ConnectPacketPayloadView {
                client_identifier: client_identifier@,
                will: None,
                user_name: None,
                password: None,
            }),
            r@.fixed_header == (FixedHeader {
                packet_type: PacketType { control_type: ControlType::Connect, flags: 0 },
                remaining_length: (spec_string_wire(protocol_name@).len() + 4 + spec_string_wire(
                    client_identifier@,
                ).len()) as u32,
            }),
            <ConnectPacket as Packet>::spec_valid(r@),
    {
        let payload = ConnectPacketPayload {
            client_identifier,
            will: None,
            user_name: None,
            password: None,
        };
        proof {
            assert(payload@.spec_wire() =~= spec_string_wire(client_identifier@));
        }
        Self::assemble(
            ProtocolName(protocol_name),
            ProtocolLevel(SPEC_3_1_1),
            ConnectFlags::empty(),
            KeepAlive(0),
            payload,
        )
    }

    /// A packet that stands in while another is taken apart: the smallest
    /// CONNECT, with an empty protocol name and an empty client identifier.
    fn placeholder() -> (r: ConnectPacket)
        ensures
            r@ == (ConnectPacketView {
                fixed_header: FixedHeader {
                    packet_type: PacketType { control_type: ControlType::Connect, flags: 0 },
                    remaining_length: 8,
                },
                protocol_name: Seq::empty(),
                protocol_level: SPEC_3_1_1,
                flags: ConnectFlags {
                    user_name: false,
                    password: false,
                    will_retain: false,
                    will_qos: 0,
                    will_flag: false,
                    clean_session: false,
                },
                keep_alive: 0,
                payload: ConnectPacketPayloadView {
                    client_identifier: Seq::empty(),
                    will: None,
                    user_name: None,
                    password: None,
                },
            }),
    {
        let payload = ConnectPacketPayload {
            client_identifier: String::new(),
            will: None,
            user_name: None,
            password: None,
        };
        proof {
            assert(encode_utf8(Seq::<char>::empty()).len() == 0);
            assert(payload@.spec_wire() =~= spec_string_wire(Seq::<char>::empty()));
        }
        Self::assemble(
            ProtocolName(String::new()),
            ProtocolLevel(SPEC_3_1_1),
            ConnectFlags::empty(),
            KeepAlive(0),
            payload,
        )
    }

    /// The protocol name.
    pub fn protocol_name(&self) -> (r: &str)
        ensures
            r@ == self@.protocol_name,
    {
        self.protocol_name.0.as_str()
    }

    /// The protocol level.
    pub fn protocol_level(&self) -> (r: u8)
        ensures
            r == self@.protocol_level,
    {
        self.protocol_level.0
    }

    /// The connect flags.
    pub fn connect_flags(&self) -> (r: ConnectFlags)
        ensures
            r == self@.flags,
            self@.spec_consistent(),
    {
        proof {
            use_type_invariant(self);
        }
        self.flags
    }

    /// Whether the session starts afresh.
    pub fn clean_session(&self) -> (r: bool)
        ensures
            r == self@.flags.clean_session,
    {
        self.flags.clean_session
    }

    /// The keep-alive interval in seconds.
    pub fn keep_alive(&self) -> (r: u16)
        ensures
            r == self@.keep_alive,
    {
        self.keep_alive.0
    }

    /// The client identifier.
    pub fn client_identifier(&self) -> (r: &str)
        ensures
            r@ == self@.payload.client_identifier,
    {
        self.payload.client_identifier.as_str()
    }

    /// The user name, if there is one.
    pub fn user_name(&self) -> (r: Option<&str>)
        ensures
            r is Some == self@.payload.user_name is Some,
            r matches Some(s) ==> s@ == self@.payload.user_name->Some_0,
    {
        match &self.payload.user_name {
            Some(s) => Some(s.as_str()),
            None => None,
        }
    }

    /// The password, if there is one.
    pub fn password(&self) -> (r: Option<&str>)
        ensures
            r is Some == self@.payload.password is Some,
            r matches Some(s) ==> s@ == self@.payload.password->Some_0,
    {
        match &self.payload.password {
            Some(s) => Some(s.as_str()),
            None => None,
        }
    }

    /// The will topic and the will message, if there is a will.
    pub fn will(&self) -> (r: Option<(&str, &str)>)
        ensures
            r is Some == self@.payload.will is Some,
            r matches Some((t, m)) ==> t@ == self@.payload.will->Some_0.0 && m@
                == self@.payload.will->Some_0.1,
    {
        match &self.payload.will {
            Some(w) => Some((w.0.as_str(), w.1.as_str())),
            None => None,
        }
    }

    /// Sets the keep-alive interval in seconds.
    pub fn set_keep_alive(&mut self, keep_alive: u16)
        ensures
            final(self)@ == (ConnectPacketView { keep_alive, ..old(self)@ }),
    {
        proof {
            use_type_invariant(&*self);
        }
        self.keep_alive = KeepAlive(keep_alive);
    }

    /// Asks for a fresh session, or not.
    pub fn set_clean_session(&mut self, clean_session: bool)
        ensures
            final(self)@ == (ConnectPacketView {
                flags: ConnectFlags { clean_session, ..old(self)@.flags },
                ..old(self)@
            }),
    {
        proof {
            use_type_invariant(&*self);
        }
        self.flags.clean_session = clean_session;
    }

    /// Asks for the will message to be retained, or not.
    pub fn set_will_retain(&mut self, will_retain: bool)
        ensures
            final(self)@ == (ConnectPacketView {
                flags: ConnectFlags { will_retain, ..old(self)@.flags },
                ..old(self)@
            }),
    {
        proof {
            use_type_invariant(&*self);
        }
        self.flags.will_retain = will_retain;
    }

    /// Sets the quality of service of the will message, 0 to 2.
    pub fn set_will_qos(&mut self, will_qos: u8)
        requires
            will_qos <= 2,
        ensures
            final(self)@ == (ConnectPacketView {
                flags: ConnectFlags { will_qos, ..old(self)@.flags },
                ..old(self)@
            }),
    {
        proof {
            use_type_invariant(&*self);
        }
        self.flags.will_qos = will_qos;
    }

    /// Replaces the client identifier and brings the remaining length up to
    /// date.
    pub fn set_client_identifier(&mut self, id: String)
        requires
            (ConnectPacketView {
                payload: ConnectPacketPayloadView {
                    client_identifier: id@,
                    ..old(self)@.payload
                },
                ..old(self)@
            }).spec_body_length() <= MAX_REMAINING_LENGTH,
        ensures
            final(self)@.payload == (ConnectPacketPayloadView {
                client_identifier: id@,
                ..old(self)@.payload
            }),
            final(self)@ == (ConnectPacketView {
                fixed_header: final(self)@.fixed_header,
                payload: final(self)@.payload,
                ..old(self)@
            }),
            final(self)@.fixed_header.remaining_length == final(self)@.spec_body_length(),
            <ConnectPacket as Packet>::spec_valid(final(self)@),
    {
        proof {
            use_type_invariant(&*self);
        }
        let mut taken = Self::placeholder();
        core::mem::swap(self, &mut taken);
        let ConnectPacket { fixed_header: _, protocol_name, protocol_level, flags, keep_alive,
            payload } =
            taken;
        let ConnectPacketPayload { client_identifier: _, will, user_name, password } = payload;
        *self = Self::assemble(
            protocol_name,
            protocol_level,
            flags,
            keep_alive,
            ConnectPacketPayload { client_identifier: id, will, user_name, password },
        );
    }

    /// Sets or removes the user name, with its flag, and brings the
    /// remaining length up to date.
    pub fn set_user_name(&mut self, name: Option<String>)
        requires
            (ConnectPacketView {
                payload: ConnectPacketPayloadView {
                    user_name: spec_opt_string_view(name),
                    ..old(self)@.payload
                },
                ..old(self)@
            }).spec_body_length() <= MAX_REMAINING_LENGTH,
        ensures
            final(self)@.payload == (ConnectPacketPayloadView {
                user_name: spec_opt_string_view(name),
                ..old(self)@.payload
            }),
            final(self)@.flags == (ConnectFlags { user_name: name is Some, ..old(self)@.flags }),
            final(self)@ == (ConnectPacketView {
                fixed_header: final(self)@.fixed_header,
                flags: final(self)@.flags,
                payload: final(self)@.payload,
                ..old(self)@
            }),
            final(self)@.fixed_header.remaining_length == final(self)@.spec_body_length(),
            <ConnectPacket as Packet>::spec_valid(final(self)@),
    {
        proof {
            use_type_invariant(&*self);
        }
        let mut taken = Self::placeholder();
        core::mem::swap(self, &mut taken);
        let ConnectPacket { fixed_header: _, protocol_name, protocol_level, flags, keep_alive,
            payload } =
            taken;
        let ConnectPacketPayload { client_identifier, will, user_name: _, password } = payload;
        let mut flags = flags;
        flags.user_name = name.is_some();
        *self = Self::assemble(
            protocol_name,
            protocol_level,
            flags,
            keep_alive,
            ConnectPacketPayload { client_identifier, will, user_name: name, password },
        );
    }

    /// Sets or removes the password, with its flag, and brings the remaining
    /// length up to date.
    pub fn set_password(&mut self, password: Option<String>)
        requires
            (ConnectPacketView {
                payload: ConnectPacketPayloadView {
                    password: spec_opt_string_view(password),
                    ..old(self)@.payload
                },
                ..old(self)@
            }).spec_body_length() <= MAX_REMAINING_LENGTH,
        ensures
            final(self)@.payload == (ConnectPacketPayloadView {
                password: spec_opt_string_view(password),
                ..old(self)@.payload
            }),
            final(self)@.flags == (ConnectFlags { password: password is Some, ..old(self)@.flags }),
            final(self)@ == (ConnectPacketView {
                fixed_header: final(self)@.fixed_header,
                flags: final(self)@.flags,
                payload: final(self)@.payload,
                ..old(self)@
            }),
            final(self)@.fixed_header.remaining_length == final(self)@.spec_body_length(),
            <ConnectPacket as Packet>::spec_valid(final(self)@),
    {
        proof {
            use_type_invariant(&*self);
        }
        let mut taken = Self::placeholder();
        core::mem::swap(self, &mut taken);
        let ConnectPacket { fixed_header: _, protocol_name, protocol_level, flags, keep_alive,
            payload } =
            taken;
        let ConnectPacketPayload { client_identifier, will, user_name, password: _ } = payload;
        let mut flags = flags;
        flags.password = password.is_some();
        *self = Self::assemble(
            protocol_name,
            protocol_level,
            flags,
            keep_alive,
            ConnectPacketPayload { client_identifier, will, user_name, password },
        );
    }

    /// Sets or removes the will, with its flag, and brings the remaining
    /// length up to date.
    pub fn set_will(&mut self, will: Option<(TopicName, String)>)
        requires
            (ConnectPacketView {
                payload: ConnectPacketPayloadView {
                    will: spec_will_view(will),
                    ..old(self)@.payload
                },
                ..old(self)@
            }).spec_body_length() <= MAX_REMAINING_LENGTH,
        ensures
            final(self)@.payload == (ConnectPacketPayloadView {
                will: spec_will_view(will),
                ..old(self)@.payload
            }),
            final(self)@.flags == (ConnectFlags { will_flag: will is Some, ..old(self)@.flags }),
            final(self)@ == (ConnectPacketView {
                fixed_header: final(self)@.fixed_header,
                flags: final(self)@.flags,
                payload: final(self)@.payload,
                ..old(self)@
            }),
            final(self)@.fixed_header.remaining_length == final(self)@.spec_body_length(),
            <ConnectPacket as Packet>::spec_valid(final(self)@),
    {
        proof {
            use_type_invariant(&*self);
        }
        let mut taken = Self::placeholder();
        core::mem::swap(self, &mut taken);
        let ConnectPacket { fixed_header: _, protocol_name, protocol_level, flags, keep_alive,
            payload } =
            taken;
        let ConnectPacketPayload { client_identifier, will: _, user_name, password } = payload;
        let mut flags = flags;
        flags.will_flag = will.is_some();
        match &will {
            Some(w) => {
                let n = w.0.encoded_length();
            },
            None => {},
        }
        *self = Self::assemble(
            protocol_name,
            protocol_level,
            flags,
            keep_alive,
            ConnectPacketPayload { client_identifier, will, user_name, password },
        );
    }
}

/// Reading the variable headers of a CONNECT from the front of `body`:
/// protocol name, protocol level, connect flags, keep-alive.
pub open spec fn spec_decode_connect_headers(body: Seq<u8>) -> Result<
    ((Seq<char>, u8, ConnectFlags, u16), int),
    VariableHeaderError,
> {
    match ProtocolName::spec_decode(body) {
        Err(e) => Err(e),
        Ok((name, a)) => match ProtocolLevel::spec_decode(body.skip(a)) {
            Err(e) => Err(e),
            Ok((level, b)) => match ConnectFlags::spec_decode(body.skip(a + b)) {
                Err(e) => Err(e),
                Ok((flags, c)) => match KeepAlive::spec_decode(body.skip(a + b + c)) {
                    Err(e) => Err(e),
                    Ok((keep_alive, d)) => Ok(
                        ((name, level.0, flags, keep_alive.0), a + b + c + d),
                    ),
                },
            },
        },
    }
}

impl Packet for ConnectPacket {
    type Payload = ConnectPacketPayload;

    open spec fn spec_control_type() -> ControlType {
        ControlType::Connect
    }

    open spec fn spec_valid(v: ConnectPacketView) -> bool {
        &&& v.fixed_header.packet_type.control_type == ControlType::Connect
        &&& v.fixed_header.packet_type.flags == 0
        &&& v.spec_consistent()
        &&& v.fixed_header.remaining_length <= MAX_REMAINING_LENGTH
        &&& v.fixed_header.remaining_length == v.spec_body_length()
    }

    open spec fn spec_fixed_header(v: ConnectPacketView) -> FixedHeader {
        v.fixed_header
    }

    open spec fn spec_variable_headers(v: ConnectPacketView) -> Seq<u8> {
        spec_string_wire(v.protocol_name) + v.spec_fixed_part()
    }

    open spec fn spec_variable_headers_error(v: ConnectPacketView) -> Option<PacketError> {
        if encode_utf8(v.protocol_name).len() > MAX_STRING_BYTES {
            Some(
                PacketError::VariableHeaderError(
                    VariableHeaderError::StringEncodeError(StringEncodeError::TooLong),
                ),
            )
        } else {
            None
        }
    }

    open spec fn spec_payload(v: ConnectPacketView) -> Seq<u8> {
        v.payload.spec_wire()
    }

    open spec fn spec_payload_error(v: ConnectPacketView) -> Option<PacketError> {
        if v.payload.fits() {
            None
        } else {
            Some(
                PacketError::PayloadError(
                    PayloadError::StringEncodeError(StringEncodeError::TooLong),
                ),
            )
        }
    }

    open spec fn spec_decode_body(fixed_header: FixedHeader, body: Seq<u8>) -> Result<
        ConnectPacketView,
        PacketError,
    > {
        match spec_header_error(ControlType::Connect, fixed_header) {
            Some(e) => Err(e),
            None => if fixed_header.remaining_length > MAX_REMAINING_LENGTH {
                Err(PacketError::FixedHeaderError(FixedHeaderError::MalformedRemainingLength))
            } else {
                match spec_decode_connect_headers(body) {
                    Err(e) => Err(PacketError::spec_from_variable_header_error(e)),
                    Ok(((protocol_name, protocol_level, flags, keep_alive), n)) => {
                        match ConnectPacketPayloadView::spec_decode(flags, body.skip(n)) {
                            Err(e) => Err(e),
                            Ok((payload, m)) => if body.len() != n + m {
                                Err(PacketError::MalformedPacket(MalformedReason::TrailingBytes))
                            } else {
                                Ok(
                                    ConnectPacketView {
                                        fixed_header,
                                        protocol_name,
                                        protocol_level,
                                        flags,
                                        keep_alive,
                                        payload,
                                    },
                                )
                            },
                        }
                    },
                }
            },
        }
    }

    open spec fn spec_payload_wire(payload: &ConnectPacketPayload) -> Seq<u8> {
        payload@.spec_wire()
    }

    fn fixed_header(&self) -> (r: &FixedHeader) {
        proof {
            use_type_invariant(self);
            assert(Self::spec_valid(self@));
        }
        &self.fixed_header
    }

    fn payload(self) -> (r: ConnectPacketPayload)
        ensures
            r@ == self@.payload,
    {
        self.payload
    }

    fn payload_ref(&self) -> (r: &ConnectPacketPayload)
        ensures
            r@ == self@.payload,
    {
        &self.payload
    }

    fn encode_variable_headers(&self, out: &mut Vec<u8>) -> (r: Result<(), PacketError>) {
        match self.protocol_name.encode(out) {
            Ok(()) => {},
            Err(e) => {
                return Err(PacketError::VariableHeaderError(e));
            },
        }
        self.protocol_level.encode(out);
        self.flags.encode(out);
        self.keep_alive.encode(out);
        assert(out@ =~= old(out)@ + Self::spec_variable_headers(self@));
        Ok(())
    }

    fn encoded_variable_headers_length(&self) -> (n: u32) {
        proof {
            use_type_invariant(self);
        }
        self.protocol_name.encoded_length() + 4
    }

    #[verifier::rlimit(50)]
    fn encode_payload(&self, out: &mut Vec<u8>) -> (r: Result<(), PacketError>) {
        let start = out.len();
        let ghost v = self@.payload;
        let too_long = PacketError::PayloadError(
            PayloadError::StringEncodeError(StringEncodeError::TooLong),
        );
        match encode_string(self.payload.client_identifier.as_str(), out) {
            Ok(()) => {},
            Err(_) => {
                return Err(too_long);
            },
        }
        match &self.payload.will {
            Some(w) => {
                w.0.encode(out);
                match encode_string(w.1.as_str(), out) {
                    Ok(()) => {},
                    Err(_) => {
                        out.truncate(start);
                        assert(out@ =~= old(out)@);
                        return Err(too_long);
                    },
                }
            },
            None => {},
        }
        assert(out@ =~= old(out)@ + spec_string_wire(v.client_identifier) + spec_will_wire(v.will));
        match encode_opt_string(&self.payload.user_name, out) {
            Ok(()) => {},
            Err(_) => {
                out.truncate(start);
                assert(out@ =~= old(out)@);
                return Err(too_long);
            },
        }
        match encode_opt_string(&self.payload.password, out) {
            Ok(()) => {},
            Err(_) => {
                out.truncate(start);
                assert(out@ =~= old(out)@);
                return Err(too_long);
            },
        }
        assert(out@ =~= old(out)@ + v.spec_wire());
        Ok(())
    }

    fn encoded_payload_length(&self) -> (n: u32) {
        proof {
            use_type_invariant(self);
        }
        let name_len = self.protocol_name.encoded_length();
        self.fixed_header.remaining_length - name_len - 4
    }

    #[verifier::rlimit(50)]
    fn decode_body(body: ByteReader, fixed_header: FixedHeader) -> (r: Result<Self, PacketError>) {
        let ghost input = body.remaining();
        let mut body = body;
        match check_header(ControlType::Connect, &fixed_header) {
            Ok(()) => {},
            Err(e) => {
                return Err(e);
            },
        }
        if fixed_header.remaining_length > MAX_REMAINING_LENGTH {
            return Err(PacketError::FixedHeaderError(FixedHeaderError::MalformedRemainingLength));
        }
        let (protocol_name, protocol_level, flags, keep_alive) = match decode_connect_headers(
            &mut body,
        ) {
            Ok(v) => v,
            Err(e) => {
                return Err(PacketError::from_variable_header_error(e));
            },
        };
        let ghost n = spec_decode_connect_headers(input)->Ok_0.1;
        let payload = match ConnectPacketPayload::decode_with(&mut body, flags) {
            Ok(v) => v,
            Err(e) => {
                return Err(e);
            },
        };
        let ghost m = ConnectPacketPayloadView::spec_decode(flags, input.skip(n))->Ok_0.1;
        if body.remaining_len() != 0 {
            proof {
                lemma_connect_payload_canonical(flags, input.skip(n));
            }
            return Err(PacketError::MalformedPacket(MalformedReason::TrailingBytes));
        }
        proof {
            lemma_connect_headers_length(input);
            lemma_connect_payload_canonical(flags, input.skip(n));
            assert(input.skip(n).take(m).len() == m);
        }
        Ok(ConnectPacket { fixed_header, protocol_name, protocol_level, flags, keep_alive,
            payload })
    }

    proof fn lemma_remaining_length(v: ConnectPacketView) {
        assert(Self::spec_control_type() == ControlType::Connect);
        assert(Self::spec_fixed_header(v) == v.fixed_header);
        assert(v.spec_fixed_part().len() == 4);
    }

    proof fn lemma_decoded_valid(fixed_header: FixedHeader, body: Seq<u8>) {
        if let Ok(v) = Self::spec_decode_body(fixed_header, body) {
            lemma_connect_headers_length(body);
            let n = spec_decode_connect_headers(body)->Ok_0.1;
            lemma_connect_payload_canonical(v.flags, body.skip(n));
            assert(Self::spec_valid(v));
            assert(Self::spec_fixed_header(v) == fixed_header);
        }
    }

    #[verifier::rlimit(50)]
    proof fn lemma_body_roundtrip(v: ConnectPacketView) {
        let name = spec_string_wire(v.protocol_name);
        let payload = v.payload.spec_wire();
        let body = Self::spec_variable_headers(v) + Self::spec_payload(v);
        let after_name = v.spec_fixed_part() + payload;
        assert(body =~= name + after_name);
        lemma_string_roundtrip(v.protocol_name, after_name);
        let a = name.len() as int;
        assert(body.skip(a) =~= after_name);
        assert(after_name[0] == v.protocol_level);
        assert(body.skip(a + 1) =~= v.flags.spec_wire() + (spec_u16_wire(v.keep_alive) + payload));
        crate::control::variable_header::connect_flags::lemma_connect_flags_roundtrip(
            v.flags,
            spec_u16_wire(v.keep_alive) + payload,
        );
        assert(body.skip(a + 1 + 1) =~= spec_u16_wire(v.keep_alive) + payload);
        crate::encodable::lemma_u16_roundtrip(v.keep_alive, payload);
        assert(body.skip(a + 1 + 1 + 2) =~= payload);
        lemma_connect_payload_roundtrip(v.flags, v.payload);
        assert(payload + Seq::<u8>::empty() =~= payload);
    }
}

/// The variable headers that were read take four bytes more than the wire
/// form of their protocol name, and their flags are valid.
pub proof fn lemma_connect_headers_length(body: Seq<u8>)
    ensures
        spec_decode_connect_headers(body) matches Ok(((name, _, flags, _), n)) ==> n
            == spec_string_wire(name).len() + 4 && n <= body.len() && flags.valid(),
{
    lemma_string_canonical(body);
}

/// The bytes that an optional string was read from are its wire form.
pub proof fn lemma_opt_string_canonical(present: bool, input: Seq<u8>)
    ensures
        spec_decode_opt_string(present, input) matches Ok((s, n)) ==> spec_opt_string_wire(s).len()
            == n && 0 <= n <= input.len() && (s is Some) == present && spec_opt_string_fits(s),
{
    reveal(spec_decode_opt_string);
    lemma_string_canonical(input);
}

/// The bytes that an optional will was read from are its wire form, and its
/// topic is a topic name.
pub proof fn lemma_will_canonical(present: bool, input: Seq<u8>)
    ensures
        spec_decode_will(present, input) matches Ok((w, n)) ==> spec_will_wire(w).len() == n && 0
            <= n <= input.len() && (w is Some) == present && (w matches Some((topic, message))
            ==> spec_topic_name_error(topic) is None && encode_utf8(message).len()
            <= MAX_STRING_BYTES),
{
    reveal(spec_decode_will);
    if present {
        lemma_string_canonical(input);
        if let Ok((topic, n)) = spec_decode_topic_name(input) {
            lemma_string_canonical(input.skip(n));
        }
    }
}

/// A payload that was read takes as many bytes as its wire form, holds what
/// the flags announce, and can be written again.
#[verifier::rlimit(50)]
pub proof fn lemma_connect_payload_canonical(flags: ConnectFlags, input: Seq<u8>)
    ensures
        ConnectPacketPayloadView::spec_decode(flags, input) matches Ok((p, n))
            ==> p.spec_wire().len()
            == n && 0 <= n <= input.len() && flags.will_flag == (p.will is Some) && flags.user_name
            == (p.user_name is Some) && flags.password == (p.password is Some) && p.fits() && (
        p.will matches Some((topic, _)) ==> spec_topic_name_error(topic) is None),
{
    if let Ok((p, n)) = ConnectPacketPayloadView::spec_decode(flags, input) {
        lemma_string_canonical(input);
        let a = spec_decode_string(input)->Ok_0.1;
        lemma_will_canonical(flags.will_flag, input.skip(a));
        let b = spec_decode_will(flags.will_flag, input.skip(a))->Ok_0.1;
        lemma_opt_string_canonical(flags.user_name, input.skip(a + b));
        let c = spec_decode_opt_string(flags.user_name, input.skip(a + b))->Ok_0.1;
        lemma_opt_string_canonical(flags.password, input.skip(a + b + c));
    }
}

/// An optional string that fits its length prefix is read back from its
/// wire form, whatever follows it.
pub proof fn lemma_opt_string_roundtrip(s: Option<Seq<char>>, rest: Seq<u8>)
    requires
        spec_opt_string_fits(s),
    ensures
        spec_decode_opt_string(s is Some, spec_opt_string_wire(s) + rest) == Ok::<
            (Option<Seq<char>>, int),
            PacketError,
        >((s, spec_opt_string_wire(s).len() as int)),
        (spec_opt_string_wire(s) + rest).skip(spec_opt_string_wire(s).len() as int) == rest,
{
    reveal(spec_decode_opt_string);
    match s {
        Some(s) => {
            lemma_string_roundtrip(s, rest);
        },
        None => {
            assert((Seq::<u8>::empty() + rest).skip(0) =~= rest);
        },
    }
}

/// An optional will whose message fits its length prefix is read back from
/// its wire form, whatever follows it.
pub proof fn lemma_will_roundtrip(w: Option<(Seq<char>, Seq<char>)>, rest: Seq<u8>)
    requires
        w matches Some((topic, message)) ==> spec_topic_name_error(topic) is None && encode_utf8(
            message,
        ).len() <= MAX_STRING_BYTES,
    ensures
        spec_decode_will(w is Some, spec_will_wire(w) + rest) == Ok::<
            (Option<(Seq<char>, Seq<char>)>, int),
            PacketError,
        >((w, spec_will_wire(w).len() as int)),
        (spec_will_wire(w) + rest).skip(spec_will_wire(w).len() as int) == rest,
{
    reveal(spec_decode_will);
    match w {
        Some((topic, message)) => {
            let t = spec_string_wire(topic);
            let m = spec_string_wire(message);
            assert(spec_will_wire(w) + rest =~= t + (m + rest));
            lemma_topic_name_roundtrip(topic, m + rest);
            lemma_string_roundtrip(message, rest);
            assert((spec_will_wire(w) + rest).skip(spec_will_wire(w).len() as int) =~= rest);
        },
        None => {
            assert((Seq::<u8>::empty() + rest).skip(0) =~= rest);
        },
    }
}

/// A payload whose strings fit their length prefix, and that holds what the
/// flags announce, is read back from its wire form.
#[verifier::rlimit(50)]
pub proof fn lemma_connect_payload_roundtrip(flags: ConnectFlags, p: ConnectPacketPayloadView)
    requires
        p.fits(),
        flags.will_flag == (p.will is Some),
        flags.user_name == (p.user_name is Some),
        flags.password == (p.password is Some),
        p.will matches Some((topic, _)) ==> spec_topic_name_error(topic) is None,
    ensures
        ConnectPacketPayloadView::spec_decode(flags, p.spec_wire()) == Ok::<
            (ConnectPacketPayloadView, int),
            PacketError,
        >((p, p.spec_wire().len() as int)),
{
    let id = spec_string_wire(p.client_identifier);
    let will = spec_will_wire(p.will);
    let user = spec_opt_string_wire(p.user_name);
    let pass = spec_opt_string_wire(p.password);
    let input = p.spec_wire();
    assert(input =~= id + (will + (user + pass)));
    lemma_string_roundtrip(p.client_identifier, will + (user + pass));
    lemma_will_roundtrip(p.will, user + pass);
    lemma_opt_string_roundtrip(p.user_name, pass);
    lemma_opt_string_roundtrip(p.password, Seq::empty());
    assert(pass + Seq::<u8>::empty() =~= pass);
    let a = id.len() as int;
    let b = will.len() as int;
    let c = user.len() as int;
    assert(input.skip(a) == will + (user + pass));
    assert(input.skip(a + b) =~= (will + (user + pass)).skip(b));
    assert(input.skip(a + b + c) =~= (user + pass).skip(c));
}

} // verus!
