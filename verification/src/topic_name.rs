//! Topic names: the destination of a published message.

use crate::encodable::{
    decode_string, encode_string, spec_decode_string, spec_string_wire, StringEncodeError,
    MAX_STRING_BYTES,
};
use crate::reader::ByteReader;
use vstd::prelude::*;
use vstd::utf8::{encode_scalar, encode_utf8};

verus! {

/// Why a string is not a topic name.
#[derive(Debug, Clone, Copy, PartialEq, Eq, Structural)]
pub enum TopicNameError {
    /// The string could not be read, or is too long to be written.
    StringEncodeError(StringEncodeError),
    /// The string is empty.
    Empty,
    /// The string holds `#` or `+`.
    ContainsWildcard,
    /// The string holds the character U+0000.
    ContainsNul,
}

/// What is wrong with `s` as a topic name, if anything.
pub open spec fn spec_topic_name_error(s: Seq<char>) -> Option<TopicNameError> {
    if s.len() == 0 {
        Some(TopicNameError::Empty)
    } else if encode_utf8(s).len() > MAX_STRING_BYTES {
        Some(TopicNameError::StringEncodeError(StringEncodeError::TooLong))
    } else if s.contains('\0') {
        Some(TopicNameError::ContainsNul)
    } else if s.contains('#') || s.contains('+') {
        Some(TopicNameError::ContainsWildcard)
    } else {
        None
    }
}

/// Reading a topic name from the front of `input`.
pub open spec fn spec_decode_topic_name(input: Seq<u8>) -> Result<(Seq<char>, int),
    TopicNameError> {
    match spec_decode_string(input) {
        Err(e) => Err(TopicNameError::StringEncodeError(e)),
        Ok((s, n)) => match spec_topic_name_error(s) {
            Some(e) => Err(e),
            None => Ok((s, n)),
        },
    }
}

/// The UTF-8 bytes of one character hold the ASCII byte `b` exactly when the
/// character is `b`.
proof fn lemma_ascii_byte_in_scalar(c: char, b: u8)
    requires
        b < 0x80,
    ensures
        encode_scalar(c as u32).contains(b) <==> c == b as char,
{
    let v = c as u32;
    let e = encode_scalar(v);
    vstd::utf8::char_is_scalar(c);
    assert(v <= 0x7F ==> (v & 0x7F) as u8 == v) by (bit_vector);
    let y2 = ((v >> 6) & 0x1F) as u8;
    let y3 = ((v >> 12) & 0x0F) as u8;
    let y4 = ((v >> 18) & 0x7) as u8;
    let c1 = (v & 0x3F) as u8;
    let c2 = ((v >> 6) & 0x3F) as u8;
    let c3 = ((v >> 12) & 0x3F) as u8;
    assert(0xC0u8 | y2 >= 0x80) by (bit_vector);
    assert(0xE0u8 | y3 >= 0x80) by (bit_vector);
    assert(0xF0u8 | y4 >= 0x80) by (bit_vector);
    assert(0x80u8 | c1 >= 0x80) by (bit_vector);
    assert(0x80u8 | c2 >= 0x80) by (bit_vector);
    assert(0x80u8 | c3 >= 0x80) by (bit_vector);
    if v <= 0x7F {
        assert(e =~= seq![v as u8]);
        assert(e[0] == v as u8);
        if c == b as char {
            assert(e[0] == b);
        }
        if e.contains(b) {
            let i = choose|i: int| 0 <= i < e.len() && e[i] == b;
            assert(v == b as u32);
        }
    } else {
        assert(forall|i: int| 0 <= i < e.len() ==> e[i] >= 0x80);
        assert(c != b as char);
    }
}

/// The UTF-8 bytes of a string hold the ASCII byte `b` exactly when the
/// string holds the character `b`.
pub proof fn lemma_ascii_byte_in_utf8(s: Seq<char>, b: u8)
    requires
        b < 0x80,
    ensures
        encode_utf8(s).contains(b) <==> s.contains(b as char),
    decreases s.len(),
{
    if s.len() == 0 {
    } else {
        let head = encode_scalar(s[0] as u32);
        let tail = encode_utf8(s.drop_first());
        lemma_ascii_byte_in_scalar(s[0], b);
        lemma_ascii_byte_in_utf8(s.drop_first(), b);
        assert(encode_utf8(s) == head + tail);
        if head.contains(b) {
            let i = choose|i: int| 0 <= i < head.len() && head[i] == b;
            assert((head + tail)[i] == b);
            assert(s[0] == b as char);
        }
        if tail.contains(b) {
            let i = choose|i: int| 0 <= i < tail.len() && tail[i] == b;
            assert((head + tail)[head.len() + i] == b);
            let j = choose|j: int| 0 <= j < s.drop_first().len() && s.drop_first()[j] == b as char;
            assert(s[j + 1] == b as char);
        }
        if (head + tail).contains(b) {
            let i = choose|i: int| 0 <= i < (head + tail).len() && (head + tail)[i] == b;
            if i < head.len() {
                assert(head[i] == b);
            } else {
                assert(tail[i - head.len()] == b);
            }
        }
        if s.contains(b as char) {
            let j = choose|j: int| 0 <= j < s.len() && s[j] == b as char;
            if j > 0 {
                assert(s.drop_first()[j - 1] == b as char);
            }
        }
    }
}

/// Whether `bytes` holds `b`.
pub(crate) fn contains_byte(bytes: &[u8], b: u8) -> (r: bool)
    ensures
        r == bytes@.contains(b),
{
    let mut i: usize = 0;
    while i < bytes.len()
        invariant
            i <= bytes@.len(),
            forall|j: int| 0 <= j < i ==> bytes@[j] != b,
        decreases bytes@.len() - i,
    {
        if bytes[i] == b {
            return true;
        }
        i = i + 1;
    }
    false
}

/// What is wrong with `s` as a topic name: `Ok` when nothing is.
pub fn check_topic_name(s: &str) -> (r: Result<(), TopicNameError>)
    ensures
        match spec_topic_name_error(s@) {
            Some(e) => r == Err::<(), TopicNameError>(e),
            None => r is Ok,
        },
{
    let bytes = s.as_bytes();
    proof {
        lemma_ascii_byte_in_utf8(s@, 0x00);
        lemma_ascii_byte_in_utf8(s@, 0x23);
        lemma_ascii_byte_in_utf8(s@, 0x2B);
        assert(0x00u8 as char == '\0');
        assert(0x23u8 as char == '#');
        assert(0x2Bu8 as char == '+');
        if s@.len() == 0 {
            assert(encode_utf8(s@).len() == 0);
        } else {
            vstd::utf8::encode_utf8_first_scalar(s@);
        }
    }
    if bytes.len() == 0 {
        Err(TopicNameError::Empty)
    } else if bytes.len() > MAX_STRING_BYTES {
        Err(TopicNameError::StringEncodeError(StringEncodeError::TooLong))
    } else if contains_byte(bytes, 0x00) {
        Err(TopicNameError::ContainsNul)
    } else if contains_byte(bytes, 0x23) || contains_byte(bytes, 0x2B) {
        Err(TopicNameError::ContainsWildcard)
    } else {
        Ok(())
    }
}

/// A non-empty string of at most 65 535 bytes without wildcards or U+0000.
#[derive(Debug, PartialEq, Eq)]
pub struct TopicName(String);

impl Clone for TopicName {
    fn clone(&self) -> (r: TopicName)
        ensures
            r@ == self@,
    {
        proof {
            use_type_invariant(self);
        }
        TopicName(self.0.clone())
    }
}

impl View for TopicName {
    type V = Seq<char>;

    closed spec fn view(&self) -> Seq<char> {
        self.0@
    }
}

impl TopicName {
    #[verifier::type_invariant]
    spec fn well_formed(&self) -> bool {
        spec_topic_name_error(self.0@) is None
    }

    /// Accepts `topic_name` if it is a topic name, and says what is wrong
    /// with it otherwise.
    pub fn new(topic_name: String) -> (r: Result<TopicName, TopicNameError>)
        ensures
            match spec_topic_name_error(topic_name@) {
                Some(e) => r == Err::<TopicName, TopicNameError>(e),
                None => r is Ok && r->Ok_0@ == topic_name@,
            },
    {
        match check_topic_name(topic_name.as_str()) {
            Ok(()) => Ok(TopicName(topic_name)),
            Err(e) => Err(e),
        }
    }

    /// The name as a string slice.
    pub fn as_str(&self) -> (r: &str)
        ensures
            r@ == self@,
            spec_topic_name_error(self@) is None,
    {
        proof {
            use_type_invariant(self);
        }
        self.0.as_str()
    }

    /// Number of bytes the name takes on the wire.
    pub fn encoded_length(&self) -> (n: u32)
        ensures
            n == spec_string_wire(self@).len(),
            n == 2 + encode_utf8(self@).len(),
            3 <= n <= 2 + MAX_STRING_BYTES,
            spec_topic_name_error(self@) is None,
    {
        proof {
            use_type_invariant(self);
            vstd::utf8::encode_utf8_first_scalar(self.0@);
        }
        crate::encodable::string_encoded_length(self.0.as_str())
    }

    /// Appends the wire form of the name.
    pub fn encode(&self, out: &mut Vec<u8>)
        ensures
            final(out)@ == old(out)@ + spec_string_wire(self@),
            spec_topic_name_error(self@) is None,
    {
        proof {
            use_type_invariant(self);
        }
        let r = encode_string(self.0.as_str(), out);
    }

    /// Reads a topic name; a string that is not one is refused.
    pub fn decode(reader: &mut ByteReader) -> (r: Result<TopicName, TopicNameError>)
        ensures
            match spec_decode_topic_name(old(reader).remaining()) {
                Ok((s, n)) => r is Ok && r->Ok_0@ == s && final(reader).remaining()
                    == old(reader).remaining().skip(n),
                Err(e) => r == Err::<TopicName, TopicNameError>(e) && final(reader).remaining()
                    == old(reader).remaining(),
            },
    {
        let mut cur = reader.fork();
        let s = match decode_string(&mut cur) {
            Ok(s) => s,
            Err(e) => {
                return Err(TopicNameError::StringEncodeError(e));
            },
        };
        match check_topic_name(s.as_str()) {
            Ok(()) => {
                reader.advance_to(cur);
                Ok(TopicName(s))
            },
            Err(e) => Err(e),
        }
    }
}

/// A valid topic name is read back from its wire form, whatever follows it.
pub proof fn lemma_topic_name_roundtrip(s: Seq<char>, rest: Seq<u8>)
    requires
        spec_topic_name_error(s) is None,
    ensures
        spec_decode_topic_name(spec_string_wire(s) + rest)
            == Ok::<(Seq<char>, int), TopicNameError>(
            (s, spec_string_wire(s).len() as int),
        ),
        (spec_string_wire(s) + rest).skip(spec_string_wire(s).len() as int) == rest,
        spec_string_wire(s).len() == 2 + encode_utf8(s).len(),
{
    crate::encodable::lemma_string_roundtrip(s, rest);
}

/// A string that holds `#`, `+` or U+0000 is no topic name, and a non-empty
/// string of at most 65 535 bytes without them is one.
pub proof fn lemma_topic_name_validation(s: Seq<char>)
    ensures
        s.contains('#') || s.contains('+') || s.contains('\0') ==> spec_topic_name_error(s) is Some,
        s.len() > 0 && encode_utf8(s).len() <= MAX_STRING_BYTES && !s.contains('#') && !s.contains(
            '+',
        ) && !s.contains('\0') ==> spec_topic_name_error(s) is None,
{
}

/// A string that holds `#`, `+` or U+0000 is refused when it is read as a
/// topic name, whatever follows it.
pub proof fn lemma_topic_name_refused_when_read(s: Seq<char>, rest: Seq<u8>)
    requires
        encode_utf8(s).len() <= MAX_STRING_BYTES,
        s.contains('#') || s.contains('+') || s.contains('\0'),
    ensures
        spec_decode_topic_name(spec_string_wire(s) + rest) is Err,
{
    crate::encodable::lemma_string_roundtrip(s, rest);
}

} // verus!
