//! Topic filters: the patterns a subscription names.

use crate::encodable::{
    decode_string, encode_string, spec_decode_string, spec_string_wire, StringEncodeError,
    MAX_STRING_BYTES,
};
use crate::reader::ByteReader;
use crate::topic_name::{contains_byte, lemma_ascii_byte_in_utf8};
use vstd::prelude::*;
use vstd::utf8::encode_utf8;

verus! {

/// Why a string is not a topic filter.
#[derive(Debug, Clone, Copy, PartialEq, Eq, Structural)]
pub enum TopicFilterError {
    /// The string could not be read, or is too long to be written.
    StringEncodeError(StringEncodeError),
    /// The string is empty.
    Empty,
    /// The string holds the character U+0000.
    ContainsNul,
    /// A `#` that is not the whole last level, or a `+` that is not a whole level.
    MisplacedWildcard,
}

/// The byte at `i` of a filter's UTF-8 form, if it is a wildcard, stands where
/// one may stand: `#` (0x23) last and at the start of a level, `+` (0x2B)
/// alone in its level. Levels are separated by `/` (0x2F).
pub open spec fn spec_wildcard_ok(b: Seq<u8>, i: int) -> bool {
    &&& b[i] == 0x23 ==> i == b.len() - 1 && (i == 0 || b[i - 1] == 0x2F)
    &&& b[i] == 0x2B ==> (i == 0 || b[i - 1] == 0x2F) && (i == b.len() - 1 || b[i + 1] == 0x2F)
}

/// Every wildcard in `b` stands where one may stand.
pub open spec fn spec_wildcards_ok(b: Seq<u8>) -> bool {
    forall|i: int| 0 <= i < b.len() ==> #[trigger] spec_wildcard_ok(b, i)
}

/// What is wrong with `s` as a topic filter, if anything.
pub open spec fn spec_topic_filter_error(s: Seq<char>) -> Option<TopicFilterError> {
    if s.len() == 0 {
        Some(TopicFilterError::Empty)
    } else if encode_utf8(s).len() > MAX_STRING_BYTES {
        Some(TopicFilterError::StringEncodeError(StringEncodeError::TooLong))
    } else if s.contains('\0') {
        Some(TopicFilterError::ContainsNul)
    } else if !spec_wildcards_ok(encode_utf8(s)) {
        Some(TopicFilterError::MisplacedWildcard)
    } else {
        None
    }
}

/// Reading a topic filter from the front of `input`.
pub open spec fn spec_decode_topic_filter(input: Seq<u8>) -> Result<
    (Seq<char>, int),
    TopicFilterError,
> {
    match spec_decode_string(input) {
        Err(e) => Err(TopicFilterError::StringEncodeError(e)),
        Ok((s, n)) => match spec_topic_filter_error(s) {
            Some(e) => Err(e),
            None => Ok((s, n)),
        },
    }
}

/// Whether every wildcard in `bytes` stands where one may stand.
fn wildcards_ok(bytes: &[u8]) -> (r: bool)
    ensures
        r == spec_wildcards_ok(bytes@),
{
    let n = bytes.len();
    let mut k: usize = 0;
    while k < n
        invariant
            n == bytes@.len(),
            k <= n,
            forall|j: int| 0 <= j < k ==> #[trigger] spec_wildcard_ok(bytes@, j),
        decreases n - k,
    {
        let b = bytes[k];
        let starts_level = k == 0 || bytes[k - 1] == 0x2F;
        let ends_level = k == n - 1 || bytes[k + 1] == 0x2F;
        if b == 0x23 && !(k == n - 1 && starts_level) {
            assert(!spec_wildcard_ok(bytes@, k as int));
            return false;
        }
        if b == 0x2B && !(starts_level && ends_level) {
            assert(!spec_wildcard_ok(bytes@, k as int));
            return false;
        }
        k = k + 1;
    }
    true
}

/// What is wrong with `s` as a topic filter: `Ok` when nothing is.
pub fn check_topic_filter(s: &str) -> (r: Result<(), TopicFilterError>)
    ensures
        match spec_topic_filter_error(s@) {
            Some(e) => r == Err::<(), TopicFilterError>(e),
            None => r is Ok,
        },
{
    let bytes = s.as_bytes();
    proof {
        lemma_ascii_byte_in_utf8(s@, 0x00);
        assert(0x00u8 as char == '\0');
        if s@.len() == 0 {
            assert(encode_utf8(s@).len() == 0);
        } else {
            vstd::utf8::encode_utf8_first_scalar(s@);
        }
    }
    if bytes.len() == 0 {
        Err(TopicFilterError::Empty)
    } else if bytes.len() > MAX_STRING_BYTES {
        Err(TopicFilterError::StringEncodeError(StringEncodeError::TooLong))
    } else if contains_byte(bytes, 0x00) {
        Err(TopicFilterError::ContainsNul)
    } else if !wildcards_ok(bytes) {
        Err(TopicFilterError::MisplacedWildcard)
    } else {
        Ok(())
    }
}

/// A non-empty string of at most 65 535 bytes, without U+0000, whose
/// wildcards each take a whole level.
#[derive(Debug, PartialEq, Eq)]
pub struct TopicFilter(String);

impl View for TopicFilter {
    type V = Seq<char>;

    closed spec fn view(&self) -> Seq<char> {
        self.0@
    }
}

impl Clone for TopicFilter {
    fn clone(&self) -> (r: TopicFilter)
        ensures
            r@ == self@,
    {
        proof {
            use_type_invariant(self);
        }
        TopicFilter(self.0.clone())
    }
}

impl TopicFilter {
    #[verifier::type_invariant]
    spec fn well_formed(&self) -> bool {
        spec_topic_filter_error(self.0@) is None
    }

    /// Accepts `topic_filter` if it is a topic filter, and says what is wrong
    /// with it otherwise.
    pub fn new(topic_filter: String) -> (r: Result<TopicFilter, TopicFilterError>)
        ensures
            match spec_topic_filter_error(topic_filter@) {
                Some(e) => r == Err::<TopicFilter, TopicFilterError>(e),
                None => r is Ok && r->Ok_0@ == topic_filter@,
            },
    {
        match check_topic_filter(topic_filter.as_str()) {
            Ok(()) => Ok(TopicFilter(topic_filter)),
            Err(e) => Err(e),
        }
    }

    /// The filter as a string slice.
    pub fn as_str(&self) -> (r: &str)
        ensures
            r@ == self@,
            spec_topic_filter_error(self@) is None,
    {
        proof {
            use_type_invariant(self);
        }
        self.0.as_str()
    }

    /// Number of bytes the filter takes on the wire.
    pub fn encoded_length(&self) -> (n: u32)
        ensures
            n == spec_string_wire(self@).len(),
            n == 2 + encode_utf8(self@).len(),
            3 <= n <= 2 + MAX_STRING_BYTES,
            spec_topic_filter_error(self@) is None,
    {
        proof {
            use_type_invariant(self);
            vstd::utf8::encode_utf8_first_scalar(self.0@);
        }
        crate::encodable::string_encoded_length(self.0.as_str())
    }

    /// Appends the wire form of the filter.
    pub fn encode(&self, out: &mut Vec<u8>)
        ensures
            final(out)@ == old(out)@ + spec_string_wire(self@),
            spec_topic_filter_error(self@) is None,
    {
        proof {
            use_type_invariant(self);
        }
        let r = encode_string(self.0.as_str(), out);
    }

    /// Reads a topic filter; a string that is not one is refused.
    pub fn decode(reader: &mut ByteReader) -> (r: Result<TopicFilter, TopicFilterError>)
        ensures
            match spec_decode_topic_filter(old(reader).remaining()) {
                Ok((s, n)) => r is Ok && r->Ok_0@ == s && final(reader).remaining()
                    == old(reader).remaining().skip(n),
                Err(e) => r == Err::<TopicFilter, TopicFilterError>(e)
                    && final(reader).remaining() == old(reader).remaining(),
            },
    {
        let mut cur = reader.fork();
        let s = match decode_string(&mut cur) {
            Ok(s) => s,
            Err(e) => {
                return Err(TopicFilterError::StringEncodeError(e));
            },
        };
        match check_topic_filter(s.as_str()) {
            Ok(()) => {
                reader.advance_to(cur);
                Ok(TopicFilter(s))
            },
            Err(e) => Err(e),
        }
    }
}

/// A valid topic filter is read back from its wire form, whatever follows it.
pub proof fn lemma_topic_filter_roundtrip(s: Seq<char>, rest: Seq<u8>)
    requires
        spec_topic_filter_error(s) is None,
    ensures
        spec_decode_topic_filter(spec_string_wire(s) + rest) == Ok::<
            (Seq<char>, int),
            TopicFilterError,
        >((s, spec_string_wire(s).len() as int)),
        (spec_string_wire(s) + rest).skip(spec_string_wire(s).len() as int) == rest,
        spec_string_wire(s).len() == 2 + encode_utf8(s).len(),
{
    crate::encodable::lemma_string_roundtrip(s, rest);
}

} // verus!
