//! The parts that variable headers are made of.

use crate::encodable::StringEncodeError;
use crate::reader::IoErrorKind;
use crate::topic_name::TopicNameError;
use vstd::prelude::*;
use vstd::std_specs::convert::FromSpecImpl;

pub mod connect_ack_flags;
pub mod connect_flags;
pub mod connect_ret_code;
pub mod keep_alive;
pub mod packet_identifier;
pub mod protocol_level;
pub mod protocol_name;
pub mod topic_name;

pub use self::connect_ack_flags::ConnackFlags;
pub use self::connect_flags::ConnectFlags;
pub use self::connect_ret_code::ConnectReturnCode;
pub use self::keep_alive::KeepAlive;
pub use self::packet_identifier::PacketIdentifier;
pub use self::protocol_level::ProtocolLevel;
pub use self::protocol_name::ProtocolName;
pub use self::topic_name::TopicNameHeader;

verus! {

/// Errors while coding a variable header.
#[derive(Debug, Clone, Copy, PartialEq, Eq, Structural)]
pub enum VariableHeaderError {
    /// The source ended inside the header.
    IoError(IoErrorKind),
    /// A string of the header is not valid UTF-8, or too long to be written.
    StringEncodeError(StringEncodeError),
    /// A bit that must be zero is set.
    InvalidReservedFlag,
    /// The topic of the header is no topic name.
    TopicNameError(TopicNameError),
}

impl VariableHeaderError {
    /// A string error as a header error: an unfinished read stays an
    /// unfinished read, anything else is wrapped.
    pub open spec fn spec_from_string_error(e: StringEncodeError) -> VariableHeaderError {
        match e {
            StringEncodeError::IoError(k) => VariableHeaderError::IoError(k),
            _ => VariableHeaderError::StringEncodeError(e),
        }
    }

    /// A topic-name error as a header error: an unfinished read stays an
    /// unfinished read, anything else is wrapped.
    pub open spec fn spec_from_topic_name_error(e: TopicNameError) -> VariableHeaderError {
        match e {
            TopicNameError::StringEncodeError(StringEncodeError::IoError(k)) => {
                VariableHeaderError::IoError(k)
            },
            _ => VariableHeaderError::TopicNameError(e),
        }
    }

    /// The text that describes the error.
    pub open spec fn spec_description(self) -> Seq<char> {
        match self {
            VariableHeaderError::IoError(_) => "unexpected end of input"@,
            VariableHeaderError::StringEncodeError(StringEncodeError::IoError(_)) => {
                "unexpected end of input"@
            },
            VariableHeaderError::StringEncodeError(StringEncodeError::Utf8) => {
                "string is not valid UTF-8"@
            },
            VariableHeaderError::StringEncodeError(StringEncodeError::TooLong) => {
                "string is longer than 65535 bytes"@
            },
            VariableHeaderError::InvalidReservedFlag => "Invalid reserved flags"@,
            VariableHeaderError::TopicNameError(_) => "invalid topic name"@,
        }
    }

    /// The text that describes the error.
    pub fn description(&self) -> (r: &'static str)
        ensures
            r@ == self.spec_description(),
    {
        match self {
            VariableHeaderError::IoError(_) => "unexpected end of input",
            VariableHeaderError::StringEncodeError(StringEncodeError::IoError(_)) => {
                "unexpected end of input"
            },
            VariableHeaderError::StringEncodeError(StringEncodeError::Utf8) => {
                "string is not valid UTF-8"
            },
            VariableHeaderError::StringEncodeError(StringEncodeError::TooLong) => {
                "string is longer than 65535 bytes"
            },
            VariableHeaderError::InvalidReservedFlag => "Invalid reserved flags",
            VariableHeaderError::TopicNameError(_) => "invalid topic name",
        }
    }
}

impl From<IoErrorKind> for VariableHeaderError {
    fn from(err: IoErrorKind) -> (r: VariableHeaderError) {
        VariableHeaderError::IoError(err)
    }
}

impl FromSpecImpl<IoErrorKind> for VariableHeaderError {
    open spec fn obeys_from_spec() -> bool {
        true
    }

    open spec fn from_spec(err: IoErrorKind) -> VariableHeaderError {
        VariableHeaderError::IoError(err)
    }
}

impl From<StringEncodeError> for VariableHeaderError {
    fn from(err: StringEncodeError) -> (r: VariableHeaderError) {
        match err {
            StringEncodeError::IoError(k) => VariableHeaderError::IoError(k),
            _ => VariableHeaderError::StringEncodeError(err),
        }
    }
}

impl FromSpecImpl<StringEncodeError> for VariableHeaderError {
    open spec fn obeys_from_spec() -> bool {
        true
    }

    open spec fn from_spec(err: StringEncodeError) -> VariableHeaderError {
        VariableHeaderError::spec_from_string_error(err)
    }
}

impl From<TopicNameError> for VariableHeaderError {
    fn from(err: TopicNameError) -> (r: VariableHeaderError) {
        match err {
            TopicNameError::StringEncodeError(StringEncodeError::IoError(k)) => {
                VariableHeaderError::IoError(k)
            },
            _ => VariableHeaderError::TopicNameError(err),
        }
    }
}

impl FromSpecImpl<TopicNameError> for VariableHeaderError {
    open spec fn obeys_from_spec() -> bool {
        true
    }

    open spec fn from_spec(err: TopicNameError) -> VariableHeaderError {
        VariableHeaderError::spec_from_topic_name_error(err)
    }
}

} // verus!
