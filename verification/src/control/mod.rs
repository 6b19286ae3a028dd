//! The frame of every packet: control type, flags and remaining length.

pub mod fixed_header;
pub mod packet_type;
pub mod variable_header;

pub use self::fixed_header::{FixedHeader, FixedHeaderError};
pub use self::packet_type::{ControlType, PacketType};
