//! The first byte of a packet: control type and flags.

use vstd::prelude::*;

verus! {

/// The fourteen kinds of control packet.
#[derive(Debug, Clone, Copy, PartialEq, Eq, Structural)]
pub enum ControlType {
    /// Client request to connect to server.
    Connect,
    /// Connect acknowledgement.
    ConnectAcknowledgement,
    /// Publish message.
    Publish,
    /// Publish acknowledgement.
    PublishAcknowledgement,
    /// Publish received (assured delivery part 1).
    PublishReceived,
    /// Publish release (assured delivery part 2).
    PublishRelease,
    /// Publish complete (assured delivery part 3).
    PublishComplete,
    /// Client subscribe request.
    Subscribe,
    /// Subscribe acknowledgement.
    SubscribeAcknowledgement,
    /// Unsubscribe request.
    Unsubscribe,
    /// Unsubscribe acknowledgement.
    UnsubscribeAcknowledgement,
    /// Ping request.
    PingRequest,
    /// Ping response.
    PingResponse,
    /// Client is disconnecting.
    Disconnect,
}

impl ControlType {
    /// The code of this type in the high half of the first byte, 1 to 14.
    pub open spec fn spec_to_u8(self) -> u8 {
        match self {
            ControlType::Connect => 1,
            ControlType::ConnectAcknowledgement => 2,
            ControlType::Publish => 3,
            ControlType::PublishAcknowledgement => 4,
            ControlType::PublishReceived => 5,
            ControlType::PublishRelease => 6,
            ControlType::PublishComplete => 7,
            ControlType::Subscribe => 8,
            ControlType::SubscribeAcknowledgement => 9,
            ControlType::Unsubscribe => 10,
            ControlType::UnsubscribeAcknowledgement => 11,
            ControlType::PingRequest => 12,
            ControlType::PingResponse => 13,
            ControlType::Disconnect => 14,
        }
    }

    /// The type with code `code`, if there is one.
    pub open spec fn spec_from_u8(code: u8) -> Option<ControlType> {
        if code == 1 {
            Some(ControlType::Connect)
        } else if code == 2 {
            Some(ControlType::ConnectAcknowledgement)
        } else if code == 3 {
            Some(ControlType::Publish)
        } else if code == 4 {
            Some(ControlType::PublishAcknowledgement)
        } else if code == 5 {
            Some(ControlType::PublishReceived)
        } else if code == 6 {
            Some(ControlType::PublishRelease)
        } else if code == 7 {
            Some(ControlType::PublishComplete)
        } else if code == 8 {
            Some(ControlType::Subscribe)
        } else if code == 9 {
            Some(ControlType::SubscribeAcknowledgement)
        } else if code == 10 {
            Some(ControlType::Unsubscribe)
        } else if code == 11 {
            Some(ControlType::UnsubscribeAcknowledgement)
        } else if code == 12 {
            Some(ControlType::PingRequest)
        } else if code == 13 {
            Some(ControlType::PingResponse)
        } else if code == 14 {
            Some(ControlType::Disconnect)
        } else {
            None
        }
    }

    /// The flags a packet of this type carries unless it is a PUBLISH,
    /// whose flags depend on the message.
    pub open spec fn spec_default_flags(self) -> u8 {
        match self {
            ControlType::PublishRelease => 2,
            ControlType::Subscribe => 2,
            ControlType::Unsubscribe => 2,
            _ => 0,
        }
    }

    /// The code of this type, 1 to 14.
    pub fn to_u8(self) -> (r: u8)
        ensures
            r == self.spec_to_u8(),
            1 <= r <= 14,
            Self::spec_from_u8(r) == Some(self),
    {
        match self {
            ControlType::Connect => 1,
            ControlType::ConnectAcknowledgement => 2,
            ControlType::Publish => 3,
            ControlType::PublishAcknowledgement => 4,
            ControlType::PublishReceived => 5,
            ControlType::PublishRelease => 6,
            ControlType::PublishComplete => 7,
            ControlType::Subscribe => 8,
            ControlType::SubscribeAcknowledgement => 9,
            ControlType::Unsubscribe => 10,
            ControlType::UnsubscribeAcknowledgement => 11,
            ControlType::PingRequest => 12,
            ControlType::PingResponse => 13,
            ControlType::Disconnect => 14,
        }
    }

    /// The type with code `code`; `None` for 0 and for codes above 14.
    pub fn from_u8(code: u8) -> (r: Option<ControlType>)
        ensures
            r == Self::spec_from_u8(code),
            r is Some <==> 1 <= code <= 14,
            r matches Some(t) ==> t.spec_to_u8() == code,
    {
        match code {
            1 => Some(ControlType::Connect),
            2 => Some(ControlType::ConnectAcknowledgement),
            3 => Some(ControlType::Publish),
            4 => Some(ControlType::PublishAcknowledgement),
            5 => Some(ControlType::PublishReceived),
            6 => Some(ControlType::PublishRelease),
            7 => Some(ControlType::PublishComplete),
            8 => Some(ControlType::Subscribe),
            9 => Some(ControlType::SubscribeAcknowledgement),
            10 => Some(ControlType::Unsubscribe),
            11 => Some(ControlType::UnsubscribeAcknowledgement),
            12 => Some(ControlType::PingRequest),
            13 => Some(ControlType::PingResponse),
            14 => Some(ControlType::Disconnect),
            _ => None,
        }
    }

    /// The flags a packet of this type carries unless it is a PUBLISH.
    pub fn default_flags(self) -> (r: u8)
        ensures
            r == self.spec_default_flags(),
            r < 16,
    {
        match self {
            ControlType::PublishRelease => 2,
            ControlType::Subscribe => 2,
            ControlType::Unsubscribe => 2,
            _ => 0,
        }
    }
}

/// Control type and flags, as the first byte of a packet holds them.
#[derive(Debug, Clone, Copy, PartialEq, Eq, Structural)]
pub struct PacketType {
    /// The kind of packet.
    pub control_type: ControlType,
    /// The four flag bits, as a number below 16.
    pub flags: u8,
}

impl PacketType {
    /// The first byte: the type's code in the high half, the flags in the low.
    pub open spec fn spec_to_u8(self) -> u8 {
        (self.control_type.spec_to_u8() * 16 + self.flags % 16) as u8
    }

    /// A packet type with the given flags.
    pub fn with_flags(control_type: ControlType, flags: u8) -> (r: PacketType)
        requires
            flags < 16,
        ensures
            r == (PacketType { control_type, flags }),
    {
        PacketType { control_type, flags }
    }

    /// A packet type with the flags its control type prescribes.
    pub fn with_default(control_type: ControlType) -> (r: PacketType)
        ensures
            r == (PacketType { control_type, flags: control_type.spec_default_flags() }),
            r.flags < 16,
    {
        PacketType { control_type, flags: control_type.default_flags() }
    }

    /// The first byte of a packet of this type.
    pub fn to_u8(self) -> (r: u8)
        ensures
            r == self.spec_to_u8(),
    {
        self.control_type.to_u8() * 16 + self.flags % 16
    }
}

} // verus!
