//! Quality-of-service levels.

use vstd::prelude::*;

verus! {

/// The three delivery guarantees of MQTT.
#[derive(Debug, Clone, Copy, PartialEq, Eq, Structural)]
pub enum QualityOfService {
    /// At most once.
    Level0,
    /// At least once.
    Level1,
    /// Exactly once.
    Level2,
}

impl QualityOfService {
    /// The level as a number, 0 to 2.
    pub open spec fn spec_to_u8(self) -> u8 {
        match self {
            QualityOfService::Level0 => 0,
            QualityOfService::Level1 => 1,
            QualityOfService::Level2 => 2,
        }
    }

    /// The level with number `v`, if there is one.
    pub open spec fn spec_from_u8(v: u8) -> Option<QualityOfService> {
        if v == 0 {
            Some(QualityOfService::Level0)
        } else if v == 1 {
            Some(QualityOfService::Level1)
        } else if v == 2 {
            Some(QualityOfService::Level2)
        } else {
            None
        }
    }

    /// The level as a number, 0 to 2.
    pub fn to_u8(self) -> (r: u8)
        ensures
            r == self.spec_to_u8(),
            r <= 2,
    {
        match self {
            QualityOfService::Level0 => 0,
            QualityOfService::Level1 => 1,
            QualityOfService::Level2 => 2,
        }
    }

    /// The level with number `v`; `None` for a number above 2.
    pub fn from_u8(v: u8) -> (r: Option<QualityOfService>)
        ensures
            r == Self::spec_from_u8(v),
            r is Some <==> v <= 2,
            r matches Some(q) ==> q.spec_to_u8() == v,
    {
        if v == 0 {
            Some(QualityOfService::Level0)
        } else if v == 1 {
            Some(QualityOfService::Level1)
        } else if v == 2 {
            Some(QualityOfService::Level2)
        } else {
            None
        }
    }
}

} // verus!
