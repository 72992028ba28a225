//! Heartbeat reports (`H0`).

use crate::decimal::decimal_text;
use crate::decimal::refusal;
use vstd::prelude::*;
use vstd::std_specs::convert::TryFromSpecImpl;

verus! {

/// Whether the scooter's lock is open.
#[derive(Debug, Clone, Copy, PartialEq, Eq, Structural)]
pub enum ScooterStatus {
    /// The lock is open.
    Unlocked,
    /// The lock is closed.
    Locked,
}

impl ScooterStatus {
    /// The variant that `code` stands for on the wire, if any.
    pub open spec fn of_code(code: u8) -> Option<ScooterStatus> {
        if code == 0 {
            Some(ScooterStatus::Unlocked)
        } else if code == 1 {
            Some(ScooterStatus::Locked)
        } else {
            None
        }
    }
}

impl TryFrom<u8> for ScooterStatus {
    type Error = String;

    /// Decodes a wire code. A code outside the table is refused with a message
    /// that names it.
    fn try_from(value: u8) -> (decoded: Result<Self, String>)
        ensures
            match decoded {
                Ok(variant) => ScooterStatus::of_code(value) == Some(variant),
                Err(message) => ScooterStatus::of_code(value) is None
                    && message@ == "Invalid scooter status: "@ + decimal_text(value as nat),
            },
    {
        match value {
            0 => Ok(ScooterStatus::Unlocked),
            1 => Ok(ScooterStatus::Locked),
            _ => Err(refusal("Invalid scooter status: ", value)),
        }
    }
}

/// `try_from` states its contract itself: an owned message cannot be named
/// by a spec function, so the generic law of `TryFrom` is not claimed.
impl TryFromSpecImpl<u8> for ScooterStatus {
    open spec fn obeys_try_from_spec() -> bool {
        false
    }

    open spec fn try_from_spec(v: u8) -> Result<Self, String> {
        arbitrary()
    }
}

/// Whether the battery is on a charger.
#[derive(Debug, Clone, Copy, PartialEq, Eq, Structural)]
pub enum ChargingStatus {
    /// No charger is connected.
    Uncharged,
    /// The battery is charging.
    Charging,
}

impl ChargingStatus {
    /// The variant that `code` stands for on the wire, if any.
    pub open spec fn of_code(code: u8) -> Option<ChargingStatus> {
        if code == 0 {
            Some(ChargingStatus::Uncharged)
        } else if code == 1 {
            Some(ChargingStatus::Charging)
        } else {
            None
        }
    }
}

impl TryFrom<u8> for ChargingStatus {
    type Error = String;

    /// Decodes a wire code. A code outside the table is refused with a message
    /// that names it.
    fn try_from(value: u8) -> (decoded: Result<Self, String>)
        ensures
            match decoded {
                Ok(variant) => ChargingStatus::of_code(value) == Some(variant),
                Err(message) => ChargingStatus::of_code(value) is None
                    && message@ == "Invalid charging status: "@ + decimal_text(value as nat),
            },
    {
        match value {
            0 => Ok(ChargingStatus::Uncharged),
            1 => Ok(ChargingStatus::Charging),
            _ => Err(refusal("Invalid charging status: ", value)),
        }
    }
}

/// `try_from` states its contract itself: an owned message cannot be named
/// by a spec function, so the generic law of `TryFrom` is not claimed.
impl TryFromSpecImpl<u8> for ChargingStatus {
    open spec fn obeys_try_from_spec() -> bool {
        false
    }

    open spec fn try_from_spec(v: u8) -> Result<Self, String> {
        arbitrary()
    }
}

} // verus!
