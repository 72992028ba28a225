//! Alarm reports (`W0`).

use crate::decimal::decimal_text;
use crate::decimal::refusal;
use vstd::prelude::*;
use vstd::std_specs::convert::TryFromSpecImpl;

verus! {

/// What a scooter raises an alarm about. Code 5 is not assigned.
#[derive(Debug, Clone, Copy, PartialEq, Eq, Structural)]
pub enum AlarmType {
    /// The scooter is moved while locked.
    IllegalMovement,
    /// The scooter fell over.
    Falling,
    /// The tracker is being removed.
    IllegalRemoval,
    /// The battery is low.
    LowPower,
    /// The scooter was lifted off the ground.
    LiftedUp,
    /// The scooter is being taken apart.
    IllegalDemolition,
}

impl AlarmType {
    /// The variant that `code` stands for on the wire, if any.
    pub open spec fn of_code(code: u8) -> Option<AlarmType> {
        if code == 1 {
            Some(AlarmType::IllegalMovement)
        } else if code == 2 {
            Some(AlarmType::Falling)
        } else if code == 3 {
            Some(AlarmType::IllegalRemoval)
        } else if code == 4 {
            Some(AlarmType::LowPower)
        } else if code == 6 {
            Some(AlarmType::LiftedUp)
        } else if code == 7 {
            Some(AlarmType::IllegalDemolition)
        } else {
            None
        }
    }
}

impl TryFrom<u8> for AlarmType {
    type Error = String;

    /// Decodes a wire code. A code outside the table is refused with a message
    /// that names it.
    fn try_from(value: u8) -> (decoded: Result<Self, String>)
        ensures
            match decoded {
                Ok(variant) => AlarmType::of_code(value) == Some(variant),
                Err(message) => AlarmType::of_code(value) is None
                    && message@ == "Invalid alarm type: "@ + decimal_text(value as nat),
            },
    {
        match value {
            1 => Ok(AlarmType::IllegalMovement),
            2 => Ok(AlarmType::Falling),
            3 => Ok(AlarmType::IllegalRemoval),
            4 => Ok(AlarmType::LowPower),
            6 => Ok(AlarmType::LiftedUp),
            7 => Ok(AlarmType::IllegalDemolition),
            _ => Err(refusal("Invalid alarm type: ", value)),
        }
    }
}

/// `try_from` states its contract itself: an owned message cannot be named
/// by a spec function, so the generic law of `TryFrom` is not claimed.
impl TryFromSpecImpl<u8> for AlarmType {
    open spec fn obeys_try_from_spec() -> bool {
        false
    }

    open spec fn try_from_spec(v: u8) -> Result<Self, String> {
        arbitrary()
    }
}

} // verus!
