//! The settings that an operator can send with an `S7` frame.

use vstd::prelude::*;
use vstd::std_specs::convert::FromSpecImpl;
use vstd::std_specs::convert::TryFromSpecImpl;
use vstd::string::StringExecFns;

verus! {

/// A switch with three positions: leave as it is, off, on.
#[derive(Debug, Clone, Copy, PartialEq, Eq, Structural)]
pub enum Turn {
    Off,
    On,
    DontSet,
}

/// The speed mode to set.
#[derive(Debug, Clone, Copy, PartialEq, Eq, Structural)]
pub enum SpeedMode {
    Low,
    Medium,
    High,
    DontSet,
}

impl Turn {
    /// The code that stands for the position on the wire.
    pub open spec fn code(self) -> u8 {
        match self {
            Turn::DontSet => 0,
            Turn::Off => 1,
            Turn::On => 2,
        }
    }
}

impl SpeedMode {
    /// The code that stands for the mode on the wire.
    pub open spec fn code(self) -> u8 {
        match self {
            SpeedMode::DontSet => 0,
            SpeedMode::Low => 1,
            SpeedMode::Medium => 2,
            SpeedMode::High => 3,
        }
    }

    /// The mode that `code` stands for, if any.
    pub open spec fn of_code(code: u8) -> Option<SpeedMode> {
        if code == 0 {
            Some(SpeedMode::DontSet)
        } else if code == 1 {
            Some(SpeedMode::Low)
        } else if code == 2 {
            Some(SpeedMode::Medium)
        } else if code == 3 {
            Some(SpeedMode::High)
        } else {
            None
        }
    }
}

impl<'a> From<&'a Turn> for u8 {
    fn from(turn: &'a Turn) -> (code: u8) {
        match turn {
            Turn::DontSet => 0,
            Turn::Off => 1,
            Turn::On => 2,
        }
    }
}

impl<'a> FromSpecImpl<&'a Turn> for u8 {
    open spec fn obeys_from_spec() -> bool {
        true
    }

    open spec fn from_spec(turn: &'a Turn) -> u8 {
        turn.code()
    }
}

impl<'a> From<&'a SpeedMode> for u8 {
    fn from(speed: &'a SpeedMode) -> (code: u8) {
        match speed {
            SpeedMode::DontSet => 0,
            SpeedMode::Low => 1,
            SpeedMode::Medium => 2,
            SpeedMode::High => 3,
        }
    }
}

impl<'a> FromSpecImpl<&'a SpeedMode> for u8 {
    open spec fn obeys_from_spec() -> bool {
        true
    }

    open spec fn from_spec(speed: &'a SpeedMode) -> u8 {
        speed.code()
    }
}

impl TryFrom<u8> for SpeedMode {
    type Error = String;

    /// The mode that a gear number asks for. A number above 3 is refused.
    fn try_from(value: u8) -> (decoded: Result<Self, String>)
        ensures
            match decoded {
                Ok(mode) => SpeedMode::of_code(value) == Some(mode),
                Err(message) => SpeedMode::of_code(value) is None && message@
                    == "Out of range 0, 1, 2, 3"@,
            },
    {
        match value {
            0 => Ok(SpeedMode::DontSet),
            1 => Ok(SpeedMode::Low),
            2 => Ok(SpeedMode::Medium),
            3 => Ok(SpeedMode::High),
            _ => Err(String::from_str("Out of range 0, 1, 2, 3")),
        }
    }
}

/// `try_from` states its contract itself: an owned message cannot be named
/// by a spec function, so the generic law of `TryFrom` is not claimed.
impl TryFromSpecImpl<u8> for SpeedMode {
    open spec fn obeys_try_from_spec() -> bool {
        false
    }

    open spec fn try_from_spec(v: u8) -> Result<Self, String> {
        arbitrary()
    }
}

/// Every mode is read back from its own code.
pub proof fn lemma_speed_mode_code_round_trip(mode: SpeedMode)
    ensures
        SpeedMode::of_code(mode.code()) == Some(mode),
{
}

} // verus!
