//! Scooter settings as the scooter reports them (`S7`).

use crate::decimal::decimal_text;
use crate::decimal::refusal;
use vstd::prelude::*;
use vstd::std_specs::convert::TryFromSpecImpl;

verus! {

/// The headlight setting.
#[derive(Debug, Clone, Copy, PartialEq, Eq, Structural)]
pub enum HeadlightSwitch {
    /// The setting is left as it is.
    NoSet,
    /// The headlight is off.
    Shutdown,
    /// The headlight is on.
    Open,
}

impl HeadlightSwitch {
    /// The variant that `code` stands for on the wire, if any.
    pub open spec fn of_code(code: u8) -> Option<HeadlightSwitch> {
        if code == 0 {
            Some(HeadlightSwitch::NoSet)
        } else if code == 1 {
            Some(HeadlightSwitch::Shutdown)
        } else if code == 2 {
            Some(HeadlightSwitch::Open)
        } else {
            None
        }
    }
}

impl TryFrom<u8> for HeadlightSwitch {
    type Error = String;

    /// Decodes a wire code. A code outside the table is refused with a message
    /// that names it.
    fn try_from(value: u8) -> (decoded: Result<Self, String>)
        ensures
            match decoded {
                Ok(variant) => HeadlightSwitch::of_code(value) == Some(variant),
                Err(message) => HeadlightSwitch::of_code(value) is None
                    && message@ == "Invalid headlight switch value: "@ + decimal_text(value as nat),
            },
    {
        match value {
            0 => Ok(HeadlightSwitch::NoSet),
            1 => Ok(HeadlightSwitch::Shutdown),
            2 => Ok(HeadlightSwitch::Open),
            _ => Err(refusal("Invalid headlight switch value: ", value)),
        }
    }
}

/// `try_from` states its contract itself: an owned message cannot be named
/// by a spec function, so the generic law of `TryFrom` is not claimed.
impl TryFromSpecImpl<u8> for HeadlightSwitch {
    open spec fn obeys_try_from_spec() -> bool {
        false
    }

    open spec fn try_from_spec(v: u8) -> Result<Self, String> {
        arbitrary()
    }
}

/// The speed mode.
#[derive(Debug, Clone, Copy, PartialEq, Eq, Structural)]
pub enum ModeSetting {
    /// The setting is left as it is.
    NoSet,
    /// Low speed.
    LowSpeed,
    /// Medium speed.
    MediumSpeed,
    /// High speed.
    HighSpeed,
}

impl ModeSetting {
    /// The variant that `code` stands for on the wire, if any.
    pub open spec fn of_code(code: u8) -> Option<ModeSetting> {
        if code == 0 {
            Some(ModeSetting::NoSet)
        } else if code == 1 {
            Some(ModeSetting::LowSpeed)
        } else if code == 2 {
            Some(ModeSetting::MediumSpeed)
        } else if code == 3 {
            Some(ModeSetting::HighSpeed)
        } else {
            None
        }
    }
}

impl TryFrom<u8> for ModeSetting {
    type Error = String;

    /// Decodes a wire code. A code outside the table is refused with a message
    /// that names it.
    fn try_from(value: u8) -> (decoded: Result<Self, String>)
        ensures
            match decoded {
                Ok(variant) => ModeSetting::of_code(value) == Some(variant),
                Err(message) => ModeSetting::of_code(value) is None
                    && message@ == "Invalid mode setting value: "@ + decimal_text(value as nat),
            },
    {
        match value {
            0 => Ok(ModeSetting::NoSet),
            1 => Ok(ModeSetting::LowSpeed),
            2 => Ok(ModeSetting::MediumSpeed),
            3 => Ok(ModeSetting::HighSpeed),
            _ => Err(refusal("Invalid mode setting value: ", value)),
        }
    }
}

/// `try_from` states its contract itself: an owned message cannot be named
/// by a spec function, so the generic law of `TryFrom` is not claimed.
impl TryFromSpecImpl<u8> for ModeSetting {
    open spec fn obeys_try_from_spec() -> bool {
        false
    }

    open spec fn try_from_spec(v: u8) -> Result<Self, String> {
        arbitrary()
    }
}

/// The throttle response setting.
#[derive(Debug, Clone, Copy, PartialEq, Eq, Structural)]
pub enum ThrottleResponse {
    /// The setting is left as it is.
    NoSet,
    /// Throttle response is off.
    Shutdown,
    /// Throttle response is on.
    Open,
}

impl ThrottleResponse {
    /// The variant that `code` stands for on the wire, if any.
    pub open spec fn of_code(code: u8) -> Option<ThrottleResponse> {
        if code == 0 {
            Some(ThrottleResponse::NoSet)
        } else if code == 1 {
            Some(ThrottleResponse::Shutdown)
        } else if code == 2 {
            Some(ThrottleResponse::Open)
        } else {
            None
        }
    }
}

impl TryFrom<u8> for ThrottleResponse {
    type Error = String;

    /// Decodes a wire code. A code outside the table is refused with a message
    /// that names it.
    fn try_from(value: u8) -> (decoded: Result<Self, String>)
        ensures
            match decoded {
                Ok(variant) => ThrottleResponse::of_code(value) == Some(variant),
                Err(message) => ThrottleResponse::of_code(value) is None
                    && message@ == "Invalid throttle response value: "@ + decimal_text(
                        value as nat,
                    ),
            },
    {
        match value {
            0 => Ok(ThrottleResponse::NoSet),
            1 => Ok(ThrottleResponse::Shutdown),
            2 => Ok(ThrottleResponse::Open),
            _ => Err(refusal("Invalid throttle response value: ", value)),
        }
    }
}

/// `try_from` states its contract itself: an owned message cannot be named
/// by a spec function, so the generic law of `TryFrom` is not claimed.
impl TryFromSpecImpl<u8> for ThrottleResponse {
    open spec fn obeys_try_from_spec() -> bool {
        false
    }

    open spec fn try_from_spec(v: u8) -> Result<Self, String> {
        arbitrary()
    }
}

/// The taillight flashing setting.
#[derive(Debug, Clone, Copy, PartialEq, Eq, Structural)]
pub enum TaillightsFlashing {
    /// The setting is left as it is.
    NoSet,
    /// The taillights do not flash.
    Shutdown,
    /// The taillights flash.
    Open,
}

impl TaillightsFlashing {
    /// The variant that `code` stands for on the wire, if any.
    pub open spec fn of_code(code: u8) -> Option<TaillightsFlashing> {
        if code == 0 {
            Some(TaillightsFlashing::NoSet)
        } else if code == 1 {
            Some(TaillightsFlashing::Shutdown)
        } else if code == 2 {
            Some(TaillightsFlashing::Open)
        } else {
            None
        }
    }
}

impl TryFrom<u8> for TaillightsFlashing {
    type Error = String;

    /// Decodes a wire code. A code outside the table is refused with a message
    /// that names it.
    fn try_from(value: u8) -> (decoded: Result<Self, String>)
        ensures
            match decoded {
                Ok(variant) => TaillightsFlashing::of_code(value) == Some(variant),
                Err(message) => TaillightsFlashing::of_code(value) is None
                    && message@ == "Invalid taillights flashing value: "@ + decimal_text(
                        value as nat,
                    ),
            },
    {
        match value {
            0 => Ok(TaillightsFlashing::NoSet),
            1 => Ok(TaillightsFlashing::Shutdown),
            2 => Ok(TaillightsFlashing::Open),
            _ => Err(refusal("Invalid taillights flashing value: ", value)),
        }
    }
}

/// `try_from` states its contract itself: an owned message cannot be named
/// by a spec function, so the generic law of `TryFrom` is not claimed.
impl TryFromSpecImpl<u8> for TaillightsFlashing {
    open spec fn obeys_try_from_spec() -> bool {
        false
    }

    open spec fn try_from_spec(v: u8) -> Result<Self, String> {
        arbitrary()
    }
}

} // verus!
