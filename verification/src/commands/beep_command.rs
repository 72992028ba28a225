//! Beep playback reports (`V0`).

use crate::decimal::decimal_text;
use crate::decimal::refusal;
use vstd::prelude::*;
use vstd::std_specs::convert::TryFromSpecImpl;

verus! {

/// What the scooter's speaker was told to play.
#[derive(Debug, Clone, Copy, PartialEq, Eq, Structural)]
pub enum BeepPlayContent {
    /// Reserved by the protocol.
    Hold,
    /// The sound that helps a rider find the scooter.
    FindScooterAlert,
    /// Voice prompts are switched off.
    TurnOffVoice,
    /// Voice prompts are switched on.
    TurnOnVoice,
}

impl BeepPlayContent {
    /// The variant that `code` stands for on the wire, if any.
    pub open spec fn of_code(code: u8) -> Option<BeepPlayContent> {
        if code == 1 {
            Some(BeepPlayContent::Hold)
        } else if code == 2 {
            Some(BeepPlayContent::FindScooterAlert)
        } else if code == 80 {
            Some(BeepPlayContent::TurnOffVoice)
        } else if code == 81 {
            Some(BeepPlayContent::TurnOnVoice)
        } else {
            None
        }
    }
}

impl TryFrom<u8> for BeepPlayContent {
    type Error = String;

    /// Decodes a wire code. A code outside the table is refused with a message
    /// that names it.
    fn try_from(value: u8) -> (decoded: Result<Self, String>)
        ensures
            match decoded {
                Ok(variant) => BeepPlayContent::of_code(value) == Some(variant),
                Err(message) => BeepPlayContent::of_code(value) is None
                    && message@ == "Invalid beep play content: "@ + decimal_text(value as nat),
            },
    {
        match value {
            1 => Ok(BeepPlayContent::Hold),
            2 => Ok(BeepPlayContent::FindScooterAlert),
            80 => Ok(BeepPlayContent::TurnOffVoice),
            81 => Ok(BeepPlayContent::TurnOnVoice),
            _ => Err(refusal("Invalid beep play content: ", value)),
        }
    }
}

/// `try_from` states its contract itself: an owned message cannot be named
/// by a spec function, so the generic law of `TryFrom` is not claimed.
impl TryFromSpecImpl<u8> for BeepPlayContent {
    open spec fn obeys_try_from_spec() -> bool {
        false
    }

    open spec fn try_from_spec(v: u8) -> Result<Self, String> {
        arbitrary()
    }
}

} // verus!
