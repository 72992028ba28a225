//! Positioning reports (`D0`) and the enumerations of their fields.

use crate::commands::parser::Coordinate;
use crate::commands::parser::Decimal;
use crate::commands::parser::UtcDateTime;
use crate::decimal::decimal_text;
use crate::decimal::refusal;
use crate::text::refusal_of_char;
use crate::text::refusal_of_text;
use crate::text::result_view;
use crate::text::str_eq;
use vstd::prelude::*;
use vstd::std_specs::convert::TryFromSpecImpl;

verus! {

/// Why the scooter reports its position.
#[derive(Debug, Clone, Copy, PartialEq, Eq, Structural)]
pub enum PositioningIdentifier {
    /// A single position was asked for.
    ObtainPositioning,
    /// The scooter is being tracked.
    PositionTracking,
}

impl PositioningIdentifier {
    /// The variant that `code` stands for on the wire, if any.
    pub open spec fn of_code(code: u8) -> Option<PositioningIdentifier> {
        if code == 0 {
            Some(PositioningIdentifier::ObtainPositioning)
        } else if code == 1 {
            Some(PositioningIdentifier::PositionTracking)
        } else {
            None
        }
    }
}

impl TryFrom<u8> for PositioningIdentifier {
    type Error = String;

    /// Decodes a wire code. A code outside the table is refused with a message
    /// that names it.
    fn try_from(value: u8) -> (decoded: Result<Self, String>)
        ensures
            match decoded {
                Ok(variant) => PositioningIdentifier::of_code(value) == Some(variant),
                Err(message) => PositioningIdentifier::of_code(value) is None
                    && message@ == "Invalid positioning identifier: "@ + decimal_text(value as nat),
            },
    {
        match value {
            0 => Ok(PositioningIdentifier::ObtainPositioning),
            1 => Ok(PositioningIdentifier::PositionTracking),
            _ => Err(refusal("Invalid positioning identifier: ", value)),
        }
    }
}

/// `try_from` states its contract itself: an owned message cannot be named
/// by a spec function, so the generic law of `TryFrom` is not claimed.
impl TryFromSpecImpl<u8> for PositioningIdentifier {
    open spec fn obeys_try_from_spec() -> bool {
        false
    }

    open spec fn try_from_spec(v: u8) -> Result<Self, String> {
        arbitrary()
    }
}

/// Whether the receiver had a fix when it reported.
#[derive(Debug, Clone, Copy, PartialEq, Eq, Structural)]
pub enum PositioningStatus {
    /// The position is a valid fix.
    Effective,
    /// The receiver had no fix.
    Invalid,
}

impl PositioningStatus {
    /// The variant that `letter` stands for on the wire, if any.
    pub open spec fn of_letter(letter: char) -> Option<PositioningStatus> {
        if letter == 'A' {
            Some(PositioningStatus::Effective)
        } else if letter == 'V' {
            Some(PositioningStatus::Invalid)
        } else {
            None
        }
    }
}

impl TryFrom<char> for PositioningStatus {
    type Error = String;

    /// Decodes a wire letter. Any other character is refused with a message
    /// that shows it.
    fn try_from(value: char) -> (decoded: Result<Self, String>)
        ensures
            match decoded {
                Ok(variant) => PositioningStatus::of_letter(value) == Some(variant),
                Err(message) => PositioningStatus::of_letter(value) is None
                    && message@ == "Invalid positioning status: "@.push(value),
            },
    {
        match value {
            'A' => Ok(PositioningStatus::Effective),
            'V' => Ok(PositioningStatus::Invalid),
            _ => Err(refusal_of_char("Invalid positioning status: ", value)),
        }
    }
}

/// `try_from` states its contract itself: an owned message cannot be named
/// by a spec function, so the generic law of `TryFrom` is not claimed.
impl TryFromSpecImpl<char> for PositioningStatus {
    open spec fn obeys_try_from_spec() -> bool {
        false
    }

    open spec fn try_from_spec(v: char) -> Result<Self, String> {
        arbitrary()
    }
}

/// The half of the globe that a coordinate lies in.
#[derive(Debug, Clone, Copy, PartialEq, Eq, Structural)]
pub enum Hemisphere {
    North,
    South,
    East,
    West,
}

impl Hemisphere {
    /// The hemisphere that a one-letter field names, if any.
    pub open spec fn of_text(text: Seq<char>) -> Option<Hemisphere> {
        if text == seq!['N'] {
            Some(Hemisphere::North)
        } else if text == seq!['S'] {
            Some(Hemisphere::South)
        } else if text == seq!['E'] {
            Some(Hemisphere::East)
        } else if text == seq!['W'] {
            Some(Hemisphere::West)
        } else {
            None
        }
    }

    /// `true` for the two hemispheres whose coordinates are negative.
    pub open spec fn is_negative(self) -> bool {
        self == Hemisphere::South || self == Hemisphere::West
    }

    /// The hemisphere's name in English.
    pub open spec fn name_text(self) -> Seq<char> {
        match self {
            Hemisphere::North => "North"@,
            Hemisphere::South => "South"@,
            Hemisphere::East => "East"@,
            Hemisphere::West => "West"@,
        }
    }

    /// The hemisphere's name in English.
    pub fn name(&self) -> (name: &'static str)
        ensures
            name@ == self.name_text(),
    {
        match self {
            Hemisphere::North => "North",
            Hemisphere::South => "South",
            Hemisphere::East => "East",
            Hemisphere::West => "West",
        }
    }
}

impl<'a> TryFrom<&'a str> for Hemisphere {
    type Error = String;

    /// Decodes a hemisphere field. Anything but one of the four letters is
    /// refused with a message that shows it.
    fn try_from(value: &'a str) -> (decoded: Result<Self, String>)
        ensures
            match decoded {
                Ok(hemisphere) => Hemisphere::of_text(value@) == Some(hemisphere),
                Err(message) => Hemisphere::of_text(value@) is None && message@
                    == "Invalid hemisphere: "@ + value@,
            },
    {
        proof {
            reveal_strlit("N");
            reveal_strlit("S");
            reveal_strlit("E");
            reveal_strlit("W");
        }
        assert("N"@ =~= seq!['N'] && "S"@ =~= seq!['S']);
        assert("E"@ =~= seq!['E'] && "W"@ =~= seq!['W']);
        if str_eq(value, "N") {
            Ok(Hemisphere::North)
        } else if str_eq(value, "S") {
            Ok(Hemisphere::South)
        } else if str_eq(value, "E") {
            Ok(Hemisphere::East)
        } else if str_eq(value, "W") {
            Ok(Hemisphere::West)
        } else {
            Err(refusal_of_text("Invalid hemisphere: ", value))
        }
    }
}

/// `try_from` states its contract itself: an owned message cannot be named
/// by a spec function, so the generic law of `TryFrom` is not claimed.
impl<'a> TryFromSpecImpl<&'a str> for Hemisphere {
    open spec fn obeys_try_from_spec() -> bool {
        false
    }

    open spec fn try_from_spec(v: &'a str) -> Result<Self, String> {
        arbitrary()
    }
}

/// How the receiver arrived at the position.
#[derive(Debug, Clone, Copy, PartialEq, Eq, Structural)]
pub enum Mode {
    /// A fix from satellites alone.
    Autonomous,
    /// A fix with differential correction.
    Differential,
    /// Dead reckoning.
    Estimate,
    /// No usable data.
    InvalidData,
}

impl Mode {
    /// The variant that `letter` stands for on the wire, if any.
    pub open spec fn of_letter(letter: char) -> Option<Mode> {
        if letter == 'A' {
            Some(Mode::Autonomous)
        } else if letter == 'D' {
            Some(Mode::Differential)
        } else if letter == 'E' {
            Some(Mode::Estimate)
        } else if letter == 'N' {
            Some(Mode::InvalidData)
        } else {
            None
        }
    }
}

impl TryFrom<char> for Mode {
    type Error = String;

    /// Decodes a wire letter. Any other character is refused with a message
    /// that shows it.
    fn try_from(value: char) -> (decoded: Result<Self, String>)
        ensures
            match decoded {
                Ok(variant) => Mode::of_letter(value) == Some(variant),
                Err(message) => Mode::of_letter(value) is None
                    && message@ == "Invalid mode: "@.push(value),
            },
    {
        match value {
            'A' => Ok(Mode::Autonomous),
            'D' => Ok(Mode::Differential),
            'E' => Ok(Mode::Estimate),
            'N' => Ok(Mode::InvalidData),
            _ => Err(refusal_of_char("Invalid mode: ", value)),
        }
    }
}

/// `try_from` states its contract itself: an owned message cannot be named
/// by a spec function, so the generic law of `TryFrom` is not claimed.
impl TryFromSpecImpl<char> for Mode {
    open spec fn obeys_try_from_spec() -> bool {
        false
    }

    open spec fn try_from_spec(v: char) -> Result<Self, String> {
        arbitrary()
    }
}

/// A positioning report (`D0`), decoded.
#[derive(Debug)]
pub struct PositioningResponse {
    pub imei: String,
    pub identifier: PositioningIdentifier,
    pub utc_datetime: UtcDateTime,
    pub positioning_status: PositioningStatus,
    /// The latitude in WGS84, negative in the south.
    pub latitude: Coordinate,
    /// The letter that stood beside the latitude.
    pub latitude_hemisphere: Hemisphere,
    /// The longitude in WGS84, negative in the west.
    pub longitude: Coordinate,
    /// The letter that stood beside the longitude.
    pub longitude_hemisphere: Hemisphere,
    pub satellites_number: u8,
    pub positioning_accuracy: Decimal,
    /// Metres above sea level.
    pub altitude: Decimal,
    pub mode: Mode,
}

/// A positioning report with its text as a sequence of characters.
pub struct PositioningReport {
    pub imei: Seq<char>,
    pub identifier: PositioningIdentifier,
    pub utc_datetime: UtcDateTime,
    pub positioning_status: PositioningStatus,
    pub latitude: Coordinate,
    pub latitude_hemisphere: Hemisphere,
    pub longitude: Coordinate,
    pub longitude_hemisphere: Hemisphere,
    pub satellites_number: u8,
    pub positioning_accuracy: Decimal,
    pub altitude: Decimal,
    pub mode: Mode,
}

impl View for PositioningResponse {
    type V = PositioningReport;

    open spec fn view(&self) -> PositioningReport {
        PositioningReport {
            imei: self.imei@,
            identifier: self.identifier,
            utc_datetime: self.utc_datetime,
            positioning_status: self.positioning_status,
            latitude: self.latitude,
            latitude_hemisphere: self.latitude_hemisphere,
            longitude: self.longitude,
            longitude_hemisphere: self.longitude_hemisphere,
            satellites_number: self.satellites_number,
            positioning_accuracy: self.positioning_accuracy,
            altitude: self.altitude,
            mode: self.mode,
        }
    }
}

impl PositioningReport {
    /// The latitude, where the letter beside it is north or south; a
    /// latitude cannot lie east or west.
    pub open spec fn latitude_wgs84(self) -> Result<Coordinate, Seq<char>> {
        match self.latitude_hemisphere {
            Hemisphere::North | Hemisphere::South => Ok(self.latitude),
            other => Err("Invalid hemisphere for latitude: "@ + other.name_text()),
        }
    }

    /// The longitude, where the letter beside it is east or west; a
    /// longitude cannot lie north or south.
    pub open spec fn longitude_wgs84(self) -> Result<Coordinate, Seq<char>> {
        match self.longitude_hemisphere {
            Hemisphere::East | Hemisphere::West => Ok(self.longitude),
            other => Err("Invalid hemisphere for longitude: "@ + other.name_text()),
        }
    }
}

impl PositioningResponse {
    /// The latitude in WGS84. Refused where the report pairs it with east or west.
    pub fn convert_latitude_to_wgs84(&self) -> (converted: Result<Coordinate, String>)
        ensures
            result_view(converted) == self@.latitude_wgs84(),
    {
        match self.latitude_hemisphere {
            Hemisphere::North | Hemisphere::South => Ok(self.latitude),
            other => Err(refusal_of_text("Invalid hemisphere for latitude: ", other.name())),
        }
    }

    /// The longitude in WGS84. Refused where the report pairs it with north or south.
    pub fn convert_longitude_to_wgs84(&self) -> (converted: Result<Coordinate, String>)
        ensures
            result_view(converted) == self@.longitude_wgs84(),
    {
        match self.longitude_hemisphere {
            Hemisphere::East | Hemisphere::West => Ok(self.longitude),
            other => Err(refusal_of_text("Invalid hemisphere for longitude: ", other.name())),
        }
    }
}

/// How a scooter answers a request.
#[derive(Debug, Clone, Copy, PartialEq, Eq, Structural)]
pub enum Status {
    /// The request was carried out.
    Success,
    /// The request failed.
    Failure,
    /// The key did not match.
    KeyError,
}

impl Status {
    /// The variant that `code` stands for on the wire, if any.
    pub open spec fn of_code(code: u8) -> Option<Status> {
        if code == 0 {
            Some(Status::Success)
        } else if code == 1 {
            Some(Status::Failure)
        } else if code == 2 {
            Some(Status::KeyError)
        } else {
            None
        }
    }
}

impl TryFrom<u8> for Status {
    type Error = String;

    /// Decodes a wire code. A code outside the table is refused with a message
    /// that names it.
    fn try_from(value: u8) -> (decoded: Result<Self, String>)
        ensures
            match decoded {
                Ok(variant) => Status::of_code(value) == Some(variant),
                Err(message) => Status::of_code(value) is None
                    && message@ == "Invalid status code: "@ + decimal_text(value as nat),
            },
    {
        match value {
            0 => Ok(Status::Success),
            1 => Ok(Status::Failure),
            2 => Ok(Status::KeyError),
            _ => Err(refusal("Invalid status code: ", value)),
        }
    }
}

/// `try_from` states its contract itself: an owned message cannot be named
/// by a spec function, so the generic law of `TryFrom` is not claimed.
impl TryFromSpecImpl<u8> for Status {
    open spec fn obeys_try_from_spec() -> bool {
        false
    }

    open spec fn try_from_spec(v: u8) -> Result<Self, String> {
        arbitrary()
    }
}

} // verus!
