//! The inbound commands of the device protocol as one tagged type, and the
//! decoder that builds it from the fields of a frame.

use crate::commands::alarm_command::AlarmType;
use crate::commands::beep_command::BeepPlayContent;
use crate::commands::hearbeat_command::ChargingStatus;
use crate::commands::hearbeat_command::ScooterStatus;
use crate::commands::parser::coordinate_of_text;
use crate::commands::parser::datetime_of_text;
use crate::commands::parser::Decimal;
use crate::commands::parser::decimal_of_text;
use crate::commands::parser::lemma_coordinate_magnitude_bound;
use crate::commands::parser::lemma_pair_is_small;
use crate::commands::parser::parse_coordinates;
use crate::commands::parser::parse_datetime;
use crate::commands::parser::parse_number;
use crate::commands::positioning_command::Hemisphere;
use crate::commands::positioning_command::Mode;
use crate::commands::positioning_command::PositioningIdentifier;
use crate::commands::positioning_command::PositioningReport;
use crate::commands::positioning_command::PositioningResponse;
use crate::commands::positioning_command::PositioningStatus;
use crate::commands::scooter_setting_command::HeadlightSwitch;
use crate::commands::scooter_setting_command::ModeSetting;
use crate::commands::scooter_setting_command::TaillightsFlashing;
use crate::commands::scooter_setting_command::ThrottleResponse;
use crate::decimal::decimal_text;
use crate::decimal::parse_decimal;
use crate::decimal::parse_unsigned;
use crate::server::commands::R0Operation;
use crate::server::commands::Status;
use crate::text::lemma_split_nonempty;
use crate::text::refusal_of_text;
use crate::text::result_view;
use crate::text::split;
use crate::text::split_on;
use crate::text::str_eq;
use crate::text::trimmed;
use vstd::prelude::*;
use vstd::std_specs::convert::TryFromSpecImpl;
use vstd::string::StringExecFns;
use vstd::string::StrSliceExecFns;

verus! {

/// One inbound frame, decoded. Each command code of the protocol has its
/// variant.
#[derive(Debug)]
#[allow(inconsistent_fields)]
pub enum ScooterCommand {
    /// `R0`: the scooter answers an unlock or lock request with a key.
    UnlockOrLockResponse {
        imei: String,
        operation: R0Operation,
        key: u8,
        user_id: String,
        timestamp: String,
    },
    /// `L0`: the scooter confirms an unlock.
    UnlockResponse { imei: String, status: Status, user_id: String, timestamp: String },
    /// `L1`: the scooter confirms a lock and reports the ride's length.
    LockResponse {
        imei: String,
        status: Status,
        user_id: String,
        timestamp: String,
        cycling_time: u32,
    },
    /// `D0`: a positioning report.
    PositioningResponse(PositioningResponse),
    /// `W0`: an alarm.
    AlarmCommand { imei: String, alarm_type: AlarmType },
    /// `V0`: a beep was played.
    BeepPlaybackCommand { imei: String, play_content: BeepPlayContent },
    /// `S7`: the scooter echoes its settings.
    ScooterSetting {
        imei: String,
        headlight_switch: HeadlightSwitch,
        mode_setting: ModeSetting,
        throttle_response: ThrottleResponse,
        taillights_flashing: TaillightsFlashing,
    },
    /// `Q0`: the scooter signs in. The voltage is in hundredths of a volt.
    SigningIn { imei: String, voltage: Decimal, power: u8, signal: u8 },
    /// `H0`: a heartbeat. The voltage is in hundredths of a volt.
    HeartBeat {
        imei: String,
        status: ScooterStatus,
        voltage: Decimal,
        signal: u8,
        power: u8,
        charging: ChargingStatus,
    },
}

/// A decoded frame with its text as sequences of characters.
#[allow(inconsistent_fields)]
pub enum CommandView {
    UnlockOrLockResponse {
        imei: Seq<char>,
        operation: R0Operation,
        key: u8,
        user_id: Seq<char>,
        timestamp: Seq<char>,
    },
    UnlockResponse { imei: Seq<char>, status: Status, user_id: Seq<char>, timestamp: Seq<char> },
    LockResponse {
        imei: Seq<char>,
        status: Status,
        user_id: Seq<char>,
        timestamp: Seq<char>,
        cycling_time: u32,
    },
    PositioningResponse(PositioningReport),
    AlarmCommand { imei: Seq<char>, alarm_type: AlarmType },
    BeepPlaybackCommand { imei: Seq<char>, play_content: BeepPlayContent },
    ScooterSetting {
        imei: Seq<char>,
        headlight_switch: HeadlightSwitch,
        mode_setting: ModeSetting,
        throttle_response: ThrottleResponse,
        taillights_flashing: TaillightsFlashing,
    },
    SigningIn { imei: Seq<char>, voltage: Decimal, power: u8, signal: u8 },
    HeartBeat {
        imei: Seq<char>,
        status: ScooterStatus,
        voltage: Decimal,
        signal: u8,
        power: u8,
        charging: ChargingStatus,
    },
}

impl View for ScooterCommand {
    type V = CommandView;

    open spec fn view(&self) -> CommandView {
        match self {
            ScooterCommand::UnlockOrLockResponse { imei, operation, key, user_id, timestamp } => {
                CommandView::UnlockOrLockResponse {
                    imei: imei@,
                    operation: *operation,
                    key: *key,
                    user_id: user_id@,
                    timestamp: timestamp@,
                }
            },
            ScooterCommand::UnlockResponse { imei, status, user_id, timestamp } => {
                CommandView::UnlockResponse {
                    imei: imei@,
                    status: *status,
                    user_id: user_id@,
                    timestamp: timestamp@,
                }
            },
            ScooterCommand::LockResponse { imei, status, user_id, timestamp, cycling_time } => {
                CommandView::LockResponse {
                    imei: imei@,
                    status: *status,
                    user_id: user_id@,
                    timestamp: timestamp@,
                    cycling_time: *cycling_time,
                }
            },
            ScooterCommand::PositioningResponse(report) => CommandView::PositioningResponse(
                report@,
            ),
            ScooterCommand::AlarmCommand { imei, alarm_type } => CommandView::AlarmCommand {
                imei: imei@,
                alarm_type: *alarm_type,
            },
            ScooterCommand::BeepPlaybackCommand {
                imei,
                play_content,
            } => CommandView::BeepPlaybackCommand { imei: imei@, play_content: *play_content },
            ScooterCommand::ScooterSetting {
                imei,
                headlight_switch,
                mode_setting,
                throttle_response,
                taillights_flashing,
            } => CommandView::ScooterSetting {
                imei: imei@,
                headlight_switch: *headlight_switch,
                mode_setting: *mode_setting,
                throttle_response: *throttle_response,
                taillights_flashing: *taillights_flashing,
            },
            ScooterCommand::SigningIn { imei, voltage, power, signal } => CommandView::SigningIn {
                imei: imei@,
                voltage: *voltage,
                power: *power,
                signal: *signal,
            },
            ScooterCommand::HeartBeat {
                imei,
                status,
                voltage,
                signal,
                power,
                charging,
            } => CommandView::HeartBeat {
                imei: imei@,
                status: *status,
                voltage: *voltage,
                signal: *signal,
                power: *power,
                charging: *charging,
            },
        }
    }
}

impl CommandView {
    /// `true` for what a scooter sends unasked: heartbeats, positions,
    /// alarms and beep reports. No workflow waits for such a frame.
    pub open spec fn is_telemetry(self) -> bool {
        self is HeartBeat || self is PositioningResponse || self is AlarmCommand
            || self is BeepPlaybackCommand
    }

    /// The IMEI of the scooter that sent the frame.
    pub open spec fn imei(self) -> Seq<char> {
        match self {
            CommandView::UnlockOrLockResponse { imei, .. } => imei,
            CommandView::UnlockResponse { imei, .. } => imei,
            CommandView::LockResponse { imei, .. } => imei,
            CommandView::PositioningResponse(report) => report.imei,
            CommandView::AlarmCommand { imei, .. } => imei,
            CommandView::BeepPlaybackCommand { imei, .. } => imei,
            CommandView::ScooterSetting { imei, .. } => imei,
            CommandView::SigningIn { imei, .. } => imei,
            CommandView::HeartBeat { imei, .. } => imei,
        }
    }
}

impl ScooterCommand {
    /// `true` for what a scooter sends unasked: heartbeats, positions,
    /// alarms and beep reports.
    pub fn is_telemetry(&self) -> (unasked: bool)
        ensures
            unasked == self@.is_telemetry(),
    {
        match self {
            ScooterCommand::HeartBeat { .. } => true,
            ScooterCommand::PositioningResponse(_) => true,
            ScooterCommand::AlarmCommand { .. } => true,
            ScooterCommand::BeepPlaybackCommand { .. } => true,
            _ => false,
        }
    }

    /// The IMEI of the scooter that sent the frame.
    pub fn imei(&self) -> (imei: &str)
        ensures
            imei@ == self@.imei(),
    {
        match self {
            ScooterCommand::UnlockOrLockResponse { imei, .. } => imei.as_str(),
            ScooterCommand::UnlockResponse { imei, .. } => imei.as_str(),
            ScooterCommand::LockResponse { imei, .. } => imei.as_str(),
            ScooterCommand::PositioningResponse(report) => report.imei.as_str(),
            ScooterCommand::AlarmCommand { imei, .. } => imei.as_str(),
            ScooterCommand::BeepPlaybackCommand { imei, .. } => imei.as_str(),
            ScooterCommand::ScooterSetting { imei, .. } => imei.as_str(),
            ScooterCommand::SigningIn { imei, .. } => imei.as_str(),
            ScooterCommand::HeartBeat { imei, .. } => imei.as_str(),
        }
    }
}

/// Every frame that decodes carries the IMEI that stood in its third field.
pub proof fn lemma_decoded_imei(parts: Seq<Seq<char>>)
    ensures
        decode_fields(parts) matches Ok(command) ==> command.imei() == parts[2],
{
}

/// What a decoder hands back, with all text as sequences of characters.
pub open spec fn decoded_view(decoded: Result<ScooterCommand, String>) -> Result<
    CommandView,
    Seq<char>,
> {
    match decoded {
        Ok(command) => Ok(command@),
        Err(message) => Err(message@),
    }
}

/// A field that holds a number of one byte, or the refusal given.
pub open spec fn byte_field(field: Seq<char>, refusal: Seq<char>) -> Result<u8, Seq<char>> {
    match parse_decimal(field, 255) {
        Some(number) => Ok(number as u8),
        None => Err(refusal),
    }
}

/// A field that holds the code of an enumeration. A field that is no
/// one-byte number is refused with `refusal`; a number outside the
/// enumeration's table is refused with `refusal`, a colon and the number.
pub open spec fn coded_field<T>(
    field: Seq<char>,
    refusal: Seq<char>,
    of_code: spec_fn(u8) -> Option<T>,
) -> Result<T, Seq<char>> {
    match parse_decimal(field, 255) {
        None => Err(refusal),
        Some(number) => match of_code(number as u8) {
            Some(variant) => Ok(variant),
            None => Err(refusal + seq![':', ' '] + decimal_text(number as nat)),
        },
    }
}

/// A field whose first character is the letter of an enumeration. An empty
/// field is refused with `refusal`; a letter outside the enumeration's
/// table is refused with `refusal`, a colon and the letter.
pub open spec fn lettered_field<T>(
    field: Seq<char>,
    refusal: Seq<char>,
    of_letter: spec_fn(char) -> Option<T>,
) -> Result<T, Seq<char>> {
    if field.len() == 0 {
        Err(refusal)
    } else {
        match of_letter(field[0]) {
            Some(variant) => Ok(variant),
            None => Err(refusal + seq![':', ' '].push(field[0])),
        }
    }
}

/// A field that holds a decimal number, or the refusal given.
pub open spec fn number_field(field: Seq<char>, refusal: Seq<char>) -> Result<Decimal, Seq<char>> {
    match decimal_of_text(field) {
        Some(number) => Ok(number),
        None => Err(refusal),
    }
}

/// A status field, or the refusal that shows it.
pub open spec fn status_field(field: Seq<char>) -> Result<Status, Seq<char>> {
    match Status::of_text(field) {
        Some(status) => Ok(status),
        None => Err("Invalid status code: "@ + field),
    }
}

/// A hemisphere field, or the refusal that shows it.
pub open spec fn hemisphere_field(field: Seq<char>) -> Result<Hemisphere, Seq<char>> {
    match Hemisphere::of_text(field) {
        Some(hemisphere) => Ok(hemisphere),
        None => Err("Invalid hemisphere: "@ + field),
    }
}

/// The part of a field in front of its first point; the whole field where
/// it has none.
pub open spec fn before_point(field: Seq<char>) -> Seq<char> {
    split_on(field, '.')[0]
}

/// What the fields of an `R0` frame decode to.
pub open spec fn decode_r0(parts: Seq<Seq<char>>) -> Result<CommandView, Seq<char>> {
    let key = byte_field(parts[5], "Invalid key field"@);
    if parts.len() < 8 {
        Err("Invalid R0 response: insufficient parts"@)
    } else if R0Operation::of_text(parts[4]) is None {
        Err("Invalid operation field"@)
    } else if key is Err {
        Err(key->Err_0)
    } else {
        Ok(
            CommandView::UnlockOrLockResponse {
                imei: parts[2],
                operation: R0Operation::of_text(parts[4])->0,
                key: key->Ok_0,
                user_id: parts[6],
                timestamp: parts[7],
            },
        )
    }
}

/// What the fields of an `L0` frame decode to.
pub open spec fn decode_l0(parts: Seq<Seq<char>>) -> Result<CommandView, Seq<char>> {
    let status = status_field(parts[4]);
    if parts.len() < 7 {
        Err("Invalid L0 response: insufficient parts"@)
    } else if status is Err {
        Err(status->Err_0)
    } else {
        Ok(
            CommandView::UnlockResponse {
                imei: parts[2],
                status: status->Ok_0,
                user_id: parts[5],
                timestamp: parts[6],
            },
        )
    }
}

/// What the fields of an `L1` frame decode to.
pub open spec fn decode_l1(parts: Seq<Seq<char>>) -> Result<CommandView, Seq<char>> {
    let status = status_field(parts[4]);
    let cycling_time = parse_decimal(parts[7], u32::MAX as int);
    if parts.len() < 8 {
        Err("Invalid L1 response: insufficient parts"@)
    } else if status is Err {
        Err(status->Err_0)
    } else if cycling_time is None {
        Err("Invalid cycling time field"@)
    } else {
        Ok(
            CommandView::LockResponse {
                imei: parts[2],
                status: status->Ok_0,
                user_id: parts[5],
                timestamp: parts[6],
                cycling_time: cycling_time->0 as u32,
            },
        )
    }
}

/// What the fields of a `D0` frame decode to. The fields are looked at in
/// this order, and the first that is refused decides: identifier, fix
/// status, latitude, longitude, satellites, accuracy, time and date,
/// altitude, the unit `M`, mode, and last the two hemisphere letters once
/// more on their own. Time and date count up to their first point.
pub open spec fn decode_d0(parts: Seq<Seq<char>>) -> Result<CommandView, Seq<char>> {
    let identifier = coded_field(
        parts[4],
        "Invalid positioning identifier"@,
        |code: u8| PositioningIdentifier::of_code(code),
    );
    let positioning_status = lettered_field(
        parts[6],
        "Invalid positioning status"@,
        |letter: char| PositioningStatus::of_letter(letter),
    );
    let latitude = coordinate_of_text(parts[7], parts[8]);
    let longitude = coordinate_of_text(parts[9], parts[10]);
    let satellites_number = byte_field(parts[11], "Invalid satellites number"@);
    let positioning_accuracy = number_field(parts[12], "Invalid positioning accuracy"@);
    let utc_datetime = datetime_of_text(before_point(parts[5]), before_point(parts[13]));
    let altitude = number_field(parts[14], "Invalid altitude"@);
    let mode = lettered_field(parts[16], "Invalid mode"@, |letter: char| Mode::of_letter(letter));
    let latitude_hemisphere = hemisphere_field(parts[8]);
    let longitude_hemisphere = hemisphere_field(parts[10]);
    if parts.len() < 17 {
        Err("Invalid D0 response: insufficient parts"@)
    } else if identifier is Err {
        Err(identifier->Err_0)
    } else if positioning_status is Err {
        Err(positioning_status->Err_0)
    } else if latitude is Err {
        Err(latitude->Err_0)
    } else if longitude is Err {
        Err(longitude->Err_0)
    } else if satellites_number is Err {
        Err(satellites_number->Err_0)
    } else if positioning_accuracy is Err {
        Err(positioning_accuracy->Err_0)
    } else if utc_datetime is Err {
        Err(utc_datetime->Err_0)
    } else if altitude is Err {
        Err(altitude->Err_0)
    } else if parts[15] != seq!['M'] {
        Err("Invalid height unit: "@ + parts[15])
    } else if mode is Err {
        Err(mode->Err_0)
    } else if latitude_hemisphere is Err {
        Err(latitude_hemisphere->Err_0)
    } else if longitude_hemisphere is Err {
        Err(longitude_hemisphere->Err_0)
    } else {
        Ok(
            CommandView::PositioningResponse(
                PositioningReport {
                    imei: parts[2],
                    identifier: identifier->Ok_0,
                    utc_datetime: utc_datetime->Ok_0,
                    positioning_status: positioning_status->Ok_0,
                    latitude: latitude->Ok_0,
                    latitude_hemisphere: latitude_hemisphere->Ok_0,
                    longitude: longitude->Ok_0,
                    longitude_hemisphere: longitude_hemisphere->Ok_0,
                    satellites_number: satellites_number->Ok_0,
                    positioning_accuracy: positioning_accuracy->Ok_0,
                    altitude: altitude->Ok_0,
                    mode: mode->Ok_0,
                },
            ),
        )
    }
}

/// In a positioning report that decodes, each coordinate has the sign of
/// the letter beside it and lies in the range of the wire format, and the
/// timestamp names a second of a day of the calendar.
pub proof fn lemma_report_is_consistent(parts: Seq<Seq<char>>)
    ensures
        decode_d0(parts) matches Ok(CommandView::PositioningResponse(report)) ==> {
            &&& report.latitude.is_on_wire()
            &&& report.longitude.is_on_wire()
            &&& report.latitude.units != 0 ==> (report.latitude.units < 0
                <==> report.latitude_hemisphere.is_negative())
            &&& report.longitude.units != 0 ==> (report.longitude.units < 0
                <==> report.longitude_hemisphere.is_negative())
            &&& report.utc_datetime.date.is_valid()
            &&& report.utc_datetime.time.is_valid()
        },
{
    if decode_d0(parts) is Ok {
        lemma_letter_is_trimmed(parts[8]);
        lemma_letter_is_trimmed(parts[10]);
        lemma_coordinate_magnitude_bound(parts[7]);
        lemma_coordinate_magnitude_bound(parts[9]);
        lemma_pair_is_small(before_point(parts[5]).subrange(0, 2), u32::MAX as int);
        lemma_pair_is_small(before_point(parts[5]).subrange(2, 4), u32::MAX as int);
        lemma_pair_is_small(before_point(parts[5]).subrange(4, 6), u32::MAX as int);
        lemma_pair_is_small(before_point(parts[13]).subrange(0, 2), u32::MAX as int);
        lemma_pair_is_small(before_point(parts[13]).subrange(2, 4), u32::MAX as int);
        lemma_pair_is_small(before_point(parts[13]).subrange(4, 6), u32::MAX as int);
    }
}

/// A field that is one hemisphere letter has no white space to trim.
proof fn lemma_letter_is_trimmed(field: Seq<char>)
    requires
        Hemisphere::of_text(field) is Some,
    ensures
        trimmed(field) == field,
{
    assert(field.len() == 1);
    assert(field[0] == 'N' || field[0] == 'S' || field[0] == 'E' || field[0] == 'W');
}

/// What the fields of a `W0` frame decode to.
pub open spec fn decode_w0(parts: Seq<Seq<char>>) -> Result<CommandView, Seq<char>> {
    match coded_field(parts[4], "Invalid alarm type"@, |code: u8| AlarmType::of_code(code)) {
        Ok(alarm_type) => Ok(CommandView::AlarmCommand { imei: parts[2], alarm_type }),
        Err(message) => Err(message),
    }
}

/// What the fields of a `V0` frame decode to. A field that is no number is
/// refused as `Invalid play content`, a number outside the table as
/// `Invalid beep play content` with the number.
pub open spec fn decode_v0(parts: Seq<Seq<char>>) -> Result<CommandView, Seq<char>> {
    match parse_decimal(parts[4], 255) {
        None => Err("Invalid play content"@),
        Some(number) => match BeepPlayContent::of_code(number as u8) {
            Some(play_content) => Ok(
                CommandView::BeepPlaybackCommand { imei: parts[2], play_content },
            ),
            None => Err("Invalid beep play content: "@ + decimal_text(number as nat)),
        },
    }
}

/// What the fields of an `S7` frame decode to.
pub open spec fn decode_s7(parts: Seq<Seq<char>>) -> Result<CommandView, Seq<char>> {
    let headlight_switch = coded_field(
        parts[4],
        "Invalid headlight switch value"@,
        |code: u8| HeadlightSwitch::of_code(code),
    );
    let mode_setting = coded_field(
        parts[5],
        "Invalid mode setting value"@,
        |code: u8| ModeSetting::of_code(code),
    );
    let throttle_response = coded_field(
        parts[6],
        "Invalid throttle response value"@,
        |code: u8| ThrottleResponse::of_code(code),
    );
    let taillights_flashing = coded_field(
        parts[7],
        "Invalid taillights flashing value"@,
        |code: u8| TaillightsFlashing::of_code(code),
    );
    if parts.len() < 8 {
        Err("Invalid S7 response: insufficient parts"@)
    } else if headlight_switch is Err {
        Err(headlight_switch->Err_0)
    } else if mode_setting is Err {
        Err(mode_setting->Err_0)
    } else if throttle_response is Err {
        Err(throttle_response->Err_0)
    } else if taillights_flashing is Err {
        Err(taillights_flashing->Err_0)
    } else {
        Ok(
            CommandView::ScooterSetting {
                imei: parts[2],
                headlight_switch: headlight_switch->Ok_0,
                mode_setting: mode_setting->Ok_0,
                throttle_response: throttle_response->Ok_0,
                taillights_flashing: taillights_flashing->Ok_0,
            },
        )
    }
}

/// What the fields of a `Q0` frame decode to. The frame has exactly seven fields.
pub open spec fn decode_q0(parts: Seq<Seq<char>>) -> Result<CommandView, Seq<char>> {
    let voltage = number_field(parts[4], "Invalid voltage"@);
    let power = byte_field(parts[5], "Invalid power"@);
    let signal = byte_field(parts[6], "Invalid signal"@);
    if parts.len() != 7 {
        Err("Invalid Q0 response: insufficient parts"@)
    } else if voltage is Err {
        Err(voltage->Err_0)
    } else if power is Err {
        Err(power->Err_0)
    } else if signal is Err {
        Err(signal->Err_0)
    } else {
        Ok(
            CommandView::SigningIn {
                imei: parts[2],
                voltage: voltage->Ok_0,
                power: power->Ok_0,
                signal: signal->Ok_0,
            },
        )
    }
}

/// What the fields of an `H0` frame decode to. The frame has exactly nine fields.
pub open spec fn decode_h0(parts: Seq<Seq<char>>) -> Result<CommandView, Seq<char>> {
    let status = coded_field(
        parts[4],
        "Invalid scooter status"@,
        |code: u8| ScooterStatus::of_code(code),
    );
    let voltage = number_field(parts[5], "Invalid voltage"@);
    let signal = byte_field(parts[6], "Invalid signal"@);
    let power = byte_field(parts[7], "Invalid power"@);
    let charging = coded_field(
        parts[8],
        "Invalid charging status"@,
        |code: u8| ChargingStatus::of_code(code),
    );
    if parts.len() != 9 {
        Err("Invalid H0 response: insufficient parts"@)
    } else if status is Err {
        Err(status->Err_0)
    } else if voltage is Err {
        Err(voltage->Err_0)
    } else if signal is Err {
        Err(signal->Err_0)
    } else if power is Err {
        Err(power->Err_0)
    } else if charging is Err {
        Err(charging->Err_0)
    } else {
        Ok(
            CommandView::HeartBeat {
                imei: parts[2],
                status: status->Ok_0,
                voltage: voltage->Ok_0,
                signal: signal->Ok_0,
                power: power->Ok_0,
                charging: charging->Ok_0,
            },
        )
    }
}

/// What the fields of a frame decode to. A frame has at least five fields:
/// header, vendor tag, IMEI, command code and one field of content. The
/// command code in the fourth field picks the decoder; a code that the
/// protocol does not have is refused by name.
pub open spec fn decode_fields(parts: Seq<Seq<char>>) -> Result<CommandView, Seq<char>> {
    if parts.len() < 5 {
        Err("Invalid command format: insufficient parts"@)
    } else if parts[3] == "R0"@ {
        decode_r0(parts)
    } else if parts[3] == "L0"@ {
        decode_l0(parts)
    } else if parts[3] == "L1"@ {
        decode_l1(parts)
    } else if parts[3] == "D0"@ {
        decode_d0(parts)
    } else if parts[3] == "W0"@ {
        decode_w0(parts)
    } else if parts[3] == "V0"@ {
        decode_v0(parts)
    } else if parts[3] == "S7"@ {
        decode_s7(parts)
    } else if parts[3] == "Q0"@ {
        decode_q0(parts)
    } else if parts[3] == "H0"@ {
        decode_h0(parts)
    } else {
        Err("Unknown command: "@ + parts[3])
    }
}

/// Reads a field that holds a number of one byte.
fn byte_of(field: &str, refusal: &str) -> (decoded: Result<u8, String>)
    ensures
        result_view(decoded) == byte_field(field@, refusal@),
{
    match parse_unsigned(field, 255) {
        Some(number) => Ok(number as u8),
        None => Err(String::from_str(refusal)),
    }
}

/// Reads a field that holds a decimal number.
fn number_of(field: &str, refusal: &str) -> (decoded: Result<Decimal, String>)
    ensures
        result_view(decoded) == number_field(field@, refusal@),
{
    match parse_number(field) {
        Some(number) => Ok(number),
        None => Err(String::from_str(refusal)),
    }
}

/// Reads a status field.
fn status_of(field: &str) -> (decoded: Result<Status, String>)
    ensures
        result_view(decoded) == status_field(field@),
{
    Status::try_from(field)
}

/// Reads a hemisphere field.
fn hemisphere_of(field: &str) -> (decoded: Result<Hemisphere, String>)
    ensures
        result_view(decoded) == hemisphere_field(field@),
{
    Hemisphere::try_from(field)
}

/// The part of a field in front of its first point.
fn before_point_of<'a>(field: &'a str) -> (front: &'a str)
    ensures
        front@ == before_point(field@),
{
    let pieces = split(field, '.');
    proof {
        lemma_split_nonempty(field@, '.');
    }
    pieces[0]
}

/// Reads the identifier of a positioning report.
fn positioning_identifier_of(field: &str) -> (decoded: Result<PositioningIdentifier, String>)
    ensures
        result_view(decoded) == coded_field(
            field@,
            "Invalid positioning identifier"@,
            |code: u8| PositioningIdentifier::of_code(code),
        ),
{
    proof {
        reveal_strlit("Invalid positioning identifier");
        reveal_strlit("Invalid positioning identifier: ");
    }
    assert("Invalid positioning identifier: "@ =~= "Invalid positioning identifier"@
        + seq![':', ' ']);
    match parse_unsigned(field, 255) {
        None => Err(String::from_str("Invalid positioning identifier")),
        Some(number) => PositioningIdentifier::try_from(number as u8),
    }
}

/// Reads the kind of an alarm.
fn alarm_type_of(field: &str) -> (decoded: Result<AlarmType, String>)
    ensures
        result_view(decoded) == coded_field(
            field@,
            "Invalid alarm type"@,
            |code: u8| AlarmType::of_code(code),
        ),
{
    proof {
        reveal_strlit("Invalid alarm type");
        reveal_strlit("Invalid alarm type: ");
    }
    assert("Invalid alarm type: "@ =~= "Invalid alarm type"@ + seq![':', ' ']);
    match parse_unsigned(field, 255) {
        None => Err(String::from_str("Invalid alarm type")),
        Some(number) => AlarmType::try_from(number as u8),
    }
}

/// Reads the headlight setting.
fn headlight_switch_of(field: &str) -> (decoded: Result<HeadlightSwitch, String>)
    ensures
        result_view(decoded) == coded_field(
            field@,
            "Invalid headlight switch value"@,
            |code: u8| HeadlightSwitch::of_code(code),
        ),
{
    proof {
        reveal_strlit("Invalid headlight switch value");
        reveal_strlit("Invalid headlight switch value: ");
    }
    assert("Invalid headlight switch value: "@ =~= "Invalid headlight switch value"@
        + seq![':', ' ']);
    match parse_unsigned(field, 255) {
        None => Err(String::from_str("Invalid headlight switch value")),
        Some(number) => HeadlightSwitch::try_from(number as u8),
    }
}

/// Reads the speed mode.
fn mode_setting_of(field: &str) -> (decoded: Result<ModeSetting, String>)
    ensures
        result_view(decoded) == coded_field(
            field@,
            "Invalid mode setting value"@,
            |code: u8| ModeSetting::of_code(code),
        ),
{
    proof {
        reveal_strlit("Invalid mode setting value");
        reveal_strlit("Invalid mode setting value: ");
    }
    assert("Invalid mode setting value: "@ =~= "Invalid mode setting value"@ + seq![':', ' ']);
    match parse_unsigned(field, 255) {
        None => Err(String::from_str("Invalid mode setting value")),
        Some(number) => ModeSetting::try_from(number as u8),
    }
}

/// Reads the throttle response setting.
fn throttle_response_of(field: &str) -> (decoded: Result<ThrottleResponse, String>)
    ensures
        result_view(decoded) == coded_field(
            field@,
            "Invalid throttle response value"@,
            |code: u8| ThrottleResponse::of_code(code),
        ),
{
    proof {
        reveal_strlit("Invalid throttle response value");
        reveal_strlit("Invalid throttle response value: ");
    }
    assert("Invalid throttle response value: "@ =~= "Invalid throttle response value"@
        + seq![':', ' ']);
    match parse_unsigned(field, 255) {
        None => Err(String::from_str("Invalid throttle response value")),
        Some(number) => ThrottleResponse::try_from(number as u8),
    }
}

/// Reads the taillight setting.
fn taillights_flashing_of(field: &str) -> (decoded: Result<TaillightsFlashing, String>)
    ensures
        result_view(decoded) == coded_field(
            field@,
            "Invalid taillights flashing value"@,
            |code: u8| TaillightsFlashing::of_code(code),
        ),
{
    proof {
        reveal_strlit("Invalid taillights flashing value");
        reveal_strlit("Invalid taillights flashing value: ");
    }
    assert("Invalid taillights flashing value: "@ =~= "Invalid taillights flashing value"@
        + seq![':', ' ']);
    match parse_unsigned(field, 255) {
        None => Err(String::from_str("Invalid taillights flashing value")),
        Some(number) => TaillightsFlashing::try_from(number as u8),
    }
}

/// Reads the state of the lock.
fn scooter_status_of(field: &str) -> (decoded: Result<ScooterStatus, String>)
    ensures
        result_view(decoded) == coded_field(
            field@,
            "Invalid scooter status"@,
            |code: u8| ScooterStatus::of_code(code),
        ),
{
    proof {
        reveal_strlit("Invalid scooter status");
        reveal_strlit("Invalid scooter status: ");
    }
    assert("Invalid scooter status: "@ =~= "Invalid scooter status"@ + seq![':', ' ']);
    match parse_unsigned(field, 255) {
        None => Err(String::from_str("Invalid scooter status")),
        Some(number) => ScooterStatus::try_from(number as u8),
    }
}

/// Reads the state of the charger.
fn charging_status_of(field: &str) -> (decoded: Result<ChargingStatus, String>)
    ensures
        result_view(decoded) == coded_field(
            field@,
            "Invalid charging status"@,
            |code: u8| ChargingStatus::of_code(code),
        ),
{
    proof {
        reveal_strlit("Invalid charging status");
        reveal_strlit("Invalid charging status: ");
    }
    assert("Invalid charging status: "@ =~= "Invalid charging status"@ + seq![':', ' ']);
    match parse_unsigned(field, 255) {
        None => Err(String::from_str("Invalid charging status")),
        Some(number) => ChargingStatus::try_from(number as u8),
    }
}

/// Reads the fix status from the first character of a field.
fn positioning_status_of(field: &str) -> (decoded: Result<PositioningStatus, String>)
    ensures
        result_view(decoded) == lettered_field(
            field@,
            "Invalid positioning status"@,
            |letter: char| PositioningStatus::of_letter(letter),
        ),
{
    proof {
        reveal_strlit("Invalid positioning status");
        reveal_strlit("Invalid positioning status: ");
    }
    if field.unicode_len() == 0 {
        return Err(String::from_str("Invalid positioning status"));
    }
    let decoded = PositioningStatus::try_from(field.get_char(0));
    assert(forall|c: char|
        "Invalid positioning status: "@.push(c) =~= "Invalid positioning status"@
            + seq![':', ' '].push(c));
    decoded
}

/// Reads the positioning mode from the first character of a field.
fn mode_of(field: &str) -> (decoded: Result<Mode, String>)
    ensures
        result_view(decoded) == lettered_field(
            field@,
            "Invalid mode"@,
            |letter: char| Mode::of_letter(letter),
        ),
{
    proof {
        reveal_strlit("Invalid mode");
        reveal_strlit("Invalid mode: ");
    }
    if field.unicode_len() == 0 {
        return Err(String::from_str("Invalid mode"));
    }
    let decoded = Mode::try_from(field.get_char(0));
    assert(forall|c: char| "Invalid mode: "@.push(c) =~= "Invalid mode"@ + seq![':', ' '].push(c));
    decoded
}

/// Decodes the fields of an `R0` frame.
fn decode_r0_fields(parts: &[&str]) -> (decoded: Result<ScooterCommand, String>)
    requires
        parts@.len() >= 5,
    ensures
        decoded_view(decoded) == decode_r0(parts.deep_view()),
{
    if parts.len() < 8 {
        return Err(String::from_str("Invalid R0 response: insufficient parts"));
    }
    let operation = match R0Operation::try_from(parts[4]) {
        Ok(operation) => operation,
        Err(_) => {
            return Err(String::from_str("Invalid operation field"));
        },
    };
    let key = match byte_of(parts[5], "Invalid key field") {
        Ok(key) => key,
        Err(message) => {
            return Err(message);
        },
    };
    Ok(
        ScooterCommand::UnlockOrLockResponse {
            imei: String::from_str(parts[2]),
            operation,
            key,
            user_id: String::from_str(parts[6]),
            timestamp: String::from_str(parts[7]),
        },
    )
}

/// Decodes the fields of an `L0` frame.
fn decode_l0_fields(parts: &[&str]) -> (decoded: Result<ScooterCommand, String>)
    requires
        parts@.len() >= 5,
    ensures
        decoded_view(decoded) == decode_l0(parts.deep_view()),
{
    if parts.len() < 7 {
        return Err(String::from_str("Invalid L0 response: insufficient parts"));
    }
    let status = match status_of(parts[4]) {
        Ok(status) => status,
        Err(message) => {
            return Err(message);
        },
    };
    Ok(
        ScooterCommand::UnlockResponse {
            imei: String::from_str(parts[2]),
            status,
            user_id: String::from_str(parts[5]),
            timestamp: String::from_str(parts[6]),
        },
    )
}

/// Decodes the fields of an `L1` frame.
fn decode_l1_fields(parts: &[&str]) -> (decoded: Result<ScooterCommand, String>)
    requires
        parts@.len() >= 5,
    ensures
        decoded_view(decoded) == decode_l1(parts.deep_view()),
{
    if parts.len() < 8 {
        return Err(String::from_str("Invalid L1 response: insufficient parts"));
    }
    let status = match status_of(parts[4]) {
        Ok(status) => status,
        Err(message) => {
            return Err(message);
        },
    };
    let cycling_time = match parse_unsigned(parts[7], u32::MAX) {
        Some(cycling_time) => cycling_time,
        None => {
            return Err(String::from_str("Invalid cycling time field"));
        },
    };
    Ok(
        ScooterCommand::LockResponse {
            imei: String::from_str(parts[2]),
            status,
            user_id: String::from_str(parts[5]),
            timestamp: String::from_str(parts[6]),
            cycling_time,
        },
    )
}

/// Decodes the fields of a `D0` frame.
fn decode_d0_fields(parts: &[&str]) -> (decoded: Result<ScooterCommand, String>)
    requires
        parts@.len() >= 5,
    ensures
        decoded_view(decoded) == decode_d0(parts.deep_view()),
{
    if parts.len() < 17 {
        return Err(String::from_str("Invalid D0 response: insufficient parts"));
    }
    let identifier = match positioning_identifier_of(parts[4]) {
        Ok(identifier) => identifier,
        Err(message) => {
            return Err(message);
        },
    };
    let positioning_status = match positioning_status_of(parts[6]) {
        Ok(positioning_status) => positioning_status,
        Err(message) => {
            return Err(message);
        },
    };
    let latitude = match parse_coordinates(parts[7], parts[8]) {
        Ok(latitude) => latitude,
        Err(message) => {
            return Err(message);
        },
    };
    let longitude = match parse_coordinates(parts[9], parts[10]) {
        Ok(longitude) => longitude,
        Err(message) => {
            return Err(message);
        },
    };
    let satellites_number = match byte_of(parts[11], "Invalid satellites number") {
        Ok(satellites_number) => satellites_number,
        Err(message) => {
            return Err(message);
        },
    };
    let positioning_accuracy = match number_of(parts[12], "Invalid positioning accuracy") {
        Ok(positioning_accuracy) => positioning_accuracy,
        Err(message) => {
            return Err(message);
        },
    };
    let utc_time = before_point_of(parts[5]);
    let utc_date = before_point_of(parts[13]);
    let utc_datetime = match parse_datetime(utc_time, utc_date) {
        Ok(utc_datetime) => utc_datetime,
        Err(message) => {
            return Err(message);
        },
    };
    let altitude = match number_of(parts[14], "Invalid altitude") {
        Ok(altitude) => altitude,
        Err(message) => {
            return Err(message);
        },
    };
    proof {
        reveal_strlit("M");
    }
    assert("M"@ =~= seq!['M']);
    if !str_eq(parts[15], "M") {
        return Err(refusal_of_text("Invalid height unit: ", parts[15]));
    }
    let mode = match mode_of(parts[16]) {
        Ok(mode) => mode,
        Err(message) => {
            return Err(message);
        },
    };
    let latitude_hemisphere = match hemisphere_of(parts[8]) {
        Ok(hemisphere) => hemisphere,
        Err(message) => {
            return Err(message);
        },
    };
    let longitude_hemisphere = match hemisphere_of(parts[10]) {
        Ok(hemisphere) => hemisphere,
        Err(message) => {
            return Err(message);
        },
    };
    Ok(
        ScooterCommand::PositioningResponse(
            PositioningResponse {
                imei: String::from_str(parts[2]),
                identifier,
                utc_datetime,
                positioning_status,
                latitude,
                latitude_hemisphere,
                longitude,
                longitude_hemisphere,
                satellites_number,
                positioning_accuracy,
                altitude,
                mode,
            },
        ),
    )
}

/// Decodes the fields of a `W0` frame.
fn decode_w0_fields(parts: &[&str]) -> (decoded: Result<ScooterCommand, String>)
    requires
        parts@.len() >= 5,
    ensures
        decoded_view(decoded) == decode_w0(parts.deep_view()),
{
    match alarm_type_of(parts[4]) {
        Ok(alarm_type) => Ok(
            ScooterCommand::AlarmCommand { imei: String::from_str(parts[2]), alarm_type },
        ),
        Err(message) => Err(message),
    }
}

/// Decodes the fields of a `V0` frame.
fn decode_v0_fields(parts: &[&str]) -> (decoded: Result<ScooterCommand, String>)
    requires
        parts@.len() >= 5,
    ensures
        decoded_view(decoded) == decode_v0(parts.deep_view()),
{
    let number = match parse_unsigned(parts[4], 255) {
        Some(number) => number as u8,
        None => {
            return Err(String::from_str("Invalid play content"));
        },
    };
    match BeepPlayContent::try_from(number) {
        Ok(play_content) => Ok(
            ScooterCommand::BeepPlaybackCommand { imei: String::from_str(parts[2]), play_content },
        ),
        Err(message) => Err(message),
    }
}

/// Decodes the fields of an `S7` frame.
fn decode_s7_fields(parts: &[&str]) -> (decoded: Result<ScooterCommand, String>)
    requires
        parts@.len() >= 5,
    ensures
        decoded_view(decoded) == decode_s7(parts.deep_view()),
{
    if parts.len() < 8 {
        return Err(String::from_str("Invalid S7 response: insufficient parts"));
    }
    let headlight_switch = match headlight_switch_of(parts[4]) {
        Ok(headlight_switch) => headlight_switch,
        Err(message) => {
            return Err(message);
        },
    };
    let mode_setting = match mode_setting_of(parts[5]) {
        Ok(mode_setting) => mode_setting,
        Err(message) => {
            return Err(message);
        },
    };
    let throttle_response = match throttle_response_of(parts[6]) {
        Ok(throttle_response) => throttle_response,
        Err(message) => {
            return Err(message);
        },
    };
    let taillights_flashing = match taillights_flashing_of(parts[7]) {
        Ok(taillights_flashing) => taillights_flashing,
        Err(message) => {
            return Err(message);
        },
    };
    Ok(
        ScooterCommand::ScooterSetting {
            imei: String::from_str(parts[2]),
            headlight_switch,
            mode_setting,
            throttle_response,
            taillights_flashing,
        },
    )
}

/// Decodes the fields of a `Q0` frame.
fn decode_q0_fields(parts: &[&str]) -> (decoded: Result<ScooterCommand, String>)
    requires
        parts@.len() >= 5,
    ensures
        decoded_view(decoded) == decode_q0(parts.deep_view()),
{
    if parts.len() != 7 {
        return Err(String::from_str("Invalid Q0 response: insufficient parts"));
    }
    let voltage = match number_of(parts[4], "Invalid voltage") {
        Ok(voltage) => voltage,
        Err(message) => {
            return Err(message);
        },
    };
    let power = match byte_of(parts[5], "Invalid power") {
        Ok(power) => power,
        Err(message) => {
            return Err(message);
        },
    };
    let signal = match byte_of(parts[6], "Invalid signal") {
        Ok(signal) => signal,
        Err(message) => {
            return Err(message);
        },
    };
    Ok(ScooterCommand::SigningIn { imei: String::from_str(parts[2]), voltage, power, signal })
}

/// Decodes the fields of an `H0` frame.
fn decode_h0_fields(parts: &[&str]) -> (decoded: Result<ScooterCommand, String>)
    requires
        parts@.len() >= 5,
    ensures
        decoded_view(decoded) == decode_h0(parts.deep_view()),
{
    if parts.len() != 9 {
        return Err(String::from_str("Invalid H0 response: insufficient parts"));
    }
    let status = match scooter_status_of(parts[4]) {
        Ok(status) => status,
        Err(message) => {
            return Err(message);
        },
    };
    let voltage = match number_of(parts[5], "Invalid voltage") {
        Ok(voltage) => voltage,
        Err(message) => {
            return Err(message);
        },
    };
    let signal = match byte_of(parts[6], "Invalid signal") {
        Ok(signal) => signal,
        Err(message) => {
            return Err(message);
        },
    };
    let power = match byte_of(parts[7], "Invalid power") {
        Ok(power) => power,
        Err(message) => {
            return Err(message);
        },
    };
    let charging = match charging_status_of(parts[8]) {
        Ok(charging) => charging,
        Err(message) => {
            return Err(message);
        },
    };
    Ok(
        ScooterCommand::HeartBeat {
            imei: String::from_str(parts[2]),
            status,
            voltage,
            signal,
            power,
            charging,
        },
    )
}

impl<'a, 'b> TryFrom<&'a [&'b str]> for ScooterCommand {
    type Error = String;

    /// Decodes the fields of one frame. Decoding is all or nothing: the
    /// first field that is refused refuses the frame.
    fn try_from(parts: &'a [&'b str]) -> (decoded: Result<Self, String>)
        ensures
            decoded_view(decoded) == decode_fields(parts.deep_view()),
    {
        if parts.len() < 5 {
            return Err(String::from_str("Invalid command format: insufficient parts"));
        }
        let command = parts[3];
        if str_eq(command, "R0") {
            decode_r0_fields(parts)
        } else if str_eq(command, "L0") {
            decode_l0_fields(parts)
        } else if str_eq(command, "L1") {
            decode_l1_fields(parts)
        } else if str_eq(command, "D0") {
            decode_d0_fields(parts)
        } else if str_eq(command, "W0") {
            decode_w0_fields(parts)
        } else if str_eq(command, "V0") {
            decode_v0_fields(parts)
        } else if str_eq(command, "S7") {
            decode_s7_fields(parts)
        } else if str_eq(command, "Q0") {
            decode_q0_fields(parts)
        } else if str_eq(command, "H0") {
            decode_h0_fields(parts)
        } else {
            Err(refusal_of_text("Unknown command: ", command))
        }
    }
}

/// `try_from` states its contract itself: an owned message cannot be named
/// by a spec function, so the generic law of `TryFrom` is not claimed.
impl<'a, 'b> TryFromSpecImpl<&'a [&'b str]> for ScooterCommand {
    open spec fn obeys_try_from_spec() -> bool {
        false
    }

    open spec fn try_from_spec(parts: &'a [&'b str]) -> Result<Self, String> {
        arbitrary()
    }
}

} // verus!
