//! Field decoders of the device protocol: times, dates, coordinates and
//! decimal numbers, and the entry point that turns a raw frame into a
//! [`ScooterCommand`].

use crate::commands::scooter_command::CommandView;
use crate::commands::scooter_command::decode_fields;
use crate::commands::scooter_command::decoded_view;
use crate::commands::scooter_command::ScooterCommand;
use crate::config::vendor;
use crate::config::vendor_tag;
use crate::decimal::all_digits;
use crate::decimal::append_decimal;
use crate::commands::scooter_setting_command::HeadlightSwitch;
use crate::commands::scooter_setting_command::ModeSetting;
use crate::commands::scooter_setting_command::TaillightsFlashing;
use crate::commands::scooter_setting_command::ThrottleResponse;
use crate::decimal::decimal_text;
use crate::decimal::is_digit;
use crate::decimal::lemma_decimal_text_reads_back;
use crate::server::command_enums::SpeedMode;
use crate::server::command_enums::Turn;
use crate::server::commands::s7_content;
use crate::decimal::digits_value;
use crate::decimal::lemma_digits_value_bound;
use crate::decimal::parse_decimal;
use crate::decimal::parse_unsigned;
use crate::decimal::pow10;
use crate::decimal::read_digits;
use crate::server::commands::device_header;
use crate::server::commands::frame_fields;
use crate::server::commands::frame_text;
use crate::server::commands::lemma_frame_ends_with_terminator;
use crate::server::commands::terminator;
use crate::text::all_free_of;
use crate::text::chars_of;
use crate::text::ends_with;
use crate::text::free_of;
use crate::text::join_with;
use crate::text::lemma_join_ends_like_last;
use crate::text::lemma_split_join;
use crate::text::lemma_split_nonempty;
use crate::text::lemma_strip_one;
use crate::text::refusal_of_text;
use crate::text::result_view;
use crate::text::split;
use crate::text::split_on;
use crate::text::str_ends_with;
use crate::text::str_eq;
use crate::text::strip_trailing;
use crate::text::trim;
use crate::text::trim_end_matches;
use crate::text::trimmed;
use vstd::prelude::*;
use vstd::string::StringExecFns;
use vstd::string::StrSliceExecFns;

verus! {

/// `chrono::NaiveTime`, handed through unopened.
#[verifier::external_type_specification]
#[verifier::external_body]
pub struct ExNaiveTime(chrono::NaiveTime);

/// `chrono::NaiveDate`, handed through unopened.
#[verifier::external_type_specification]
#[verifier::external_body]
pub struct ExNaiveDate(chrono::NaiveDate);

/// A time of day. It [`is_valid`](ClockTime::is_valid) when it names a
/// second of an ordinary day.
#[derive(Debug, Clone, Copy, PartialEq, Eq, Structural)]
pub struct ClockTime {
    pub hour: u8,
    pub minute: u8,
    pub second: u8,
}

/// A day of the calendar. It [`is_valid`](CalendarDate::is_valid) when the
/// Gregorian calendar has that day.
#[derive(Debug, Clone, Copy, PartialEq, Eq, Structural)]
pub struct CalendarDate {
    pub year: u16,
    pub month: u8,
    pub day: u8,
}

/// A moment in UTC, to the second.
#[derive(Debug, Clone, Copy, PartialEq, Eq, Structural)]
pub struct UtcDateTime {
    pub date: CalendarDate,
    pub time: ClockTime,
}

/// A WGS84 latitude or longitude, counted in ten-thousandths of an arc
/// minute, the resolution of the wire format. North and east are positive.
#[derive(Debug, Clone, Copy, PartialEq, Eq, Structural)]
pub struct Coordinate {
    pub units: i32,
}

/// A decimal number as it stands in a field, kept exactly: `whole` before
/// the point and, behind it, `fraction` written with `fraction_digits`
/// digits. `25.30` is 25, 30 and 2; `7` is 7, 0 and 0.
#[derive(Debug, Clone, Copy, PartialEq, Eq, Structural)]
pub struct Decimal {
    pub negative: bool,
    pub whole: u32,
    pub fraction: u32,
    pub fraction_digits: u8,
}

/// A frame taken apart without looking into its content: whose it is, which
/// command it carries, and the content fields as they came.
#[derive(Debug)]
pub struct ParsedCommand {
    pub imei: String,
    pub command: String,
    pub additional_fields: Vec<String>,
}

/// A frame taken apart, with its text as sequences of characters.
pub struct FrameReading {
    pub imei: Seq<char>,
    pub command: Seq<char>,
    pub additional_fields: Seq<Seq<char>>,
}

impl View for ParsedCommand {
    type V = FrameReading;

    open spec fn view(&self) -> FrameReading {
        FrameReading {
            imei: self.imei@,
            command: self.command@,
            additional_fields: self.additional_fields.deep_view(),
        }
    }
}

/// Ten-thousandths of an arc minute in one degree.
pub const UNITS_PER_DEGREE: i32 = 600_000;

/// `true` when `year` has a 29th of February.
pub open spec fn is_leap_year(year: int) -> bool {
    year % 4 == 0 && (year % 100 != 0 || year % 400 == 0)
}

/// The number of days of `month` in `year`, and 0 where there is no such month.
pub open spec fn days_in_month(year: int, month: int) -> int {
    if month == 2 {
        if is_leap_year(year) {
            29
        } else {
            28
        }
    } else if month == 4 || month == 6 || month == 9 || month == 11 {
        30
    } else if 1 <= month <= 12 {
        31
    } else {
        0
    }
}

/// `true` when the Gregorian calendar has the day `day` of `month` in `year`.
pub open spec fn is_calendar_date(year: int, month: int, day: int) -> bool {
    1 <= day <= days_in_month(year, month)
}

/// `true` when the three numbers name a second of a day.
pub open spec fn is_clock_time(hour: int, minute: int, second: int) -> bool {
    0 <= hour < 24 && 0 <= minute < 60 && 0 <= second < 60
}

impl ClockTime {
    /// `true` when the time names a second of a day.
    pub open spec fn is_valid(self) -> bool {
        is_clock_time(self.hour as int, self.minute as int, self.second as int)
    }
}

impl CalendarDate {
    /// `true` when the Gregorian calendar has the day.
    pub open spec fn is_valid(self) -> bool {
        is_calendar_date(self.year as int, self.month as int, self.day as int)
    }
}

impl Coordinate {
    /// `true` for the coordinates that the wire format can name: fewer than
    /// a thousand degrees to either side.
    pub open spec fn is_on_wire(self) -> bool {
        -600_000_000 < self.units < 600_000_000
    }
}

impl Decimal {
    /// `true` when the fraction fits the number of its digits, which is
    /// nine at most.
    pub open spec fn is_valid(self) -> bool {
        self.fraction_digits <= 9 && self.fraction < pow10(self.fraction_digits as nat)
    }
}

/// `n` in decimal, with a leading zero where it has one digit.
pub open spec fn two_digit_text(n: nat) -> Seq<char> {
    if n < 10 {
        seq!['0'] + decimal_text(n)
    } else {
        decimal_text(n)
    }
}

/// `n` in decimal, with leading zeros where it has fewer than four digits.
pub open spec fn four_digit_text(n: nat) -> Seq<char> {
    if n < 10 {
        seq!['0', '0', '0'] + decimal_text(n)
    } else if n < 100 {
        seq!['0', '0'] + decimal_text(n)
    } else if n < 1000 {
        seq!['0'] + decimal_text(n)
    } else {
        decimal_text(n)
    }
}

impl ClockTime {
    /// The time as `hh:mm:ss`.
    pub open spec fn text(self) -> Seq<char> {
        two_digit_text(self.hour as nat) + seq![':'] + two_digit_text(self.minute as nat) + seq![
            ':',
        ] + two_digit_text(self.second as nat)
    }
}

impl CalendarDate {
    /// The date as `yyyy-mm-dd`.
    pub open spec fn text(self) -> Seq<char> {
        four_digit_text(self.year as nat) + seq!['-'] + two_digit_text(self.month as nat) + seq![
            '-',
        ] + two_digit_text(self.day as nat)
    }
}

impl UtcDateTime {
    /// The moment as `yyyy-mm-dd hh:mm:ss UTC`.
    pub open spec fn text(self) -> Seq<char> {
        self.date.text() + seq![' '] + self.time.text() + seq![' ', 'U', 'T', 'C']
    }
}

/// `true` when `s` has the shape `ddmm.mmmm` or `dddmm.mmmm`: four or five
/// digits, a point, four digits.
pub open spec fn is_coordinate_text(s: Seq<char>) -> bool {
    &&& s.len() == 9 || s.len() == 10
    &&& all_digits(s.take(s.len() - 5))
    &&& s[s.len() - 5] == '.'
    &&& all_digits(s.skip(s.len() - 4))
}

/// The whole degrees that a coordinate text names: the digits before the
/// last two in front of the point.
pub open spec fn coordinate_degrees(s: Seq<char>) -> int {
    digits_value(s.take(s.len() - 5)) as int / 100
}

/// The minutes that a coordinate text names, in ten-thousandths.
pub open spec fn coordinate_minutes(s: Seq<char>) -> int {
    (digits_value(s.take(s.len() - 5)) as int % 100) * 10_000 + digits_value(
        s.skip(s.len() - 4),
    )
}

/// Whether a hemisphere letter turns a coordinate negative: south and west
/// do, north and east do not, and any other text is no hemisphere. White
/// space around the letter is ignored.
pub open spec fn hemisphere_negates(hemisphere: Seq<char>) -> Option<bool> {
    let letter = trimmed(hemisphere);
    if letter == seq!['N'] || letter == seq!['E'] {
        Some(false)
    } else if letter == seq!['S'] || letter == seq!['W'] {
        Some(true)
    } else {
        None
    }
}

/// The size of the coordinate that a wire value names, in ten-thousandths of
/// an arc minute: 600 000 for each degree, plus the minutes.
pub open spec fn coordinate_magnitude(value: Seq<char>) -> int {
    coordinate_degrees(value) * 600_000 + coordinate_minutes(value)
}

/// The WGS84 coordinate that a wire value and a hemisphere letter name:
/// the degrees plus a sixtieth of the minutes, negated in the south and the
/// west. The shape of the value is looked at first, then the minutes, which
/// must be below 60, then the hemisphere.
pub open spec fn coordinate_of_text(value: Seq<char>, hemisphere: Seq<char>) -> Result<
    Coordinate,
    Seq<char>,
> {
    if !is_coordinate_text(value) {
        Err("Invalid coordinate format. Expected ddmm.mmmm or dddmm.mmmm."@)
    } else if coordinate_minutes(value) >= 600_000 {
        Err("Minutes should be in the range 0 to 59.999"@)
    } else {
        match hemisphere_negates(hemisphere) {
            Some(true) => Ok(Coordinate { units: (-coordinate_magnitude(value)) as i32 }),
            Some(false) => Ok(Coordinate { units: coordinate_magnitude(value) as i32 }),
            None => Err("Invalid hemisphere. Expected one of: N, S, E, W."@),
        }
    }
}

/// The coordinate in millionths of a degree, rounded towards zero.
pub open spec fn microdegrees_of(units: int) -> int {
    if units >= 0 {
        5 * units / 3
    } else {
        -(5 * (-units) / 3)
    }
}

/// What a decimal field reads as: an optional sign, digits and, where a
/// point follows, at most nine more digits behind it. `None` for any other
/// text and where the part before the point does not fit `u32`.
pub open spec fn decimal_of_text(s: Seq<char>) -> Option<Decimal> {
    let negative = s.len() > 0 && s[0] == '-';
    let signed = s.len() > 0 && (s[0] == '-' || s[0] == '+');
    let body = if signed {
        s.skip(1)
    } else {
        s
    };
    let parts = split_on(body, '.');
    let whole = parts[0];
    if parts.len() > 2 || whole.len() == 0 || !all_digits(whole) || digits_value(whole)
        > u32::MAX {
        None
    } else if parts.len() == 1 {
        Some(
            Decimal {
                negative,
                whole: digits_value(whole) as u32,
                fraction: 0,
                fraction_digits: 0,
            },
        )
    } else if parts[1].len() == 0 || parts[1].len() > 9 || !all_digits(parts[1]) {
        None
    } else {
        Some(
            Decimal {
                negative,
                whole: digits_value(whole) as u32,
                fraction: digits_value(parts[1]) as u32,
                fraction_digits: parts[1].len() as u8,
            },
        )
    }
}

/// The fields of a raw frame: what is left when every trailing terminator
/// is taken off, split at the commas.
pub open spec fn frame_parts(raw: Seq<char>) -> Seq<Seq<char>> {
    split_on(strip_trailing(raw, terminator()), ',')
}

/// Why the first two fields of a frame are refused, if they are: the first
/// must be the device header and the second the vendor tag. The refusal
/// shows the offending field.
pub open spec fn header_refusal(parts: Seq<Seq<char>>) -> Option<Seq<char>> {
    if parts[0] != device_header() {
        Some("Invalid header: "@ + parts[0])
    } else if parts.len() < 2 {
        Some("Unsupported vendor code: "@)
    } else if parts[1] != vendor_tag() {
        Some("Unsupported vendor code: "@ + parts[1])
    } else {
        None
    }
}

/// Why a raw frame is refused before its content is looked at, if it is.
/// A frame must end with the terminator; one that does not is refused
/// whatever it holds. Then its header and vendor tag must be right.
pub open spec fn frame_refusal(raw: Seq<char>) -> Option<Seq<char>> {
    if !ends_with(raw, terminator()) {
        Some("Invalid frame: missing terminator"@)
    } else {
        header_refusal(frame_parts(raw))
    }
}

/// What a raw frame decodes to.
pub open spec fn decode_frame(raw: Seq<char>) -> Result<CommandView, Seq<char>> {
    match frame_refusal(raw) {
        Some(message) => Err(message),
        None => decode_fields(frame_parts(raw)),
    }
}

/// What a raw frame reads as when its content is left as it is. Behind the
/// header and the vendor tag it needs an IMEI and a command code.
pub open spec fn read_frame(raw: Seq<char>) -> Result<FrameReading, Seq<char>> {
    let parts = frame_parts(raw);
    match frame_refusal(raw) {
        Some(message) => Err(message),
        None => if parts.len() < 4 {
            Err("Invalid command format: insufficient parts"@)
        } else {
            Ok(FrameReading { imei: parts[2], command: parts[3], additional_fields: parts.skip(4) })
        },
    }
}

/// `chrono::NaiveTime::from_hms_opt` gives a time exactly when the hour is
/// below 24 and the minute and the second are below 60.
#[verifier::external_body]
fn naive_time(hour: u32, minute: u32, second: u32) -> (time: Option<chrono::NaiveTime>)
    ensures
        time is Some <==> is_clock_time(hour as int, minute as int, second as int),
{
    chrono::NaiveTime::from_hms_opt(hour, minute, second)
}

/// `chrono::NaiveDate::from_ymd_opt` gives a date exactly when the Gregorian
/// calendar has that day. Stated for the years 1 to 9999, all well inside
/// the range that `NaiveDate` can hold.
#[verifier::external_body]
fn naive_date(year: i32, month: u32, day: u32) -> (date: Option<chrono::NaiveDate>)
    requires
        1 <= year <= 9999,
    ensures
        date is Some <==> is_calendar_date(year as int, month as int, day as int),
{
    chrono::NaiveDate::from_ymd_opt(year, month, day)
}

/// What a six-character `hhmmss` field reads as. Each pair is read as an
/// integer field of its own; the three numbers must name a second of a day.
pub open spec fn time_of_text(s: Seq<char>) -> Result<ClockTime, Seq<char>> {
    if s.len() != 6 {
        Err("Invalid time format. Expected hhmmss (6 characters)."@)
    } else {
        match parse_decimal(s.subrange(0, 2), u32::MAX as int) {
            None => Err("Invalid hours. Ensure it's a number."@),
            Some(hour) => match parse_decimal(s.subrange(2, 4), u32::MAX as int) {
                None => Err("Invalid minutes. Ensure it's a number."@),
                Some(minute) => match parse_decimal(s.subrange(4, 6), u32::MAX as int) {
                    None => Err("Invalid seconds. Ensure it's a number."@),
                    Some(second) => if is_clock_time(hour, minute, second) {
                        Ok(
                            ClockTime {
                                hour: hour as u8,
                                minute: minute as u8,
                                second: second as u8,
                            },
                        )
                    } else {
                        Err("Invalid time. Hours, minutes, or seconds out of range."@)
                    },
                },
            },
        }
    }
}

/// What a six-character `ddmmyy` field reads as. The year counts from 2000.
pub open spec fn date_of_text(s: Seq<char>) -> Result<CalendarDate, Seq<char>> {
    if s.len() != 6 {
        Err("Invalid date format. Expected ddmmyy (6 characters)."@)
    } else {
        match parse_decimal(s.subrange(0, 2), u32::MAX as int) {
            None => Err("Invalid day. Ensure it's a number."@),
            Some(day) => match parse_decimal(s.subrange(2, 4), u32::MAX as int) {
                None => Err("Invalid month. Ensure it's a number."@),
                Some(month) => match parse_decimal(s.subrange(4, 6), u32::MAX as int) {
                    None => Err("Invalid year. Ensure it's a number."@),
                    Some(year) => if is_calendar_date(2000 + year, month, day) {
                        Ok(
                            CalendarDate {
                                year: (2000 + year) as u16,
                                month: month as u8,
                                day: day as u8,
                            },
                        )
                    } else {
                        Err("Invalid date. Day, month, or year out of range."@)
                    },
                },
            },
        }
    }
}

/// What the two fields of a timestamp read as. The time is looked at first.
pub open spec fn datetime_of_text(hhmmss: Seq<char>, ddmmyy: Seq<char>) -> Result<
    UtcDateTime,
    Seq<char>,
> {
    match time_of_text(hhmmss) {
        Err(message) => Err(message),
        Ok(time) => match date_of_text(ddmmyy) {
            Err(message) => Err(message),
            Ok(date) => Ok(UtcDateTime { date, time }),
        },
    }
}

/// A field of two characters that holds a number holds one below 100.
pub proof fn lemma_pair_is_small(s: Seq<char>, max: int)
    requires
        s.len() == 2,
    ensures
        parse_decimal(s, max) matches Some(v) ==> 0 <= v <= 99,
{
    reveal_with_fuel(digits_value, 3);
    if parse_decimal(s, max) is Some {
        if s[0] == '+' {
            let digits = s.skip(1);
            assert(is_digit(digits[0]));
            assert(digits.drop_last() =~= Seq::<char>::empty());
        } else {
            assert(is_digit(s[0]));
            assert(is_digit(s[1]));
            assert(s.drop_last().drop_last() =~= Seq::<char>::empty());
        }
    }
}

/// A frame that does not end with the terminator is refused, by the decoder
/// and by the reader alike, whatever else it holds.
pub proof fn lemma_unterminated_frame_is_refused(raw: Seq<char>)
    requires
        !ends_with(raw, terminator()),
    ensures
        decode_frame(raw) == Err::<CommandView, Seq<char>>("Invalid frame: missing terminator"@),
        read_frame(raw) == Err::<FrameReading, Seq<char>>("Invalid frame: missing terminator"@),
{
}

/// `true` when the IMEI, the command code and the content fields can travel
/// in a frame and be told apart again: none holds a comma, and the last of
/// them does not end with the terminator.
pub open spec fn is_wire_tuple(
    imei: Seq<char>,
    command: Seq<char>,
    content: Seq<Seq<char>>,
) -> bool {
    &&& free_of(imei, ',')
    &&& free_of(command, ',')
    &&& all_free_of(content, ',')
    &&& !ends_with(
        if content.len() > 0 {
            content.last()
        } else {
            command
        },
        terminator(),
    )
}

/// Taking a frame apart gives back the fields it was written from: the
/// header, the vendor tag, and the tuple of IMEI, command code and content.
pub proof fn lemma_frame_round_trip(
    header: Seq<char>,
    imei: Seq<char>,
    command: Seq<char>,
    content: Seq<Seq<char>>,
)
    requires
        free_of(header, ','),
        is_wire_tuple(imei, command, content),
    ensures
        frame_parts(frame_text(header, imei, command, content)) == frame_fields(
            header,
            imei,
            command,
            content,
        ),
{
    let fields = frame_fields(header, imei, command, content);
    assert(all_free_of(fields, ',')) by {
        assert forall|k: int| 0 <= k < fields.len() implies free_of(#[trigger] fields[k], ',') by {
            if k >= 4 {
                assert(fields[k] == content[k - 4]);
            }
        }
    }
    assert(fields.last() == if content.len() > 0 {
        content.last()
    } else {
        command
    });
    lemma_join_ends_like_last(fields, ',', terminator());
    lemma_strip_one(join_with(fields, seq![',']), terminator());
    lemma_split_join(fields, ',');
}

/// Decoding is the inverse of encoding: a frame written from a tuple of
/// IMEI, command code and content under the device header reads back as
/// that tuple.
pub proof fn lemma_read_frame_round_trip(
    imei: Seq<char>,
    command: Seq<char>,
    content: Seq<Seq<char>>,
)
    requires
        is_wire_tuple(imei, command, content),
    ensures
        read_frame(frame_text(device_header(), imei, command, content)) == Ok::<
            FrameReading,
            Seq<char>,
        >(FrameReading { imei, command, additional_fields: content }),
{
    lemma_frame_round_trip(device_header(), imei, command, content);
    lemma_frame_ends_with_terminator(device_header(), imei, command, content);
    let fields = frame_fields(device_header(), imei, command, content);
    assert(fields.skip(4) =~= content);
}

/// The echo of a settings command decodes to the settings that were sent:
/// an `S7` frame written from the four codes of a command reads back, under
/// the device header, as those four settings for the same scooter.
pub proof fn lemma_setting_echo_decodes(
    imei: Seq<char>,
    headlight: Turn,
    speed_mode: SpeedMode,
    throttle: Turn,
    taillights_flashing: Turn,
)
    requires
        free_of(imei, ','),
    ensures
        decode_frame(
            frame_text(
                device_header(),
                imei,
                "S7"@,
                s7_content(
                    headlight.code(),
                    speed_mode.code(),
                    throttle.code(),
                    taillights_flashing.code(),
                ),
            ),
        ) == Ok::<CommandView, Seq<char>>(
            CommandView::ScooterSetting {
                imei,
                headlight_switch: HeadlightSwitch::of_code(headlight.code())->0,
                mode_setting: ModeSetting::of_code(speed_mode.code())->0,
                throttle_response: ThrottleResponse::of_code(throttle.code())->0,
                taillights_flashing: TaillightsFlashing::of_code(taillights_flashing.code())->0,
            },
        ),
{
    let content = s7_content(
        headlight.code(),
        speed_mode.code(),
        throttle.code(),
        taillights_flashing.code(),
    );
    reveal_strlit("S7");
    reveal_strlit("R0");
    reveal_strlit("L0");
    reveal_strlit("L1");
    reveal_strlit("D0");
    reveal_strlit("W0");
    reveal_strlit("V0");
    lemma_decimal_text_reads_back(headlight.code() as nat);
    lemma_decimal_text_reads_back(speed_mode.code() as nat);
    lemma_decimal_text_reads_back(throttle.code() as nat);
    lemma_decimal_text_reads_back(taillights_flashing.code() as nat);
    assert(is_wire_tuple(imei, "S7"@, content)) by {
        assert forall|k: int| 0 <= k < content.len() implies free_of(
            #[trigger] content[k],
            ',',
        ) by {
            assert(content[k].len() == 1);
        }
        assert(content.last().len() == 1);
    }
    lemma_frame_round_trip(device_header(), imei, "S7"@, content);
    lemma_frame_ends_with_terminator(device_header(), imei, "S7"@, content);
    let parts = frame_fields(device_header(), imei, "S7"@, content);
    assert(parts.len() == 8);
    assert(parts[3] == "S7"@);
    assert("S7"@[0] == 'S' && "R0"@[0] == 'R' && "L0"@[0] == 'L' && "L1"@[0] == 'L' && "D0"@[0]
        == 'D' && "W0"@[0] == 'W' && "V0"@[0] == 'V');
    assert(parts[4] == content[0] && parts[5] == content[1] && parts[6] == content[2] && parts[7]
        == content[3]);
}

/// The largest coordinate that the wire format can name stays below
/// 600 million units, a thousand degrees.
pub proof fn lemma_coordinate_magnitude_bound(value: Seq<char>)
    requires
        is_coordinate_text(value),
        coordinate_minutes(value) < 600_000,
    ensures
        0 <= coordinate_magnitude(value) < 600_000_000,
{
    reveal_with_fuel(pow10, 6);
    lemma_digits_value_bound(value.take(value.len() - 5));
    lemma_digits_value_bound(value.skip(value.len() - 4));
}

/// Every coordinate of the shape `ddmm.mmmm` or `dddmm.mmmm` with minutes
/// below 60 converts under each of the four hemisphere letters, and to
/// exactly the degrees plus a sixtieth of the minutes, negated in the south
/// and the west. In millionths of a degree the result is off by less than one.
pub proof fn lemma_coordinate_conversion(value: Seq<char>, hemisphere: Seq<char>)
    requires
        is_coordinate_text(value),
        coordinate_minutes(value) < 600_000,
        hemisphere_negates(hemisphere) is Some,
    ensures
        coordinate_of_text(value, hemisphere) matches Ok(coordinate) && ({
            let exact = if hemisphere_negates(hemisphere) == Some(true) {
                -(600_000 * coordinate_degrees(value) + coordinate_minutes(value))
            } else {
                600_000 * coordinate_degrees(value) + coordinate_minutes(value)
            };
            &&& coordinate.units == exact
            &&& -3 < 3 * microdegrees_of(coordinate.units as int) - 5 * exact < 3
        }),
{
    lemma_coordinate_magnitude_bound(value);
}

/// Reads a time of day from `hhmmss`.
pub fn parse_time(hhmmss: &str) -> (parsed: Result<ClockTime, String>)
    ensures
        result_view(parsed) == time_of_text(hhmmss@),
        parsed matches Ok(time) ==> time.is_valid(),
{
    if hhmmss.unicode_len() != 6 {
        return Err(String::from_str("Invalid time format. Expected hhmmss (6 characters)."));
    }
    let hour = match parse_unsigned(hhmmss.substring_char(0, 2), u32::MAX) {
        Some(hour) => hour,
        None => {
            return Err(String::from_str("Invalid hours. Ensure it's a number."));
        },
    };
    let minute = match parse_unsigned(hhmmss.substring_char(2, 4), u32::MAX) {
        Some(minute) => minute,
        None => {
            return Err(String::from_str("Invalid minutes. Ensure it's a number."));
        },
    };
    let second = match parse_unsigned(hhmmss.substring_char(4, 6), u32::MAX) {
        Some(second) => second,
        None => {
            return Err(String::from_str("Invalid seconds. Ensure it's a number."));
        },
    };
    match naive_time(hour, minute, second) {
        Some(_) => Ok(ClockTime { hour: hour as u8, minute: minute as u8, second: second as u8 }),
        None => Err(String::from_str("Invalid time. Hours, minutes, or seconds out of range.")),
    }
}

/// Reads a day of the calendar from `ddmmyy`.
pub fn parse_date(ddmmyy: &str) -> (parsed: Result<CalendarDate, String>)
    ensures
        result_view(parsed) == date_of_text(ddmmyy@),
        parsed matches Ok(date) ==> date.is_valid(),
{
    if ddmmyy.unicode_len() != 6 {
        return Err(String::from_str("Invalid date format. Expected ddmmyy (6 characters)."));
    }
    let day = match parse_unsigned(ddmmyy.substring_char(0, 2), u32::MAX) {
        Some(day) => day,
        None => {
            return Err(String::from_str("Invalid day. Ensure it's a number."));
        },
    };
    let month = match parse_unsigned(ddmmyy.substring_char(2, 4), u32::MAX) {
        Some(month) => month,
        None => {
            return Err(String::from_str("Invalid month. Ensure it's a number."));
        },
    };
    let since_2000 = match parse_unsigned(ddmmyy.substring_char(4, 6), u32::MAX) {
        Some(year) => year,
        None => {
            return Err(String::from_str("Invalid year. Ensure it's a number."));
        },
    };
    proof {
        lemma_pair_is_small(ddmmyy@.subrange(4, 6), u32::MAX as int);
    }
    let year: i32 = 2000 + since_2000 as i32;
    match naive_date(year, month, day) {
        Some(_) => Ok(CalendarDate { year: year as u16, month: month as u8, day: day as u8 }),
        None => Err(String::from_str("Invalid date. Day, month, or year out of range.")),
    }
}

/// Reads a UTC timestamp from its time and date fields.
pub fn parse_datetime(hhmmss: &str, ddmmyy: &str) -> (parsed: Result<UtcDateTime, String>)
    ensures
        result_view(parsed) == datetime_of_text(hhmmss@, ddmmyy@),
        parsed matches Ok(moment) ==> moment.date.is_valid() && moment.time.is_valid(),
{
    let time = match parse_time(hhmmss) {
        Ok(time) => time,
        Err(message) => {
            return Err(message);
        },
    };
    let date = match parse_date(ddmmyy) {
        Ok(date) => date,
        Err(message) => {
            return Err(message);
        },
    };
    Ok(UtcDateTime { date, time })
}

/// Appends `n` with a leading zero where it has one digit.
fn append_two_digits(out: &mut String, n: u8)
    ensures
        final(out)@ == old(out)@ + two_digit_text(n as nat),
{
    proof {
        reveal_strlit("0");
    }
    if n < 10 {
        out.append("0");
    }
    append_decimal(out, n as u64);
}

/// Appends `n` with leading zeros where it has fewer than four digits.
fn append_four_digits(out: &mut String, n: u16)
    ensures
        final(out)@ == old(out)@ + four_digit_text(n as nat),
{
    proof {
        reveal_strlit("0");
        reveal_strlit("00");
        reveal_strlit("000");
    }
    if n < 10 {
        out.append("000");
    } else if n < 100 {
        out.append("00");
    } else if n < 1000 {
        out.append("0");
    }
    append_decimal(out, n as u64);
}

impl ClockTime {
    /// Appends the time as `hh:mm:ss`.
    pub fn append_to(&self, out: &mut String)
        ensures
            final(out)@ == old(out)@ + self.text(),
    {
        proof {
            reveal_strlit(":");
        }
        append_two_digits(out, self.hour);
        out.append(":");
        append_two_digits(out, self.minute);
        out.append(":");
        append_two_digits(out, self.second);
    }

    /// The time as `hh:mm:ss`.
    pub fn to_string(&self) -> (text: String)
        ensures
            text@ == self.text(),
    {
        let mut text = String::new();
        self.append_to(&mut text);
        text
    }
}

impl CalendarDate {
    /// Appends the date as `yyyy-mm-dd`.
    pub fn append_to(&self, out: &mut String)
        ensures
            final(out)@ == old(out)@ + self.text(),
    {
        proof {
            reveal_strlit("-");
        }
        append_four_digits(out, self.year);
        out.append("-");
        append_two_digits(out, self.month);
        out.append("-");
        append_two_digits(out, self.day);
    }

    /// The date as `yyyy-mm-dd`.
    pub fn to_string(&self) -> (text: String)
        ensures
            text@ == self.text(),
    {
        let mut text = String::new();
        self.append_to(&mut text);
        text
    }
}

impl UtcDateTime {
    /// The moment as `yyyy-mm-dd hh:mm:ss UTC`.
    pub fn to_string(&self) -> (text: String)
        ensures
            text@ == self.text(),
    {
        proof {
            reveal_strlit(" ");
            reveal_strlit(" UTC");
        }
        let mut text = String::new();
        self.date.append_to(&mut text);
        text.append(" ");
        self.time.append_to(&mut text);
        text.append(" UTC");
        text
    }
}

impl Coordinate {
    /// The coordinate in millionths of a degree, rounded towards zero: less
    /// than a millionth of a degree away from the exact value.
    pub fn microdegrees(&self) -> (micro: i64)
        ensures
            micro == microdegrees_of(self.units as int),
            -3 < 3 * micro - 5 * self.units < 3,
    {
        let scaled: i64 = 5 * (self.units as i64);
        scaled / 3
    }
}

/// Reads a coordinate in the wire form `ddmm.mmmm` or `dddmm.mmmm` and
/// gives it the sign of its hemisphere.
pub fn parse_coordinates(value: &str, hemisphere: &str) -> (parsed: Result<Coordinate, String>)
    ensures
        result_view(parsed) == coordinate_of_text(value@, hemisphere@),
        parsed matches Ok(coordinate) ==> coordinate.is_on_wire(),
{
    let chars = chars_of(value);
    let n = chars.len();
    if n != 9 && n != 10 {
        return Err(
            String::from_str("Invalid coordinate format. Expected ddmm.mmmm or dddmm.mmmm."),
        );
    }
    proof {
        reveal_with_fuel(pow10, 6);
        if all_digits(value@.take(n - 5)) {
            lemma_digits_value_bound(value@.take(n - 5));
        }
        if all_digits(value@.skip(n - 4)) {
            lemma_digits_value_bound(value@.skip(n - 4));
        }
    }
    let whole = read_digits(&chars, 0, n - 5, 99_999);
    let fraction = read_digits(&chars, n - 4, n, 9_999);
    let (whole, fraction) = match (whole, fraction) {
        (Some(whole), Some(fraction)) => (whole, fraction),
        _ => {
            return Err(
                String::from_str("Invalid coordinate format. Expected ddmm.mmmm or dddmm.mmmm."),
            );
        },
    };
    if chars[n - 5] != '.' {
        return Err(
            String::from_str("Invalid coordinate format. Expected ddmm.mmmm or dddmm.mmmm."),
        );
    }
    let degrees: u64 = whole / 100;
    let minutes: u64 = (whole % 100) * 10_000 + fraction;
    if minutes >= 600_000 {
        return Err(String::from_str("Minutes should be in the range 0 to 59.999"));
    }
    let magnitude: i32 = (degrees * 600_000 + minutes) as i32;
    proof {
        reveal_strlit("N");
        reveal_strlit("E");
        reveal_strlit("S");
        reveal_strlit("W");
    }
    let letter = trim(hemisphere);
    assert("N"@ =~= seq!['N'] && "E"@ =~= seq!['E'] && "S"@ =~= seq!['S'] && "W"@ =~= seq!['W']);
    if str_eq(letter, "N") || str_eq(letter, "E") {
        Ok(Coordinate { units: magnitude })
    } else if str_eq(letter, "S") || str_eq(letter, "W") {
        Ok(Coordinate { units: -magnitude })
    } else {
        Err(String::from_str("Invalid hemisphere. Expected one of: N, S, E, W."))
    }
}

/// Reads a decimal number: an optional sign, digits and, where a point
/// follows, more digits.
pub fn parse_number(s: &str) -> (parsed: Option<Decimal>)
    ensures
        parsed == decimal_of_text(s@),
        parsed matches Some(number) ==> number.is_valid(),
{
    let chars = chars_of(s);
    let negative = chars.len() > 0 && chars[0] == '-';
    let signed = chars.len() > 0 && (chars[0] == '-' || chars[0] == '+');
    let body = if signed {
        s.substring_char(1, chars.len())
    } else {
        s
    };
    let parts = split(body, '.');
    proof {
        lemma_split_nonempty(body@, '.');
    }
    if parts.len() > 2 {
        return None;
    }
    let whole_chars = chars_of(parts[0]);
    assert(whole_chars@.subrange(0, whole_chars.len() as int) =~= whole_chars@);
    let whole = match read_digits(&whole_chars, 0, whole_chars.len(), 0xffff_ffff) {
        Some(whole) => whole as u32,
        None => {
            return None;
        },
    };
    if parts.len() == 1 {
        return Some(Decimal { negative, whole, fraction: 0, fraction_digits: 0 });
    }
    let fraction_chars = chars_of(parts[1]);
    let digits = fraction_chars.len();
    if digits > 9 {
        return None;
    }
    assert(fraction_chars@.subrange(0, digits as int) =~= fraction_chars@);
    proof {
        reveal_with_fuel(pow10, 10);
        if all_digits(fraction_chars@) {
            lemma_digits_value_bound(fraction_chars@);
        }
    }
    match read_digits(&fraction_chars, 0, digits, 999_999_999) {
        Some(fraction) => Some(
            Decimal { negative, whole, fraction: fraction as u32, fraction_digits: digits as u8 },
        ),
        None => None,
    }
}

/// Takes a raw frame apart after checking its terminator, and checks its
/// header and vendor tag.
fn checked_parts<'a>(raw_data: &'a str) -> (parts: Result<Vec<&'a str>, String>)
    ensures
        match parts {
            Ok(fields) => frame_refusal(raw_data@) is None && fields.deep_view() == frame_parts(
                raw_data@,
            ),
            Err(message) => frame_refusal(raw_data@) == Some(message@),
        },
{
    proof {
        reveal_strlit("#\n");
        reveal_strlit("*SCOR");
        reveal_strlit("");
    }
    assert("#\n"@ =~= terminator());
    assert("*SCOR"@ =~= device_header());
    if !str_ends_with(raw_data, "#\n") {
        return Err(String::from_str("Invalid frame: missing terminator"));
    }
    let body = trim_end_matches(raw_data, "#\n");
    let parts = split(body, ',');
    if !str_eq(parts[0], "*SCOR") {
        return Err(refusal_of_text("Invalid header: ", parts[0]));
    }
    if parts.len() < 2 {
        return Err(refusal_of_text("Unsupported vendor code: ", ""));
    }
    if !str_eq(parts[1], vendor()) {
        return Err(refusal_of_text("Unsupported vendor code: ", parts[1]));
    }
    Ok(parts)
}

/// Decodes one raw frame from a scooter.
pub fn parse_command(raw_data: &str) -> (decoded: Result<ScooterCommand, String>)
    ensures
        decoded_view(decoded) == decode_frame(raw_data@),
{
    match checked_parts(raw_data) {
        Ok(parts) => {
            let fields = parts.as_slice();
            ScooterCommand::try_from(fields)
        },
        Err(message) => Err(message),
    }
}

/// Takes one raw frame from a scooter apart without decoding its content.
pub fn parse_frame(raw_data: &str) -> (parsed: Result<ParsedCommand, String>)
    ensures
        match parsed {
            Ok(frame) => read_frame(raw_data@) == Ok::<FrameReading, Seq<char>>(frame@),
            Err(message) => read_frame(raw_data@) == Err::<FrameReading, Seq<char>>(message@),
        },
{
    let parts = match checked_parts(raw_data) {
        Ok(parts) => parts,
        Err(message) => {
            return Err(message);
        },
    };
    if parts.len() < 4 {
        return Err(String::from_str("Invalid command format: insufficient parts"));
    }
    let mut additional_fields: Vec<String> = Vec::new();
    let mut i: usize = 4;
    while i < parts.len()
        invariant
            4 <= i <= parts.len(),
            additional_fields.deep_view() == parts.deep_view().skip(4).take(i - 4),
        decreases parts.len() - i,
    {
        let field = String::from_str(parts[i]);
        additional_fields.push(field);
        assert(parts.deep_view().skip(4).take(i - 4 + 1) =~= parts.deep_view().skip(4).take(
            i - 4,
        ).push(parts@[i as int]@));
        i += 1;
    }
    assert(parts.deep_view().skip(4).take(i - 4) =~= parts.deep_view().skip(4));
    Ok(
        ParsedCommand {
            imei: String::from_str(parts[2]),
            command: String::from_str(parts[3]),
            additional_fields,
        },
    )
}

} // verus!
