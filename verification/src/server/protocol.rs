//! The validator of responses: a frame from a scooter is held against the
//! regular expression that spells out what the gateway expects.

use crate::config::vendor;
use crate::config::vendor_tag;
use crate::decimal::decimal_text;
use crate::decimal::signed_decimal_text;
use crate::decimal::signed_to_string;
use crate::decimal::unsigned_to_string;
use crate::server::commands::device_header;
use crate::server::commands::frame_fields;
use crate::server::commands::R0Operation;
use crate::server::commands::s7_content;
use crate::text::join;
use crate::text::join_with;
use crate::text::lemma_join_concat;
use crate::text::result_view;
use crate::text::split;
use crate::text::split_on;
use crate::text::text_result_view;
use vstd::prelude::*;
use vstd::string::StringExecFns;

verus! {

/// `regex::Error`, the reason why a pattern does not compile, handed
/// through unopened.
#[verifier::external_type_specification]
#[verifier::external_body]
pub struct ExRegexError(regex::Error);

/// What the `regex` crate finds when `pattern` is compiled and searched for
/// in `haystack`: `None` where the pattern does not compile, else whether
/// it matches anywhere in the haystack.
pub uninterp spec fn regex_search(pattern: Seq<char>, haystack: Seq<char>) -> Option<bool>;

/// Compiles `pattern` with `regex::Regex::new` and asks `Regex::is_match`
/// whether it matches `haystack`. Both depend on the two texts alone, so the
/// outcome is [`regex_search`] of them; the error of a pattern that does not
/// compile is handed on.
#[verifier::external_body]
fn search(pattern: &str, haystack: &str) -> (found: Result<bool, regex::Error>)
    ensures
        match found {
            Ok(hit) => regex_search(pattern@, haystack@) == Some(hit),
            Err(_) => regex_search(pattern@, haystack@) is None,
        },
{
    match regex::Regex::new(pattern) {
        Ok(regex) => Ok(regex.is_match(haystack)),
        Err(error) => Err(error),
    }
}

/// The fragment that stands for one or more digits in an expected field.
pub open spec fn digits_fragment() -> Seq<char> {
    seq!['\\', 'd', '+']
}

/// How the expected pattern opens: the start of the text and the escaped
/// star of the device header.
pub open spec fn pattern_opening() -> Seq<char> {
    seq!['^', '\\']
}

/// How the expected pattern closes: the terminator, with the line feed
/// written as an escape, and the end of the text.
pub open spec fn pattern_closing() -> Seq<char> {
    seq!['#', '\\', 'n', '$']
}

/// The regular expression that a response to `command_type` from `imei`
/// has to match: `^\*SCOR,<vendor>,<imei>,<command>,<field>,<field>,...#\n$`.
/// Each expected field is put in as it is, so it is either a literal or a
/// fragment of a regular expression.
pub open spec fn expected_pattern(
    imei: Seq<char>,
    command_type: Seq<char>,
    content: Seq<Seq<char>>,
) -> Seq<char> {
    pattern_opening() + join_with(
        seq![device_header(), vendor_tag(), imei, command_type, join_with(content, seq![','])],
        seq![','],
    ) + pattern_closing()
}

/// What a search result means for a response: a match accepts it, a miss
/// refuses it with the pattern and the response, and a pattern that does
/// not compile refuses it too.
pub open spec fn verdict_of(found: Option<bool>, pattern: Seq<char>, response: Seq<char>) -> Result<
    (),
    Seq<char>,
> {
    match found {
        Some(true) => Ok(()),
        Some(false) => Err(
            "Invalid response format: expected pattern '"@ + pattern + "', got '"@ + response
                + "'"@,
        ),
        None => Err("Failed to compile regex"@),
    }
}

/// What the validator says of `response` when it expects `command_type`
/// with `content` from `imei`.
pub open spec fn validation_of(
    response: Seq<char>,
    imei: Seq<char>,
    command_type: Seq<char>,
    content: Seq<Seq<char>>,
) -> Result<(), Seq<char>> {
    let pattern = expected_pattern(imei, command_type, content);
    verdict_of(regex_search(pattern, response), pattern, response)
}

/// The key that an accepted `R0` response carries: its sixth field. A
/// refused response stays refused.
pub open spec fn key_of(verdict: Result<(), Seq<char>>, response: Seq<char>) -> Result<
    Seq<char>,
    Seq<char>,
> {
    match verdict {
        Err(message) => Err(message),
        Ok(_) => if split_on(response, ',').len() > 5 {
            Ok(split_on(response, ',')[5])
        } else {
            Err("Failed to extract key from response"@)
        },
    }
}

/// What an `R0` response is expected to hold: the operation, a key of one
/// or more digits, who asked and when.
pub open spec fn r0_expectation(operation: R0Operation, user_id: u32, timestamp: i64) -> Seq<
    Seq<char>,
> {
    seq![
        operation.code_text(),
        digits_fragment(),
        decimal_text(user_id as nat),
        signed_decimal_text(timestamp as int),
    ]
}

/// What an `L0` response is expected to hold: success, who asked and when.
pub open spec fn l0_expectation(user_id: u32, timestamp: i64) -> Seq<Seq<char>> {
    seq![seq!['0'], decimal_text(user_id as nat), signed_decimal_text(timestamp as int)]
}

/// What an `L1` response is expected to hold: success, who asked, and two
/// numbers, the time of the unlock and the length of the ride.
pub open spec fn l1_expectation(user_id: u32) -> Seq<Seq<char>> {
    seq![seq!['0'], decimal_text(user_id as nat), digits_fragment(), digits_fragment()]
}

/// What an `S7` response is expected to hold: the four settings as sent.
pub open spec fn s7_expectation(
    headlight_switch: u8,
    mode_setting: u8,
    throttle_response: u8,
    taillights_flashing: u8,
) -> Seq<Seq<char>> {
    seq![
        decimal_text(headlight_switch as nat),
        decimal_text(mode_setting as nat),
        decimal_text(throttle_response as nat),
        decimal_text(taillights_flashing as nat),
    ]
}

/// With content, the expected pattern spells the fields of the frame that
/// is awaited, commas between them, from the escaped star of the header to
/// the terminator.
pub proof fn lemma_pattern_spells_frame(
    imei: Seq<char>,
    command_type: Seq<char>,
    content: Seq<Seq<char>>,
)
    requires
        content.len() >= 1,
    ensures
        expected_pattern(imei, command_type, content) == pattern_opening() + join_with(
            frame_fields(device_header(), imei, command_type, content),
            seq![','],
        ) + pattern_closing(),
{
    let head = seq![device_header(), vendor_tag(), imei, command_type];
    let comma = seq![','];
    lemma_join_concat(head, content, comma);
    lemma_join_concat(head, seq![join_with(content, comma)], comma);
    assert(head + seq![join_with(content, comma)] =~= seq![
        device_header(),
        vendor_tag(),
        imei,
        command_type,
        join_with(content, comma),
    ]);
}

/// What is awaited after a settings command is its own frame under the
/// device header: the expected fields are the content that was sent, so the
/// pattern spells the echo from the escaped star to the terminator.
pub proof fn lemma_setting_pattern_spells_echo(
    imei: Seq<char>,
    headlight: u8,
    speed_mode: u8,
    throttle: u8,
    taillights: u8,
)
    ensures
        s7_expectation(headlight, speed_mode, throttle, taillights) == s7_content(
            headlight,
            speed_mode,
            throttle,
            taillights,
        ),
        expected_pattern(
            imei,
            "S7"@,
            s7_expectation(headlight, speed_mode, throttle, taillights),
        ) == pattern_opening() + join_with(
            frame_fields(
                device_header(),
                imei,
                "S7"@,
                s7_content(headlight, speed_mode, throttle, taillights),
            ),
            seq![','],
        ) + pattern_closing(),
{
    lemma_pattern_spells_frame(
        imei,
        "S7"@,
        s7_expectation(headlight, speed_mode, throttle, taillights),
    );
}

/// Turns a search result into the validator's verdict on `response`.
pub fn validation_verdict(found: Option<bool>, pattern: &str, response: &str) -> (verdict: Result<
    (),
    String,
>)
    ensures
        result_view(verdict) == verdict_of(found, pattern@, response@),
{
    match found {
        Some(true) => Ok(()),
        Some(false) => {
            let mut message = String::from_str("Invalid response format: expected pattern '");
            message.append(pattern);
            message.append("', got '");
            message.append(response);
            message.append("'");
            Err(message)
        },
        None => Err(String::from_str("Failed to compile regex")),
    }
}

/// Writes the regular expression that a response has to match.
pub fn build_pattern(imei: &str, command_type: &str, content: &[&str]) -> (pattern: String)
    ensures
        pattern@ == expected_pattern(imei@, command_type@, content.deep_view()),
{
    proof {
        reveal_strlit("^\\");
        reveal_strlit("*SCOR");
        reveal_strlit(",");
        reveal_strlit("#\\n$");
    }
    assert("*SCOR"@ =~= device_header());
    assert(","@ =~= seq![',']);
    let expected = join(content, ",");
    let mut fields: Vec<&str> = Vec::new();
    fields.push("*SCOR");
    fields.push(vendor());
    fields.push(imei);
    fields.push(command_type);
    fields.push(expected.as_str());
    assert(fields.deep_view() =~= seq![
        device_header(),
        vendor_tag(),
        imei@,
        command_type@,
        join_with(content.deep_view(), seq![',']),
    ]);
    let all = fields.as_slice();
    let body = join(all, ",");
    let mut pattern = String::from_str("^\\");
    pattern.append(body.as_str());
    pattern.append("#\\n$");
    pattern
}

/// Holds `response` against what is expected of a `command_type` frame from
/// `imei` with the given content, each expected field a literal or a
/// fragment of a regular expression.
pub fn validate_command(
    response: &str,
    imei: &str,
    command_type: &str,
    content: &[&str],
) -> (verdict: Result<(), String>)
    ensures
        result_view(verdict) == validation_of(
            response@,
            imei@,
            command_type@,
            content.deep_view(),
        ),
{
    let pattern = build_pattern(imei, command_type, content);
    let found = match search(pattern.as_str(), response) {
        Ok(hit) => Some(hit),
        Err(_) => None,
    };
    validation_verdict(found, pattern.as_str(), response)
}

/// Takes the key out of an `R0` response that the validator accepted.
pub fn extract_key(verdict: Result<(), String>, response: &str) -> (key: Result<String, String>)
    ensures
        text_result_view(key) == key_of(result_view(verdict), response@),
{
    match verdict {
        Err(message) => Err(message),
        Ok(_) => {
            let fields = split(response, ',');
            if fields.len() > 5 {
                Ok(String::from_str(fields[5]))
            } else {
                Err(String::from_str("Failed to extract key from response"))
            }
        },
    }
}

/// Holds an `R0` response against the request it answers and takes out the
/// key that the scooter issued.
pub fn validate_r0_response(
    response: &str,
    imei: &str,
    r0_operation: &R0Operation,
    user_id: u32,
    timestamp: i64,
) -> (key: Result<String, String>)
    ensures
        text_result_view(key) == key_of(
            validation_of(
                response@,
                imei@,
                "R0"@,
                r0_expectation(*r0_operation, user_id, timestamp),
            ),
            response@,
        ),
{
    proof {
        reveal_strlit("\\d+");
    }
    assert("\\d+"@ =~= digits_fragment());
    let user = unsigned_to_string(user_id as u64);
    let time = signed_to_string(timestamp);
    let mut content: Vec<&str> = Vec::new();
    content.push(r0_operation.code());
    content.push("\\d+");
    content.push(user.as_str());
    content.push(time.as_str());
    assert(content.deep_view() =~= r0_expectation(*r0_operation, user_id, timestamp));
    let expected = content.as_slice();
    let verdict = validate_command(response, imei, "R0", expected);
    extract_key(verdict, response)
}

/// Holds an `L0` response against the unlock it confirms.
pub fn validate_l0_response(response: &str, imei: &str, user_id: u32, timestamp: i64) -> (verdict:
    Result<(), String>)
    ensures
        result_view(verdict) == validation_of(
            response@,
            imei@,
            "L0"@,
            l0_expectation(user_id, timestamp),
        ),
{
    proof {
        reveal_strlit("0");
    }
    assert("0"@ =~= seq!['0']);
    let user = unsigned_to_string(user_id as u64);
    let time = signed_to_string(timestamp);
    let mut content: Vec<&str> = Vec::new();
    content.push("0");
    content.push(user.as_str());
    content.push(time.as_str());
    assert(content.deep_view() =~= l0_expectation(user_id, timestamp));
    let expected = content.as_slice();
    validate_command(response, imei, "L0", expected)
}

/// Holds an `L1` response against the lock it confirms.
pub fn validate_l1_response(response: &str, imei: &str, user_id: u32) -> (verdict: Result<
    (),
    String,
>)
    ensures
        result_view(verdict) == validation_of(response@, imei@, "L1"@, l1_expectation(user_id)),
{
    proof {
        reveal_strlit("0");
        reveal_strlit("\\d+");
    }
    assert("0"@ =~= seq!['0']);
    assert("\\d+"@ =~= digits_fragment());
    let user = unsigned_to_string(user_id as u64);
    let mut content: Vec<&str> = Vec::new();
    content.push("0");
    content.push(user.as_str());
    content.push("\\d+");
    content.push("\\d+");
    assert(content.deep_view() =~= l1_expectation(user_id));
    let expected = content.as_slice();
    validate_command(response, imei, "L1", expected)
}

/// Holds an `S7` response against the settings that were sent.
pub fn validate_s7_response(
    response: &str,
    imei: &str,
    headlight_switch: u8,
    mode_setting: u8,
    throttle_response: u8,
    taillights_flashing: u8,
) -> (verdict: Result<(), String>)
    ensures
        result_view(verdict) == validation_of(
            response@,
            imei@,
            "S7"@,
            s7_expectation(headlight_switch, mode_setting, throttle_response, taillights_flashing),
        ),
{
    let first = unsigned_to_string(headlight_switch as u64);
    let second = unsigned_to_string(mode_setting as u64);
    let third = unsigned_to_string(throttle_response as u64);
    let fourth = unsigned_to_string(taillights_flashing as u64);
    let mut content: Vec<&str> = Vec::new();
    content.push(first.as_str());
    content.push(second.as_str());
    content.push(third.as_str());
    content.push(fourth.as_str());
    assert(content.deep_view() =~= s7_expectation(
        headlight_switch,
        mode_setting,
        throttle_response,
        taillights_flashing,
    ));
    let expected = content.as_slice();
    validate_command(response, imei, "S7", expected)
}

} // verus!
