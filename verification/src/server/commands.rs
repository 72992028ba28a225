//! Outbound frames: the frame format and one generator for each command
//! that the gateway sends.

use crate::config::vendor;
use crate::config::vendor_tag;
use crate::decimal::decimal_text;
use crate::decimal::signed_decimal_text;
use crate::decimal::signed_to_string;
use crate::decimal::unsigned_to_string;
use crate::server::command_enums::SpeedMode;
use crate::server::command_enums::Turn;
use crate::text::ends_with;
use crate::text::join;
use crate::text::join_with;
use crate::text::lemma_join_concat;
use crate::text::refusal_of_text;
use crate::text::str_eq;
use vstd::prelude::*;
use vstd::std_specs::convert::TryFromSpecImpl;
use vstd::string::StringExecFns;

verus! {

/// What an `R0` frame asks for.
#[derive(Debug, Clone, Copy, PartialEq, Eq, Structural)]
pub enum R0Operation {
    Unlock,
    Lock,
    RFIDCardUnlock,
    RFIDCardLock,
}

/// How a scooter answers an unlock or a lock.
#[derive(Debug, Clone, Copy, PartialEq, Eq, Structural)]
pub enum Status {
    Success,
    Failure,
    KeyError,
}

impl R0Operation {
    /// The field that stands for the operation on the wire.
    pub open spec fn code_text(self) -> Seq<char> {
        match self {
            R0Operation::Unlock => seq!['0'],
            R0Operation::Lock => seq!['1'],
            R0Operation::RFIDCardUnlock => seq!['2'],
            R0Operation::RFIDCardLock => seq!['3'],
        }
    }

    /// The operation that a field names, if any.
    pub open spec fn of_text(text: Seq<char>) -> Option<R0Operation> {
        if text == seq!['0'] {
            Some(R0Operation::Unlock)
        } else if text == seq!['1'] {
            Some(R0Operation::Lock)
        } else if text == seq!['2'] {
            Some(R0Operation::RFIDCardUnlock)
        } else if text == seq!['3'] {
            Some(R0Operation::RFIDCardLock)
        } else {
            None
        }
    }

    /// The field that stands for the operation on the wire.
    pub fn code(&self) -> (code: &'static str)
        ensures
            code@ == self.code_text(),
    {
        proof {
            reveal_strlit("0");
            reveal_strlit("1");
            reveal_strlit("2");
            reveal_strlit("3");
        }
        let code = match self {
            R0Operation::Unlock => "0",
            R0Operation::Lock => "1",
            R0Operation::RFIDCardUnlock => "2",
            R0Operation::RFIDCardLock => "3",
        };
        code
    }
}

impl<'a> TryFrom<&'a R0Operation> for &'static str {
    type Error = ();

    /// The field that stands for the operation on the wire. Every operation has one.
    fn try_from(operation: &'a R0Operation) -> (code: Result<Self, ()>)
        ensures
            code matches Ok(text) && text@ == operation.code_text(),
    {
        Ok(operation.code())
    }
}

/// The contract of `try_from` is on the method: it speaks of the text of the
/// result, which the generic law cannot.
impl<'a> TryFromSpecImpl<&'a R0Operation> for &'static str {
    open spec fn obeys_try_from_spec() -> bool {
        false
    }

    open spec fn try_from_spec(operation: &'a R0Operation) -> Result<Self, ()> {
        arbitrary()
    }
}

impl<'a> TryFrom<&'a str> for R0Operation {
    type Error = String;

    /// Decodes an operation field. Anything but `0` to `3` is refused with a
    /// message that shows the field.
    fn try_from(operation_string: &'a str) -> (decoded: Result<Self, String>)
        ensures
            match decoded {
                Ok(operation) => R0Operation::of_text(operation_string@) == Some(operation),
                Err(message) => R0Operation::of_text(operation_string@) is None && message@
                    == "Invalid operation: "@ + operation_string@,
            },
    {
        proof {
            reveal_strlit("0");
            reveal_strlit("1");
            reveal_strlit("2");
            reveal_strlit("3");
        }
        assert("0"@ =~= seq!['0'] && "1"@ =~= seq!['1']);
        assert("2"@ =~= seq!['2'] && "3"@ =~= seq!['3']);
        if str_eq(operation_string, "0") {
            Ok(R0Operation::Unlock)
        } else if str_eq(operation_string, "1") {
            Ok(R0Operation::Lock)
        } else if str_eq(operation_string, "2") {
            Ok(R0Operation::RFIDCardUnlock)
        } else if str_eq(operation_string, "3") {
            Ok(R0Operation::RFIDCardLock)
        } else {
            Err(refusal_of_text("Invalid operation: ", operation_string))
        }
    }
}

/// `try_from` states its contract itself: an owned message cannot be named
/// by a spec function, so the generic law of `TryFrom` is not claimed.
impl<'a> TryFromSpecImpl<&'a str> for R0Operation {
    open spec fn obeys_try_from_spec() -> bool {
        false
    }

    open spec fn try_from_spec(v: &'a str) -> Result<Self, String> {
        arbitrary()
    }
}

impl Status {
    /// The status that a field names, if any.
    pub open spec fn of_text(text: Seq<char>) -> Option<Status> {
        if text == seq!['0'] {
            Some(Status::Success)
        } else if text == seq!['1'] {
            Some(Status::Failure)
        } else if text == seq!['2'] {
            Some(Status::KeyError)
        } else {
            None
        }
    }
}

impl<'a> TryFrom<&'a str> for Status {
    type Error = String;

    /// Decodes a status field. Anything but `0`, `1` or `2` is refused with
    /// a message that shows the field.
    fn try_from(status_string: &'a str) -> (decoded: Result<Self, String>)
        ensures
            match decoded {
                Ok(status) => Status::of_text(status_string@) == Some(status),
                Err(message) => Status::of_text(status_string@) is None && message@
                    == "Invalid status code: "@ + status_string@,
            },
    {
        proof {
            reveal_strlit("0");
            reveal_strlit("1");
            reveal_strlit("2");
        }
        assert("0"@ =~= seq!['0'] && "1"@ =~= seq!['1'] && "2"@ =~= seq!['2']);
        if str_eq(status_string, "0") {
            Ok(Status::Success)
        } else if str_eq(status_string, "1") {
            Ok(Status::Failure)
        } else if str_eq(status_string, "2") {
            Ok(Status::KeyError)
        } else {
            Err(refusal_of_text("Invalid status code: ", status_string))
        }
    }
}

/// `try_from` states its contract itself: an owned message cannot be named
/// by a spec function, so the generic law of `TryFrom` is not claimed.
impl<'a> TryFromSpecImpl<&'a str> for Status {
    open spec fn obeys_try_from_spec() -> bool {
        false
    }

    open spec fn try_from_spec(v: &'a str) -> Result<Self, String> {
        arbitrary()
    }
}

/// The header of a frame that the gateway sends: the reserved prefix and `*SCOS`.
pub open spec fn server_header() -> Seq<char> {
    seq!['0', 'x', 'F', 'F', 'F', 'F', '*', 'S', 'C', 'O', 'S']
}

/// The header of a frame that a scooter sends.
pub open spec fn device_header() -> Seq<char> {
    seq!['*', 'S', 'C', 'O', 'R']
}

/// The two characters that end every frame.
pub open spec fn terminator() -> Seq<char> {
    seq!['#', '\n']
}

/// The fields of a frame, in order: header, vendor tag, IMEI, command code
/// and then the content.
pub open spec fn frame_fields(
    header: Seq<char>,
    imei: Seq<char>,
    command: Seq<char>,
    content: Seq<Seq<char>>,
) -> Seq<Seq<char>> {
    seq![header, vendor_tag(), imei, command] + content
}

/// A frame as it travels: its fields with commas between them, then the
/// terminator. Without content the command code stands directly before the
/// terminator.
pub open spec fn frame_text(
    header: Seq<char>,
    imei: Seq<char>,
    command: Seq<char>,
    content: Seq<Seq<char>>,
) -> Seq<char> {
    join_with(frame_fields(header, imei, command, content), seq![',']) + terminator()
}

/// Encoding has no memory: whatever two encodings of one tuple produce, they
/// produce the same text.
pub proof fn lemma_encoding_is_repeatable(
    imei: Seq<char>,
    command: Seq<char>,
    content: Seq<Seq<char>>,
    first: Seq<char>,
    second: Seq<char>,
)
    requires
        first == frame_text(server_header(), imei, command, content),
        second == frame_text(server_header(), imei, command, content),
    ensures
        first == second,
{
}

/// Every frame that is written ends with the terminator.
pub proof fn lemma_frame_ends_with_terminator(
    header: Seq<char>,
    imei: Seq<char>,
    command: Seq<char>,
    content: Seq<Seq<char>>,
)
    ensures
        ends_with(frame_text(header, imei, command, content), terminator()),
{
    let body = join_with(frame_fields(header, imei, command, content), seq![',']);
    let whole = body + terminator();
    assert(whole.subrange(whole.len() - 2, whole.len() as int) =~= terminator());
}

/// A frame without content ends right behind its command code; with
/// content, a comma and the joined content come between.
pub proof fn lemma_frame_text_shape(
    header: Seq<char>,
    imei: Seq<char>,
    command: Seq<char>,
    content: Seq<Seq<char>>,
)
    ensures
        content.len() == 0 ==> frame_text(header, imei, command, content) == header + seq![',']
            + vendor_tag() + seq![','] + imei + seq![','] + command + terminator(),
        content.len() > 0 ==> frame_text(header, imei, command, content) == header + seq![',']
            + vendor_tag() + seq![','] + imei + seq![','] + command + seq![','] + join_with(
            content,
            seq![','],
        ) + terminator(),
{
    let head = seq![header, vendor_tag(), imei, command];
    let comma = seq![','];
    reveal_with_fuel(join_with, 5);
    assert(head.drop_last() =~= seq![header, vendor_tag(), imei]);
    assert(head.drop_last().drop_last() =~= seq![header, vendor_tag()]);
    assert(head.drop_last().drop_last().drop_last() =~= seq![header]);
    assert(join_with(head, comma) =~= header + comma + vendor_tag() + comma + imei + comma
        + command);
    if content.len() == 0 {
        assert(head + content =~= head);
    } else {
        lemma_join_concat(head, content, comma);
    }
}

/// The frame that carries `command` with `content` to the scooter `imei`.
/// The fields are written as they are: a comma inside one is not escaped.
pub fn generate_command(imei: &str, command: &str, content: &[&str]) -> (frame: String)
    ensures
        frame@ == frame_text(server_header(), imei@, command@, content.deep_view()),
{
    proof {
        reveal_strlit("0xFFFF*SCOS");
        reveal_strlit(",");
        reveal_strlit("#\n");
    }
    assert("0xFFFF*SCOS"@ =~= server_header());
    assert(","@ =~= seq![',']);
    let mut fields: Vec<&str> = Vec::new();
    fields.push("0xFFFF*SCOS");
    fields.push(vendor());
    fields.push(imei);
    fields.push(command);
    let ghost head = seq![server_header(), vendor_tag(), imei@, command@];
    let mut i: usize = 0;
    while i < content.len()
        invariant
            i <= content.len(),
            fields.deep_view() == head + content.deep_view().take(i as int),
        decreases content.len() - i,
    {
        let ghost before = fields.deep_view();
        fields.push(content[i]);
        assert(fields.deep_view() =~= before.push(content@[i as int]@));
        i += 1;
    }
    assert(content.deep_view().take(i as int) =~= content.deep_view());
    let all = fields.as_slice();
    let mut frame = join(all, ",");
    frame.append("#\n");
    frame
}

/// The content of an `R0` request: the operation, for how many seconds the
/// key is to stay valid, who asks, and when.
pub open spec fn r0_content(
    operation: R0Operation,
    key_duration: u8,
    user_id: u32,
    timestamp: i64,
) -> Seq<Seq<char>> {
    seq![
        operation.code_text(),
        decimal_text(key_duration as nat),
        decimal_text(user_id as nat),
        signed_decimal_text(timestamp as int),
    ]
}

/// The content of an `S7` frame: headlight, speed mode, throttle response
/// and taillights, each as its code.
pub open spec fn s7_content(headlight: u8, speed_mode: u8, throttle: u8, taillights: u8) -> Seq<
    Seq<char>,
> {
    seq![
        decimal_text(headlight as nat),
        decimal_text(speed_mode as nat),
        decimal_text(throttle as nat),
        decimal_text(taillights as nat),
    ]
}

/// The `R0` frame that asks the scooter for a key.
pub fn generate_r0_command(
    imei: &str,
    operation: &R0Operation,
    key_duration: u8,
    user_id: u32,
    timestamp: i64,
) -> (frame: String)
    ensures
        frame@ == frame_text(
            server_header(),
            imei@,
            "R0"@,
            r0_content(*operation, key_duration, user_id, timestamp),
        ),
{
    let duration = unsigned_to_string(key_duration as u64);
    let user = unsigned_to_string(user_id as u64);
    let time = signed_to_string(timestamp);
    let mut content: Vec<&str> = Vec::new();
    content.push(operation.code());
    content.push(duration.as_str());
    content.push(user.as_str());
    content.push(time.as_str());
    assert(content.deep_view() =~= r0_content(*operation, key_duration, user_id, timestamp));
    let fields = content.as_slice();
    generate_command(imei, "R0", fields)
}

/// The `L0` frame that unlocks the scooter with the key it issued.
pub fn generate_l0_command(imei: &str, key: &str, user_id: u32, timestamp: i64) -> (frame: String)
    ensures
        frame@ == frame_text(
            server_header(),
            imei@,
            "L0"@,
            seq![key@, decimal_text(user_id as nat), signed_decimal_text(timestamp as int)],
        ),
{
    let user = unsigned_to_string(user_id as u64);
    let time = signed_to_string(timestamp);
    let mut content: Vec<&str> = Vec::new();
    content.push(key);
    content.push(user.as_str());
    content.push(time.as_str());
    assert(content.deep_view() =~= seq![
        key@,
        decimal_text(user_id as nat),
        signed_decimal_text(timestamp as int),
    ]);
    let fields = content.as_slice();
    generate_command(imei, "L0", fields)
}

/// The `L0` frame without content that ends an unlock.
pub fn generate_l0_ack(imei: &str) -> (frame: String)
    ensures
        frame@ == frame_text(server_header(), imei@, "L0"@, Seq::<Seq<char>>::empty()),
{
    let content: Vec<&str> = Vec::new();
    let fields = content.as_slice();
    generate_command(imei, "L0", fields)
}

/// The `L1` frame that locks the scooter with the key it issued.
pub fn generate_l1_command(imei: &str, key: &str) -> (frame: String)
    ensures
        frame@ == frame_text(server_header(), imei@, "L1"@, seq![key@]),
{
    let mut content: Vec<&str> = Vec::new();
    content.push(key);
    assert(content.deep_view() =~= seq![key@]);
    let fields = content.as_slice();
    generate_command(imei, "L1", fields)
}

/// The `L1` frame without content that ends a lock.
pub fn generate_l1_ack(imei: &str) -> (frame: String)
    ensures
        frame@ == frame_text(server_header(), imei@, "L1"@, Seq::<Seq<char>>::empty()),
{
    let content: Vec<&str> = Vec::new();
    let fields = content.as_slice();
    generate_command(imei, "L1", fields)
}

/// The `S7` frame that sets headlight, speed mode, throttle response and
/// taillights; a field left at `DontSet` keeps what the scooter has.
pub fn generate_s7_command(
    imei: &str,
    headlight: &Turn,
    speed_mode: &SpeedMode,
    throttle: &Turn,
    taillights_flashing: &Turn,
) -> (frame: String)
    ensures
        frame@ == frame_text(
            server_header(),
            imei@,
            "S7"@,
            s7_content(
                headlight.code(),
                speed_mode.code(),
                throttle.code(),
                taillights_flashing.code(),
            ),
        ),
{
    let first = unsigned_to_string(u8::from(headlight) as u64);
    let second = unsigned_to_string(u8::from(speed_mode) as u64);
    let third = unsigned_to_string(u8::from(throttle) as u64);
    let fourth = unsigned_to_string(u8::from(taillights_flashing) as u64);
    let mut content: Vec<&str> = Vec::new();
    content.push(first.as_str());
    content.push(second.as_str());
    content.push(third.as_str());
    content.push(fourth.as_str());
    assert(content.deep_view() =~= s7_content(
        headlight.code(),
        speed_mode.code(),
        throttle.code(),
        taillights_flashing.code(),
    ));
    let fields = content.as_slice();
    generate_command(imei, "S7", fields)
}

} // verus!
