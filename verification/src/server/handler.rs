//! What the connection handlers decide: which IMEI a new connection is
//! registered under, and what a failed exchange is reported as.

use crate::commands::parser::decode_frame;
use crate::commands::parser::parse_command;
use crate::commands::scooter_command::CommandView;
use crate::commands::scooter_command::ScooterCommand;
use crate::decimal::all_digits;
use crate::decimal::digits_value;
use crate::decimal::lemma_digits_value_bound;
use crate::decimal::pow10;
use crate::decimal::read_digits;
use crate::errors::AppError;
use crate::text::chars_of;
use vstd::prelude::*;
use vstd::string::StringExecFns;

verus! {

/// `true` when `text` is an IMEI: fifteen decimal digits.
pub open spec fn is_imei(text: Seq<char>) -> bool {
    text.len() == 15 && all_digits(text)
}

/// The IMEI that a first message announces: the message must decode as a
/// sign-in, and the IMEI in it must be fifteen digits.
pub open spec fn announced_imei(message: Seq<char>) -> Option<Seq<char>> {
    match decode_frame(message) {
        Ok(CommandView::SigningIn { imei, .. }) if is_imei(imei) => Some(imei),
        _ => None,
    }
}

/// The number of an IMEI, the key under which its session is kept.
/// `None` where `imei` is no IMEI.
pub fn imei_number(imei: &str) -> (number: Option<u64>)
    ensures
        number is Some <==> is_imei(imei@),
        number matches Some(n) ==> n == digits_value(imei@),
{
    let chars = chars_of(imei);
    if chars.len() != 15 {
        return None;
    }
    assert(chars@.subrange(0, 15) =~= imei@);
    proof {
        reveal_with_fuel(pow10, 16);
        if all_digits(imei@) {
            lemma_digits_value_bound(imei@);
        }
    }
    read_digits(&chars, 0, 15, 999_999_999_999_999)
}

/// The IMEI under which the connection that sent `message` first is to be
/// registered. `None` where the message is no sign-in of a scooter with an
/// IMEI; such a connection is dropped.
pub fn extract_imei(message: &str) -> (imei: Option<String>)
    ensures
        match imei {
            Some(text) => announced_imei(message@) == Some(text@),
            None => announced_imei(message@) is None,
        },
{
    match parse_command(message) {
        Ok(ScooterCommand::SigningIn { imei, .. }) => {
            if imei_number(imei.as_str()).is_some() {
                Some(imei)
            } else {
                None
            }
        },
        _ => None,
    }
}

/// What can go wrong in one step of a workflow.
#[derive(Debug, Clone, Copy, PartialEq, Eq, Structural)]
pub enum StepEvent {
    /// The scooter did not answer in time.
    TimedOut,
    /// Reading from the connection failed.
    ReadFailed,
    /// The scooter closed the connection.
    Closed,
    /// Writing to the connection failed.
    WriteFailed,
}

impl StepEvent {
    /// `true` when the connection is gone with the step, so that the
    /// session has to be removed. A scooter that only kept silent may still
    /// be there: its session stays.
    pub open spec fn loses_connection(self) -> bool {
        !(self is TimedOut)
    }

    /// The message that reports the event; a failed write shows the frame
    /// that could not be sent.
    pub open spec fn message(self, command: Seq<char>) -> Seq<char> {
        match self {
            StepEvent::TimedOut => "Timed out waiting for response"@,
            StepEvent::ReadFailed | StepEvent::Closed => "Failed to read response"@,
            StepEvent::WriteFailed => "Failed to send command: "@ + command,
        }
    }
}

/// What a failed step means for the workflow and for the session: the
/// workflow fails with a failed exchange in every case, and the session is
/// lost unless the step only timed out. `command` is the frame that was
/// being sent, where one was.
pub fn step_failure(event: StepEvent, command: &str) -> (failure: (AppError, bool))
    ensures
        failure.0 is SocketError,
        failure.0.detail_text() == event.message(command@),
        failure.1 == event.loses_connection(),
{
    match event {
        StepEvent::TimedOut => (
            AppError::SocketError(String::from_str("Timed out waiting for response")),
            false,
        ),
        StepEvent::ReadFailed | StepEvent::Closed => (
            AppError::SocketError(String::from_str("Failed to read response")),
            true,
        ),
        StepEvent::WriteFailed => {
            let mut message = String::from_str("Failed to send command: ");
            message.append(command);
            (AppError::SocketError(message), true)
        },
    }
}

/// What a lookup fails with when the scooter has no session.
pub fn not_found_failure(message: String) -> (failure: AppError)
    ensures
        failure is ClientNotFound,
        failure.detail_text() == message@,
{
    AppError::ClientNotFound(message)
}

} // verus!
