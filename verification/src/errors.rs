//! What can stop an operator command, and how it is reported.

use vstd::prelude::*;
use vstd::string::StringExecFns;

verus! {

/// Why an operator command did not go through. Each variant carries the
/// message for the operator.
#[derive(Debug)]
pub enum AppError {
    /// The request asks for something that the protocol does not have.
    InvalidCommand(String),
    /// The scooter has no session.
    ClientNotFound(String),
    /// Talking to the scooter failed.
    SocketError(String),
}

impl AppError {
    /// The message that the error carries.
    pub open spec fn detail_text(self) -> Seq<char> {
        match self {
            AppError::InvalidCommand(message) => message@,
            AppError::ClientNotFound(message) => message@,
            AppError::SocketError(message) => message@,
        }
    }

    /// The HTTP status that reports the error: 400 for a bad request, 404
    /// for a scooter without a session, 500 for a failed exchange.
    pub open spec fn status(self) -> u16 {
        match self {
            AppError::InvalidCommand(_) => 400,
            AppError::ClientNotFound(_) => 404,
            AppError::SocketError(_) => 500,
        }
    }

    /// The error in one line: its kind, a colon, its message.
    pub open spec fn text(self) -> Seq<char> {
        match self {
            AppError::InvalidCommand(message) => "Invalid command: "@ + message@,
            AppError::ClientNotFound(message) => "Client not found: "@ + message@,
            AppError::SocketError(message) => "Socket error: "@ + message@,
        }
    }

    /// The message that the error carries.
    pub fn detail(&self) -> (message: &str)
        ensures
            message@ == self.detail_text(),
    {
        match self {
            AppError::InvalidCommand(message) => message.as_str(),
            AppError::ClientNotFound(message) => message.as_str(),
            AppError::SocketError(message) => message.as_str(),
        }
    }

    /// The HTTP status that reports the error.
    pub fn status_code(&self) -> (code: u16)
        ensures
            code == self.status(),
    {
        match self {
            AppError::InvalidCommand(_) => 400,
            AppError::ClientNotFound(_) => 404,
            AppError::SocketError(_) => 500,
        }
    }

    /// The error in one line: its kind, a colon, its message.
    pub fn to_string(&self) -> (line: String)
        ensures
            line@ == self.text(),
    {
        let mut line = match self {
            AppError::InvalidCommand(_) => String::from_str("Invalid command: "),
            AppError::ClientNotFound(_) => String::from_str("Client not found: "),
            AppError::SocketError(_) => String::from_str("Socket error: "),
        };
        line.append(self.detail());
        line
    }
}

/// The HTTP status of an operator command: 200 where it went through, else
/// the status of what stopped it.
pub open spec fn status_of(outcome: Result<(), AppError>) -> u16 {
    match outcome {
        Ok(_) => 200,
        Err(error) => error.status(),
    }
}

/// The message of an operator command: `done` where it went through, else
/// the message of what stopped it.
pub open spec fn message_of(outcome: Result<(), AppError>, done: Seq<char>) -> Seq<char> {
    match outcome {
        Ok(_) => done,
        Err(error) => error.detail_text(),
    }
}

/// The status and the message that report `outcome` to the operator.
pub fn report(outcome: Result<(), AppError>, done: String) -> (reported: (u16, String))
    ensures
        reported.0 == status_of(outcome),
        reported.1@ == message_of(outcome, done@),
{
    match outcome {
        Ok(_) => (200, done),
        Err(error) => {
            let code = error.status_code();
            let message = match error {
                AppError::InvalidCommand(message) => message,
                AppError::ClientNotFound(message) => message,
                AppError::SocketError(message) => message,
            };
            (code, message)
        },
    }
}

} // verus!
