//! Bootstrap of a Kanidm identity server: the decisions and texts of the
//! tool that creates the first administrator, its OAuth2 application and the
//! setup instructions.
use vstd::prelude::*;

pub mod client;
pub mod conf;
pub mod error;
pub mod logic;
pub mod oauth2;
pub mod person;
pub mod util;

use crate::error::{wraps, AppError, AppResult};

verus! {

/// The shape of an answer of the tool's interface: a value, or an error with
/// its message and, where there is one, its status code.
#[derive(Debug)]
pub enum ApiResponse<T> {
    Success(T),
    Error { message: String, code: Option<u16> },
}

/// What the server answered to a request to recover an account.
#[derive(Debug)]
pub enum RecoveryReply {
    /// The account was recovered, with its new password.
    Recovered { password: String },
    /// The server reported an error.
    ServerError,
    /// The answer could not be decoded, with the decoder's message.
    Protocol(String),
    /// The server closed the connection without answering.
    Closed,
    /// The server answered something other than a recovery.
    Unexpected,
}

/// How an account recovery went: where it stopped, or the server's answer.
#[derive(Debug)]
pub enum RecoveryOutcome {
    /// The server settings file exists but could not be read, with the
    /// reader's message.
    ConfigUnreadable(String),
    /// The settings lack something the server needs.
    ConfigIncomplete,
    /// The administration socket could not be reached, with its path and the
    /// operating system's message.
    ConnectFailed { socket: String, message: String },
    /// The request could not be sent, with the sender's message.
    SendFailed(String),
    /// The request could not be flushed, with the sender's message.
    FlushFailed(String),
    /// The server answered.
    Replied(RecoveryReply),
}

pub open spec fn incomplete_config_message() -> Seq<char> {
    "Configuration build failed. Check the error messages above for missing settings (like TLS or Domain)."@
}

/// Whether `r` is an error of kind "other" with the message `m`.
pub open spec fn fails_other(r: AppResult<String>, m: Seq<char>) -> bool {
    r matches Err(AppError::Other(t)) && t@ == m
}

/// The result of recovering an account with the server settings at
/// `config_path`: the new password, or an error that says where it stopped.
pub fn recovery_result(config_path: &str, outcome: RecoveryOutcome) -> (r: AppResult<String>)
    ensures
        outcome matches RecoveryOutcome::ConfigUnreadable(m) ==> (r matches Err(e) && wraps(
            e,
            "Failed to parse server config at "@ + config_path@,
            AppError::Other(m),
        )),
        outcome is ConfigIncomplete ==> fails_other(r, incomplete_config_message()),
        outcome matches RecoveryOutcome::ConnectFailed { socket, message } ==> (r matches Err(e)
            && wraps(e, "Failed to connect to admin socket at "@ + socket@, AppError::Io(message))),
        outcome matches RecoveryOutcome::SendFailed(m) ==> fails_other(
            r,
            "Failed to send recovery request: "@ + m@,
        ),
        outcome matches RecoveryOutcome::FlushFailed(m) ==> fails_other(
            r,
            "Failed to flush admin socket: "@ + m@,
        ),
        outcome matches RecoveryOutcome::Replied(RecoveryReply::Recovered { password }) ==> r
            == Ok::<String, AppError>(password),
        outcome matches RecoveryOutcome::Replied(RecoveryReply::ServerError) ==> fails_other(
            r,
            "The server encountered an error processing the recovery. Check server logs."@,
        ),
        outcome matches RecoveryOutcome::Replied(RecoveryReply::Protocol(m)) ==> fails_other(
            r,
            "Codec/Protocol error: "@ + m@,
        ),
        outcome matches RecoveryOutcome::Replied(RecoveryReply::Closed) ==> fails_other(
            r,
            "The admin socket was closed unexpectedly."@,
        ),
        outcome matches RecoveryOutcome::Replied(RecoveryReply::Unexpected) ==> fails_other(
            r,
            "Received an unexpected response type from the server."@,
        ),
{
    match outcome {
        RecoveryOutcome::ConfigUnreadable(m) => {
            let context = String::from_str("Failed to parse server config at ").concat(config_path);
            Err(AppError::Other(m).context(context.as_str()))
        },
        RecoveryOutcome::ConfigIncomplete => Err(
            AppError::Other(
                String::from_str(
                    "Configuration build failed. Check the error messages above for missing settings (like TLS or Domain).",
                ),
            ),
        ),
        RecoveryOutcome::ConnectFailed { socket, message } => {
            let context = String::from_str("Failed to connect to admin socket at ").concat(
                socket.as_str(),
            );
            Err(AppError::Io(message).context(context.as_str()))
        },
        RecoveryOutcome::SendFailed(m) => Err(
            AppError::Other(String::from_str("Failed to send recovery request: ").concat(m.as_str())),
        ),
        RecoveryOutcome::FlushFailed(m) => Err(
            AppError::Other(String::from_str("Failed to flush admin socket: ").concat(m.as_str())),
        ),
        RecoveryOutcome::Replied(reply) => match reply {
            RecoveryReply::Recovered { password } => Ok(password),
            RecoveryReply::ServerError => Err(
                AppError::Other(
                    String::from_str(
                        "The server encountered an error processing the recovery. Check server logs.",
                    ),
                ),
            ),
            RecoveryReply::Protocol(m) => Err(
                AppError::Other(String::from_str("Codec/Protocol error: ").concat(m.as_str())),
            ),
            RecoveryReply::Closed => Err(
                AppError::Other(String::from_str("The admin socket was closed unexpectedly.")),
            ),
            RecoveryReply::Unexpected => Err(
                AppError::Other(
                    String::from_str("Received an unexpected response type from the server."),
                ),
            ),
        },
    }
}

} // verus!
