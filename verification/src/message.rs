//! The words of the notifications.

use vstd::prelude::*;
use vstd::string::*;
use crate::outcome::{Error, ErrorView};
use crate::text::{push_signed_decimal, signed_decimal};

verus! {

/// The message that the command shown as `rendered` is about to run.
pub open spec fn running_message(rendered: Seq<char>) -> Seq<char> {
    "Running command: "@ + rendered
}

/// The message that the command shown as `rendered` ran and ended with exit code 0.
pub open spec fn success_message(rendered: Seq<char>) -> Seq<char> {
    "Succeeded to run command: "@ + rendered
}

/// The message that a command could not be launched, for the reason `error`.
pub open spec fn spawn_failure_message(error: Seq<char>) -> Seq<char> {
    "Failed to spawn command: "@ + error
}

/// The message that waiting for the child failed, for the reason `error`.
pub open spec fn wait_failure_message(error: Seq<char>) -> Seq<char> {
    "Failed to wait for command: "@ + error
}

/// How the message of a failed run names the child's end: its exit code,
/// the signal that ended it, or neither.
pub open spec fn status_text(error: ErrorView) -> Seq<char> {
    match error {
        ErrorView::NonZeroExitCode(code) => "exit code: "@ + signed_decimal(code as int),
        ErrorView::TerminatedBySignal(signal) => "signal: "@ + signed_decimal(signal as int),
        _ => "unknown"@,
    }
}

/// The message that the command shown as `rendered` ran and ended as `status` tells.
pub open spec fn run_failure_message(rendered: Seq<char>, status: Seq<char>) -> Seq<char> {
    "Failed to run command: "@ + rendered + " with status: "@ + status
}

/// Composes the message that a command is about to run.
pub fn compose_running(rendered: &str) -> (message: String)
    ensures
        message@ == running_message(rendered@),
{
    String::from_str("Running command: ").concat(rendered)
}

/// Composes the message that a command ran and ended with exit code 0.
pub fn compose_success(rendered: &str) -> (message: String)
    ensures
        message@ == success_message(rendered@),
{
    String::from_str("Succeeded to run command: ").concat(rendered)
}

/// Composes the message that a command could not be launched.
pub fn compose_spawn_failure(error: &str) -> (message: String)
    ensures
        message@ == spawn_failure_message(error@),
{
    String::from_str("Failed to spawn command: ").concat(error)
}

/// Composes the message that waiting for the child failed.
pub fn compose_wait_failure(error: &str) -> (message: String)
    ensures
        message@ == wait_failure_message(error@),
{
    String::from_str("Failed to wait for command: ").concat(error)
}

/// Composes the text that names the child's end in the message of a failed run.
pub fn compose_status(error: &Error) -> (text: String)
    ensures
        text@ == status_text(error@),
{
    match error {
        Error::NonZeroExitCode(code) => {
            let mut text = String::from_str("exit code: ");
            push_signed_decimal(&mut text, *code);
            text
        },
        Error::TerminatedBySignal(signal) => {
            let mut text = String::from_str("signal: ");
            push_signed_decimal(&mut text, *signal);
            text
        },
        _ => String::from_str("unknown"),
    }
}

/// Composes the message that a command ran and did not end with exit code 0.
pub fn compose_run_failure(rendered: &str, status: &str) -> (message: String)
    ensures
        message@ == run_failure_message(rendered@, status@),
{
    String::from_str("Failed to run command: ").concat(rendered).concat(" with status: ").concat(
        status,
    )
}

} // verus!
