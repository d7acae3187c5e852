//! How a run ends: the child's exit status, and the kinds of failure.

use vstd::prelude::*;

verus! {

/// An error of the operating system, as the host reports it.
#[derive(Debug, PartialEq, Eq)]
pub struct SystemError {
    /// The system's error number, where there is one.
    pub code: Option<i32>,
    /// The host's description of the error.
    pub message: String,
}

/// A system error with its message as plain text.
pub struct SystemErrorView {
    pub code: Option<i32>,
    pub message: Seq<char>,
}

impl View for SystemError {
    type V = SystemErrorView;

    open spec fn view(&self) -> SystemErrorView {
        SystemErrorView { code: self.code, message: self.message@ }
    }
}

/// How a child process terminated.
#[derive(Clone, Copy, Debug, PartialEq, Eq, Structural)]
pub struct ExitStatus {
    /// The exit code, if the process exited normally.
    pub code: Option<i32>,
    /// The signal that ended the process, if one did.
    pub signal: Option<i32>,
}

/// What a child wrote while its output was captured.
#[derive(Debug, PartialEq, Eq)]
pub struct Output {
    pub stdout: Vec<u8>,
    pub stderr: Vec<u8>,
}

/// Captured output as plain bytes.
pub struct OutputView {
    pub stdout: Seq<u8>,
    pub stderr: Seq<u8>,
}

impl View for Output {
    type V = OutputView;

    open spec fn view(&self) -> OutputView {
        OutputView { stdout: self.stdout@, stderr: self.stderr@ }
    }
}

/// The view of an output that may be absent.
pub open spec fn captured_view(output: Option<Output>) -> Option<OutputView> {
    match output {
        Some(o) => Some(o@),
        None => None,
    }
}

/// Why a run did not succeed.
#[derive(Debug, PartialEq, Eq)]
pub enum Error {
    /// The system refused to launch the process, or waiting for it failed.
    Io(SystemError),
    /// The process ran to its end and reported this nonzero exit code.
    NonZeroExitCode(i32),
    /// The process was ended by this signal.
    TerminatedBySignal(i32),
    /// The process ended with neither an exit code nor a signal.
    IndeterminateTermination,
    /// A notification could not be written to the sink.
    NotificationWriteFailure(SystemError),
}

/// A failure over the views of what it carries.
pub enum ErrorView {
    Io(SystemErrorView),
    NonZeroExitCode(i32),
    TerminatedBySignal(i32),
    IndeterminateTermination,
    NotificationWriteFailure(SystemErrorView),
}

impl View for Error {
    type V = ErrorView;

    open spec fn view(&self) -> ErrorView {
        match *self {
            Error::Io(e) => ErrorView::Io(e@),
            Error::NonZeroExitCode(code) => ErrorView::NonZeroExitCode(code),
            Error::TerminatedBySignal(signal) => ErrorView::TerminatedBySignal(signal),
            Error::IndeterminateTermination => ErrorView::IndeterminateTermination,
            Error::NotificationWriteFailure(e) => ErrorView::NotificationWriteFailure(e@),
        }
    }
}

/// The result of one run: success, with the captured output where capture
/// was asked for, or the failure.
pub open spec fn outcome_view(outcome: Result<Option<Output>, Error>) -> Result<
    Option<OutputView>,
    ErrorView,
> {
    match outcome {
        Ok(output) => Ok(captured_view(output)),
        Err(e) => Err(e@),
    }
}

/// The failure that an exit status stands for, if it stands for one.
///
/// Exit code 0 is success. Any other exit code is a failure with that code.
/// Without an exit code, a signal is a failure with that signal; with
/// neither, the termination is indeterminate.
pub open spec fn failure_of(status: ExitStatus) -> Option<ErrorView> {
    match status.code {
        Some(code) => if code == 0 {
            None
        } else {
            Some(ErrorView::NonZeroExitCode(code))
        },
        None => match status.signal {
            Some(signal) => Some(ErrorView::TerminatedBySignal(signal)),
            None => Some(ErrorView::IndeterminateTermination),
        },
    }
}

/// Classifies how a child terminated.
pub fn classify(status: ExitStatus) -> (result: Result<(), Error>)
    ensures
        match result {
            Ok(_) => failure_of(status) is None,
            Err(e) => failure_of(status) == Some(e@),
        },
{
    match status.code {
        Some(code) => if code == 0 {
            Ok(())
        } else {
            Err(Error::NonZeroExitCode(code))
        },
        None => match status.signal {
            Some(signal) => Err(Error::TerminatedBySignal(signal)),
            None => Err(Error::IndeterminateTermination),
        },
    }
}

/// A child that ran to its end is never reported as a failure to launch or
/// to wait, nor as a failure to write: its status alone decides, and a
/// nonzero exit code is reported with exactly that code.
pub proof fn classify_keeps_exit_code(status: ExitStatus)
    ensures
        !(failure_of(status) matches Some(ErrorView::Io(_))),
        !(failure_of(status) matches Some(ErrorView::NotificationWriteFailure(_))),
        forall|code: i32|
            status.code == Some(code) && code != 0 ==> failure_of(status) == Some(
                ErrorView::NonZeroExitCode(code),
            ),
        failure_of(status) is None <==> status.code == Some(0i32),
{
}

} // verus!
