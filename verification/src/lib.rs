//! Builds shell commands for the host's system shell and decides, step by
//! step, how one run of such a command proceeds and how its end is reported.

pub mod command;
pub mod config;
pub mod debug;
pub mod execution;
pub mod message;
pub mod outcome;
pub mod platform;
pub mod sheller;
pub mod text;
pub mod trace;

pub use command::Command;
pub use config::Config;
pub use execution::{Event, Execution, Level, Mode, Notification, Request, Step, Verdict};
pub use outcome::{classify, Error, ExitStatus, Output, SystemError};
pub use platform::{
    fallback_reason, parse_program, resolve, Environment, Metadata, Platform, ResolvedShell,
    VariableError,
};
pub use sheller::{new_shell_command, CommandExt, Sheller};
