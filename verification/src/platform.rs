//! Which shell program runs a script, and with which fixed arguments.

use vstd::prelude::*;
use vstd::string::*;

verus! {

/// The family of operating systems the process runs on.
#[derive(Clone, Copy, Debug, PartialEq, Eq, Structural)]
pub enum Platform {
    Unix,
    Windows,
}

impl Platform {
    /// Name of the environment variable that may name the shell.
    pub open spec fn env_key(self) -> Seq<char> {
        match self {
            Platform::Unix => "SHELL"@,
            Platform::Windows => "COMSPEC"@,
        }
    }

    /// The shell used when the environment names none.
    pub open spec fn default_program(self) -> Seq<char> {
        match self {
            Platform::Unix => "/bin/sh"@,
            Platform::Windows => "cmd.exe"@,
        }
    }

    /// The arguments that stand before the script.
    pub open spec fn default_args(self) -> Seq<Seq<char>> {
        match self {
            Platform::Unix => seq!["-c"@],
            Platform::Windows => seq!["/D"@, "/S"@, "/C"@],
        }
    }
}

/// The views of a list of string slices, in order.
pub open spec fn slices_view(args: Seq<&'static str>) -> Seq<Seq<char>> {
    Seq::new(args.len(), |i: int| args[i]@)
}

/// The views of a list of strings, in order.
pub open spec fn strings_view(args: Seq<String>) -> Seq<Seq<char>> {
    Seq::new(args.len(), |i: int| args[i]@)
}

/// The fixed facts about a platform's shell.
#[derive(Debug)]
pub struct Metadata {
    pub env_key: &'static str,
    pub program: &'static str,
    pub args: Vec<&'static str>,
}

impl Metadata {
    /// The metadata of `platform`.
    pub fn of(platform: Platform) -> (metadata: Metadata)
        ensures
            metadata.env_key@ == platform.env_key(),
            metadata.program@ == platform.default_program(),
            slices_view(metadata.args@) == platform.default_args(),
    {
        match platform {
            Platform::Unix => {
                let args: Vec<&'static str> = vec!["-c"];
                assert(slices_view(args@) =~= platform.default_args());
                Metadata { env_key: "SHELL", program: "/bin/sh", args }
            },
            Platform::Windows => {
                let args: Vec<&'static str> = vec!["/D", "/S", "/C"];
                assert(slices_view(args@) =~= platform.default_args());
                Metadata { env_key: "COMSPEC", program: "cmd.exe", args }
            },
        }
    }
}

/// Why the shell variable names no program.
#[derive(Clone, Copy, Debug, PartialEq, Eq, Structural)]
pub enum VariableError {
    /// The variable is not set.
    NotPresent,
    /// The variable is set, but its value is not valid Unicode.
    NotUnicode,
    /// The variable is set, but its value is empty.
    Empty,
}

/// What a command is constructed from: the platform, and what reading the
/// platform's shell variable gave at that moment. A value that is empty
/// names no program, as little as a variable that is unset.
#[derive(Debug)]
pub struct Environment {
    pub platform: Platform,
    pub shell: Result<String, VariableError>,
}

impl Environment {
    /// The value of the shell variable, where reading it gave one.
    pub open spec fn shell_value(&self) -> Option<Seq<char>> {
        match self.shell {
            Ok(value) => Some(value@),
            Err(_) => None,
        }
    }
}

/// The program that `resolve` chooses: the value of the shell variable as
/// it is where it has one that is not empty, else the platform's default.
pub open spec fn resolved_program(platform: Platform, value: Option<Seq<char>>) -> Seq<char> {
    match value {
        Some(program) => if program.len() > 0 {
            program
        } else {
            platform.default_program()
        },
        None => platform.default_program(),
    }
}

/// Why `resolve` falls back to the default program, if it does: reading the
/// variable failed, or it gave an empty value.
pub open spec fn fallback_of(shell: Result<String, VariableError>) -> Option<VariableError> {
    match shell {
        Ok(value) => if value@.len() > 0 {
            None
        } else {
            Some(VariableError::Empty)
        },
        Err(e) => Some(e),
    }
}

/// The shell program: the variable's value as it is, or the platform's
/// default where the variable gave none or an empty one.
pub fn parse_program(environment: &Environment) -> (program: String)
    ensures
        program@ == resolved_program(environment.platform, environment.shell_value()),
        program@.len() > 0,
{
    proof {
        reveal_strlit("/bin/sh");
        reveal_strlit("cmd.exe");
    }
    match &environment.shell {
        Ok(value) => if value.as_str().is_empty() {
            String::from_str(Metadata::of(environment.platform).program)
        } else {
            value.clone()
        },
        Err(_) => String::from_str(Metadata::of(environment.platform).program),
    }
}

/// A shell program with the arguments that precede a script.
#[derive(Debug)]
pub struct ResolvedShell {
    pub program: String,
    pub args: Vec<&'static str>,
}

/// Chooses the shell for `environment`. Always gives a usable shell: the
/// program is never empty, and the arguments are the platform's own,
/// whatever the variable holds.
pub fn resolve(environment: &Environment) -> (shell: ResolvedShell)
    ensures
        shell.program@ == resolved_program(environment.platform, environment.shell_value()),
        shell.program@.len() > 0,
        slices_view(shell.args@) == environment.platform.default_args(),
{
    ResolvedShell {
        program: parse_program(environment),
        args: Metadata::of(environment.platform).args,
    }
}

/// Resolving gives a usable shell whatever the environment holds: the
/// variable's value where it has one that is not empty, and the platform's
/// default program where the variable is unset, unreadable or empty. The
/// program is never empty, and the arguments never depend on the variable.
pub proof fn resolve_never_fails(platform: Platform, value: Option<Seq<char>>)
    ensures
        value is None ==> resolved_program(platform, value) == platform.default_program(),
        value == Some(Seq::<char>::empty()) ==> resolved_program(platform, value)
            == platform.default_program(),
        value matches Some(program) ==> program.len() > 0 ==> resolved_program(platform, value)
            == program,
        resolved_program(platform, value).len() > 0,
        platform.default_args().len() > 0,
{
    reveal_strlit("/bin/sh");
    reveal_strlit("cmd.exe");
}

/// The reason to report when `resolve` fell back to the default program, if it did.
pub fn fallback_reason(environment: &Environment) -> (reason: Option<VariableError>)
    ensures
        reason == fallback_of(environment.shell),
{
    match &environment.shell {
        Ok(value) => if value.as_str().is_empty() {
            Some(VariableError::Empty)
        } else {
            None
        },
        Err(e) => Some(*e),
    }
}

} // verus!
