//! The builder: a script, bound to the shell that will run it.

use vstd::prelude::*;
use vstd::string::*;
use crate::command::{Command, CommandView};
use crate::config::{default_prefix, Config};
use crate::execution::{Execution, ExecutionView, Mode};
use crate::platform::{
    resolve, resolve_never_fails, resolved_program, slices_view, Environment, Platform,
};

verus! {

/// A script together with the shell program and the arguments that run it.
#[derive(Debug)]
pub struct Sheller {
    program: String,
    args: Vec<&'static str>,
    script: String,
}

/// A builder as plain text.
pub struct ShellerView {
    pub program: Seq<char>,
    pub args: Seq<Seq<char>>,
    pub script: Seq<char>,
}

impl ShellerView {
    /// The builder that `Sheller::new` makes of `script` on `platform`, where
    /// the shell variable has the value `shell`, or none.
    pub open spec fn of(script: Seq<char>, platform: Platform, shell: Option<Seq<char>>) -> ShellerView {
        ShellerView {
            program: resolved_program(platform, shell),
            args: platform.default_args(),
            script,
        }
    }

    /// The command that `build` makes: the shell's arguments, then the
    /// script as one more argument, untouched.
    pub open spec fn built(self) -> CommandView {
        CommandView { program: self.program, args: self.args.push(self.script), capture: false }
    }
}

impl View for Sheller {
    type V = ShellerView;

    closed spec fn view(&self) -> ShellerView {
        ShellerView { program: self.program@, args: slices_view(self.args@), script: self.script@ }
    }
}

impl Sheller {
    /// Binds `script` to the shell of `environment`: the program that the
    /// shell variable names, or the platform's default where it names none
    /// or is empty, and the platform's arguments. The script is kept as it is.
    pub fn new(script: &str, environment: &Environment) -> (sheller: Sheller)
        ensures
            sheller@ == ShellerView::of(script@, environment.platform, environment.shell_value()),
    {
        let shell = resolve(environment);
        Sheller { program: shell.program, args: shell.args, script: String::from_str(script) }
    }

    /// The command that runs the script: the shell program, its arguments,
    /// and the script as the last argument.
    pub fn build(self) -> (command: Command)
        ensures
            command@ == self@.built(),
    {
        let Sheller { program, args, script } = self;
        let mut words: Vec<String> = Vec::new();
        let mut i: usize = 0;
        while i < args.len()
            invariant
                i <= args.len(),
                words@.len() == i,
                forall|k: int| 0 <= k < i ==> words@[k]@ == args@[k]@,
            decreases args.len() - i,
        {
            words.push(String::from_str(args[i]));
            i += 1;
        }
        words.push(script);
        let command = Command { program, args: words, capture: false };
        assert(command@.args =~= self@.args.push(self@.script));
        command
    }

    /// Begins a run under the default configuration whose failure aborts the caller.
    pub fn run(self) -> (execution: Execution)
        ensures
            execution@ == ExecutionView::start(self@.built(), default_prefix(), Mode::Aborting),
    {
        self.build().run()
    }

    /// Begins a run under `config` whose failure aborts the caller.
    pub fn run_with_config(self, config: &Config) -> (execution: Execution)
        ensures
            execution@ == ExecutionView::start(self@.built(), config.prefix@, Mode::Aborting),
    {
        self.build().run_with_config(config)
    }

    /// Begins a run under the default configuration whose failure is returned.
    pub fn try_run(self) -> (execution: Execution)
        ensures
            execution@ == ExecutionView::start(self@.built(), default_prefix(), Mode::Returning),
    {
        self.build().try_run()
    }

    /// Begins a run under `config` whose failure is returned.
    pub fn try_run_with_config(self, config: &Config) -> (execution: Execution)
        ensures
            execution@ == ExecutionView::start(self@.built(), config.prefix@, Mode::Returning),
    {
        self.build().try_run_with_config(config)
    }
}

/// The shell of `environment` as a command that has no script yet: the
/// program and the platform's arguments.
pub fn new_shell_command(environment: &Environment) -> (command: Command)
    ensures
        command@ == (CommandView {
            program: resolved_program(environment.platform, environment.shell_value()),
            args: environment.platform.default_args(),
            capture: false,
        }),
{
    let shell = resolve(environment);
    let mut command = Command::new(shell.program.as_str());
    let mut i: usize = 0;
    while i < shell.args.len()
        invariant
            i <= shell.args.len(),
            command@.program == shell.program@,
            !command@.capture,
            command@.args == slices_view(shell.args@).take(i as int),
        decreases shell.args.len() - i,
    {
        command = command.arg(shell.args[i]);
        assert(slices_view(shell.args@).take(i + 1) =~= slices_view(shell.args@).take(
            i as int,
        ).push(shell.args[i as int]@));
        i += 1;
    }
    assert(slices_view(shell.args@).take(i as int) =~= slices_view(shell.args@));
    command
}

/// Runs of a command description, wherever it came from.
pub trait CommandExt: Sized {
    /// The command that a run launches.
    spec fn described(&self) -> CommandView;

    /// Begins a run under the default configuration whose failure aborts the caller.
    fn run(self) -> (execution: Execution)
        ensures
            execution@ == ExecutionView::start(self.described(), default_prefix(), Mode::Aborting),
    ;

    /// Begins a run under `config` whose failure aborts the caller.
    fn run_with_config(self, config: &Config) -> (execution: Execution)
        ensures
            execution@ == ExecutionView::start(self.described(), config.prefix@, Mode::Aborting),
    ;

    /// Begins a run under the default configuration whose failure is returned.
    fn try_run(self) -> (execution: Execution)
        ensures
            execution@ == ExecutionView::start(self.described(), default_prefix(), Mode::Returning),
    ;

    /// Begins a run under `config` whose failure is returned.
    fn try_run_with_config(self, config: &Config) -> (execution: Execution)
        ensures
            execution@ == ExecutionView::start(self.described(), config.prefix@, Mode::Returning),
    ;
}

impl CommandExt for Command {
    open spec fn described(&self) -> CommandView {
        self@
    }

    fn run(self) -> (execution: Execution) {
        self.run_with_config(&Config::default())
    }

    fn run_with_config(self, config: &Config) -> (execution: Execution) {
        Execution::start(self, config.copy(), Mode::Aborting)
    }

    fn try_run(self) -> (execution: Execution) {
        self.try_run_with_config(&Config::default())
    }

    fn try_run_with_config(self, config: &Config) -> (execution: Execution) {
        Execution::start(self, config.copy(), Mode::Returning)
    }
}

/// Whatever the script, the built command's arguments are the platform's
/// arguments followed by the script itself, and its program is the one the
/// shell variable names, or the platform's default where it names none.
pub proof fn build_appends_script(script: Seq<char>, platform: Platform, shell: Option<Seq<char>>)
    ensures
        ShellerView::of(script, platform, shell).built().args == platform.default_args() + seq![
            script,
        ],
        ShellerView::of(script, platform, shell).built().args.last() == script,
        ShellerView::of(script, platform, shell).built().program == resolved_program(
            platform,
            shell,
        ),
        shell is None ==> ShellerView::of(script, platform, shell).built().program
            == platform.default_program(),
        ShellerView::of(script, platform, shell).built().program.len() > 0,
{
    resolve_never_fails(platform, shell);
    assert(platform.default_args().push(script) =~= platform.default_args() + seq![script]);
}

} // verus!
