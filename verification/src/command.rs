//! What is launched: a program and its arguments.

use vstd::prelude::*;
use vstd::string::*;
use crate::platform::strings_view;
use crate::text::{debug_quoted, join_words, joined, quote, quoted_words};

verus! {

/// The description of a process to launch.
#[derive(Debug, PartialEq, Eq)]
pub struct Command {
    /// The program to run.
    pub program: String,
    /// Its arguments, in order.
    pub args: Vec<String>,
    /// Whether the child's output is captured instead of inherited.
    pub capture: bool,
}

/// A command as plain text.
pub struct CommandView {
    pub program: Seq<char>,
    pub args: Seq<Seq<char>>,
    pub capture: bool,
}

impl CommandView {
    /// The command line as notifications show it: the program and each
    /// argument quoted, with one space between them.
    pub open spec fn rendered(self) -> Seq<char> {
        joined(debug_quoted(self.program), quoted_words(self.args))
    }
}

impl View for Command {
    type V = CommandView;

    open spec fn view(&self) -> CommandView {
        CommandView {
            program: self.program@,
            args: strings_view(self.args@),
            capture: self.capture,
        }
    }
}

impl Command {
    /// A command that runs `program` without arguments and inherits the
    /// caller's output.
    pub fn new(program: &str) -> (command: Command)
        ensures
            command@ == (CommandView { program: program@, args: Seq::empty(), capture: false }),
    {
        let command = Command { program: String::from_str(program), args: Vec::new(), capture: false };
        assert(command@.args =~= Seq::empty());
        command
    }

    /// Adds one argument at the end.
    pub fn arg(self, arg: &str) -> (command: Command)
        ensures
            command@ == (CommandView { args: self@.args.push(arg@), ..self@ }),
    {
        let mut command = self;
        command.args.push(String::from_str(arg));
        assert(command@.args =~= self@.args.push(arg@));
        command
    }

    /// Asks for the child's output to be captured.
    pub fn captured(self) -> (command: Command)
        ensures
            command@ == (CommandView { capture: true, ..self@ }),
    {
        let mut command = self;
        command.capture = true;
        command
    }

    /// The command line as notifications show it.
    pub fn render(&self) -> (text: String)
        ensures
            text@ == self@.rendered(),
    {
        let first = quote(self.program.as_str());
        let mut words: Vec<String> = Vec::new();
        let mut i: usize = 0;
        while i < self.args.len()
            invariant
                i <= self.args.len(),
                words@.len() == i,
                forall|k: int| 0 <= k < i ==> words@[k]@ == debug_quoted(self.args@[k]@),
            decreases self.args.len() - i,
        {
            words.push(quote(self.args[i].as_str()));
            i += 1;
        }
        assert(strings_view(words@) =~= quoted_words(self@.args));
        join_words(first.as_str(), &words)
    }
}

} // verus!
