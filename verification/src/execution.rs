//! One run of a command, as a sequence of decisions.
//!
//! An `Execution` never touches the system. It says what is to be done next
//! (a `Request`: write a notification, spawn the child, wait for it), takes
//! what came of it (an `Event`), and decides how to go on, until it gives
//! its `Verdict`. The caller does each requested step and hands back the
//! event.

use vstd::prelude::*;
use crate::command::{Command, CommandView};
use crate::config::Config;
use crate::outcome::{
    captured_view, classify, failure_of, outcome_view, Error, ErrorView, ExitStatus, Output,
    OutputView, SystemError, SystemErrorView,
};
use crate::message::{
    compose_run_failure, compose_running, compose_spawn_failure, compose_status, compose_success,
    compose_wait_failure, run_failure_message, running_message, spawn_failure_message,
    status_text, success_message, wait_failure_message,
};

verus! {

/// How a failure reaches the caller.
#[derive(Clone, Copy, Debug, PartialEq, Eq, Structural)]
pub enum Mode {
    /// The failure is returned.
    Returning,
    /// The failure aborts the caller.
    Aborting,
}

/// The severity of a notification.
#[derive(Clone, Copy, Debug, PartialEq, Eq, Structural)]
pub enum Level {
    Info,
    Error,
}

/// What is told about a run: to a log as level and message, to the sink as
/// one line.
#[derive(Debug, PartialEq, Eq)]
pub struct Notification {
    pub level: Level,
    pub message: String,
    /// The configured prefix, then the message.
    pub line: String,
}

/// A notification as plain text.
pub struct NotificationView {
    pub level: Level,
    pub message: Seq<char>,
    pub line: Seq<char>,
}

impl View for Notification {
    type V = NotificationView;

    open spec fn view(&self) -> NotificationView {
        NotificationView { level: self.level, message: self.message@, line: self.line@ }
    }
}

/// The step that the caller is to do next.
#[derive(Debug, PartialEq, Eq)]
pub enum Request {
    /// Write the notification's line to the sink and flush it, holding the
    /// sink's lock for just that long.
    Notify(Notification),
    /// Launch the command.
    Spawn,
    /// Block until the child has terminated.
    Wait,
}

/// A request over the views of what it carries.
pub enum RequestView {
    Notify(NotificationView),
    Spawn,
    Wait,
}

impl View for Request {
    type V = RequestView;

    open spec fn view(&self) -> RequestView {
        match *self {
            Request::Notify(n) => RequestView::Notify(n@),
            Request::Spawn => RequestView::Spawn,
            Request::Wait => RequestView::Wait,
        }
    }
}

/// What came of a requested step.
#[derive(Debug, PartialEq, Eq)]
pub enum Event {
    /// The notification was written, or the child was spawned.
    Completed,
    /// The step failed with this error of the system.
    Failed(SystemError),
    /// The child terminated, with its output where that was captured.
    Exited(ExitStatus, Option<Output>),
}

/// An event over the views of what it carries.
pub enum EventView {
    Completed,
    Failed(SystemErrorView),
    Exited(ExitStatus, Option<OutputView>),
}

impl View for Event {
    type V = EventView;

    open spec fn view(&self) -> EventView {
        match *self {
            Event::Completed => EventView::Completed,
            Event::Failed(e) => EventView::Failed(e@),
            Event::Exited(status, output) => EventView::Exited(status, captured_view(output)),
        }
    }
}

/// The views of a list of events, in order.
pub open spec fn events_view(events: Seq<Event>) -> Seq<EventView> {
    Seq::new(events.len(), |i: int| events[i]@)
}

/// How a run reaches its caller.
#[derive(Debug, PartialEq, Eq)]
pub enum Verdict {
    /// The caller gets this outcome.
    Return(Result<Option<Output>, Error>),
    /// The caller is aborted with this failure.
    Abort(Error),
}

/// A verdict over the views of what it carries.
pub enum VerdictView {
    Return(Result<Option<OutputView>, ErrorView>),
    Abort(ErrorView),
}

impl View for Verdict {
    type V = VerdictView;

    open spec fn view(&self) -> VerdictView {
        match *self {
            Verdict::Return(outcome) => VerdictView::Return(outcome_view(outcome)),
            Verdict::Abort(e) => VerdictView::Abort(e@),
        }
    }
}

/// Where a run stands.
pub enum StageView {
    /// The notification that the command runs is to be written.
    Announcing(NotificationView),
    /// The child is to be spawned.
    Spawning,
    /// The child runs.
    Waiting,
    /// The run failed; the notification of that is to be written.
    Reporting(NotificationView, ErrorView),
    /// The run succeeded; the notification of that is to be written.
    Confirming(NotificationView, Option<OutputView>),
}

/// A run as the contracts speak of it: what it launches, how it writes,
/// how a failure reaches the caller, and where it stands.
pub struct ExecutionView {
    pub command: CommandView,
    pub prefix: Seq<char>,
    pub mode: Mode,
    pub stage: StageView,
}

/// A run after one event, over views.
pub enum StepView {
    Next(ExecutionView),
    Done(VerdictView),
}

/// The notification with `message`, under `prefix`.
pub open spec fn notification(level: Level, prefix: Seq<char>, message: Seq<char>) -> NotificationView {
    NotificationView { level, message, line: prefix + message }
}

/// A failure aborts the caller in `Mode::Aborting`; every other outcome is returned.
pub open spec fn verdict(mode: Mode, outcome: Result<Option<OutputView>, ErrorView>) -> VerdictView {
    match outcome {
        Err(e) => if mode == Mode::Aborting {
            VerdictView::Abort(e)
        } else {
            VerdictView::Return(outcome)
        },
        Ok(_) => VerdictView::Return(outcome),
    }
}

impl ExecutionView {
    /// A run at its start: the command is announced first.
    pub open spec fn start(command: CommandView, prefix: Seq<char>, mode: Mode) -> ExecutionView {
        ExecutionView {
            command,
            prefix,
            mode,
            stage: StageView::Announcing(
                notification(Level::Info, prefix, running_message(command.rendered())),
            ),
        }
    }

    /// The same run at another stage.
    pub open spec fn at(self, stage: StageView) -> ExecutionView {
        ExecutionView { stage, ..self }
    }

    /// The step that is to be done next.
    pub open spec fn request(self) -> RequestView {
        match self.stage {
            StageView::Announcing(n) => RequestView::Notify(n),
            StageView::Spawning => RequestView::Spawn,
            StageView::Waiting => RequestView::Wait,
            StageView::Reporting(n, _) => RequestView::Notify(n),
            StageView::Confirming(n, _) => RequestView::Notify(n),
        }
    }

    /// The stage after the child has terminated with `status`.
    pub open spec fn after_exit(self, status: ExitStatus, output: Option<OutputView>) -> StageView {
        match failure_of(status) {
            None => StageView::Confirming(
                notification(Level::Info, self.prefix, success_message(self.command.rendered())),
                if self.command.capture {
                    output
                } else {
                    None
                },
            ),
            Some(error) => StageView::Reporting(
                notification(Level::Error, self.prefix, run_failure_message(self.command.rendered(), status_text(error))),
                error,
            ),
        }
    }

    /// How the run goes on after `event`.
    ///
    /// A notification that cannot be written ends the run with that failure,
    /// whatever it was to tell. A failure to spawn or to wait, and a child
    /// that did not end with exit code 0, are reported in one notification
    /// and then given as the outcome. An event that does not answer the
    /// pending request leaves the run where it is.
    pub open spec fn next(self, event: EventView) -> StepView {
        match (self.stage, event) {
            (StageView::Announcing(_), EventView::Completed) => StepView::Next(
                self.at(StageView::Spawning),
            ),
            (StageView::Spawning, EventView::Completed) => StepView::Next(
                self.at(StageView::Waiting),
            ),
            (StageView::Spawning, EventView::Failed(e)) => StepView::Next(
                self.at(
                    StageView::Reporting(
                        notification(Level::Error, self.prefix, spawn_failure_message(e.message)),
                        ErrorView::Io(e),
                    ),
                ),
            ),
            (StageView::Waiting, EventView::Failed(e)) => StepView::Next(
                self.at(
                    StageView::Reporting(
                        notification(Level::Error, self.prefix, wait_failure_message(e.message)),
                        ErrorView::Io(e),
                    ),
                ),
            ),
            (StageView::Waiting, EventView::Exited(status, output)) => StepView::Next(
                self.at(self.after_exit(status, output)),
            ),
            (StageView::Reporting(_, error), EventView::Completed) => StepView::Done(
                verdict(self.mode, Err(error)),
            ),
            (StageView::Confirming(_, output), EventView::Completed) => StepView::Done(
                verdict(self.mode, Ok(output)),
            ),
            (StageView::Announcing(_), EventView::Failed(e)) => StepView::Done(
                verdict(self.mode, Err(ErrorView::NotificationWriteFailure(e))),
            ),
            (StageView::Reporting(_, _), EventView::Failed(e)) => StepView::Done(
                verdict(self.mode, Err(ErrorView::NotificationWriteFailure(e))),
            ),
            (StageView::Confirming(_, _), EventView::Failed(e)) => StepView::Done(
                verdict(self.mode, Err(ErrorView::NotificationWriteFailure(e))),
            ),
            _ => StepView::Next(self),
        }
    }
}

impl VerdictView {
    /// The outcome that the verdict carries, however it reaches the caller.
    pub open spec fn outcome(self) -> Result<Option<OutputView>, ErrorView> {
        match self {
            VerdictView::Return(outcome) => outcome,
            VerdictView::Abort(e) => Err(e),
        }
    }
}

impl ExecutionView {
    /// What holds of every run at every stage: a pending notification
    /// carries the prefix before its message; only failures are told at the
    /// level of an error, each in the words of its kind; and output is kept
    /// only for a command that asks for capture.
    pub open spec fn well_formed(self) -> bool {
        match self.stage {
            StageView::Announcing(n) => n == notification(
                Level::Info,
                self.prefix,
                running_message(self.command.rendered()),
            ),
            StageView::Spawning => true,
            StageView::Waiting => true,
            StageView::Reporting(n, error) => {
                &&& n.level == Level::Error
                &&& n.line == self.prefix + n.message
                &&& match error {
                    ErrorView::Io(e) => n.message == spawn_failure_message(e.message) || n.message
                        == wait_failure_message(e.message),
                    ErrorView::NotificationWriteFailure(_) => false,
                    _ => n.message == run_failure_message(self.command.rendered(), status_text(error)),
                }
            },
            StageView::Confirming(n, output) => {
                &&& n == notification(Level::Info, self.prefix, success_message(self.command.rendered()))
                &&& output is Some ==> self.command.capture
            },
        }
    }

    /// How far the run has come.
    pub open spec fn progress(self) -> nat {
        match self.stage {
            StageView::Announcing(_) => 0,
            StageView::Spawning => 1,
            StageView::Waiting => 2,
            StageView::Reporting(_, _) => 3,
            StageView::Confirming(_, _) => 3,
        }
    }

    /// The same run in another mode.
    pub open spec fn in_mode(self, mode: Mode) -> ExecutionView {
        ExecutionView { mode, ..self }
    }

    /// The run after `events`, taken one after the other. Once the verdict
    /// is given, the events that follow are not looked at.
    pub open spec fn run(self, events: Seq<EventView>) -> StepView
        decreases events.len(),
    {
        if events.len() == 0 {
            StepView::Next(self)
        } else {
            match self.next(events.first()) {
                StepView::Done(v) => StepView::Done(v),
                StepView::Next(after) => after.run(events.drop_first()),
            }
        }
    }

    /// Whether a notification of failure is the pending request.
    pub open spec fn is_reporting(self) -> bool {
        self.stage is Reporting
    }

    /// How many times, over `events`, the run came to ask for a notification
    /// of failure.
    pub open spec fn reports(self, events: Seq<EventView>) -> nat
        decreases events.len(),
    {
        if events.len() == 0 {
            0
        } else {
            match self.next(events.first()) {
                StepView::Done(_) => 0,
                StepView::Next(after) => after.reports(events.drop_first()) + if after.is_reporting()
                    && !self.is_reporting() {
                    1nat
                } else {
                    0nat
                },
            }
        }
    }
}

#[derive(Debug)]
enum Stage {
    Announcing(Notification),
    Spawning,
    Waiting,
    Reporting(Notification, Error),
    Confirming(Notification, Option<Output>),
}

impl View for Stage {
    type V = StageView;

    closed spec fn view(&self) -> StageView {
        match *self {
            Stage::Announcing(n) => StageView::Announcing(n@),
            Stage::Spawning => StageView::Spawning,
            Stage::Waiting => StageView::Waiting,
            Stage::Reporting(n, e) => StageView::Reporting(n@, e@),
            Stage::Confirming(n, output) => StageView::Confirming(n@, captured_view(output)),
        }
    }
}

/// One run of a command.
#[derive(Debug)]
pub struct Execution {
    command: Command,
    config: Config,
    mode: Mode,
    stage: Stage,
}

impl View for Execution {
    type V = ExecutionView;

    closed spec fn view(&self) -> ExecutionView {
        ExecutionView {
            command: self.command@,
            prefix: self.config.prefix@,
            mode: self.mode,
            stage: self.stage@,
        }
    }
}

/// A run after one event: it goes on, or it has its verdict.
#[derive(Debug)]
pub enum Step {
    Next(Execution),
    Done(Verdict),
}

impl View for Step {
    type V = StepView;

    open spec fn view(&self) -> StepView {
        match *self {
            Step::Next(execution) => StepView::Next(execution@),
            Step::Done(verdict) => StepView::Done(verdict@),
        }
    }
}

fn notify(level: Level, config: &Config, message: String) -> (n: Notification)
    ensures
        n@ == notification(level, config.prefix@, message@),
{
    let line = config.line(message.as_str());
    Notification { level, message, line }
}

fn copy_notification(n: &Notification) -> (copy: Notification)
    ensures
        copy@ == n@,
{
    Notification { level: n.level, message: n.message.clone(), line: n.line.clone() }
}

fn decide(mode: Mode, outcome: Result<Option<Output>, Error>) -> (v: Verdict)
    ensures
        v@ == verdict(mode, outcome_view(outcome)),
{
    match outcome {
        Err(e) => match mode {
            Mode::Aborting => Verdict::Abort(e),
            Mode::Returning => Verdict::Return(Err(e)),
        },
        Ok(output) => Verdict::Return(Ok(output)),
    }
}

impl Execution {
    #[verifier::type_invariant]
    spec fn inv(self) -> bool {
        self@.well_formed()
    }

    /// Begins a run of `command` under `config`.
    pub fn start(command: Command, config: Config, mode: Mode) -> (execution: Execution)
        ensures
            execution@ == ExecutionView::start(command@, config.prefix@, mode),
    {
        let message = compose_running(command.render().as_str());
        let announcement = notify(Level::Info, &config, message);
        Execution { command, config, mode, stage: Stage::Announcing(announcement) }
    }

    /// The command that this run launches.
    pub fn command(&self) -> (command: &Command)
        ensures
            command@ == self@.command,
    {
        &self.command
    }

    /// How a failure of this run reaches the caller.
    pub fn mode(&self) -> (mode: Mode)
        ensures
            mode == self@.mode,
    {
        self.mode
    }

    /// The step that is to be done next.
    pub fn request(&self) -> (request: Request)
        ensures
            request@ == self@.request(),
            self@.well_formed(),
    {
        proof {
            use_type_invariant(self);
        }
        match &self.stage {
            Stage::Announcing(n) => Request::Notify(copy_notification(n)),
            Stage::Spawning => Request::Spawn,
            Stage::Waiting => Request::Wait,
            Stage::Reporting(n, _) => Request::Notify(copy_notification(n)),
            Stage::Confirming(n, _) => Request::Notify(copy_notification(n)),
        }
    }

    fn exited(&self, status: ExitStatus, output: Option<Output>) -> (stage: Stage)
        ensures
            stage@ == self@.after_exit(status, captured_view(output)),
            self@.at(stage@).well_formed(),
    {
        match classify(status) {
            Ok(_) => {
                let message = compose_success(self.command.render().as_str());
                let kept = if self.command.capture {
                    output
                } else {
                    None
                };
                Stage::Confirming(notify(Level::Info, &self.config, message), kept)
            },
            Err(error) => {
                let message = compose_run_failure(
                    self.command.render().as_str(),
                    compose_status(&error).as_str(),
                );
                Stage::Reporting(notify(Level::Error, &self.config, message), error)
            },
        }
    }

    /// Takes what came of the pending request and decides how the run goes on.
    pub fn step(self, event: Event) -> (step: Step)
        ensures
            step@ == self@.next(event@),
    {
        proof {
            use_type_invariant(&self);
        }
        let Execution { command, config, mode, stage } = self;
        match (stage, event) {
            (Stage::Announcing(_), Event::Completed) => Step::Next(
                Execution { command, config, mode, stage: Stage::Spawning },
            ),
            (Stage::Spawning, Event::Completed) => Step::Next(
                Execution { command, config, mode, stage: Stage::Waiting },
            ),
            (Stage::Spawning, Event::Failed(e)) => {
                let message = compose_spawn_failure(e.message.as_str());
                let report = notify(Level::Error, &config, message);
                Step::Next(
                    Execution { command, config, mode, stage: Stage::Reporting(report, Error::Io(e)) },
                )
            },
            (Stage::Waiting, Event::Failed(e)) => {
                let message = compose_wait_failure(e.message.as_str());
                let report = notify(Level::Error, &config, message);
                Step::Next(
                    Execution { command, config, mode, stage: Stage::Reporting(report, Error::Io(e)) },
                )
            },
            (Stage::Waiting, Event::Exited(status, output)) => {
                let waiting = Execution { command, config, mode, stage: Stage::Waiting };
                let stage = waiting.exited(status, output);
                let Execution { command, config, mode, stage: _ } = waiting;
                Step::Next(Execution { command, config, mode, stage })
            },
            (Stage::Reporting(_, error), Event::Completed) => Step::Done(decide(mode, Err(error))),
            (Stage::Confirming(_, output), Event::Completed) => Step::Done(
                decide(mode, Ok(output)),
            ),
            (Stage::Announcing(_), Event::Failed(e)) => Step::Done(
                decide(mode, Err(Error::NotificationWriteFailure(e))),
            ),
            (Stage::Reporting(_, _), Event::Failed(e)) => Step::Done(
                decide(mode, Err(Error::NotificationWriteFailure(e))),
            ),
            (Stage::Confirming(_, _), Event::Failed(e)) => Step::Done(
                decide(mode, Err(Error::NotificationWriteFailure(e))),
            ),
            (stage, _) => Step::Next(Execution { command, config, mode, stage }),
        }
    }

    /// Takes `events` one after the other, as far as the run goes: to its
    /// verdict, after which the events that are left are dropped, or to the
    /// end of `events`.
    pub fn feed(self, events: Vec<Event>) -> (step: Step)
        ensures
            step@ == self@.run(events_view(events@)),
    {
        let ghost whole = self@.run(events_view(events@));
        let mut execution = self;
        let mut rest = events;
        while rest.len() > 0
            invariant
                whole == self@.run(events_view(events@)),
                whole == execution@.run(events_view(rest@)),
            decreases rest.len(),
        {
            let ghost before = events_view(rest@);
            let event = rest.remove(0);
            proof {
                assert(before.first() == event@);
                assert(events_view(rest@) =~= before.drop_first());
            }
            match execution.step(event) {
                Step::Done(verdict) => {
                    return Step::Done(verdict);
                },
                Step::Next(next) => {
                    execution = next;
                },
            }
        }
        Step::Next(execution)
    }
}

} // verus!
