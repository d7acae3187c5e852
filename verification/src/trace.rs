//! What holds of whole runs, whatever events they are handed.

use vstd::prelude::*;
use crate::command::CommandView;
use crate::execution::{
    notification, verdict, EventView, ExecutionView, Level, Mode,
    RequestView, StageView, StepView, VerdictView,
};
use crate::message::spawn_failure_message;
use crate::outcome::{failure_of, ErrorView, ExitStatus, OutputView, SystemErrorView};

verus! {

/// A run is well formed at its start and stays so, whatever events it is handed.
pub proof fn run_stays_well_formed(
    command: CommandView,
    prefix: Seq<char>,
    mode: Mode,
    events: Seq<EventView>,
)
    ensures
        ExecutionView::start(command, prefix, mode).well_formed(),
        ExecutionView::start(command, prefix, mode).run(events) matches StepView::Next(after)
            ==> after.well_formed(),
{
    lemma_well_formed(ExecutionView::start(command, prefix, mode), events);
}

proof fn lemma_well_formed(s: ExecutionView, events: Seq<EventView>)
    requires
        s.well_formed(),
    ensures
        s.run(events) matches StepView::Next(after) ==> after.well_formed(),
    decreases events.len(),
{
    if events.len() > 0 {
        match s.next(events.first()) {
            StepView::Done(_) => {},
            StepView::Next(after) => {
                lemma_well_formed(after, events.drop_first());
            },
        }
    }
}

/// The steps come in their order: the child is spawned only once the
/// announcement is written, waited for only once it is spawned, and the end
/// of the run is told only after a spawn, a wait or the child has ended.
pub proof fn steps_come_in_order(s: ExecutionView, event: EventView)
    ensures
        s.next(event) matches StepView::Next(after) ==> after == s || match after.stage {
            StageView::Announcing(_) => false,
            StageView::Spawning => s.stage is Announcing && event is Completed,
            StageView::Waiting => s.stage is Spawning && event is Completed,
            StageView::Reporting(_, _) => (s.stage is Spawning && event is Failed) || (s.stage
                is Waiting && !(event is Completed)),
            StageView::Confirming(_, _) => s.stage is Waiting && event is Exited,
        },
{
}

/// Nothing is tried twice: an event either leaves the run as it is, ends
/// it, or takes it to a later stage, from which it never comes back. The
/// command, the prefix and the mode of a run never change.
pub proof fn run_never_goes_back(s: ExecutionView, event: EventView)
    ensures
        s.next(event) matches StepView::Next(after) ==> {
            &&& after.command == s.command
            &&& after.prefix == s.prefix
            &&& after.mode == s.mode
            &&& after == s || after.progress() > s.progress()
        },
{
}

/// Every failure to spawn or to wait, and every child that did not end with
/// exit code 0, is reported exactly once before it is given as the outcome;
/// a run that succeeds reports no failure; and no run reports more than one.
/// This holds of every run from its start, whatever events it is handed.
pub proof fn failure_is_reported_once(
    command: CommandView,
    prefix: Seq<char>,
    mode: Mode,
    events: Seq<EventView>,
)
    ensures
        ExecutionView::start(command, prefix, mode).reports(events) <= 1,
        ExecutionView::start(command, prefix, mode).run(events) matches StepView::Done(v) ==> {
            &&& v.outcome() is Ok ==> ExecutionView::start(command, prefix, mode).reports(events)
                == 0
            &&& (v.outcome() matches Err(e) && !(e is NotificationWriteFailure))
                ==> ExecutionView::start(command, prefix, mode).reports(events) == 1
        },
{
    lemma_reports(ExecutionView::start(command, prefix, mode), events);
}

proof fn lemma_reports(s: ExecutionView, events: Seq<EventView>)
    ensures
        s.reports(events) + (if s.is_reporting() { 1nat } else { 0nat }) <= 1,
        s.stage is Confirming ==> s.reports(events) == 0,
        s.run(events) matches StepView::Done(v) ==> {
            &&& v == verdict(s.mode, v.outcome())
            &&& v.outcome() is Ok ==> s.reports(events) == 0 && !s.is_reporting()
            &&& s.stage is Confirming ==> !(v.outcome() matches Err(e) && !(e is NotificationWriteFailure))
            &&& (v.outcome() matches Err(e) && !(e is NotificationWriteFailure)) ==> s.reports(events)
                + (if s.is_reporting() { 1nat } else { 0nat }) == 1
        },
    decreases events.len(),
{
    if events.len() > 0 {
        match s.next(events.first()) {
            StepView::Done(_) => {},
            StepView::Next(after) => {
                lemma_reports(after, events.drop_first());
            },
        }
    }
}

/// The two modes run alike and reach the same outcome. They differ only in
/// how it reaches the caller. A run that returns never aborts its caller,
/// and a run that aborts does so exactly when the outcome is a failure.
pub proof fn modes_differ_in_verdict_only(s: ExecutionView, events: Seq<EventView>)
    ensures
        match (s.in_mode(Mode::Returning).run(events), s.in_mode(Mode::Aborting).run(events)) {
            (StepView::Next(returning), StepView::Next(aborting)) => aborting
                == returning.in_mode(Mode::Aborting) && returning == aborting.in_mode(
                Mode::Returning,
            ),
            (StepView::Done(returned), StepView::Done(aborted)) => {
                &&& returned == VerdictView::Return(aborted.outcome())
                &&& match aborted.outcome() {
                    Ok(_) => aborted == returned,
                    Err(e) => aborted == VerdictView::Abort(e),
                }
            },
            _ => false,
        },
    decreases events.len(),
{
    let r = s.in_mode(Mode::Returning);
    let a = s.in_mode(Mode::Aborting);
    if events.len() > 0 {
        match r.next(events.first()) {
            StepView::Done(_) => {},
            StepView::Next(after) => {
                assert(a.next(events.first()) == StepView::Next(after.in_mode(Mode::Aborting)));
                modes_differ_in_verdict_only(after, events.drop_first());
                assert(after.in_mode(Mode::Returning) == after);
            },
        }
    }
}

/// The events of a run on which every write and the spawn succeed and the
/// child terminates with `status`.
pub open spec fn undisturbed(status: ExitStatus, output: Option<OutputView>) -> Seq<EventView> {
    seq![
        EventView::Completed,
        EventView::Completed,
        EventView::Exited(status, output),
        EventView::Completed,
    ]
}

/// Where every write and the spawn succeed, the child's exit status alone
/// decides the outcome: success with exit code 0, with the captured output
/// if the command asks for capture; else the failure that the status stands
/// for, which is never a failure to spawn or to wait.
pub proof fn exit_status_decides(
    command: CommandView,
    prefix: Seq<char>,
    mode: Mode,
    status: ExitStatus,
    output: Option<OutputView>,
)
    ensures
        ExecutionView::start(command, prefix, mode).run(undisturbed(status, output))
            == StepView::Done(
            verdict(
                mode,
                match failure_of(status) {
                    None => Ok(
                        if command.capture {
                            output
                        } else {
                            None
                        },
                    ),
                    Some(error) => Err(error),
                },
            ),
        ),
        !(failure_of(status) matches Some(ErrorView::Io(_))),
{
    let events = undisturbed(status, output);
    let s0 = ExecutionView::start(command, prefix, mode);
    let s1 = s0.at(StageView::Spawning);
    let s2 = s0.at(StageView::Waiting);
    let s3 = s0.at(s0.after_exit(status, output));
    let e1 = events.drop_first();
    let e2 = e1.drop_first();
    let e3 = e2.drop_first();
    assert(s0.next(events.first()) == StepView::Next(s1));
    assert(s1.next(e1.first()) == StepView::Next(s2));
    assert(s2.next(e2.first()) == StepView::Next(s3));
    assert(s3.run(e3) == s3.next(e3.first()));
    assert(s2.run(e2) == s3.run(e3));
    assert(s1.run(e1) == s2.run(e2));
    assert(s0.run(events) == s1.run(e1));
}

/// A command that cannot be spawned is reported in one notification and
/// then given as a failure of the system, with the system's error.
pub proof fn spawn_failure_is_reported(
    command: CommandView,
    prefix: Seq<char>,
    mode: Mode,
    error: SystemErrorView,
)
    ensures
        ExecutionView::start(command, prefix, mode).run(
            seq![EventView::Completed, EventView::Failed(error)],
        ) matches StepView::Next(reporting) && reporting.request() == RequestView::Notify(
            notification(Level::Error, prefix, spawn_failure_message(error.message)),
        ) && reporting.next(EventView::Completed) == StepView::Done(
            verdict(mode, Err(ErrorView::Io(error))),
        ),
{
    let events = seq![EventView::Completed, EventView::Failed(error)];
    let s0 = ExecutionView::start(command, prefix, mode);
    let s1 = s0.at(StageView::Spawning);
    let e1 = events.drop_first();
    let e2 = e1.drop_first();
    assert(s0.next(events.first()) == StepView::Next(s1));
    assert(s1.next(e1.first()) matches StepView::Next(s2) && s2.run(e2) == StepView::Next(s2));
    assert(s0.run(events) == s1.run(e1));
}

/// A notification that cannot be written ends the run at once with that
/// failure, whatever the notification was to tell.
pub proof fn write_failure_ends_run(s: ExecutionView, error: SystemErrorView)
    requires
        s.request() is Notify,
    ensures
        s.next(EventView::Failed(error)) == StepView::Done(
            verdict(s.mode, Err(ErrorView::NotificationWriteFailure(error))),
        ),
{
}

} // verus!
