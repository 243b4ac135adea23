//! The decisions of the watch loop, as a state machine from what happened to
//! what to do next. The caller performs each action and reports the outcome.
use vstd::prelude::*;
use crate::event::{is_trigger, triggers, WatchEvent};

verus! {

/// Where the session stands.
#[derive(PartialEq, Eq, Structural, Clone, Copy, Debug)]
pub enum Phase {
    /// The project path has not been checked yet.
    CheckingPath,
    /// The startup validation is running.
    StartupCheck,
    /// One long-running child is alive; waiting for notifications.
    Running,
    /// A change triggered a validation, which is running; the child is still alive.
    Rechecking,
    /// The session ended with a failure; nothing more is done.
    Exited,
}

/// Why a session ended.
#[derive(PartialEq, Eq, Structural, Clone, Copy, Debug)]
pub enum ExitReason {
    /// The project path is not an existing directory.
    NotADirectory,
    /// The startup validation failed.
    CheckFailed,
}

/// What the caller is told to do.
#[derive(PartialEq, Eq, Structural, Clone, Copy, Debug)]
pub enum Action {
    /// Run the validation step to completion and report whether it succeeded.
    Validate,
    /// Subscribe to the project's notifications, then launch the long-running command.
    WatchAndLaunch,
    /// Kill the current long-running child, then launch a new one.
    Restart,
    /// Report an error of the notification stream and go on waiting.
    ReportStreamError,
    /// End the program, for this reason, with this exit status.
    Exit(ExitReason, i32),
    /// Nothing to do.
    Nothing,
}

/// What happened.
#[derive(Clone, Debug)]
pub enum Input {
    /// The project path was looked up: whether it is an existing directory.
    PathChecked(bool),
    /// The validation step finished: whether it succeeded.
    CheckFinished(bool),
    /// A notification arrived.
    Changed(WatchEvent),
    /// The notification stream signalled an error.
    StreamError,
}

/// One transition: the phase after `input`, and the action it calls for.
pub open spec fn next(phase: Phase, input: Input) -> (Phase, Action) {
    match (phase, input) {
        (Phase::CheckingPath, Input::PathChecked(true)) => (Phase::StartupCheck, Action::Validate),
        (Phase::CheckingPath, Input::PathChecked(false)) => (
            Phase::Exited,
            Action::Exit(ExitReason::NotADirectory, 1),
        ),
        (Phase::StartupCheck, Input::CheckFinished(true)) => (Phase::Running, Action::WatchAndLaunch),
        (Phase::StartupCheck, Input::CheckFinished(false)) => (
            Phase::Exited,
            Action::Exit(ExitReason::CheckFailed, 1),
        ),
        (Phase::Running, Input::Changed(ev)) => if triggers(ev) {
            (Phase::Rechecking, Action::Validate)
        } else {
            (Phase::Running, Action::Nothing)
        },
        (Phase::Running, Input::StreamError) => (Phase::Running, Action::ReportStreamError),
        (Phase::Rechecking, Input::CheckFinished(true)) => (Phase::Running, Action::Restart),
        (Phase::Rechecking, Input::CheckFinished(false)) => (Phase::Running, Action::Nothing),
        (p, _) => (p, Action::Nothing),
    }
}

/// The phase reached from `phase` through `inputs`.
pub open spec fn after(phase: Phase, inputs: Seq<Input>) -> Phase
    decreases inputs.len(),
{
    if inputs.len() == 0 {
        phase
    } else {
        next(after(phase, inputs.drop_last()), inputs.last()).0
    }
}

/// The actions called for, one per input, from `phase` through `inputs`.
pub open spec fn actions(phase: Phase, inputs: Seq<Input>) -> Seq<Action>
    decreases inputs.len(),
{
    if inputs.len() == 0 {
        seq![]
    } else {
        actions(phase, inputs.drop_last()) + seq![
            next(after(phase, inputs.drop_last()), inputs.last()).1,
        ]
    }
}

/// Long-running children launched by one action.
pub open spec fn launches(a: Action) -> nat {
    match a {
        Action::WatchAndLaunch => 1,
        Action::Restart => 1,
        _ => 0,
    }
}

/// Long-running children killed by one action.
pub open spec fn kills(a: Action) -> nat {
    match a {
        Action::Restart => 1,
        _ => 0,
    }
}

/// Children launched over a sequence of actions.
pub open spec fn launched(acts: Seq<Action>) -> nat
    decreases acts.len(),
{
    if acts.len() == 0 {
        0
    } else {
        launched(acts.drop_last()) + launches(acts.last())
    }
}

/// Children killed over a sequence of actions.
pub open spec fn killed(acts: Seq<Action>) -> nat
    decreases acts.len(),
{
    if acts.len() == 0 {
        0
    } else {
        killed(acts.drop_last()) + kills(acts.last())
    }
}

/// How many long-running children are alive in a phase.
pub open spec fn live(phase: Phase) -> nat {
    match phase {
        Phase::Running => 1,
        Phase::Rechecking => 1,
        _ => 0,
    }
}

/// The state of one session of the watch loop.
pub struct Session {
    phase: Phase,
}

impl View for Session {
    type V = Phase;

    closed spec fn view(&self) -> Phase {
        self.phase
    }
}

impl Session {

    /// A session that has not looked at the project yet. The first action is
    /// to check the project path and report it with `Input::PathChecked`.
    pub fn new() -> (s: Session)
        ensures
            s@ == Phase::CheckingPath,
    {
        Session { phase: Phase::CheckingPath }
    }

    /// The current phase.
    pub fn phase(&self) -> (p: Phase)
        ensures
            p == self@,
    {
        self.phase
    }

    /// Takes in what happened and returns what to do; the phase moves on as
    /// `next` says.
    pub fn step(&mut self, input: Input) -> (a: Action)
        ensures
            (final(self)@, a) == next(old(self)@, input),
    {
        let (p, a) = match (self.phase, input) {
            (Phase::CheckingPath, Input::PathChecked(true)) => (Phase::StartupCheck, Action::Validate),
            (Phase::CheckingPath, Input::PathChecked(false)) => (
            Phase::Exited,
            Action::Exit(ExitReason::NotADirectory, 1),
        ),
            (Phase::StartupCheck, Input::CheckFinished(true)) => (Phase::Running, Action::WatchAndLaunch),
            (Phase::StartupCheck, Input::CheckFinished(false)) => (
            Phase::Exited,
            Action::Exit(ExitReason::CheckFailed, 1),
        ),
            (Phase::Running, Input::Changed(ev)) => if is_trigger(&ev) {
                (Phase::Rechecking, Action::Validate)
            } else {
                (Phase::Running, Action::Nothing)
            },
            (Phase::Running, Input::StreamError) => (Phase::Running, Action::ReportStreamError),
            (Phase::Rechecking, Input::CheckFinished(true)) => (Phase::Running, Action::Restart),
            (Phase::Rechecking, Input::CheckFinished(false)) => (Phase::Running, Action::Nothing),
            (p, _) => (p, Action::Nothing),
        };
        self.phase = p;
        a
    }
}

} // verus!
