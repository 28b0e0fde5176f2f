use vstd::prelude::*;
use crate::failure::Failure;
use crate::position::Coordinate;

verus! {

/// What one invocation does to the companion.
#[derive(Debug, Clone, Copy, PartialEq, Eq, Structural)]
pub enum Action {
    /// Leave the companion and the marker as they are.
    Keep,
    /// Launch the companion and create the marker.
    Show,
    /// Terminate the companion, if one is found, and remove the marker.
    Hide,
}

/// Where the marker lives, which process is the companion, and the two
/// thresholds around the dead zone.
pub struct Config {
    pub state_path: String,
    pub companion: String,
    pub show_threshold: i64,
    pub hide_threshold: i64,
}

impl Config {
    /// The dead zone between the thresholds is not empty.
    pub open spec fn wf(&self) -> bool {
        self.show_threshold < self.hide_threshold
    }

    /// The configuration that the program runs with.
    pub fn standard() -> (r: Config)
        ensures
            r.wf(),
            r.state_path@ == "/home/nicholas/.waybar_is_running"@,
            r.companion@ == "waybar"@,
            r.show_threshold == 10,
            r.hide_threshold == 100,
    {
        Config {
            state_path: "/home/nicholas/.waybar_is_running".to_owned(),
            companion: "waybar".to_owned(),
            show_threshold: 10,
            hide_threshold: 100,
        }
    }

    /// A configuration of one's own; `None` when the show threshold is not
    /// strictly below the hide threshold.
    pub fn new(state_path: String, companion: String, show_threshold: i64, hide_threshold: i64)
        -> (r: Option<Config>)
        ensures
            show_threshold >= hide_threshold <==> r is None,
            r matches Some(c) ==> c.wf() && c.state_path == state_path && c.companion == companion
                && c.show_threshold == show_threshold && c.hide_threshold == hide_threshold,
    {
        if show_threshold < hide_threshold {
            Some(Config { state_path, companion, show_threshold, hide_threshold })
        } else {
            None
        }
    }
}

/// The hysteresis table: from the persisted state and the pointer position
/// to the action taken.
pub open spec fn decision(show: int, hide: int, running: bool, c: Coordinate) -> Action {
    if running {
        if c.at_least(hide) { Action::Hide } else { Action::Keep }
    } else {
        if c.at_most(show) { Action::Show } else { Action::Keep }
    }
}

/// Decides what to do, given whether the companion is believed running.
pub fn decide(config: &Config, running: bool, c: &Coordinate) -> (r: Action)
    requires
        config.wf(),
    ensures
        r == decision(config.show_threshold as int, config.hide_threshold as int, running, *c),
{
    if running {
        if c.is_at_least(config.hide_threshold) { Action::Hide } else { Action::Keep }
    } else {
        if c.is_at_most(config.show_threshold) { Action::Show } else { Action::Keep }
    }
}

/// A piece of outside work that an invocation asks its host to perform.
#[derive(Debug, Clone, Copy, PartialEq, Eq, Structural)]
pub enum Task {
    /// Check whether the marker exists.
    ProbeMarker,
    /// Start a detached companion.
    Launch,
    /// Look the companion up by name in the process table.
    Discover,
    /// Ask the first discovered companion to end.
    Terminate,
    /// Create the (empty) marker.
    SetMarker,
    /// Remove the marker.
    ClearMarker,
}

/// What the host reports back after performing a task.
#[derive(Debug, Clone, Copy, PartialEq, Eq, Structural)]
pub enum Report {
    /// The marker exists (`true`) or not.
    Marker(bool),
    /// A companion process was found (`true`) or not.
    Found(bool),
    /// The task was carried out.
    Done,
    /// The task could not be carried out.
    Failed,
}

/// Which reports a task can give: discovery always answers, the probe
/// answers or fails, and every other task succeeds or fails.
pub open spec fn report_fits(t: Task, rep: Report) -> bool {
    match t {
        Task::ProbeMarker => rep is Marker || rep is Failed,
        Task::Discover => rep is Found,
        _ => rep is Done || rep is Failed,
    }
}

/// Where an invocation stands: more work to perform, or its end.
#[derive(Debug, Clone, Copy, PartialEq, Eq, Structural)]
pub enum Step {
    Perform(Task),
    Finish(Action),
    Abort(Failure),
}

/// The step that follows `t` once the host has reported `rep`.
pub open spec fn next_step(show: int, hide: int, c: Coordinate, t: Task, rep: Report) -> Step {
    match (t, rep) {
        (Task::ProbeMarker, Report::Marker(running)) => match decision(show, hide, running, c) {
            Action::Keep => Step::Finish(Action::Keep),
            Action::Show => Step::Perform(Task::Launch),
            Action::Hide => Step::Perform(Task::Discover),
        },
        (Task::ProbeMarker, _) => Step::Abort(Failure::StateProbeFailure),
        (Task::Launch, Report::Done) => Step::Perform(Task::SetMarker),
        (Task::Launch, _) => Step::Abort(Failure::LaunchFailure),
        (Task::SetMarker, Report::Done) => Step::Finish(Action::Show),
        (Task::SetMarker, _) => Step::Abort(Failure::MarkerWriteFailure),
        (Task::Discover, Report::Found(true)) => Step::Perform(Task::Terminate),
        (Task::Discover, _) => Step::Perform(Task::ClearMarker),
        (Task::Terminate, Report::Done) => Step::Perform(Task::ClearMarker),
        (Task::Terminate, _) => Step::Abort(Failure::ProcessKillFailure),
        (Task::ClearMarker, Report::Done) => Step::Finish(Action::Hide),
        (Task::ClearMarker, _) => Step::Abort(Failure::MarkerDeleteFailure),
    }
}

/// Moves an invocation on after its host performed `t` and reported `rep`.
/// An invocation starts with `Step::Perform(Task::ProbeMarker)`.
pub fn advance(config: &Config, c: &Coordinate, t: Task, rep: Report) -> (r: Step)
    requires
        config.wf(),
        report_fits(t, rep),
    ensures
        r == next_step(config.show_threshold as int, config.hide_threshold as int, *c, t, rep),
        r == Step::Perform(Task::Discover) ==> t == Task::ProbeMarker && rep == Report::Marker(true)
            && c.at_least(config.hide_threshold as int),
{
    match t {
        Task::ProbeMarker => match rep {
            Report::Marker(running) => match decide(config, running, c) {
                Action::Keep => Step::Finish(Action::Keep),
                Action::Show => Step::Perform(Task::Launch),
                Action::Hide => Step::Perform(Task::Discover),
            },
            _ => Step::Abort(Failure::StateProbeFailure),
        },
        Task::Launch => match rep {
            Report::Done => Step::Perform(Task::SetMarker),
            _ => Step::Abort(Failure::LaunchFailure),
        },
        Task::SetMarker => match rep {
            Report::Done => Step::Finish(Action::Show),
            _ => Step::Abort(Failure::MarkerWriteFailure),
        },
        Task::Discover => match rep {
            Report::Found(true) => Step::Perform(Task::Terminate),
            _ => Step::Perform(Task::ClearMarker),
        },
        Task::Terminate => match rep {
            Report::Done => Step::Perform(Task::ClearMarker),
            _ => Step::Abort(Failure::ProcessKillFailure),
        },
        Task::ClearMarker => match rep {
            Report::Done => Step::Finish(Action::Hide),
            _ => Step::Abort(Failure::MarkerDeleteFailure),
        },
    }
}

} // verus!
