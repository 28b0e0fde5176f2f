use vstd::prelude::*;
use crate::failure::Failure;
use crate::position::Coordinate;
use crate::controller::{advance, decision, next_step, report_fits, Action, Config, Report, Step, Task};

verus! {

/// An in-memory stand-in for the file system and the process table: the
/// marker as a flag, the running companions as a count, how many launches
/// and termination requests were made, and which operations fail.
#[derive(Debug, Clone, Copy, PartialEq, Eq, Structural)]
pub struct MemoryHost {
    pub marker: bool,
    pub companions: u64,
    pub launches: u64,
    pub terminations: u64,
    pub probe_fails: bool,
    pub launch_fails: bool,
    pub kill_fails: bool,
    pub write_fails: bool,
    pub delete_fails: bool,
}

/// The host after performing `t`, and what it reports.
pub open spec fn performed(h: MemoryHost, t: Task) -> (MemoryHost, Report) {
    match t {
        Task::ProbeMarker => if h.probe_fails {
            (h, Report::Failed)
        } else {
            (h, Report::Marker(h.marker))
        },
        Task::Launch => if h.launch_fails {
            (h, Report::Failed)
        } else {
            (
                MemoryHost {
                    launches: (h.launches + 1) as u64,
                    companions: (h.companions + 1) as u64,
                    ..h
                },
                Report::Done,
            )
        },
        Task::Discover => (h, Report::Found(h.companions > 0)),
        Task::Terminate => if h.kill_fails || h.companions == 0 {
            (h, Report::Failed)
        } else {
            (
                MemoryHost {
                    terminations: (h.terminations + 1) as u64,
                    companions: (h.companions - 1) as u64,
                    ..h
                },
                Report::Done,
            )
        },
        Task::SetMarker => if h.write_fails {
            (h, Report::Failed)
        } else {
            (MemoryHost { marker: true, ..h }, Report::Done)
        },
        Task::ClearMarker => if h.delete_fails {
            (h, Report::Failed)
        } else {
            (MemoryHost { marker: false, ..h }, Report::Done)
        },
    }
}

/// How many more tasks can follow a step at most.
pub open spec fn rank(s: Step) -> nat {
    match s {
        Step::Perform(Task::ProbeMarker) => 4,
        Step::Perform(Task::Discover) => 3,
        Step::Perform(Task::Launch) => 2,
        Step::Perform(Task::Terminate) => 2,
        Step::Perform(_) => 1,
        _ => 0,
    }
}

/// Runs an invocation on `h` from step `s` to its end: the final host and
/// the invocation's result.
pub open spec fn run(show: int, hide: int, c: Coordinate, s: Step, h: MemoryHost) -> (
    MemoryHost,
    Result<Action, Failure>,
)
    decreases rank(s),
{
    match s {
        Step::Finish(a) => (h, Ok(a)),
        Step::Abort(f) => (h, Err(f)),
        Step::Perform(t) => {
            let (h2, rep) = performed(h, t);
            run(show, hide, c, next_step(show, hide, c, t, rep), h2)
        },
    }
}

/// A whole invocation on `h`, case by case: the probe, then either nothing,
/// a launch followed by creating the marker, or a termination of the first
/// companion (when one is found) followed by removing the marker. Each
/// failure stops the invocation with the host as the failed task left it.
pub open spec fn outcome(show: int, hide: int, c: Coordinate, h: MemoryHost) -> (
    MemoryHost,
    Result<Action, Failure>,
) {
    if h.probe_fails {
        (h, Err(Failure::StateProbeFailure))
    } else {
        match decision(show, hide, h.marker, c) {
            Action::Keep => (h, Ok(Action::Keep)),
            Action::Show => if h.launch_fails {
                (h, Err(Failure::LaunchFailure))
            } else {
                let up = MemoryHost {
                    launches: (h.launches + 1) as u64,
                    companions: (h.companions + 1) as u64,
                    ..h
                };
                if h.write_fails {
                    (up, Err(Failure::MarkerWriteFailure))
                } else {
                    (MemoryHost { marker: true, ..up }, Ok(Action::Show))
                }
            },
            Action::Hide => if h.companions > 0 && h.kill_fails {
                (h, Err(Failure::ProcessKillFailure))
            } else {
                let down = if h.companions > 0 {
                    MemoryHost {
                        terminations: (h.terminations + 1) as u64,
                        companions: (h.companions - 1) as u64,
                        ..h
                    }
                } else {
                    h
                };
                if h.delete_fails {
                    (down, Err(Failure::MarkerDeleteFailure))
                } else {
                    (MemoryHost { marker: false, ..down }, Ok(Action::Hide))
                }
            },
        }
    }
}

/// The counters of `h` leave room for one more launch and one more
/// termination.
pub open spec fn has_room(h: MemoryHost) -> bool {
    h.launches < u64::MAX && h.companions < u64::MAX && h.terminations < u64::MAX
}

proof fn lemma_run_is_outcome(show: int, hide: int, c: Coordinate, h: MemoryHost)
    requires
        has_room(h),
    ensures
        run(show, hide, c, Step::Perform(Task::ProbeMarker), h) == outcome(show, hide, c, h),
{
    reveal_with_fuel(run, 5);
}

impl MemoryHost {
    /// Performs `t` on this host and reports how it went.
    pub fn perform(&mut self, t: Task) -> (rep: Report)
        requires
            t == Task::Launch ==> old(self).launches < u64::MAX && old(self).companions
                < u64::MAX,
            t == Task::Terminate ==> old(self).terminations < u64::MAX,
        ensures
            (*final(self), rep) == performed(*old(self), t),
            report_fits(t, rep),
    {
        match t {
            Task::ProbeMarker => if self.probe_fails {
                Report::Failed
            } else {
                Report::Marker(self.marker)
            },
            Task::Launch => if self.launch_fails {
                Report::Failed
            } else {
                self.launches = self.launches + 1;
                self.companions = self.companions + 1;
                Report::Done
            },
            Task::Discover => Report::Found(self.companions > 0),
            Task::Terminate => if self.kill_fails || self.companions == 0 {
                Report::Failed
            } else {
                self.terminations = self.terminations + 1;
                self.companions = self.companions - 1;
                Report::Done
            },
            Task::SetMarker => if self.write_fails {
                Report::Failed
            } else {
                self.marker = true;
                Report::Done
            },
            Task::ClearMarker => if self.delete_fails {
                Report::Failed
            } else {
                self.marker = false;
                Report::Done
            },
        }
    }
}

/// Runs one whole invocation for the pointer position `c` against `host`,
/// performing each task that the state machine asks for in turn.
pub fn invoke(config: &Config, c: &Coordinate, host: &mut MemoryHost) -> (r: Result<Action, Failure>)
    requires
        config.wf(),
        has_room(*old(host)),
    ensures
        (*final(host), r) == outcome(
            config.show_threshold as int,
            config.hide_threshold as int,
            *c,
            *old(host),
        ),
{
    let ghost show = config.show_threshold as int;
    let ghost hide = config.hide_threshold as int;
    let ghost h0 = *host;
    proof {
        lemma_run_is_outcome(show, hide, *c, h0);
    }
    let mut step = Step::Perform(Task::ProbeMarker);
    loop
        invariant
            config.wf(),
            show == config.show_threshold as int,
            hide == config.hide_threshold as int,
            h0 == *old(host),
            has_room(h0),
            run(show, hide, *c, step, *host) == outcome(show, hide, *c, h0),
            step is Perform && step->Perform_0 != Task::SetMarker && step->Perform_0
                != Task::ClearMarker ==> *host == h0,
        decreases rank(step),
    {
        match step {
            Step::Perform(t) => {
                let rep = host.perform(t);
                step = advance(config, c, t, rep);
            },
            Step::Finish(a) => {
                return Ok(a);
            },
            Step::Abort(f) => {
                return Err(f);
            },
        }
    }
}

} // verus!
