use vstd::prelude::*;
use crate::failure::Failure;
use crate::position::Coordinate;
use crate::controller::{decision, Action, Config};
use crate::host::{has_room, outcome, MemoryHost};

verus! {

/// No operation of `h` fails.
pub open spec fn reliable(h: MemoryHost) -> bool {
    !h.probe_fails && !h.launch_fails && !h.kill_fails && !h.write_fails && !h.delete_fails
}

/// Inside the dead zone, strictly between the two thresholds, nothing
/// changes whatever the persisted state: the decision is to keep, and an
/// invocation whose probe succeeds leaves the host exactly as it was.
pub proof fn lemma_dead_zone_keeps_state(config: Config, c: Coordinate, running: bool, h: MemoryHost)
    requires
        config.wf(),
        !c.at_most(config.show_threshold as int),
        !c.at_least(config.hide_threshold as int),
        !h.probe_fails,
    ensures
        decision(config.show_threshold as int, config.hide_threshold as int, running, c)
            == Action::Keep,
        outcome(config.show_threshold as int, config.hide_threshold as int, c, h) == (
            h,
            Ok::<Action, Failure>(Action::Keep),
        ),
{
}

/// With the companion not running and the pointer at or above the show
/// threshold, an invocation launches exactly once and creates the marker;
/// a second invocation at the same position then does nothing more.
pub proof fn lemma_show_once_then_idle(config: Config, c: Coordinate, h: MemoryHost)
    requires
        config.wf(),
        c.at_most(config.show_threshold as int),
        !h.marker,
        reliable(h),
        has_room(h),
    ensures
        ({
            let (h1, r1) = outcome(config.show_threshold as int, config.hide_threshold as int, c, h);
            &&& r1 == Ok::<Action, Failure>(Action::Show)
            &&& h1.marker
            &&& h1.launches == h.launches + 1
            &&& h1.companions == h.companions + 1
            &&& h1.terminations == h.terminations
            &&& outcome(config.show_threshold as int, config.hide_threshold as int, c, h1) == (
                h1,
                Ok::<Action, Failure>(Action::Keep),
            )
        }),
{
}

/// With the companion believed running and the pointer at or below the hide
/// threshold, the first discovered companion gets exactly one termination
/// request, none is made when no companion is found, and the marker is
/// removed without error either way.
pub proof fn lemma_hide_clears_marker(config: Config, c: Coordinate, h: MemoryHost)
    requires
        config.wf(),
        c.at_least(config.hide_threshold as int),
        h.marker,
        reliable(h),
        has_room(h),
    ensures
        ({
            let (h1, r1) = outcome(config.show_threshold as int, config.hide_threshold as int, c, h);
            &&& r1 == Ok::<Action, Failure>(Action::Hide)
            &&& !h1.marker
            &&& h1.launches == h.launches
            &&& h.companions > 0 ==> h1.terminations == h.terminations + 1 && h1.companions
                == h.companions - 1
            &&& h.companions == 0 ==> h1.terminations == h.terminations && h1.companions == 0
        }),
{
}

/// Showing and then hiding returns the marker to absent and leaves no
/// companion behind when none ran before.
pub proof fn lemma_show_hide_round_trip(config: Config, up: Coordinate, down: Coordinate, h: MemoryHost)
    requires
        config.wf(),
        up.at_most(config.show_threshold as int),
        down.at_least(config.hide_threshold as int),
        !h.marker,
        h.companions == 0,
        reliable(h),
        has_room(h),
    ensures
        ({
            let (h1, r1) = outcome(config.show_threshold as int, config.hide_threshold as int, up, h);
            let (h2, r2) = outcome(config.show_threshold as int, config.hide_threshold as int, down, h1);
            &&& r1 == Ok::<Action, Failure>(Action::Show)
            &&& r2 == Ok::<Action, Failure>(Action::Hide)
            &&& !h2.marker
            &&& h2.companions == 0
            &&& h2.launches == h.launches + 1
            &&& h2.terminations == h.terminations + 1
        }),
{
}

} // verus!
