use vstd::prelude::*;
use crate::failure::Failure;

verus! {

/// The vertical pointer position, held exactly as far as any whole-pixel
/// threshold can tell: `y_floor` is the largest integer not above `y`, and
/// `y_fraction` says whether `y` lies strictly above it. The horizontal
/// position plays no part in any decision and is not kept.
#[derive(Debug, Clone, Copy, PartialEq, Eq, Structural)]
pub struct Coordinate {
    pub y_floor: i64,
    pub y_fraction: bool,
}

impl Coordinate {
    /// `y <= t`.
    pub open spec fn at_most(self, t: int) -> bool {
        self.y_floor < t || (self.y_floor == t && !self.y_fraction)
    }

    /// `y >= t`.
    pub open spec fn at_least(self, t: int) -> bool {
        self.y_floor >= t
    }

    /// Whether the pointer lies at or above the line `t` (`y <= t`).
    pub fn is_at_most(&self, t: i64) -> (r: bool)
        ensures
            r == self.at_most(t as int),
    {
        self.y_floor < t || (self.y_floor == t && !self.y_fraction)
    }

    /// Whether the pointer lies at or below the line `t` (`y >= t`).
    pub fn is_at_least(&self, t: i64) -> (r: bool)
        ensures
            r == self.at_least(t as int),
    {
        self.y_floor >= t
    }
}

/// Picks the payload out of the program's arguments, the first after the
/// program's own name.
pub fn payload_argument(args: Vec<String>) -> (r: Result<String, Failure>)
    ensures
        args@.len() >= 2 ==> r == Ok::<String, Failure>(args@[1]),
        args@.len() < 2 ==> r == Err::<String, Failure>(Failure::MissingArgument),
{
    let mut args = args;
    if args.len() < 2 {
        Err(Failure::MissingArgument)
    } else {
        Ok(args.swap_remove(1))
    }
}

} // verus!
