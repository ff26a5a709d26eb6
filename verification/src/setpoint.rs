//! The reference (set-point) signal: a pure mapping from a time index to the
//! desired output value, pluggable into the driver.

use vstd::prelude::*;

verus! {

/// A pure reference signal. `at` must return exactly `spec_at`, so two calls
/// with the same time index always agree, and the order of calls cannot
/// matter: an implementer has no way to thread state through `&self`.
pub trait SetPointFn: Sized {
    /// The reference value at time `t`.
    spec fn spec_at(&self, t: int) -> int;

    /// Returns the reference value at time `t`.
    fn at(&self, t: i64) -> (r: i64)
        ensures
            r == self.spec_at(t as int),
    ;
}

/// The canonical reference schedule: zero for the first hundred steps, then
/// fifty up to and including step three hundred, and ten afterwards (and for
/// negative times, which the driver never asks for).
#[derive(Clone, Copy, Debug, PartialEq, Eq, Structural)]
pub struct StepSchedule {
}

impl StepSchedule {
    /// The canonical schedule.
    pub fn new() -> (r: StepSchedule)
        ensures
            r == (StepSchedule {  }),
    {
        StepSchedule {  }
    }
}

impl SetPointFn for StepSchedule {
    open spec fn spec_at(&self, t: int) -> int {
        if 0 <= t <= 99 {
            0
        } else if 100 <= t <= 300 {
            50
        } else {
            10
        }
    }

    fn at(&self, t: i64) -> (r: i64) {
        if 0 <= t && t <= 99 {
            0
        } else if 100 <= t && t <= 300 {
            50
        } else {
            10
        }
    }
}

} // verus!
