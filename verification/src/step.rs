//! Points on the search line and the bracket that the search maintains.

use crate::number::Double;
use vstd::prelude::*;

verus! {

/// One trial step: where it lies on the line, the objective there and the
/// derivative along the line there.
#[derive(Clone, Copy, Debug, PartialEq, Eq)]
pub struct Step {
    pub position: Double,
    pub value: Double,
    pub slope: Double,
}

impl Step {
    pub fn new(position: Double, value: Double, slope: Double) -> (s: Step)
        ensures
            s == (Step { position, value, slope }),
    {
        Step { position, value, slope }
    }
}

/// The interval of uncertainty: the best point so far, the other end point,
/// whether the two are known to enclose a minimizer, and the widths of the
/// last two intervals.
#[derive(Clone, Copy, Debug, PartialEq, Eq)]
pub struct IntervalState {
    pub low: Step,
    pub high: Step,
    pub bracketed: bool,
    pub width: Double,
    pub previous_width: Double,
}

impl IntervalState {
    /// The smaller end of the interval.
    pub open spec fn spec_lower(self) -> Double {
        self.low.position.min(self.high.position)
    }

    /// The larger end of the interval.
    pub open spec fn spec_upper(self) -> Double {
        self.low.position.max(self.high.position)
    }

    #[verifier::when_used_as_spec(spec_lower)]
    pub fn lower(self) -> (r: Double)
        ensures
            r == self.spec_lower(),
    {
        self.low.position.min(self.high.position)
    }

    #[verifier::when_used_as_spec(spec_upper)]
    pub fn upper(self) -> (r: Double)
        ensures
            r == self.spec_upper(),
    {
        self.low.position.max(self.high.position)
    }
}

} // verus!
