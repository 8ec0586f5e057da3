//! The search along the line: what is tried next, when the search ends, and
//! how one evaluation of the objective moves it on.
//!
//! A [`SearchRun`] never evaluates the objective itself. It names the step
//! to try ([`SearchRun::propose`]) and is told the value and the slope found
//! there ([`SearchRun::advance`]).

use crate::config::{ConfigurationIssue, LineSearchError, SearchConfiguration};
use crate::number::{Double, HALF_BITS, TWO_BITS};
use crate::step::{IntervalState, Step};
use crate::updater::{cstep, step_update, StepUpdate, SHRINK_BITS};
use vstd::prelude::*;

verus! {

/// The phase of a search. In the first the search looks for a step at which
/// the sufficient-decrease test holds and the slope is not too negative;
/// from then on it only narrows the interval.
#[derive(Clone, Copy, Debug, PartialEq, Eq)]
pub enum Stage {
    Stage1,
    Stage2,
}

/// Why a search ended with success: both Wolfe conditions hold.
pub const CODE_CONVERGED: usize = 1;

/// Why a search ended: the interval is as narrow as `xtol` allows.
pub const CODE_INTERVAL_TOO_SMALL: usize = 2;

/// Why a search ended: the step is at the lower bound and the tests fail.
pub const CODE_AT_LOWER_BOUND: usize = 4;

/// Why a search ended: the step is at the upper bound and the objective
/// still decreases fast enough there.
pub const CODE_AT_UPPER_BOUND: usize = 5;

/// Why a search ended: the step left the interval, or the last update was
/// refused.
pub const CODE_BREAKDOWN: usize = 6;

/// What one evaluation leads to.
#[derive(Clone, Copy, Debug, PartialEq, Eq)]
pub enum StepOutcome {
    /// The search is over at the step `position` with the objective `value`
    /// there; `code` says why.
    Finished { position: Double, value: Double, code: usize },
    /// The search goes on: `value` was found at the step just tried, and the
    /// step to try next is `position`.
    Continue { position: Double, value: Double },
}

/// A point with the line `dgtest * position` subtracted from the objective.
pub open spec fn spec_shifted(point: Step, dgtest: Double) -> Step {
    Step {
        position: point.position,
        value: point.value.sub(point.position.mul(dgtest)),
        slope: point.slope.sub(dgtest),
    }
}

/// A point with the line `dgtest * position` added to the objective.
pub open spec fn spec_unshifted(point: Step, dgtest: Double) -> Step {
    Step {
        position: point.position,
        value: point.value.add(point.position.mul(dgtest)),
        slope: point.slope.add(dgtest),
    }
}

#[verifier::when_used_as_spec(spec_shifted)]
pub fn shifted(point: Step, dgtest: Double) -> (r: Step)
    ensures
        r == spec_shifted(point, dgtest),
{
    Step {
        position: point.position,
        value: point.value.sub(point.position.mul(dgtest)),
        slope: point.slope.sub(dgtest),
    }
}

#[verifier::when_used_as_spec(spec_unshifted)]
pub fn unshifted(point: Step, dgtest: Double) -> (r: Step)
    ensures
        r == spec_unshifted(point, dgtest),
{
    Step {
        position: point.position,
        value: point.value.add(point.position.mul(dgtest)),
        slope: point.slope.add(dgtest),
    }
}

/// All that a search in progress knows.
#[derive(Clone, Copy, Debug, PartialEq, Eq)]
pub struct RunState {
    pub config: SearchConfiguration,
    /// The objective at step 0.
    pub initial_value: Double,
    /// The slope at step 0.
    pub initial_slope: Double,
    /// The step that the last update asked for, before it is held within the
    /// bounds of the configuration.
    pub trial: Double,
    pub interval: IntervalState,
    pub stage: Stage,
    /// The case of the last update; 0 if it was refused.
    pub info_code: usize,
}

/// The state in which a search starts: both ends of the interval at step 0,
/// nothing enclosed, the first trial at `initial_step`.
pub open spec fn initial_state(
    config: SearchConfiguration,
    initial_value: Double,
    initial_slope: Double,
    initial_step: Double,
) -> RunState {
    let start = Step { position: Double::zero(), value: initial_value, slope: initial_slope };
    let width = config.position_max.sub(config.position_min);
    RunState {
        config,
        initial_value,
        initial_slope,
        trial: initial_step,
        interval: IntervalState {
            low: start,
            high: start,
            bracketed: false,
            width,
            previous_width: Double::from_bits(TWO_BITS).mul(width),
        },
        stage: Stage::Stage1,
        info_code: 1,
    }
}

/// Why a search cannot start, if it cannot: an invalid configuration, then
/// a first step that is not positive, then a slope at the start that is zero
/// or more.
pub open spec fn start_error(
    config: SearchConfiguration,
    initial_slope: Double,
    initial_step: Double,
) -> Option<LineSearchError> {
    if !crate::config::constants_in_range(config.c1, config.c2) {
        Some(crate::config::check_constants_result(config.c1, config.c2)->Err_0)
    } else if !crate::config::bounds_in_order(config.position_min, config.position_max) {
        Some(crate::config::check_bounds_result(config.position_min, config.position_max)->Err_0)
    } else if !initial_step.gt(Double::zero()) {
        Some(LineSearchError::Configuration(ConfigurationIssue::NonPositiveInitialStep))
    } else if initial_slope.ge(Double::zero()) {
        Some(LineSearchError::Precondition)
    } else {
        None
    }
}

impl RunState {
    /// Whether `position` lies within the bounds of the configuration.
    pub open spec fn within_bounds(self, position: Double) -> bool {
        self.config.position_min.le(position) && position.le(self.config.position_max)
    }

    /// What holds of every state that a search reaches: the configuration is
    /// valid, and the best point is the start of the line or lies within
    /// the bounds.
    pub open spec fn wf(self) -> bool {
        &&& self.config.valid()
        &&& (self.interval.low.position == Double::zero() || self.within_bounds(
            self.interval.low.position,
        ))
    }

    /// The slope that the sufficient-decrease test asks for: `c1` times the
    /// slope at the start.
    pub open spec fn slope_test(self) -> Double {
        self.config.c1.mul(self.initial_slope)
    }

    /// The lower bound of the next step: the smaller end of an enclosing
    /// interval, else the best point.
    pub open spec fn stmin(self) -> Double {
        if self.interval.bracketed {
            self.interval.lower()
        } else {
            self.interval.low.position
        }
    }

    /// The upper bound of the next step: the larger end of an enclosing
    /// interval, else the trial extrapolated beyond the best point.
    pub open spec fn stmax(self) -> Double {
        if self.interval.bracketed {
            self.interval.upper()
        } else {
            self.trial.add(
                self.config.extrapolation_factor.mul(self.trial.sub(self.interval.low.position)),
            )
        }
    }

    /// The trial held within the bounds of the configuration.
    pub open spec fn clamped_trial(self) -> Double {
        self.trial.max(self.config.position_min).min(self.config.position_max)
    }

    /// Whether a minimizer is enclosed and `position` is not strictly
    /// between the ends of the interval.
    pub open spec fn outside_interval(self, position: Double) -> bool {
        self.interval.bracketed && (position.le(self.stmin()) || position.ge(self.stmax()))
    }

    /// Whether a minimizer is enclosed in an interval no wider than `xtol`
    /// times its larger end.
    pub open spec fn interval_exhausted(self) -> bool {
        self.interval.bracketed && self.stmax().sub(self.stmin()).le(
            self.config.xtol.mul(self.stmax()),
        )
    }

    /// Whether the search falls back to the best point: the trial is not
    /// inside the interval, the interval is exhausted, or the last update
    /// was refused.
    pub open spec fn snaps(self) -> bool {
        self.outside_interval(self.clamped_trial()) || self.interval_exhausted() || self.info_code
            == 0
    }

    /// The step to evaluate next.
    pub open spec fn proposal(self) -> Double {
        if self.snaps() {
            self.interval.low.position
        } else {
            self.clamped_trial()
        }
    }

    /// The largest value that passes the sufficient-decrease test at the
    /// step to evaluate.
    pub open spec fn armijo_bound(self) -> Double {
        self.initial_value.add(self.proposal().mul(self.slope_test()))
    }

    /// Why the search ends once `value` and `slope` are found at the
    /// proposed step, or 0 if it goes on. Of several reasons the first in
    /// this order counts: breakdown, upper bound, lower bound, interval too
    /// small, convergence.
    pub open spec fn termination_code(self, value: Double, slope: Double) -> usize {
        let t = self.proposal();
        if self.outside_interval(t) || self.info_code == 0 {
            CODE_BREAKDOWN
        } else if t.same(self.config.position_max) && value.le(self.armijo_bound()) && slope.le(
            self.slope_test(),
        ) {
            CODE_AT_UPPER_BOUND
        } else if t.same(self.config.position_min) && (value.gt(self.armijo_bound()) || slope.ge(
            self.slope_test(),
        )) {
            CODE_AT_LOWER_BOUND
        } else if self.interval_exhausted() {
            CODE_INTERVAL_TOO_SMALL
        } else if value.le(self.armijo_bound()) && slope.abs().le(
            self.config.c2.mul(self.initial_slope.abs()),
        ) {
            CODE_CONVERGED
        } else {
            0
        }
    }

    /// The stage after the evaluation: the first stage ends once the
    /// sufficient-decrease test holds and the slope is at least
    /// `min(c1, c2)` times the slope at the start.
    pub open spec fn next_stage(self, value: Double, slope: Double) -> Stage {
        if self.stage == Stage::Stage1 && value.le(self.armijo_bound()) && slope.ge(
            self.config.c1.min(self.config.c2).mul(self.initial_slope),
        ) {
            Stage::Stage2
        } else {
            self.stage
        }
    }

    /// Whether the update works on the objective with the line
    /// `slope_test * position` subtracted: in the first stage, while the
    /// sufficient-decrease test fails although the value is no higher than
    /// the best.
    pub open spec fn uses_surrogate(self, value: Double, slope: Double) -> bool {
        self.next_stage(value, slope) == Stage::Stage1 && value.le(self.interval.low.value)
            && value.gt(self.armijo_bound())
    }

    /// The update that the evaluation leads to, in terms of the objective
    /// itself.
    pub open spec fn update(self, value: Double, slope: Double) -> StepUpdate {
        let trial = Step { position: self.proposal(), value, slope };
        if self.uses_surrogate(value, slope) {
            let dgtest = self.slope_test();
            let u = step_update(
                shifted(self.interval.low, dgtest),
                shifted(self.interval.high, dgtest),
                shifted(trial, dgtest),
                self.interval.bracketed,
                self.stmin(),
                self.stmax(),
            );
            StepUpdate {
                low: unshifted(u.low, dgtest),
                high: unshifted(u.high, dgtest),
                trial: u.trial,
                bracketed: u.bracketed,
                case_code: u.case_code,
            }
        } else {
            step_update(
                self.interval.low,
                self.interval.high,
                trial,
                self.interval.bracketed,
                self.stmin(),
                self.stmax(),
            )
        }
    }

    /// The state after an evaluation that does not end the search. Once a
    /// minimizer is enclosed, a step that has not shrunk the interval to
    /// `0.66` of its width two updates ago is replaced by the midpoint.
    pub open spec fn continued(self, value: Double, slope: Double) -> RunState {
        let u = self.update(value, slope);
        let span = u.high.position.sub(u.low.position);
        let bisect = u.bracketed && span.abs().ge(
            Double::from_bits(SHRINK_BITS).mul(self.interval.previous_width),
        );
        RunState {
            config: self.config,
            initial_value: self.initial_value,
            initial_slope: self.initial_slope,
            trial: if bisect {
                u.low.position.add(Double::from_bits(HALF_BITS).mul(span))
            } else {
                u.trial.position
            },
            interval: IntervalState {
                low: u.low,
                high: u.high,
                bracketed: u.bracketed,
                width: if u.bracketed {
                    span.abs()
                } else {
                    self.interval.width
                },
                previous_width: if u.bracketed {
                    self.interval.width
                } else {
                    self.interval.previous_width
                },
            },
            stage: self.next_stage(value, slope),
            info_code: u.case_code,
        }
    }

    /// The state after an evaluation: unchanged if the search ends.
    pub open spec fn next_state(self, value: Double, slope: Double) -> RunState {
        if self.termination_code(value, slope) != 0 {
            self
        } else {
            self.continued(value, slope)
        }
    }

    /// What the evaluation leads to.
    pub open spec fn outcome(self, value: Double, slope: Double) -> StepOutcome {
        let code = self.termination_code(value, slope);
        if code != 0 {
            StepOutcome::Finished { position: self.proposal(), value, code }
        } else {
            StepOutcome::Continue { position: self.continued(value, slope).proposal(), value }
        }
    }

    /// The bounds of the next step, the step to evaluate, and whether it
    /// lies outside an enclosing interval.
    fn plan(&self) -> (r: (Double, Double, Double, bool, bool))
        ensures
            r.0 == self.stmin(),
            r.1 == self.stmax(),
            r.2 == self.proposal(),
            r.3 == self.outside_interval(self.proposal()),
            r.4 == self.interval_exhausted(),
    {
        let low = self.interval.low.position;
        let (stmin, stmax) = if self.interval.bracketed {
            (self.interval.lower(), self.interval.upper())
        } else {
            (low, self.trial.add(self.config.extrapolation_factor.mul(self.trial.sub(low))))
        };
        let clamped = self.trial.max(self.config.position_min).min(self.config.position_max);
        let exhausted = self.interval.bracketed && stmax.sub(stmin).le(
            self.config.xtol.mul(stmax),
        );
        let outside = self.interval.bracketed && (clamped.le(stmin) || clamped.ge(stmax));
        let t = if outside || exhausted || self.info_code == 0 {
            low
        } else {
            clamped
        };
        let t_outside = self.interval.bracketed && (t.le(stmin) || t.ge(stmax));
        (stmin, stmax, t, t_outside, exhausted)
    }

    /// Moves the state on by one evaluation.
    fn step(&self, value: Double, slope: Double) -> (r: (RunState, StepOutcome))
        requires
            self.wf(),
        ensures
            r.0 == self.next_state(value, slope),
            r.1 == self.outcome(value, slope),
            r.0.wf(),
    {
        let (stmin, stmax, t, t_outside, exhausted) = self.plan();
        let dgtest = self.config.c1.mul(self.initial_slope);
        let bound = self.initial_value.add(t.mul(dgtest));
        let armijo = value.le(bound);
        let code: usize = if t_outside || self.info_code == 0 {
            CODE_BREAKDOWN
        } else if t.same(self.config.position_max) && armijo && slope.le(dgtest) {
            CODE_AT_UPPER_BOUND
        } else if t.same(self.config.position_min) && (value.gt(bound) || slope.ge(dgtest)) {
            CODE_AT_LOWER_BOUND
        } else if exhausted {
            CODE_INTERVAL_TOO_SMALL
        } else if armijo && slope.abs().le(self.config.c2.mul(self.initial_slope.abs())) {
            CODE_CONVERGED
        } else {
            0
        };
        if code != 0 {
            return (*self, StepOutcome::Finished { position: t, value, code });
        }
        let first_stage = match self.stage {
            Stage::Stage1 => !(armijo && slope.ge(
                self.config.c1.min(self.config.c2).mul(self.initial_slope),
            )),
            Stage::Stage2 => false,
        };
        let trial = Step { position: t, value, slope };
        let u = if first_stage && value.le(self.interval.low.value) && value.gt(bound) {
            let m = cstep(
                shifted(self.interval.low, dgtest),
                shifted(self.interval.high, dgtest),
                shifted(trial, dgtest),
                self.interval.bracketed,
                stmin,
                stmax,
            );
            StepUpdate {
                low: unshifted(m.low, dgtest),
                high: unshifted(m.high, dgtest),
                trial: m.trial,
                bracketed: m.bracketed,
                case_code: m.case_code,
            }
        } else {
            cstep(self.interval.low, self.interval.high, trial, self.interval.bracketed, stmin, stmax)
        };
        let span = u.high.position.sub(u.low.position);
        let bisect = u.bracketed && span.abs().ge(
            Double::from_bits(SHRINK_BITS).mul(self.interval.previous_width),
        );
        let next = RunState {
            config: self.config,
            initial_value: self.initial_value,
            initial_slope: self.initial_slope,
            trial: if bisect {
                u.low.position.add(Double::from_bits(HALF_BITS).mul(span))
            } else {
                u.trial.position
            },
            interval: IntervalState {
                low: u.low,
                high: u.high,
                bracketed: u.bracketed,
                width: if u.bracketed {
                    span.abs()
                } else {
                    self.interval.width
                },
                previous_width: if u.bracketed {
                    self.interval.width
                } else {
                    self.interval.previous_width
                },
            },
            stage: if first_stage {
                Stage::Stage1
            } else {
                Stage::Stage2
            },
            info_code: u.case_code,
        };
        let (_, _, position, _, _) = next.plan();
        (next, StepOutcome::Continue { position, value })
    }
}

/// A search in progress. Its state is reached from a valid start by
/// evaluations alone, so it is always well formed.
#[derive(Clone, Copy, Debug, PartialEq, Eq)]
pub struct SearchRun {
    state: RunState,
}

impl View for SearchRun {
    type V = RunState;

    closed spec fn view(&self) -> RunState {
        self.state
    }
}

impl SearchRun {
    #[verifier::type_invariant]
    spec fn well_formed(self) -> bool {
        self.state.wf()
    }

    /// Starts a search from the objective `initial_value` and the slope
    /// `initial_slope` at step 0, with `initial_step` as the first step to
    /// try.
    ///
    /// Fails, before anything is evaluated, on an invalid configuration, on
    /// a first step that is not positive, and on a slope that is zero or
    /// more, in this order.
    pub fn start(
        config: SearchConfiguration,
        initial_value: Double,
        initial_slope: Double,
        initial_step: Double,
    ) -> (r: Result<SearchRun, LineSearchError>)
        ensures
            r is Ok <==> start_error(config, initial_slope, initial_step) is None,
            r matches Err(e) ==> start_error(config, initial_slope, initial_step) == Some(e),
            r matches Ok(run) ==> run@ == initial_state(
                config,
                initial_value,
                initial_slope,
                initial_step,
            ) && run@.wf(),
    {
        match config.validate() {
            Err(e) => {
                return Err(e);
            },
            Ok(()) => {},
        }
        if !initial_step.gt(Double::zero()) {
            return Err(LineSearchError::Configuration(ConfigurationIssue::NonPositiveInitialStep));
        }
        if initial_slope.ge(Double::zero()) {
            return Err(LineSearchError::Precondition);
        }
        let start = Step { position: Double::zero(), value: initial_value, slope: initial_slope };
        let width = config.position_max.sub(config.position_min);
        Ok(
            SearchRun {
                state: RunState {
                    config,
                    initial_value,
                    initial_slope,
                    trial: initial_step,
                    interval: IntervalState {
                        low: start,
                        high: start,
                        bracketed: false,
                        width,
                        previous_width: Double::from_bits(TWO_BITS).mul(width),
                    },
                    stage: Stage::Stage1,
                    info_code: 1,
                },
            },
        )
    }

    /// The state of the search.
    pub fn state(&self) -> (r: RunState)
        ensures
            r == self@,
            r.wf(),
    {
        proof {
            use_type_invariant(self);
        }
        self.state
    }

    /// The step at which the objective is to be evaluated next. It lies
    /// within the bounds of the configuration, unless the search has fallen
    /// back to the best point while that is still the start of the line.
    pub fn propose(&self) -> (r: Double)
        ensures
            r == self@.proposal(),
            self@.wf(),
            self@.within_bounds(r) || (self@.snaps() && r == Double::zero()),
    {
        proof {
            use_type_invariant(self);
        }
        let (_, _, t, _, _) = self.state.plan();
        t
    }

    /// Takes the objective `value` and the `slope` along the line found at
    /// the proposed step, and says whether the search ends there.
    ///
    /// If it ends, the state stays as it is; if not, the interval and the
    /// trial are updated, and the outcome names the next step to evaluate.
    pub fn advance(&mut self, value: Double, slope: Double) -> (r: StepOutcome)
        ensures
            r == old(self)@.outcome(value, slope),
            final(self)@ == old(self)@.next_state(value, slope),
            final(self)@.wf(),
    {
        proof {
            use_type_invariant(&*self);
        }
        let (next, outcome) = self.state.step(value, slope);
        self.state = next;
        outcome
    }
}

} // verus!
