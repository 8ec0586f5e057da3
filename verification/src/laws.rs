//! What holds of the search whatever the objective returns.

use crate::config::{LineSearchError, SearchConfiguration};
use crate::number::Double;
use crate::search::{initial_state, start_error, RunState, StepOutcome};
use crate::step::Step;
use crate::updater::{
    is_bounded_case, rejected, select_case, step_update, StepUpdate, SHRINK_BITS,
};
use vstd::prelude::*;

verus! {

/// A search along a line on which the objective does not decrease at the
/// start is refused as a violated precondition: with a valid configuration
/// and a positive first step, a slope of zero or more at the start gives
/// that error and no other.
pub proof fn lemma_ascent_is_refused(
    config: SearchConfiguration,
    initial_slope: Double,
    initial_step: Double,
)
    requires
        config.valid(),
        initial_step.gt(Double::zero()),
        initial_slope.ge(Double::zero()),
    ensures
        start_error(config, initial_slope, initial_step) == Some(LineSearchError::Precondition),
{
}

/// A search starts exactly on a valid configuration, a positive first step
/// and a slope at the start that is not zero or more.
pub proof fn lemma_start_succeeds_exactly_on_valid_input(
    config: SearchConfiguration,
    initial_slope: Double,
    initial_step: Double,
)
    ensures
        start_error(config, initial_slope, initial_step) is None <==> config.valid()
            && initial_step.gt(Double::zero()) && !initial_slope.ge(Double::zero()),
{
}

/// An update whose trial does not lie strictly inside an enclosing interval
/// returns its input unchanged, with case code 0.
pub proof fn lemma_trial_outside_interval_is_returned(
    low: Step,
    high: Step,
    trial: Step,
    stmin: Double,
    stmax: Double,
)
    requires
        trial.position.le(low.position.min(high.position)) || trial.position.ge(
            low.position.max(high.position),
        ),
    ensures
        step_update(low, high, trial, true, stmin, stmax) == (StepUpdate {
            low,
            high,
            trial,
            bracketed: true,
            case_code: 0,
        }),
{
}

/// An update fires one of the cases 1 to 4 exactly when it does not refuse
/// its input.
pub proof fn lemma_case_fires_unless_rejected(
    low: Step,
    high: Step,
    trial: Step,
    bracketed: bool,
    stmin: Double,
    stmax: Double,
)
    ensures
        step_update(low, high, trial, bracketed, stmin, stmax).case_code == 0 <==> rejected(
            low,
            high,
            trial,
            bracketed,
            stmin,
            stmax,
        ),
        step_update(low, high, trial, bracketed, stmin, stmax).case_code <= 4,
{
}

/// Which case fires depends on the values and slopes at the best point and
/// at the trial alone: two updates that agree on these four numbers, and of
/// which neither refuses its input, fire the same case, whatever the
/// positions, the other end of the interval and the bounds are.
pub proof fn lemma_case_depends_on_values_and_slopes(
    low_a: Step,
    high_a: Step,
    trial_a: Step,
    bracketed_a: bool,
    stmin_a: Double,
    stmax_a: Double,
    low_b: Step,
    high_b: Step,
    trial_b: Step,
    bracketed_b: bool,
    stmin_b: Double,
    stmax_b: Double,
)
    requires
        low_a.value == low_b.value,
        low_a.slope == low_b.slope,
        trial_a.value == trial_b.value,
        trial_a.slope == trial_b.slope,
        !rejected(low_a, high_a, trial_a, bracketed_a, stmin_a, stmax_a),
        !rejected(low_b, high_b, trial_b, bracketed_b, stmin_b, stmax_b),
    ensures
        step_update(low_a, high_a, trial_a, bracketed_a, stmin_a, stmax_a).case_code
            == step_update(low_b, high_b, trial_b, bracketed_b, stmin_b, stmax_b).case_code,
        step_update(low_a, high_a, trial_a, bracketed_a, stmin_a, stmax_a).case_code
            == select_case(low_a.value, low_a.slope, trial_a.value, trial_a.slope),
{
}

/// The best point never gets worse: after an update its value is not above
/// the value of the best point before.
pub proof fn lemma_best_value_never_rises(
    low: Step,
    high: Step,
    trial: Step,
    bracketed: bool,
    stmin: Double,
    stmax: Double,
)
    ensures
        !step_update(low, high, trial, bracketed, stmin, stmax).low.value.gt(low.value),
{
}

/// The ends of the interval after an update are among the three points
/// that went in, and an interval that encloses a minimizer keeps doing so.
pub proof fn lemma_interval_is_made_of_the_inputs(
    low: Step,
    high: Step,
    trial: Step,
    bracketed: bool,
    stmin: Double,
    stmax: Double,
)
    ensures
        ({
            let u = step_update(low, high, trial, bracketed, stmin, stmax);
            &&& (u.low == low || u.low == trial)
            &&& (u.high == high || u.high == trial || u.high == low)
            &&& (bracketed ==> u.bracketed)
        }),
{
}

/// The new trial of an update that fired lies between the bounds it was
/// given, unless the case is one that limits the step to a fraction of an
/// enclosing interval.
pub proof fn lemma_step_is_held_within_bounds(
    low: Step,
    high: Step,
    trial: Step,
    bracketed: bool,
    stmin: Double,
    stmax: Double,
)
    requires
        !stmin.is_nan(),
        !stmax.is_nan(),
        !rejected(low, high, trial, bracketed, stmin, stmax),
    ensures
        ({
            let u = step_update(low, high, trial, bracketed, stmin, stmax);
            !(u.bracketed && is_bounded_case(u.case_code)) ==> stmin.le(u.trial.position)
                && u.trial.position.le(stmax)
        }),
{
}

/// Where an update cuts the step back to a fraction of an enclosing
/// interval, the new trial still keeps the bound on the far side: it is at
/// most `stmax` where the other end lies above the best point, and at least
/// `stmin` where it does not. Where the limit of the cut is a number, the
/// trial does not pass it.
pub proof fn lemma_cut_back_step_keeps_the_far_bound(
    low: Step,
    high: Step,
    trial: Step,
    bracketed: bool,
    stmin: Double,
    stmax: Double,
)
    requires
        !stmin.is_nan(),
        !stmax.is_nan(),
        !rejected(low, high, trial, bracketed, stmin, stmax),
    ensures
        ({
            let u = step_update(low, high, trial, bracketed, stmin, stmax);
            let limit = u.low.position.add(
                Double::from_bits(SHRINK_BITS).mul(u.high.position.sub(u.low.position)),
            );
            u.bracketed && is_bounded_case(u.case_code) ==> if u.high.position.gt(
                u.low.position,
            ) {
                u.trial.position.le(stmax) && (!limit.is_nan() ==> u.trial.position.le(limit))
            } else {
                stmin.le(u.trial.position) && (!limit.is_nan() ==> limit.le(u.trial.position))
            }
        }),
{
}

/// A search starts in a well-formed state.
pub proof fn lemma_initial_state_is_well_formed(
    config: SearchConfiguration,
    initial_value: Double,
    initial_slope: Double,
    initial_step: Double,
)
    requires
        config.valid(),
    ensures
        initial_state(config, initial_value, initial_slope, initial_step).wf(),
{
}

/// Every evaluation leaves a well-formed state well formed, and leaves the
/// configuration and the data of the start as they were.
pub proof fn lemma_next_state_is_well_formed(state: RunState, value: Double, slope: Double)
    requires
        state.wf(),
    ensures
        state.next_state(value, slope).wf(),
        state.next_state(value, slope).config == state.config,
        state.next_state(value, slope).initial_value == state.initial_value,
        state.next_state(value, slope).initial_slope == state.initial_slope,
{
}

/// The step that a search proposes lies within the bounds of the
/// configuration. The one exception is a search that falls back to its best
/// point while that is still the start of the line: it proposes step 0.
pub proof fn lemma_proposal_within_bounds(state: RunState)
    requires
        state.wf(),
    ensures
        state.within_bounds(state.proposal()) || (state.snaps() && state.proposal()
            == Double::zero()),
        !state.snaps() ==> state.within_bounds(state.proposal()),
{
}

/// Where the smallest step allowed is zero, every proposed step lies within
/// the bounds.
pub proof fn lemma_proposal_within_bounds_from_zero(state: RunState)
    requires
        state.wf(),
        state.config.position_min.same(Double::zero()),
    ensures
        state.within_bounds(state.proposal()),
{
}

/// The step that an evaluation reports, the one at which the search ends or
/// the one to try next, lies within the bounds of the configuration or is
/// step 0 after a fallback to the start of the line.
pub proof fn lemma_reported_step_within_bounds(state: RunState, value: Double, slope: Double)
    requires
        state.wf(),
    ensures
        match state.outcome(value, slope) {
            StepOutcome::Finished { position, .. } => state.within_bounds(position) || position
                == Double::zero(),
            StepOutcome::Continue { position, .. } => state.within_bounds(position) || position
                == Double::zero(),
        },
{
    lemma_next_state_is_well_formed(state, value, slope);
    lemma_proposal_within_bounds(state);
    if state.termination_code(value, slope) == 0 {
        lemma_proposal_within_bounds(state.continued(value, slope));
    }
}

/// A search that ends with success ends at a step at which both Wolfe
/// conditions hold as the search tests them: the value is at most the value
/// at the start plus `c1` times the step times the slope at the start, and
/// the slope is in magnitude at most `c2` times the slope at the start.
pub proof fn lemma_success_means_wolfe(state: RunState, value: Double, slope: Double)
    requires
        state.termination_code(value, slope) == 1,
    ensures
        value.le(
            state.initial_value.add(
                state.proposal().mul(state.config.c1.mul(state.initial_slope)),
            ),
        ),
        slope.abs().le(state.config.c2.mul(state.initial_slope.abs())),
        state.outcome(value, slope) == (StepOutcome::Finished {
            position: state.proposal(),
            value,
            code: 1,
        }),
{
}

/// A first step at the largest step allowed, at which both Wolfe conditions
/// hold, ends the search at the first evaluation: with success, or as a
/// step at the upper bound where the objective still falls fast enough
/// there.
pub proof fn lemma_first_step_at_upper_bound_ends_the_search(
    config: SearchConfiguration,
    initial_value: Double,
    initial_slope: Double,
    initial_step: Double,
    value: Double,
    slope: Double,
)
    requires
        config.valid(),
        initial_step.same(config.position_max),
        value.le(
            initial_state(config, initial_value, initial_slope, initial_step).armijo_bound(),
        ),
        slope.abs().le(config.c2.mul(initial_slope.abs())),
    ensures
        ({
            let state = initial_state(config, initial_value, initial_slope, initial_step);
            let code = state.termination_code(value, slope);
            &&& state.proposal().same(config.position_max)
            &&& (code == 1 || code == 5)
            &&& (code == 5 <==> slope.le(state.slope_test()))
            &&& state.outcome(value, slope) == (StepOutcome::Finished {
                position: state.proposal(),
                value,
                code,
            })
            &&& state.next_state(value, slope) == state
        }),
{
}

/// A search ends only with one of the codes 1, 2, 4, 5 and 6, and it ends
/// with 6 exactly when the proposed step is not inside an enclosing interval
/// or the last update was refused.
pub proof fn lemma_termination_codes(state: RunState, value: Double, slope: Double)
    ensures
        ({
            let code = state.termination_code(value, slope);
            &&& (code == 0 || code == 1 || code == 2 || code == 4 || code == 5 || code == 6)
            &&& (code == 6 <==> state.outside_interval(state.proposal()) || state.info_code == 0)
        }),
{
}

/// A search whose interval is exhausted falls back to its best point, which
/// is an end of the interval, and so ends as a breakdown: the code for an
/// interval that is too small is kept for states in which the best point is
/// no number.
pub proof fn lemma_exhausted_interval_ends_as_breakdown(
    state: RunState,
    value: Double,
    slope: Double,
)
    requires
        state.wf(),
        state.interval_exhausted(),
    ensures
        state.proposal() == state.interval.low.position,
        state.termination_code(value, slope) == 6,
{
}

} // verus!
