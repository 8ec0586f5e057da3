//! The safeguarded step: from the best point, the other end of the interval
//! and a new trial point, the next trial position and the updated interval.
//!
//! Four cases are told apart by the values and slopes at the best point and
//! at the trial point. Each takes a step from the minimizer of a cubic and
//! of a quadratic fitted through two of the points; the step is then held
//! within the bounds it was given.

use crate::number::{Double, THREE_BITS, TWO_BITS};
use crate::step::Step;
use vstd::prelude::*;

verus! {

/// Pattern of `0.66`: in the bounded cases the step moves at most this
/// fraction of the way from the best point to the other end.
pub const SHRINK_BITS: u64 = 0x3fe5_1eb8_51eb_851f;

/// What an update returns: the new interval ends, the next trial, whether a
/// minimizer is enclosed, and which case fired (0: none, the input was
/// refused).
#[derive(Clone, Copy, Debug, PartialEq, Eq)]
pub struct StepUpdate {
    pub low: Step,
    pub high: Step,
    pub trial: Step,
    pub bracketed: bool,
    pub case_code: usize,
}

/// Whether an update refuses its input: the trial is not strictly between
/// the ends of an enclosing interval, or the slope at the best point does
/// not point towards the trial, or the bounds are out of order.
pub open spec fn spec_rejected(
    low: Step,
    high: Step,
    trial: Step,
    bracketed: bool,
    stmin: Double,
    stmax: Double,
) -> bool {
    ||| bracketed && (trial.position.le(low.position.min(high.position)) || trial.position.ge(
        low.position.max(high.position),
    ))
    ||| low.slope.mul(trial.position.sub(low.position)).ge(Double::zero())
    ||| stmax.lt(stmin)
}

#[verifier::when_used_as_spec(spec_rejected)]
pub fn rejected(low: Step, high: Step, trial: Step, bracketed: bool, stmin: Double, stmax: Double) -> (r:
    bool)
    ensures
        r == spec_rejected(low, high, trial, bracketed, stmin, stmax),
{
    (bracketed && (trial.position.le(low.position.min(high.position)) || trial.position.ge(
        low.position.max(high.position),
    ))) || low.slope.mul(trial.position.sub(low.position)).ge(Double::zero()) || stmax.lt(stmin)
}

/// The trial slope multiplied by the sign of the slope at the best point:
/// negative when the two slopes have opposite signs.
pub open spec fn spec_slope_sign_product(low_slope: Double, trial_slope: Double) -> Double {
    trial_slope.mul(low_slope.div(low_slope.abs()))
}

#[verifier::when_used_as_spec(spec_slope_sign_product)]
pub fn slope_sign_product(low_slope: Double, trial_slope: Double) -> (r: Double)
    ensures
        r == spec_slope_sign_product(low_slope, trial_slope),
{
    trial_slope.mul(low_slope.div(low_slope.abs()))
}

/// The case that fires on an input that is not refused.
///
/// 1: the trial value is higher than the best value. 2: it is not, and the
/// slopes have opposite signs. 3: neither, and the trial slope is smaller in
/// magnitude. 4: none of these.
pub open spec fn spec_select_case(
    low_value: Double,
    low_slope: Double,
    trial_value: Double,
    trial_slope: Double,
) -> usize {
    if trial_value.gt(low_value) {
        1
    } else if slope_sign_product(low_slope, trial_slope).lt(Double::zero()) {
        2
    } else if trial_slope.abs().lt(low_slope.abs()) {
        3
    } else {
        4
    }
}

#[verifier::when_used_as_spec(spec_select_case)]
pub fn select_case(low_value: Double, low_slope: Double, trial_value: Double, trial_slope: Double) -> (r:
    usize)
    ensures
        r == spec_select_case(low_value, low_slope, trial_value, trial_slope),
        1 <= r <= 4,
{
    if trial_value.gt(low_value) {
        1
    } else if slope_sign_product(low_slope, trial_slope).lt(Double::zero()) {
        2
    } else if trial_slope.abs().lt(low_slope.abs()) {
        3
    } else {
        4
    }
}

/// `theta` of the cubic through two points `a` and `b`:
/// `3 (f_a - f_b) / (x_b - x_a) + g_1 + g_2`, where `g_1` and `g_2` are the
/// two slopes in the order in which they are added.
pub open spec fn spec_cubic_theta(
    value_a: Double,
    value_b: Double,
    position_a: Double,
    position_b: Double,
    first_slope: Double,
    second_slope: Double,
) -> Double {
    Double::from_bits(THREE_BITS).mul(value_a.sub(value_b)).div(position_b.sub(position_a)).add(
        first_slope,
    ).add(second_slope)
}

#[verifier::when_used_as_spec(spec_cubic_theta)]
pub fn cubic_theta(
    value_a: Double,
    value_b: Double,
    position_a: Double,
    position_b: Double,
    first_slope: Double,
    second_slope: Double,
) -> (r: Double)
    ensures
        r == spec_cubic_theta(value_a, value_b, position_a, position_b, first_slope, second_slope),
{
    Double::from_bits(THREE_BITS).mul(value_a.sub(value_b)).div(position_b.sub(position_a)).add(
        first_slope,
    ).add(second_slope)
}

/// `gamma` of the cubic: `s sqrt(max(0, (theta/s)^2 - (g_a/s)(g_b/s)))` with
/// `s = max(|theta|, |g_a|, |g_b|)`. Dividing by `s` keeps the squares in
/// range.
pub open spec fn spec_cubic_gamma(theta: Double, slope_a: Double, slope_b: Double) -> Double {
    let s = theta.abs().max(slope_a.abs()).max(slope_b.abs());
    let t = theta.div(s);
    s.mul(Double::zero().max(t.mul(t).sub(slope_a.div(s).mul(slope_b.div(s)))).sqrt())
}

#[verifier::when_used_as_spec(spec_cubic_gamma)]
pub fn cubic_gamma(theta: Double, slope_a: Double, slope_b: Double) -> (r: Double)
    ensures
        r == spec_cubic_gamma(theta, slope_a, slope_b),
{
    let s = theta.abs().max(slope_a.abs()).max(slope_b.abs());
    let t = theta.div(s);
    s.mul(Double::zero().max(t.mul(t).sub(slope_a.div(s).mul(slope_b.div(s)))).sqrt())
}

/// The secant step from the trial towards the best point: where the line
/// through the two slopes crosses zero.
pub open spec fn spec_secant_step(low: Step, trial: Step) -> Double {
    trial.position.add(
        trial.slope.div(trial.slope.sub(low.slope)).mul(low.position.sub(trial.position)),
    )
}

#[verifier::when_used_as_spec(spec_secant_step)]
pub fn secant_step(low: Step, trial: Step) -> (r: Double)
    ensures
        r == spec_secant_step(low, trial),
{
    trial.position.add(
        trial.slope.div(trial.slope.sub(low.slope)).mul(low.position.sub(trial.position)),
    )
}

/// First case, a higher trial value: the cubic step if it is closer to the best
/// point than the quadratic step, else the point midway between the two.
pub open spec fn spec_step_higher_value(low: Step, trial: Step) -> Double {
    let dx = trial.position.sub(low.position);
    let theta = cubic_theta(
        low.value,
        trial.value,
        low.position,
        trial.position,
        low.slope,
        trial.slope,
    );
    let root = cubic_gamma(theta, low.slope, trial.slope);
    let gamma = if trial.position.lt(low.position) {
        root.neg()
    } else {
        root
    };
    let p = gamma.sub(low.slope).add(theta);
    let q = gamma.sub(low.slope).add(gamma).add(trial.slope);
    let cubic = low.position.add(p.div(q).mul(dx));
    let quadratic = low.position.add(
        low.slope.div(low.value.sub(trial.value).div(dx).add(low.slope)).div(
            Double::from_bits(TWO_BITS),
        ).mul(dx),
    );
    if cubic.sub(low.position).abs().lt(quadratic.sub(low.position).abs()) {
        cubic
    } else {
        cubic.add(quadratic.sub(cubic).div(Double::from_bits(TWO_BITS)))
    }
}

#[verifier::when_used_as_spec(spec_step_higher_value)]
pub fn step_higher_value(low: Step, trial: Step) -> (r: Double)
    ensures
        r == spec_step_higher_value(low, trial),
{
    let dx = trial.position.sub(low.position);
    let theta = cubic_theta(
        low.value,
        trial.value,
        low.position,
        trial.position,
        low.slope,
        trial.slope,
    );
    let root = cubic_gamma(theta, low.slope, trial.slope);
    let gamma = if trial.position.lt(low.position) {
        root.neg()
    } else {
        root
    };
    let p = gamma.sub(low.slope).add(theta);
    let q = gamma.sub(low.slope).add(gamma).add(trial.slope);
    let cubic = low.position.add(p.div(q).mul(dx));
    let quadratic = low.position.add(
        low.slope.div(low.value.sub(trial.value).div(dx).add(low.slope)).div(
            Double::from_bits(TWO_BITS),
        ).mul(dx),
    );
    if cubic.sub(low.position).abs().lt(quadratic.sub(low.position).abs()) {
        cubic
    } else {
        cubic.add(quadratic.sub(cubic).div(Double::from_bits(TWO_BITS)))
    }
}

/// Second case, a lower value and slopes of opposite sign: the cubic step if it
/// is farther from the trial than the secant step, else the secant step.
pub open spec fn spec_step_opposite_slopes(low: Step, trial: Step) -> Double {
    let theta = cubic_theta(
        low.value,
        trial.value,
        low.position,
        trial.position,
        low.slope,
        trial.slope,
    );
    let root = cubic_gamma(theta, low.slope, trial.slope);
    let gamma = if trial.position.gt(low.position) {
        root.neg()
    } else {
        root
    };
    let p = gamma.sub(trial.slope).add(theta);
    let q = gamma.sub(trial.slope).add(gamma).add(low.slope);
    let cubic = trial.position.add(p.div(q).mul(low.position.sub(trial.position)));
    let secant = secant_step(low, trial);
    if cubic.sub(trial.position).abs().gt(secant.sub(trial.position).abs()) {
        cubic
    } else {
        secant
    }
}

#[verifier::when_used_as_spec(spec_step_opposite_slopes)]
pub fn step_opposite_slopes(low: Step, trial: Step) -> (r: Double)
    ensures
        r == spec_step_opposite_slopes(low, trial),
{
    let theta = cubic_theta(
        low.value,
        trial.value,
        low.position,
        trial.position,
        low.slope,
        trial.slope,
    );
    let root = cubic_gamma(theta, low.slope, trial.slope);
    let gamma = if trial.position.gt(low.position) {
        root.neg()
    } else {
        root
    };
    let p = gamma.sub(trial.slope).add(theta);
    let q = gamma.sub(trial.slope).add(gamma).add(low.slope);
    let cubic = trial.position.add(p.div(q).mul(low.position.sub(trial.position)));
    let secant = secant_step(low, trial);
    if cubic.sub(trial.position).abs().gt(secant.sub(trial.position).abs()) {
        cubic
    } else {
        secant
    }
}

/// Third case, a lower value and a smaller slope of the same sign. The cubic
/// step is used only if its minimizer lies beyond the trial in the direction
/// of travel; otherwise the bound in that direction takes its place. Of
/// that and the secant step, the one nearer to the trial is taken when a
/// minimizer is enclosed, the farther one when it is not.
pub open spec fn spec_step_smaller_slope(
    low: Step,
    trial: Step,
    bracketed: bool,
    stmin: Double,
    stmax: Double,
) -> Double {
    let theta = cubic_theta(
        low.value,
        trial.value,
        low.position,
        trial.position,
        low.slope,
        trial.slope,
    );
    let root = cubic_gamma(theta, low.slope, trial.slope);
    let gamma = if trial.position.gt(low.position) {
        root.neg()
    } else {
        root
    };
    let p = gamma.sub(trial.slope).add(theta);
    let q = gamma.add(low.slope.sub(trial.slope)).add(gamma);
    let r = p.div(q);
    let cubic = if r.lt(Double::zero()) && !gamma.same(Double::zero()) {
        trial.position.add(r.mul(low.position.sub(trial.position)))
    } else if trial.position.gt(low.position) {
        stmax
    } else {
        stmin
    };
    let secant = secant_step(low, trial);
    let cubic_distance = trial.position.sub(cubic).abs();
    let secant_distance = trial.position.sub(secant).abs();
    if bracketed {
        if cubic_distance.lt(secant_distance) {
            cubic
        } else {
            secant
        }
    } else if cubic_distance.gt(secant_distance) {
        cubic
    } else {
        secant
    }
}

#[verifier::when_used_as_spec(spec_step_smaller_slope)]
pub fn step_smaller_slope(low: Step, trial: Step, bracketed: bool, stmin: Double, stmax: Double) -> (r:
    Double)
    ensures
        r == spec_step_smaller_slope(low, trial, bracketed, stmin, stmax),
{
    let theta = cubic_theta(
        low.value,
        trial.value,
        low.position,
        trial.position,
        low.slope,
        trial.slope,
    );
    let root = cubic_gamma(theta, low.slope, trial.slope);
    let gamma = if trial.position.gt(low.position) {
        root.neg()
    } else {
        root
    };
    let p = gamma.sub(trial.slope).add(theta);
    let q = gamma.add(low.slope.sub(trial.slope)).add(gamma);
    let r = p.div(q);
    let cubic = if r.lt(Double::zero()) && !gamma.same(Double::zero()) {
        trial.position.add(r.mul(low.position.sub(trial.position)))
    } else if trial.position.gt(low.position) {
        stmax
    } else {
        stmin
    };
    let secant = secant_step(low, trial);
    let cubic_distance = trial.position.sub(cubic).abs();
    let secant_distance = trial.position.sub(secant).abs();
    if bracketed {
        if cubic_distance.lt(secant_distance) {
            cubic
        } else {
            secant
        }
    } else if cubic_distance.gt(secant_distance) {
        cubic
    } else {
        secant
    }
}

/// Fourth case, a lower value and a slope of the same sign that is not
/// smaller: the cubic step through the trial and the other end when a
/// minimizer is enclosed, else the bound in the direction of travel.
pub open spec fn spec_step_larger_slope(
    low: Step,
    high: Step,
    trial: Step,
    bracketed: bool,
    stmin: Double,
    stmax: Double,
) -> Double {
    if bracketed {
        let theta = cubic_theta(
            trial.value,
            high.value,
            trial.position,
            high.position,
            high.slope,
            trial.slope,
        );
        let root = cubic_gamma(theta, high.slope, trial.slope);
        let gamma = if trial.position.gt(high.position) {
            root.neg()
        } else {
            root
        };
        let p = gamma.sub(trial.slope).add(theta);
        let q = gamma.sub(trial.slope).add(gamma).add(high.slope);
        trial.position.add(p.div(q).mul(high.position.sub(trial.position)))
    } else if trial.position.gt(low.position) {
        stmax
    } else {
        stmin
    }
}

#[verifier::when_used_as_spec(spec_step_larger_slope)]
pub fn step_larger_slope(
    low: Step,
    high: Step,
    trial: Step,
    bracketed: bool,
    stmin: Double,
    stmax: Double,
) -> (r: Double)
    ensures
        r == spec_step_larger_slope(low, high, trial, bracketed, stmin, stmax),
{
    if bracketed {
        let theta = cubic_theta(
            trial.value,
            high.value,
            trial.position,
            high.position,
            high.slope,
            trial.slope,
        );
        let root = cubic_gamma(theta, high.slope, trial.slope);
        let gamma = if trial.position.gt(high.position) {
            root.neg()
        } else {
            root
        };
        let p = gamma.sub(trial.slope).add(theta);
        let q = gamma.sub(trial.slope).add(gamma).add(high.slope);
        trial.position.add(p.div(q).mul(high.position.sub(trial.position)))
    } else if trial.position.gt(low.position) {
        stmax
    } else {
        stmin
    }
}

/// The step that a case proposes, before it is held within bounds.
pub open spec fn proposed_step(
    case_code: usize,
    low: Step,
    high: Step,
    trial: Step,
    bracketed: bool,
    stmin: Double,
    stmax: Double,
) -> Double {
    if case_code == 1 {
        step_higher_value(low, trial)
    } else if case_code == 2 {
        step_opposite_slopes(low, trial)
    } else if case_code == 3 {
        step_smaller_slope(low, trial, bracketed, stmin, stmax)
    } else {
        step_larger_slope(low, high, trial, bracketed, stmin, stmax)
    }
}

/// The best point after a case has fired: the trial, unless its value is
/// higher.
pub open spec fn updated_low(case_code: usize, low: Step, trial: Step) -> Step {
    if case_code == 1 {
        low
    } else {
        trial
    }
}

/// The other end after a case has fired: the trial if its value is higher;
/// the former best point if the slope changed sign; else unchanged.
pub open spec fn updated_high(case_code: usize, low: Step, high: Step, trial: Step) -> Step {
    if case_code == 1 {
        trial
    } else if case_code == 2 {
        low
    } else {
        high
    }
}

/// Whether a case limits the step to a fraction of the interval.
pub open spec fn is_bounded_case(case_code: usize) -> bool {
    case_code == 1 || case_code == 3
}

/// The step held within `[stmin, stmax]` and, where `bounded`, moved no
/// farther than the fraction `0.66` of the way from `low` to `high`.
pub open spec fn spec_safeguard(
    step: Double,
    low: Step,
    high: Step,
    bounded: bool,
    stmin: Double,
    stmax: Double,
) -> Double {
    let held = stmin.max(stmax.min(step));
    if bounded {
        let limit = low.position.add(
            Double::from_bits(SHRINK_BITS).mul(high.position.sub(low.position)),
        );
        if high.position.gt(low.position) {
            held.min(limit)
        } else {
            held.max(limit)
        }
    } else {
        held
    }
}

#[verifier::when_used_as_spec(spec_safeguard)]
pub fn safeguard(step: Double, low: Step, high: Step, bounded: bool, stmin: Double, stmax: Double) -> (r:
    Double)
    ensures
        r == spec_safeguard(step, low, high, bounded, stmin, stmax),
{
    let held = stmin.max(stmax.min(step));
    if bounded {
        let limit = low.position.add(
            Double::from_bits(SHRINK_BITS).mul(high.position.sub(low.position)),
        );
        if high.position.gt(low.position) {
            held.min(limit)
        } else {
            held.max(limit)
        }
    } else {
        held
    }
}

/// What an update returns for each input.
pub open spec fn step_update(
    low: Step,
    high: Step,
    trial: Step,
    bracketed: bool,
    stmin: Double,
    stmax: Double,
) -> StepUpdate {
    if rejected(low, high, trial, bracketed, stmin, stmax) {
        StepUpdate { low, high, trial, bracketed, case_code: 0 }
    } else {
        let case_code = select_case(low.value, low.slope, trial.value, trial.slope);
        let step = proposed_step(case_code, low, high, trial, bracketed, stmin, stmax);
        let new_low = updated_low(case_code, low, trial);
        let new_high = updated_high(case_code, low, high, trial);
        let new_bracketed = bracketed || case_code == 1 || case_code == 2;
        StepUpdate {
            low: new_low,
            high: new_high,
            trial: Step {
                position: safeguard(
                    step,
                    new_low,
                    new_high,
                    new_bracketed && is_bounded_case(case_code),
                    stmin,
                    stmax,
                ),
                value: trial.value,
                slope: trial.slope,
            },
            bracketed: new_bracketed,
            case_code,
        }
    }
}

/// Computes the next trial step and updates the interval.
///
/// `low` is the best point so far, `high` the other end of the interval,
/// `trial` the point just evaluated; `stmin` and `stmax` bound the new step.
/// A refused input comes back unchanged with case code 0. Otherwise the case
/// depends on the values and slopes at `low` and `trial` alone, the interval
/// is updated, and the step that the case proposes is held between the
/// bounds; in the first and third case with a minimizer enclosed it is then
/// cut back to `0.66` of the way from the best point to the other end, which
/// may take it beyond the bound on the side of the best point.
pub fn cstep(low: Step, high: Step, trial: Step, bracketed: bool, stmin: Double, stmax: Double) -> (r:
    StepUpdate)
    ensures
        r == step_update(low, high, trial, bracketed, stmin, stmax),
        rejected(low, high, trial, bracketed, stmin, stmax) ==> r == (StepUpdate {
            low,
            high,
            trial,
            bracketed,
            case_code: 0,
        }),
        !rejected(low, high, trial, bracketed, stmin, stmax) ==> r.case_code == select_case(
            low.value,
            low.slope,
            trial.value,
            trial.slope,
        ),
        r.trial.value == trial.value,
        r.trial.slope == trial.slope,
{
    if rejected(low, high, trial, bracketed, stmin, stmax) {
        return StepUpdate { low, high, trial, bracketed, case_code: 0 };
    }
    let case_code = select_case(low.value, low.slope, trial.value, trial.slope);
    let step = if case_code == 1 {
        step_higher_value(low, trial)
    } else if case_code == 2 {
        step_opposite_slopes(low, trial)
    } else if case_code == 3 {
        step_smaller_slope(low, trial, bracketed, stmin, stmax)
    } else {
        step_larger_slope(low, high, trial, bracketed, stmin, stmax)
    };
    let new_low = if case_code == 1 {
        low
    } else {
        trial
    };
    let new_high = if case_code == 1 {
        trial
    } else if case_code == 2 {
        low
    } else {
        high
    };
    let new_bracketed = bracketed || case_code == 1 || case_code == 2;
    let bounded = new_bracketed && (case_code == 1 || case_code == 3);
    let position = safeguard(step, new_low, new_high, bounded, stmin, stmax);
    StepUpdate {
        low: new_low,
        high: new_high,
        trial: Step { position, value: trial.value, slope: trial.slope },
        bracketed: new_bracketed,
        case_code,
    }
}

} // verus!
