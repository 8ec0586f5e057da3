//! The parameters of a search and the ways in which setting one up can fail.

use crate::number::{Double, FOUR_BITS, INFINITY_BITS, ONE_BITS, SQRT_EPSILON_BITS};
use vstd::prelude::*;

verus! {

/// Pattern of `1e-4`, the sufficient-decrease constant unless set.
pub const DEFAULT_C1_BITS: u64 = 0x3f1a_36e2_eb1c_432d;

/// Pattern of `0.9`, the curvature constant unless set.
pub const DEFAULT_C2_BITS: u64 = 0x3fec_cccc_cccc_cccd;

/// Pattern of `1e-10`, the relative width at which an interval counts as
/// exhausted.
pub const DEFAULT_XTOL_BITS: u64 = 0x3ddb_7cdf_d9d7_bdbb;

/// Which setting was refused.
#[derive(Clone, Copy, Debug, PartialEq, Eq)]
pub enum ConfigurationIssue {
    /// `c1` is not in `(0, c2)`.
    C1OutOfRange,
    /// `c2` is not in `(c1, 1)`.
    C2OutOfRange,
    /// The smallest step is not at least zero.
    NegativeLowerBound,
    /// The smallest step is not below the largest.
    BoundsOutOfOrder,
    /// The first step is not above zero.
    NonPositiveInitialStep,
    /// No point at which the line starts was given.
    MissingInitialParameter,
    /// No value of the objective at the start was given.
    MissingInitialCost,
    /// No gradient at the start was given.
    MissingInitialGradient,
    /// No direction of the line was given.
    MissingSearchDirection,
    /// The search was asked to go on before it was started.
    NotStarted,
}

/// Why a search could not be set up or started.
#[derive(Clone, Copy, Debug, PartialEq, Eq)]
pub enum LineSearchError {
    /// A setting is out of range or missing.
    Configuration(ConfigurationIssue),
    /// The objective does not decrease along the line at the start.
    Precondition,
}

/// The constants of a search: `c1` of the sufficient-decrease test, `c2` of
/// the curvature test, the smallest and largest step, the relative width
/// `xtol` below which an interval is given up, and the factor by which a
/// step may be extrapolated while no minimizer is enclosed.
#[derive(Clone, Copy, Debug, PartialEq, Eq)]
pub struct SearchConfiguration {
    pub c1: Double,
    pub c2: Double,
    pub position_min: Double,
    pub position_max: Double,
    pub xtol: Double,
    pub extrapolation_factor: Double,
}

/// `0 < c1 < c2 < 1`.
pub open spec fn constants_in_range(c1: Double, c2: Double) -> bool {
    Double::zero().lt(c1) && c1.lt(c2) && c2.lt(Double::from_bits(ONE_BITS))
}

/// `0 <= min < max`.
pub open spec fn bounds_in_order(position_min: Double, position_max: Double) -> bool {
    Double::zero().le(position_min) && position_min.lt(position_max)
}

/// The configuration that a search has unless it is told otherwise.
pub open spec fn default_configuration() -> SearchConfiguration {
    SearchConfiguration {
        c1: Double::from_bits(DEFAULT_C1_BITS),
        c2: Double::from_bits(DEFAULT_C2_BITS),
        position_min: Double::from_bits(SQRT_EPSILON_BITS),
        position_max: Double::from_bits(INFINITY_BITS),
        xtol: Double::from_bits(DEFAULT_XTOL_BITS),
        extrapolation_factor: Double::from_bits(FOUR_BITS),
    }
}

/// What [`check_constants`] returns.
pub open spec fn check_constants_result(c1: Double, c2: Double) -> Result<(), LineSearchError> {
    if !(Double::zero().lt(c1) && c1.lt(c2)) {
        Err(LineSearchError::Configuration(ConfigurationIssue::C1OutOfRange))
    } else if !c2.lt(Double::from_bits(ONE_BITS)) {
        Err(LineSearchError::Configuration(ConfigurationIssue::C2OutOfRange))
    } else {
        Ok(())
    }
}

/// What [`check_bounds`] returns.
pub open spec fn check_bounds_result(position_min: Double, position_max: Double) -> Result<
    (),
    LineSearchError,
> {
    if !Double::zero().le(position_min) {
        Err(LineSearchError::Configuration(ConfigurationIssue::NegativeLowerBound))
    } else if !position_min.lt(position_max) {
        Err(LineSearchError::Configuration(ConfigurationIssue::BoundsOutOfOrder))
    } else {
        Ok(())
    }
}

/// Accepts `c1` and `c2` exactly when `0 < c1 < c2 < 1`. Of the two
/// complaints, the one about `c1` comes first.
pub fn check_constants(c1: Double, c2: Double) -> (r: Result<(), LineSearchError>)
    ensures
        r is Ok <==> constants_in_range(c1, c2),
        r == check_constants_result(c1, c2),
{
    if !(Double::zero().lt(c1) && c1.lt(c2)) {
        Err(LineSearchError::Configuration(ConfigurationIssue::C1OutOfRange))
    } else if !c2.lt(Double::from_bits(ONE_BITS)) {
        Err(LineSearchError::Configuration(ConfigurationIssue::C2OutOfRange))
    } else {
        Ok(())
    }
}

/// Accepts the bounds exactly when `0 <= min < max`. Of the two complaints,
/// the one about a negative lower bound comes first.
pub fn check_bounds(position_min: Double, position_max: Double) -> (r: Result<(), LineSearchError>)
    ensures
        r is Ok <==> bounds_in_order(position_min, position_max),
        r == check_bounds_result(position_min, position_max),
{
    if !Double::zero().le(position_min) {
        Err(LineSearchError::Configuration(ConfigurationIssue::NegativeLowerBound))
    } else if !position_min.lt(position_max) {
        Err(LineSearchError::Configuration(ConfigurationIssue::BoundsOutOfOrder))
    } else {
        Ok(())
    }
}

impl SearchConfiguration {
    /// Whether the constants and the bounds are in range.
    pub open spec fn valid(self) -> bool {
        constants_in_range(self.c1, self.c2) && bounds_in_order(
            self.position_min,
            self.position_max,
        )
    }

    /// The default configuration: `c1 = 1e-4`, `c2 = 0.9`, steps between the
    /// square root of the machine epsilon and infinity, `xtol = 1e-10`,
    /// extrapolation by the factor 4.
    pub fn new() -> (r: SearchConfiguration)
        ensures
            r == default_configuration(),
            r.valid(),
    {
        SearchConfiguration {
            c1: Double::from_bits(DEFAULT_C1_BITS),
            c2: Double::from_bits(DEFAULT_C2_BITS),
            position_min: Double::from_bits(SQRT_EPSILON_BITS),
            position_max: Double::from_bits(INFINITY_BITS),
            xtol: Double::from_bits(DEFAULT_XTOL_BITS),
            extrapolation_factor: Double::from_bits(FOUR_BITS),
        }
    }

    /// Accepts a configuration exactly when it is valid. The constants are
    /// looked at before the bounds.
    pub fn validate(&self) -> (r: Result<(), LineSearchError>)
        ensures
            r is Ok <==> self.valid(),
            !constants_in_range(self.c1, self.c2) ==> r == check_constants_result(self.c1, self.c2),
            constants_in_range(self.c1, self.c2) ==> r == check_bounds_result(
                self.position_min,
                self.position_max,
            ),
    {
        match check_constants(self.c1, self.c2) {
            Err(e) => Err(e),
            Ok(()) => check_bounds(self.position_min, self.position_max),
        }
    }
}

} // verus!
