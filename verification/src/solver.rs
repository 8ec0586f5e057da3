//! The line search as an optimizer drives it: parameters are vectors, the
//! objective is evaluated through a trait, and one call of
//! [`MoreThuenteLineSearch::next_iter`] is one evaluation.
//!
//! The decisions are those of [`crate::search`]; this module computes the
//! points, asks for the evaluations and hands them on.

use crate::config::{
    bounds_in_order, check_bounds, check_bounds_result, check_constants, check_constants_result,
    constants_in_range, default_configuration, ConfigurationIssue, LineSearchError,
    SearchConfiguration,
};
use crate::number::{Double, ONE_BITS};
use crate::search::{initial_state, RunState, SearchRun, StepOutcome};
use vstd::prelude::*;

verus! {

/// Arithmetic on parameter vectors. The search itself takes inner products
/// and moves along a direction; the difference is there for the optimizer
/// around it.
pub trait VectorOps: Sized {
    /// `self - other`.
    fn subtract(&self, other: &Self) -> Self;

    /// The inner product of `self` and `other`.
    fn dot(&self, other: &Self) -> Double;

    /// `self + factor * direction`.
    fn scaled_add(&self, factor: Double, direction: &Self) -> Self;
}

/// The function to minimize.
pub trait Objective {
    type Parameters;

    type Failure;

    /// The value at `point`.
    fn evaluate(&self, point: &Self::Parameters) -> Result<Double, Self::Failure>;

    /// The gradient at `point`.
    fn gradient(&self, point: &Self::Parameters) -> Result<Self::Parameters, Self::Failure>;
}

/// Why a call on the solver failed.
#[derive(Debug, PartialEq, Eq)]
pub enum SolverError<E> {
    /// The search is not set up, or cannot start.
    Setup(LineSearchError),
    /// The objective could not be evaluated.
    Evaluation(E),
}

/// What one iteration hands to the optimizer.
#[derive(Debug, PartialEq, Eq)]
pub struct IterationData<T> {
    /// The accepted point if the search is over, else the point to try
    /// next.
    pub param: T,
    /// The step that was evaluated.
    pub position: Double,
    /// The objective at the step just evaluated.
    pub cost: Double,
    /// The slope along the line at the step just evaluated.
    pub slope: Double,
    /// Whether the search goes on, and at which step.
    pub outcome: StepOutcome,
}

/// What a solver holds, as contracts speak of it.
pub struct SolverState<T> {
    pub config: SearchConfiguration,
    pub initial_step: Double,
    pub initial_parameter: Option<T>,
    pub initial_value: Option<Double>,
    pub initial_gradient: Option<T>,
    pub search_direction: Option<T>,
    pub current_gradient: Option<T>,
    /// The search in progress; `None` until `init` has succeeded.
    pub run: Option<RunState>,
}

/// The More-Thuente line search: finds a step along a descent direction at
/// which the strong Wolfe conditions hold.
pub struct MoreThuenteLineSearch<T, O> {
    operator: O,
    config: SearchConfiguration,
    initial_step: Double,
    initial_parameter: Option<T>,
    initial_value: Option<Double>,
    initial_gradient: Option<T>,
    search_direction: Option<T>,
    current_gradient: Option<T>,
    run: Option<SearchRun>,
}

impl<T, O> View for MoreThuenteLineSearch<T, O> {
    type V = SolverState<T>;

    closed spec fn view(&self) -> SolverState<T> {
        SolverState {
            config: self.config,
            initial_step: self.initial_step,
            initial_parameter: self.initial_parameter,
            initial_value: self.initial_value,
            initial_gradient: self.initial_gradient,
            search_direction: self.search_direction,
            current_gradient: self.current_gradient,
            run: match self.run {
                Some(run) => Some(run@),
                None => None,
            },
        }
    }
}

impl<T, O> MoreThuenteLineSearch<T, O> {
    #[verifier::type_invariant]
    spec fn well_formed(self) -> bool {
        &&& self.config.valid()
        &&& self.initial_step.gt(Double::zero())
        &&& self.run is Some ==> self.initial_parameter is Some && self.search_direction is Some
    }

    /// The objective that the solver was made with.
    pub closed spec fn operator(&self) -> O {
        self.operator
    }
}

impl<T: VectorOps, O: Objective<Parameters = T>> MoreThuenteLineSearch<T, O> {
    /// A solver for `operator` with the default configuration, the first
    /// step 1, and nothing else set.
    pub fn new(operator: O) -> (r: Self)
        ensures
            r.operator() == operator,
            r@ == (SolverState::<T> {
                config: default_configuration(),
                initial_step: Double::from_bits(ONE_BITS),
                initial_parameter: None,
                initial_value: None,
                initial_gradient: None,
                search_direction: None,
                current_gradient: None,
                run: None,
            }),
    {
        MoreThuenteLineSearch {
            operator,
            config: SearchConfiguration::new(),
            initial_step: Double::from_bits(ONE_BITS),
            initial_parameter: None,
            initial_value: None,
            initial_gradient: None,
            search_direction: None,
            current_gradient: None,
            run: None,
        }
    }

    /// The configuration, which is valid at all times.
    pub fn config(&self) -> (r: SearchConfiguration)
        ensures
            r == self@.config,
            r.valid(),
    {
        proof {
            use_type_invariant(self);
        }
        self.config
    }

    /// The first step to try, which is above zero at all times.
    pub fn initial_alpha(&self) -> (r: Double)
        ensures
            r == self@.initial_step,
            r.gt(Double::zero()),
    {
        proof {
            use_type_invariant(self);
        }
        self.initial_step
    }

    /// The state of the search in progress, if it has started.
    pub fn run_state(&self) -> (r: Option<RunState>)
        ensures
            r == self@.run,
            r matches Some(run) ==> run.wf(),
    {
        match &self.run {
            None => None,
            Some(run) => Some(run.state()),
        }
    }

    /// The gradient at the current point, if one is known.
    pub fn cur_grad(&self) -> (r: Option<&T>)
        ensures
            r is Some <==> self@.current_gradient is Some,
            r matches Some(gradient) ==> self@.current_gradient == Some(*gradient),
    {
        self.current_gradient.as_ref()
    }

    /// Records the gradient at the current point.
    pub fn set_cur_grad(&mut self, grad: T)
        ensures
            final(self).operator() == old(self).operator(),
            final(self)@.run == old(self)@.run,
            final(self)@ == (SolverState { current_gradient: Some(grad), ..old(self)@ }),
    {
        proof {
            use_type_invariant(&*self);
        }
        self.current_gradient = Some(grad);
    }

    /// Sets `c1` and `c2`. They are accepted exactly when `0 < c1 < c2 < 1`;
    /// otherwise nothing changes.
    pub fn set_c(&mut self, c1: Double, c2: Double) -> (r: Result<(), LineSearchError>)
        ensures
            r == check_constants_result(c1, c2),
            r is Ok <==> constants_in_range(c1, c2),
            final(self).operator() == old(self).operator(),
            final(self)@.run == old(self)@.run,
            r is Ok ==> final(self)@ == (SolverState {
                config: SearchConfiguration { c1, c2, ..old(self)@.config },
                ..old(self)@
            }),
            r is Err ==> final(self)@ == old(self)@,
    {
        proof {
            use_type_invariant(&*self);
        }
        match check_constants(c1, c2) {
            Err(e) => Err(e),
            Ok(()) => {
                self.config = SearchConfiguration {
                    c1,
                    c2,
                    position_min: self.config.position_min,
                    position_max: self.config.position_max,
                    xtol: self.config.xtol,
                    extrapolation_factor: self.config.extrapolation_factor,
                };
                Ok(())
            },
        }
    }

    /// Sets the smallest and the largest step. They are accepted exactly
    /// when `0 <= alpha_min < alpha_max`; otherwise nothing changes.
    pub fn set_alpha_min_max(&mut self, alpha_min: Double, alpha_max: Double) -> (r: Result<
        (),
        LineSearchError,
    >)
        ensures
            r == check_bounds_result(alpha_min, alpha_max),
            r is Ok <==> bounds_in_order(alpha_min, alpha_max),
            final(self).operator() == old(self).operator(),
            final(self)@.run == old(self)@.run,
            r is Ok ==> final(self)@ == (SolverState {
                config: SearchConfiguration {
                    position_min: alpha_min,
                    position_max: alpha_max,
                    ..old(self)@.config
                },
                ..old(self)@
            }),
            r is Err ==> final(self)@ == old(self)@,
    {
        proof {
            use_type_invariant(&*self);
        }
        match check_bounds(alpha_min, alpha_max) {
            Err(e) => Err(e),
            Ok(()) => {
                self.config = SearchConfiguration {
                    c1: self.config.c1,
                    c2: self.config.c2,
                    position_min: alpha_min,
                    position_max: alpha_max,
                    xtol: self.config.xtol,
                    extrapolation_factor: self.config.extrapolation_factor,
                };
                Ok(())
            },
        }
    }

    /// Sets the direction of the line.
    pub fn set_search_direction(&mut self, search_direction: T)
        ensures
            final(self).operator() == old(self).operator(),
            final(self)@.run == old(self)@.run,
            final(self)@ == (SolverState {
                search_direction: Some(search_direction),
                ..old(self)@
            }),
    {
        proof {
            use_type_invariant(&*self);
        }
        self.search_direction = Some(search_direction);
    }

    /// Sets the point at which the line starts.
    pub fn set_initial_parameter(&mut self, param: T)
        ensures
            final(self).operator() == old(self).operator(),
            final(self)@.run == old(self)@.run,
            final(self)@ == (SolverState { initial_parameter: Some(param), ..old(self)@ }),
    {
        proof {
            use_type_invariant(&*self);
        }
        self.initial_parameter = Some(param);
    }

    /// Sets the objective at the start of the line.
    pub fn set_initial_cost(&mut self, init_cost: Double)
        ensures
            final(self).operator() == old(self).operator(),
            final(self)@.run == old(self)@.run,
            final(self)@ == (SolverState { initial_value: Some(init_cost), ..old(self)@ }),
    {
        proof {
            use_type_invariant(&*self);
        }
        self.initial_value = Some(init_cost);
    }

    /// Sets the gradient at the start of the line.
    pub fn set_initial_gradient(&mut self, init_grad: T)
        ensures
            final(self).operator() == old(self).operator(),
            final(self)@.run == old(self)@.run,
            final(self)@ == (SolverState { initial_gradient: Some(init_grad), ..old(self)@ }),
    {
        proof {
            use_type_invariant(&*self);
        }
        self.initial_gradient = Some(init_grad);
    }

    /// Sets the first step to try. It is accepted exactly when it is above
    /// zero; otherwise nothing changes.
    pub fn set_initial_alpha(&mut self, alpha: Double) -> (r: Result<(), LineSearchError>)
        ensures
            r is Ok <==> alpha.gt(Double::zero()),
            r is Err ==> r == Err::<(), LineSearchError>(
                LineSearchError::Configuration(ConfigurationIssue::NonPositiveInitialStep),
            ),
            final(self).operator() == old(self).operator(),
            final(self)@.run == old(self)@.run,
            r is Ok ==> final(self)@ == (SolverState { initial_step: alpha, ..old(self)@ }),
            r is Err ==> final(self)@ == old(self)@,
    {
        proof {
            use_type_invariant(&*self);
        }
        if !alpha.gt(Double::zero()) {
            return Err(LineSearchError::Configuration(ConfigurationIssue::NonPositiveInitialStep));
        }
        self.initial_step = alpha;
        Ok(())
    }

    /// Asks the objective for its value at the start of the line and hands
    /// the answer to [`Self::set_initial_cost`].
    ///
    /// Fails without a change if no starting point is set, or if the
    /// objective fails.
    pub fn calc_initial_cost(&mut self) -> (r: Result<(), SolverError<O::Failure>>)
        ensures
            final(self).operator() == old(self).operator(),
            final(self)@.run == old(self)@.run,
            old(self)@.initial_parameter is None ==> r == Err::<(), SolverError<O::Failure>>(
                SolverError::Setup(
                    LineSearchError::Configuration(ConfigurationIssue::MissingInitialParameter),
                ),
            ),
            old(self)@.initial_parameter is Some ==> !(r is Err && r->Err_0 is Setup),
            r is Ok ==> final(self)@.initial_value is Some && final(self)@ == (SolverState {
                initial_value: final(self)@.initial_value,
                ..old(self)@
            }),
            r is Err ==> final(self)@ == old(self)@,
    {
        proof {
            use_type_invariant(&*self);
        }
        let value = match &self.initial_parameter {
            None => {
                return Err(
                    SolverError::Setup(
                        LineSearchError::Configuration(ConfigurationIssue::MissingInitialParameter),
                    ),
                );
            },
            Some(point) => match self.operator.evaluate(point) {
                Err(e) => {
                    return Err(SolverError::Evaluation(e));
                },
                Ok(value) => value,
            },
        };
        self.set_initial_cost(value);
        Ok(())
    }

    /// Asks the objective for its gradient at the start of the line and
    /// hands the answer to [`Self::set_initial_gradient`].
    ///
    /// Fails without a change if no starting point is set, or if the
    /// objective fails.
    pub fn calc_initial_gradient(&mut self) -> (r: Result<(), SolverError<O::Failure>>)
        ensures
            final(self).operator() == old(self).operator(),
            final(self)@.run == old(self)@.run,
            old(self)@.initial_parameter is None ==> r == Err::<(), SolverError<O::Failure>>(
                SolverError::Setup(
                    LineSearchError::Configuration(ConfigurationIssue::MissingInitialParameter),
                ),
            ),
            old(self)@.initial_parameter is Some ==> !(r is Err && r->Err_0 is Setup),
            r is Ok ==> final(self)@.initial_gradient is Some && final(self)@ == (SolverState {
                initial_gradient: final(self)@.initial_gradient,
                ..old(self)@
            }),
            r is Err ==> final(self)@ == old(self)@,
    {
        proof {
            use_type_invariant(&*self);
        }
        let gradient = match &self.initial_parameter {
            None => {
                return Err(
                    SolverError::Setup(
                        LineSearchError::Configuration(ConfigurationIssue::MissingInitialParameter),
                    ),
                );
            },
            Some(point) => match self.operator.gradient(point) {
                Err(e) => {
                    return Err(SolverError::Evaluation(e));
                },
                Ok(gradient) => gradient,
            },
        };
        self.set_initial_gradient(gradient);
        Ok(())
    }

    /// Which input a search still lacks, in the order in which `init` looks
    /// for them.
    pub open spec fn missing_input(state: SolverState<T>) -> Option<ConfigurationIssue> {
        if state.initial_parameter is None {
            Some(ConfigurationIssue::MissingInitialParameter)
        } else if state.initial_value is None {
            Some(ConfigurationIssue::MissingInitialCost)
        } else if state.initial_gradient is None {
            Some(ConfigurationIssue::MissingInitialGradient)
        } else if state.search_direction is None {
            Some(ConfigurationIssue::MissingSearchDirection)
        } else {
            None
        }
    }

    /// Starts the search: takes the slope at the start as the inner product
    /// of the initial gradient and the direction, and sets the interval up.
    ///
    /// Fails without a change, and before the objective is evaluated at any
    /// step, if an input is missing, or if the slope at the start is zero or
    /// more. The objective is not asked here at all.
    pub fn init(&mut self) -> (r: Result<(), LineSearchError>)
        ensures
            final(self).operator() == old(self).operator(),
            Self::missing_input(old(self)@) matches Some(issue) ==> r == Err::<
                (),
                LineSearchError,
            >(LineSearchError::Configuration(issue)),
            Self::missing_input(old(self)@) is None ==> r is Ok || r == Err::<(), LineSearchError>(
                LineSearchError::Precondition,
            ),
            r is Err ==> final(self)@ == old(self)@,
            r is Ok ==> (final(self)@.run matches Some(run) && final(self)@ == (SolverState {
                run: Some(run),
                ..old(self)@
            }) && !run.initial_slope.ge(Double::zero()) && run == initial_state(
                old(self)@.config,
                old(self)@.initial_value->0,
                run.initial_slope,
                old(self)@.initial_step,
            )),
    {
        proof {
            use_type_invariant(&*self);
        }
        if self.initial_parameter.is_none() {
            return Err(LineSearchError::Configuration(ConfigurationIssue::MissingInitialParameter));
        }
        let initial_value = match self.initial_value {
            None => {
                return Err(LineSearchError::Configuration(ConfigurationIssue::MissingInitialCost));
            },
            Some(value) => value,
        };
        let dginit = match (&self.initial_gradient, &self.search_direction) {
            (None, _) => {
                return Err(
                    LineSearchError::Configuration(ConfigurationIssue::MissingInitialGradient),
                );
            },
            (Some(_), None) => {
                return Err(
                    LineSearchError::Configuration(ConfigurationIssue::MissingSearchDirection),
                );
            },
            (Some(gradient), Some(direction)) => gradient.dot(direction),
        };
        match SearchRun::start(self.config, initial_value, dginit, self.initial_step) {
            Err(e) => Err(e),
            Ok(run) => {
                self.run = Some(run);
                Ok(())
            },
        }
    }

    /// One evaluation of the objective, at the step that the search
    /// proposes, and what follows from it.
    ///
    /// The point is the start of the line plus the step times the direction,
    /// the slope the inner product of the direction and the gradient there.
    /// If the objective fails, the failure is handed on and nothing changes.
    /// Otherwise the search moves on as [`RunState::next_state`] says for
    /// the value and slope found, which the result reports together with
    /// the step at which they were found.
    pub fn next_iter(&mut self) -> (r: Result<IterationData<T>, SolverError<O::Failure>>)
        ensures
            final(self).operator() == old(self).operator(),
            old(self)@.run is None ==> r == Err::<IterationData<T>, SolverError<O::Failure>>(
                SolverError::Setup(LineSearchError::Configuration(ConfigurationIssue::NotStarted)),
            ),
            old(self)@.run is Some ==> !(r is Err && r->Err_0 is Setup),
            r is Err ==> final(self)@ == old(self)@,
            r matches Ok(data) ==> (old(self)@.run matches Some(run) && data.position
                == run.proposal() && data.outcome == run.outcome(data.cost, data.slope)
                && final(self)@.current_gradient is Some
                && final(self)@ == (SolverState {
                run: Some(run.next_state(data.cost, data.slope)),
                current_gradient: final(self)@.current_gradient,
                ..old(self)@
            })),
    {
        proof {
            use_type_invariant(&*self);
        }
        let position = match &self.run {
            None => {
                return Err(
                    SolverError::Setup(
                        LineSearchError::Configuration(ConfigurationIssue::NotStarted),
                    ),
                );
            },
            Some(run) => run.propose(),
        };
        let (point, cost, gradient, slope) = match (&self.initial_parameter, &self.search_direction) {
            (Some(start), Some(direction)) => {
                let point = start.scaled_add(position, direction);
                let cost = match self.operator.evaluate(&point) {
                    Err(e) => {
                        return Err(SolverError::Evaluation(e));
                    },
                    Ok(cost) => cost,
                };
                let gradient = match self.operator.gradient(&point) {
                    Err(e) => {
                        return Err(SolverError::Evaluation(e));
                    },
                    Ok(gradient) => gradient,
                };
                let slope = direction.dot(&gradient);
                (point, cost, gradient, slope)
            },
            _ => {
                return Err(
                    SolverError::Setup(
                        LineSearchError::Configuration(ConfigurationIssue::NotStarted),
                    ),
                );
            },
        };
        let mut run = match self.run {
            None => {
                return Err(
                    SolverError::Setup(
                        LineSearchError::Configuration(ConfigurationIssue::NotStarted),
                    ),
                );
            },
            Some(run) => run,
        };
        let outcome = run.advance(cost, slope);
        self.run = Some(run);
        self.current_gradient = Some(gradient);
        let param = match outcome {
            StepOutcome::Finished { .. } => point,
            StepOutcome::Continue { position: next, .. } => match (
                &self.initial_parameter,
                &self.search_direction,
            ) {
                (Some(start), Some(direction)) => start.scaled_add(next, direction),
                _ => point,
            },
        };
        Ok(IterationData { param, position, cost, slope, outcome })
    }
}

} // verus!
