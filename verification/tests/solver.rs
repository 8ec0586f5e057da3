use more_thuente::config::{ConfigurationIssue, LineSearchError};
use more_thuente::number::Double;
use more_thuente::search::{Stage, StepOutcome};
use more_thuente::solver::{IterationData, MoreThuenteLineSearch, Objective, SolverError, VectorOps};
use std::cell::Cell;

fn d(x: f64) -> Double {
    Double::from_bits(x.to_bits())
}

fn f(x: Double) -> f64 {
    f64::from_bits(x.to_bits())
}

#[derive(Clone, Debug, PartialEq)]
struct V(Vec<f64>);

impl VectorOps for V {
    fn subtract(&self, other: &Self) -> Self {
        V(self.0.iter().zip(&other.0).map(|(a, b)| a - b).collect())
    }

    fn dot(&self, other: &Self) -> Double {
        d(self.0.iter().zip(&other.0).map(|(a, b)| a * b).sum())
    }

    fn scaled_add(&self, factor: Double, direction: &Self) -> Self {
        V(self.0.iter().zip(&direction.0).map(|(a, b)| a + f(factor) * b).collect())
    }
}

/// The sum of squares, which counts how often it is asked and can be told
/// to fail.
struct Sphere {
    asked: Cell<usize>,
    value_fails: Cell<bool>,
    gradient_fails: Cell<bool>,
}

impl Sphere {
    fn new() -> Sphere {
        Sphere { asked: Cell::new(0), value_fails: Cell::new(false), gradient_fails: Cell::new(false) }
    }
}

impl Objective for &Sphere {
    type Parameters = V;
    type Failure = String;

    fn evaluate(&self, point: &V) -> Result<Double, String> {
        self.asked.set(self.asked.get() + 1);
        if self.value_fails.get() {
            return Err(format!("no value at {:?}", point.0));
        }
        Ok(d(point.0.iter().map(|x| x * x).sum()))
    }

    fn gradient(&self, point: &V) -> Result<V, String> {
        self.asked.set(self.asked.get() + 1);
        if self.gradient_fails.get() {
            return Err(format!("no gradient at {:?}", point.0));
        }
        Ok(V(point.0.iter().map(|x| 2.0 * x).collect()))
    }
}

fn setup_error<T>(issue: ConfigurationIssue) -> Result<T, LineSearchError> {
    Err(LineSearchError::Configuration(issue))
}

fn ready(sphere: &Sphere) -> MoreThuenteLineSearch<V, &Sphere> {
    let mut solver = MoreThuenteLineSearch::new(sphere);
    solver.set_search_direction(V(vec![-2.0, 0.0]));
    solver.set_initial_parameter(V(vec![1.0, 0.0]));
    solver.calc_initial_cost().unwrap();
    solver.calc_initial_gradient().unwrap();
    solver.set_initial_alpha(d(1.0)).unwrap();
    solver
}

#[test]
fn new_solver_has_the_defaults_and_no_search() {
    let sphere = Sphere::new();
    let solver: MoreThuenteLineSearch<V, &Sphere> = MoreThuenteLineSearch::new(&sphere);
    let c = solver.config();
    assert_eq!(f(c.c1), 1e-4);
    assert_eq!(f(c.c2), 0.9);
    assert_eq!(f(c.position_min), f64::EPSILON.sqrt());
    assert_eq!(f(c.position_max), f64::INFINITY);
    assert_eq!(f(c.xtol), 1e-10);
    assert_eq!(f(c.extrapolation_factor), 4.0);
    assert_eq!(f(solver.initial_alpha()), 1.0);
    assert_eq!(solver.run_state(), None);
    assert_eq!(solver.cur_grad(), None);
    assert_eq!(sphere.asked.get(), 0);
}

#[test]
fn sphere_converges_to_the_line_minimizer() {
    let sphere = Sphere::new();
    let mut solver = ready(&sphere);
    solver.set_c(d(1e-4), d(0.9)).unwrap();
    assert_eq!(solver.init(), Ok(()));
    let start = solver.run_state().unwrap();
    assert_eq!(f(start.initial_value), 1.0);
    assert_eq!(f(start.initial_slope), -4.0);
    let mut iterations = 0;
    let end = loop {
        let data = solver.next_iter().unwrap();
        iterations += 1;
        assert!(iterations <= 5);
        if let StepOutcome::Finished { position, value, code } = data.outcome {
            assert_eq!(value, data.cost);
            break (data.param, f(position), f(value), code);
        }
    };
    assert_eq!(iterations, 2);
    assert_eq!(end.3, 1);
    assert!((end.1 - 0.5).abs() < 1e-3);
    assert!(end.2 < 1e-6);
    assert!(end.0 .0[0].abs() < 1e-3);
    assert_eq!(end.0 .0[1], 0.0);
    assert_eq!(end.0, V(vec![1.0 + end.1 * -2.0, 0.0]));
    assert_eq!(solver.cur_grad(), Some(&V(vec![2.0 * end.0 .0[0], 0.0])));
}

#[test]
fn iteration_reports_what_was_found_and_where_to_go() {
    let sphere = Sphere::new();
    let mut solver = ready(&sphere);
    solver.init().unwrap();
    let asked = sphere.asked.get();
    let data = solver.next_iter().unwrap();
    assert_eq!(sphere.asked.get(), asked + 2);
    assert_eq!(f(data.position), 1.0);
    assert_eq!(f(data.cost), 1.0);
    assert_eq!(f(data.slope), 4.0);
    let next = match data.outcome {
        StepOutcome::Continue { position, value } => {
            assert_eq!(f(value), 1.0);
            f(position)
        }
        StepOutcome::Finished { .. } => panic!("ended at once"),
    };
    assert!((next - 0.49995).abs() < 1e-9);
    assert_eq!(data.param, V(vec![1.0 + next * -2.0, 0.0]));
    let state = solver.run_state().unwrap();
    assert!(state.interval.bracketed);
    assert_eq!(state.stage, Stage::Stage1);
    assert_eq!(f(state.trial), next);
    assert_eq!(solver.cur_grad(), Some(&V(vec![-2.0, 0.0])));
}

#[test]
fn step_at_largest_step_ends_on_first_iteration() {
    let sphere = Sphere::new();
    let mut solver = ready(&sphere);
    solver.set_alpha_min_max(d(0.0), d(0.5)).unwrap();
    solver.set_initial_alpha(d(0.5)).unwrap();
    solver.init().unwrap();
    let data = solver.next_iter().unwrap();
    assert_eq!(
        data,
        IterationData {
            param: V(vec![0.0, 0.0]),
            position: d(0.5),
            cost: d(0.0),
            slope: d(0.0),
            outcome: StepOutcome::Finished { position: d(0.5), value: d(0.0), code: 1 },
        }
    );
}

#[test]
fn setters_validate_and_keep_the_old_value_on_error() {
    let sphere = Sphere::new();
    let mut solver: MoreThuenteLineSearch<V, &Sphere> = MoreThuenteLineSearch::new(&sphere);
    assert_eq!(solver.set_c(d(0.2), d(0.3)), Ok(()));
    assert_eq!(solver.set_c(d(0.0), d(0.5)), setup_error(ConfigurationIssue::C1OutOfRange));
    assert_eq!(solver.set_c(d(0.5), d(0.4)), setup_error(ConfigurationIssue::C1OutOfRange));
    assert_eq!(solver.set_c(d(0.5), d(1.0)), setup_error(ConfigurationIssue::C2OutOfRange));
    assert_eq!(solver.set_c(d(f64::NAN), d(0.5)), setup_error(ConfigurationIssue::C1OutOfRange));
    assert_eq!((f(solver.config().c1), f(solver.config().c2)), (0.2, 0.3));
    assert_eq!(solver.set_alpha_min_max(d(0.5), d(8.0)), Ok(()));
    assert_eq!(
        solver.set_alpha_min_max(d(-1.0), d(8.0)),
        setup_error(ConfigurationIssue::NegativeLowerBound)
    );
    assert_eq!(
        solver.set_alpha_min_max(d(3.0), d(3.0)),
        setup_error(ConfigurationIssue::BoundsOutOfOrder)
    );
    assert_eq!(
        solver.set_alpha_min_max(d(3.0), d(f64::NAN)),
        setup_error(ConfigurationIssue::BoundsOutOfOrder)
    );
    assert_eq!((f(solver.config().position_min), f(solver.config().position_max)), (0.5, 8.0));
    assert_eq!((f(solver.config().c1), f(solver.config().c2)), (0.2, 0.3));
    assert_eq!(solver.set_initial_alpha(d(2.5)), Ok(()));
    for bad in [0.0, -1.0, f64::NAN] {
        assert_eq!(
            solver.set_initial_alpha(d(bad)),
            setup_error(ConfigurationIssue::NonPositiveInitialStep)
        );
    }
    assert_eq!(f(solver.initial_alpha()), 2.5);
    assert_eq!(solver.run_state(), None);
}

#[test]
fn setup_leaves_a_search_in_progress_alone() {
    let sphere = Sphere::new();
    let mut solver = ready(&sphere);
    assert_eq!(solver.run_state(), None);
    solver.init().unwrap();
    solver.next_iter().unwrap();
    let run = solver.run_state();
    assert!(run.is_some());
    solver.set_c(d(0.2), d(0.3)).unwrap();
    solver.set_c(d(0.9), d(0.3)).unwrap_err();
    solver.set_alpha_min_max(d(0.1), d(3.0)).unwrap();
    solver.set_alpha_min_max(d(4.0), d(3.0)).unwrap_err();
    solver.set_initial_alpha(d(7.0)).unwrap();
    solver.set_initial_alpha(d(-7.0)).unwrap_err();
    solver.set_initial_cost(d(99.0));
    solver.set_initial_gradient(V(vec![5.0, 5.0]));
    solver.set_cur_grad(V(vec![6.0, 6.0]));
    solver.calc_initial_cost().unwrap();
    solver.calc_initial_gradient().unwrap();
    assert_eq!(solver.run_state(), run);
    assert_eq!(f(run.unwrap().config.c1), 1e-4);
    assert_eq!(solver.cur_grad(), Some(&V(vec![6.0, 6.0])));
}

#[test]
fn init_names_the_first_missing_input() {
    let sphere = Sphere::new();
    let mut solver: MoreThuenteLineSearch<V, &Sphere> = MoreThuenteLineSearch::new(&sphere);
    assert_eq!(solver.init(), setup_error(ConfigurationIssue::MissingInitialParameter));
    assert_eq!(
        solver.calc_initial_cost(),
        Err(SolverError::Setup(LineSearchError::Configuration(
            ConfigurationIssue::MissingInitialParameter
        )))
    );
    assert_eq!(
        solver.calc_initial_gradient(),
        Err(SolverError::Setup(LineSearchError::Configuration(
            ConfigurationIssue::MissingInitialParameter
        )))
    );
    solver.set_initial_parameter(V(vec![1.0, 0.0]));
    assert_eq!(solver.init(), setup_error(ConfigurationIssue::MissingInitialCost));
    solver.set_initial_cost(d(1.0));
    assert_eq!(solver.init(), setup_error(ConfigurationIssue::MissingInitialGradient));
    solver.set_initial_gradient(V(vec![2.0, 0.0]));
    assert_eq!(solver.init(), setup_error(ConfigurationIssue::MissingSearchDirection));
    assert_eq!(solver.run_state(), None);
    solver.set_search_direction(V(vec![-2.0, 0.0]));
    assert_eq!(solver.init(), Ok(()));
    assert!(solver.run_state().is_some());
    assert_eq!(sphere.asked.get(), 0);
}

#[test]
fn init_refuses_ascent_before_any_evaluation() {
    let sphere = Sphere::new();
    let mut solver: MoreThuenteLineSearch<V, &Sphere> = MoreThuenteLineSearch::new(&sphere);
    solver.set_initial_parameter(V(vec![1.0, 0.0]));
    solver.set_initial_cost(d(1.0));
    solver.set_initial_gradient(V(vec![2.0, 0.0]));
    for direction in [vec![2.0, 0.0], vec![0.0, 1.0], vec![0.0, 0.0]] {
        solver.set_search_direction(V(direction));
        assert_eq!(solver.init(), Err(LineSearchError::Precondition));
        assert_eq!(solver.run_state(), None);
    }
    assert_eq!(sphere.asked.get(), 0);
    assert_eq!(
        solver.next_iter(),
        Err(SolverError::Setup(LineSearchError::Configuration(ConfigurationIssue::NotStarted)))
    );
    assert_eq!(sphere.asked.get(), 0);
}

#[test]
fn next_iter_before_init_is_refused() {
    let sphere = Sphere::new();
    let mut solver = ready(&sphere);
    let asked = sphere.asked.get();
    assert_eq!(
        solver.next_iter(),
        Err(SolverError::Setup(LineSearchError::Configuration(ConfigurationIssue::NotStarted)))
    );
    assert_eq!(sphere.asked.get(), asked);
}

#[test]
fn evaluation_failure_is_handed_on_and_changes_nothing() {
    let sphere = Sphere::new();
    let mut solver = ready(&sphere);
    solver.init().unwrap();
    let before = solver.run_state();
    sphere.value_fails.set(true);
    assert_eq!(
        solver.next_iter(),
        Err(SolverError::Evaluation("no value at [-1.0, 0.0]".to_string()))
    );
    assert_eq!(solver.run_state(), before);
    sphere.value_fails.set(false);
    sphere.gradient_fails.set(true);
    assert_eq!(
        solver.next_iter(),
        Err(SolverError::Evaluation("no gradient at [-1.0, 0.0]".to_string()))
    );
    assert_eq!(solver.run_state(), before);
    assert_eq!(solver.cur_grad(), None);
    sphere.gradient_fails.set(false);
    assert!(solver.next_iter().is_ok());
    assert_ne!(solver.run_state(), before);
}

#[test]
fn initial_evaluation_failure_is_handed_on() {
    let sphere = Sphere::new();
    let mut solver: MoreThuenteLineSearch<V, &Sphere> = MoreThuenteLineSearch::new(&sphere);
    solver.set_initial_parameter(V(vec![3.0, 4.0]));
    sphere.value_fails.set(true);
    sphere.gradient_fails.set(true);
    assert_eq!(
        solver.calc_initial_cost(),
        Err(SolverError::Evaluation("no value at [3.0, 4.0]".to_string()))
    );
    assert_eq!(
        solver.calc_initial_gradient(),
        Err(SolverError::Evaluation("no gradient at [3.0, 4.0]".to_string()))
    );
    solver.set_search_direction(V(vec![-3.0, -4.0]));
    assert_eq!(solver.init(), setup_error(ConfigurationIssue::MissingInitialCost));
    sphere.value_fails.set(false);
    sphere.gradient_fails.set(false);
    solver.set_initial_cost(d(-1.0));
    solver.set_initial_gradient(V(vec![0.0, 0.0]));
    solver.calc_initial_cost().unwrap();
    solver.calc_initial_gradient().unwrap();
    solver.init().unwrap();
    let run = solver.run_state().unwrap();
    assert_eq!(f(run.initial_value), 25.0);
    assert_eq!(f(run.initial_slope), -50.0);
}

#[test]
fn vector_subtraction_is_componentwise() {
    assert_eq!(V(vec![3.0, 1.0]).subtract(&V(vec![1.0, 4.0])), V(vec![2.0, -3.0]));
}
