use numeric_solvers::newton_raphson::{newton_raphson, NewtonRalphsonSolver, MAX_ITERATIONS};

#[test]
fn test_newton_raphson() {
    let mut x: f32 = 0.5;
    for _ in 0..10 {
        println!("{}", x);
        x = newton_raphson(x, |x| x.powi(2) - 2.0, |x| 2.0 * x);
    }
    println!("{}", x);
    assert!((x - std::f32::consts::SQRT_2).abs() < 1e-6);
}

#[test]
fn test_newton_raphson_step() {
    let mut solver = NewtonRalphsonSolver::new(0.5_f32, |x: f32| x.powi(2) - 2.0, |x: f32| 2.0 * x);
    for _ in 0..10 {
        println!("{}", solver.x());
        solver.step();
    }
    println!("{}", solver.x());
    assert!((solver.x() - std::f32::consts::SQRT_2).abs() < 1e-6);
}

#[test]
fn test_newton_raphson_solver() {
    let mut solver = NewtonRalphsonSolver::new(0.5_f32, |x: f32| x.powi(2) - 2.0, |x: f32| 2.0 * x);
    let converged = solver.solve(0.001);
    println!("{}", solver.x());
    assert!(converged);
    assert!((solver.x() - 1.41421).abs() < 0.001);
}

#[test]
fn newton_update_is_x_minus_f_over_df() {
    let next = newton_raphson(0.5_f64, |x: f64| x * x - 2.0, |x: f64| 2.0 * x);
    assert_eq!(next, 0.5 - (0.25 - 2.0) / 1.0);
    assert_eq!(next, 2.25);
}

#[test]
fn newton_step_from_zero_derivative_gives_infinity() {
    let mut solver = NewtonRalphsonSolver::new(0.0_f64, |x: f64| x * x - 2.0, |x: f64| 2.0 * x);
    solver.step();
    assert!(solver.x().is_infinite());
}

#[test]
fn newton_solve_keeps_the_candidate_that_met_the_tolerance() {
    // From 1.5 the iterates are 1.5, 1.41666.., 1.41421568.., 1.41421356..
    let mut solver = NewtonRalphsonSolver::new(1.5_f64, |x: f64| x * x - 2.0, |x: f64| 2.0 * x);
    assert!(solver.solve(0.01));
    let x1 = 1.5 - (1.5 * 1.5 - 2.0) / 3.0;
    let x2 = x1 - (x1 * x1 - 2.0) / (2.0 * x1);
    assert_eq!(solver.x(), x2);
}

#[test]
fn newton_solve_gives_up_without_a_root() {
    let mut solver = NewtonRalphsonSolver::new(0.5_f64, |x: f64| x * x + 1.0, |x: f64| 2.0 * x);
    assert!(!solver.solve(1e-12));
    assert!(MAX_ITERATIONS > 0);
}

#[test]
fn newton_solve_bounded_with_no_updates_changes_nothing() {
    let mut solver = NewtonRalphsonSolver::new(0.5_f64, |x: f64| x * x - 2.0, |x: f64| 2.0 * x);
    assert!(!solver.solve_bounded(0.001, 0));
    assert_eq!(solver.x(), 0.5);
}

#[test]
fn newton_solve_bounded_counts_updates() {
    let mut solver = NewtonRalphsonSolver::new(0.5_f64, |x: f64| x * x - 2.0, |x: f64| 2.0 * x);
    assert!(!solver.solve_bounded(1e-12, 1));
    assert_eq!(solver.x(), 2.25);
}

#[test]
fn newton_solve_on_an_exact_root_stops_after_one_update() {
    let mut solver = NewtonRalphsonSolver::new(2.0_f64, |x: f64| x * x - 4.0, |x: f64| 2.0 * x);
    assert!(solver.solve_bounded(1e-9, 1));
    assert_eq!(solver.x(), 2.0);
}
