use std::ops::{Add, Div, Index, IndexMut, Mul};

use numeric_solvers::euler::{euler, EulerSolver};

#[derive(Clone, Copy, Debug, PartialEq)]
struct Vector2([f32; 2]);

impl Vector2 {
    fn new(v: [f32; 2]) -> Self {
        Vector2(v)
    }
}

impl Add for Vector2 {
    type Output = Vector2;
    fn add(self, o: Vector2) -> Vector2 {
        Vector2([self.0[0] + o.0[0], self.0[1] + o.0[1]])
    }
}

impl Mul<f32> for Vector2 {
    type Output = Vector2;
    fn mul(self, k: f32) -> Vector2 {
        Vector2([self.0[0] * k, self.0[1] * k])
    }
}

impl Div<f32> for Vector2 {
    type Output = Vector2;
    fn div(self, k: f32) -> Vector2 {
        Vector2([self.0[0] / k, self.0[1] / k])
    }
}

impl Index<usize> for Vector2 {
    type Output = f32;
    fn index(&self, i: usize) -> &f32 {
        &self.0[i]
    }
}

impl IndexMut<usize> for Vector2 {
    fn index_mut(&mut self, i: usize) -> &mut f32 {
        &mut self.0[i]
    }
}

fn ramp(mut state: Vector2, time: f32) -> Vector2 {
    state[0] = 2.0 * time;
    state[1] = 1.5 * time;
    state
}

fn close(a: f32, b: f32) -> bool {
    (a - b).abs() <= 1e-4 * (1.0 + b.abs())
}

#[test]
fn test_euler() {
    let mut state = Vector2::new([0.0, 0.0]);
    println!("{:?}", state);
    for time in 0..10 {
        state = euler(state, time as f32, 1.0, |mut state, time| {
            state[0] = 2.0 * time;
            state[1] = 1.5 * time;
            state
        });
        println!("{:?}", state);
    }
    assert_eq!(state, Vector2::new([90.0, 67.5]));
}

#[test]
fn test_euler_step() {
    let mut solver = EulerSolver::new(Vector2::new([0.0, 0.0]), 0.0, |mut state: Vector2, time: f32| {
        state[0] = 2.0 * time;
        state[1] = 1.5 * time;
        state
    });
    println!("{:?}", solver.state());
    for _ in 0..10 {
        println!("Time: {:?}", solver.time());
        solver.step(1.0);
        println!("State: {:?}", solver.state());
    }
    assert_eq!(solver.time(), 10.0);
    assert_eq!(solver.state(), Vector2::new([90.0, 67.5]));
}

#[test]
fn test_euler_solver() {
    let mut solver = EulerSolver::new(Vector2::new([0.0, 0.0]), 0.0, |mut state: Vector2, time: f32| {
        state[0] = 2.0 * time;
        state[1] = 1.5 * time;
        state
    });
    solver.solve(1.0, 10);
    println!("Time: {:?}", solver.time());
    println!("{:?}", solver.state());
    assert_eq!(solver.time(), 10.0);
    assert_eq!(solver.state(), Vector2::new([90.0, 67.5]));
}

#[test]
fn euler_single_step_is_state_plus_slope_times_dt() {
    let next = euler(3.0_f32, 2.0_f32, 0.5_f32, |s: f32, t: f32| s * t);
    assert_eq!(next, 3.0 + 6.0 * 0.5);
}

#[test]
fn euler_zero_steps_leave_state_and_time() {
    let mut solver = EulerSolver::new(Vector2::new([1.0, -2.0]), 4.0_f32, ramp);
    solver.solve(0.25, 0);
    assert_eq!(solver.state(), Vector2::new([1.0, -2.0]));
    assert_eq!(solver.time(), 4.0);
}

#[test]
fn euler_linear_slope_sums_left_endpoints() {
    for n in 0..20usize {
        let mut solver = EulerSolver::new(0.0_f32, 0.0_f32, |_s: f32, x: f32| 2.0 * x);
        solver.solve(1.0, n);
        let n = n as f32;
        assert_eq!(solver.state(), n * (n - 1.0).max(0.0));
        assert_eq!(solver.time(), n);
    }
}

#[test]
fn euler_linear_slope_with_smaller_step() {
    let dt = 0.5_f32;
    let n = 8usize;
    let mut solver = EulerSolver::new(0.0_f32, 0.0_f32, |_s: f32, x: f32| 2.0 * x);
    solver.solve(dt, n);
    let nf = n as f32;
    assert!(close(solver.state(), dt * dt * nf * (nf - 1.0)));
    assert_eq!(solver.time(), 4.0);
}

#[test]
fn euler_time_after_k_steps() {
    let mut solver = EulerSolver::new(0.0_f32, 1.5_f32, |s: f32, _t: f32| s);
    for k in 1..=16 {
        solver.step(0.25);
        assert_eq!(solver.time(), 1.5 + 0.25 * k as f32);
    }
}

#[test]
fn euler_negative_step_runs_backwards() {
    let mut solver = EulerSolver::new(10.0_f32, 5.0_f32, |_s: f32, _t: f32| 2.0);
    solver.step(-1.0);
    assert_eq!(solver.state(), 8.0);
    assert_eq!(solver.time(), 4.0);
}

#[test]
fn euler_step_uses_time_before_the_step() {
    let mut solver = EulerSolver::new(0.0_f32, 3.0_f32, |_s: f32, t: f32| t);
    solver.step(1.0);
    assert_eq!(solver.state(), 3.0);
    assert_eq!(solver.time(), 4.0);
}
