//! Explicit integrators for ordinary differential equations (Euler and
//! classical fourth-order Runge-Kutta) driven by a generic stepping engine,
//! and Newton-Raphson root finding.
pub mod arith;
pub mod clock;
pub mod euler;
pub mod newton_raphson;
pub mod runge_kutta;
pub mod solver;
