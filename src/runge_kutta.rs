//! The classical fourth-order Runge-Kutta method.
use std::ops::{Add, Div, Mul};
use vstd::prelude::*;
use vstd::std_specs::convert::FromSpec;
use vstd::std_specs::ops::{AddSpec, DivSpec, MulSpec};
use crate::arith::{
    exact_add, exact_div, exact_from_u8, exact_mul, total_add, total_div, total_mul,
};
use crate::clock::{clock_moved, time_after};

verus! {

/// One half in `T`, formed in `T` itself as `1 / 2`.
pub open spec fn half<T: From<u8> + Div<Output = T>>() -> T {
    T::from_spec(1u8).div_spec(T::from_spec(2u8))
}

/// The operations on `S` and `T` that a Runge-Kutta step uses never fail.
pub open spec fn rk4_total<S, T>() -> bool
    where
        S: Add<Output = S> + Mul<T, Output = S> + Div<T, Output = S>,
        T: From<u8> + Add<Output = T> + Mul<Output = T> + Div<Output = T>,
{
    &&& total_add::<S>()
    &&& total_mul::<S, T>()
    &&& total_div::<S, T>()
    &&& total_add::<T>()
    &&& total_mul::<T, T>()
    &&& total_div::<T, T>()
}

/// The operations on `S` and `T` that a Runge-Kutta step uses compute their
/// spec functions.
pub open spec fn rk4_exact<S, T>() -> bool
    where
        S: Add<Output = S> + Mul<T, Output = S> + Div<T, Output = S>,
        T: From<u8> + Add<Output = T> + Mul<Output = T> + Div<Output = T>,
{
    &&& exact_add::<S>()
    &&& exact_mul::<S, T>()
    &&& exact_div::<S, T>()
    &&& exact_add::<T>()
    &&& exact_mul::<T, T>()
    &&& exact_div::<T, T>()
    &&& exact_from_u8::<T>()
}

/// `next` is the Runge-Kutta step from `state` at `time` with step `dt`, when
/// the derivative returned the slopes `d1`, `d2`, `d3`, `d4` at the four
/// stages:
/// ```text
/// k1 = d1 * dt,  d1 = f(s, t)
/// k2 = d2 * dt,  d2 = f(s + k1 * 1/2, t + dt * 1/2)
/// k3 = d3 * dt,  d3 = f(s + k2 * 1/2, t + dt * 1/2)
/// k4 = d4 * dt,  d4 = f(s + k3, t + dt)
/// next = s + (k1 + k2 * 2 + k3 * 2 + k4) / 6
/// ```
pub open spec fn rk4_stages<S, T, DF>(
    state: S,
    time: T,
    dt: T,
    dsdt: DF,
    d1: S,
    d2: S,
    d3: S,
    d4: S,
    next: S,
) -> bool
    where
        S: Add<Output = S> + Mul<T, Output = S> + Div<T, Output = S>,
        T: From<u8> + Add<Output = T> + Mul<Output = T> + Div<Output = T>,
        DF: Fn(S, T) -> S,
{
    let h = half::<T>();
    let mid = time.add_spec(dt.mul_spec(h));
    let k1 = d1.mul_spec(dt);
    let k2 = d2.mul_spec(dt);
    let k3 = d3.mul_spec(dt);
    let k4 = d4.mul_spec(dt);
    let two = T::from_spec(2u8);
    let six = T::from_spec(6u8);
    &&& dsdt.ensures((state, time), d1)
    &&& dsdt.ensures((state.add_spec(k1.mul_spec(h)), mid), d2)
    &&& dsdt.ensures((state.add_spec(k2.mul_spec(h)), mid), d3)
    &&& dsdt.ensures((state.add_spec(k3), time.add_spec(dt)), d4)
    &&& next == state.add_spec(
        k1.add_spec(k2.mul_spec(two)).add_spec(k3.mul_spec(two)).add_spec(k4).div_spec(six),
    )
}

/// `next` is a possible outcome of one Runge-Kutta step.
pub open spec fn rk4_advances<S, T, DF>(state: S, time: T, dt: T, dsdt: DF, next: S) -> bool
    where
        S: Add<Output = S> + Mul<T, Output = S> + Div<T, Output = S>,
        T: From<u8> + Add<Output = T> + Mul<Output = T> + Div<Output = T>,
        DF: Fn(S, T) -> S,
{
    exists|d1: S, d2: S, d3: S, d4: S| #[trigger]
        rk4_stages(state, time, dt, dsdt, d1, d2, d3, d4, next)
}

/// `run` is a sequence of states that Runge-Kutta steps of size `dt` could
/// pass through, starting at `time`: each follows from the one before it at
/// the clock reading of that step.
pub open spec fn rk4_run<S, T, DF>(dsdt: DF, time: T, dt: T, run: Seq<S>) -> bool
    where
        S: Add<Output = S> + Mul<T, Output = S> + Div<T, Output = S>,
        T: From<u8> + Add<Output = T> + Mul<Output = T> + Div<Output = T>,
        DF: Fn(S, T) -> S,
{
    forall|i: int|
        0 <= i < run.len() - 1 ==> rk4_advances(
            #[trigger] run[i],
            time_after(time, dt, i as nat),
            dt,
            dsdt,
            run[i + 1],
        )
}

/// One step of the classical fourth-order Runge-Kutta method.
pub fn runge_kutta_4<S, T, DF>(state: S, time: T, dt: T, dsdt: DF) -> (next: S)
    where
        S: Copy + Add<Output = S> + Mul<T, Output = S> + Div<T, Output = S>,
        T: Copy + From<u8> + Add<Output = T> + Mul<Output = T> + Div<Output = T>,
        DF: Copy + Fn(S, T) -> S,
    requires
        forall|s: S, t: T| #[trigger] dsdt.requires((s, t)),
        rk4_total::<S, T>(),
    ensures
        rk4_exact::<S, T>() ==> rk4_advances(state, time, dt, dsdt, next),
{
    let h = T::from(1u8) / T::from(2u8);
    let d1 = dsdt(state, time);
    let k1 = d1 * dt;
    let d2 = dsdt(state + k1 * h, time + dt * h);
    let k2 = d2 * dt;
    let d3 = dsdt(state + k2 * h, time + dt * h);
    let k3 = d3 * dt;
    let d4 = dsdt(state + k3, time + dt);
    let k4 = d4 * dt;
    let next = state + (k1 + k2 * T::from(2u8) + k3 * T::from(2u8) + k4) / T::from(6u8);
    proof {
        if rk4_exact::<S, T>() {
            assert(rk4_stages(state, time, dt, dsdt, d1, d2, d3, d4, next));
        }
    }
    next
}


/// The engine driven by the classical fourth-order Runge-Kutta method: a
/// state, a clock and a derivative function, advanced by `runge_kutta_4`.
pub struct RungeKutta4Solver<S, T, DF> {
    dsdt: DF,
    state: S,
    time: T,
}

impl<S, T, DF> RungeKutta4Solver<S, T, DF>
    where
        S: Copy + Add<Output = S> + Mul<T, Output = S> + Div<T, Output = S>,
        T: Copy + From<u8> + Add<Output = T> + Mul<Output = T> + Div<Output = T>,
        DF: Copy + Fn(S, T) -> S,
{
    pub closed spec fn spec_state(&self) -> S {
        self.state
    }

    pub closed spec fn spec_time(&self) -> T {
        self.time
    }

    pub closed spec fn spec_dsdt(&self) -> DF {
        self.dsdt
    }

    pub fn new(state: S, time: T, dsdt: DF) -> (r: Self)
        ensures
            r.spec_state() == state,
            r.spec_time() == time,
            r.spec_dsdt() == dsdt,
    {
        RungeKutta4Solver { dsdt, state, time }
    }

    /// One Runge-Kutta step of size `dt` from the current state and time,
    /// then the clock moves on by `dt`.
    pub fn step(&mut self, dt: T)
        requires
            forall|s: S, t: T| #[trigger] old(self).spec_dsdt().requires((s, t)),
            rk4_total::<S, T>(),
        ensures
            rk4_exact::<S, T>() ==> rk4_advances(
                old(self).spec_state(),
                old(self).spec_time(),
                dt,
                old(self).spec_dsdt(),
                final(self).spec_state(),
            ),
            clock_moved(old(self).spec_time(), final(self).spec_time(), dt),
            final(self).spec_dsdt() == old(self).spec_dsdt(),
    {
        assert forall|s: S, t: T| #[trigger] self.dsdt.requires((s, t)) by {
            assert(self.spec_dsdt().requires((s, t)));
        }
        self.state = runge_kutta_4(self.state, self.time, dt, self.dsdt);
        self.time = self.time + dt;
    }

    /// `steps` Runge-Kutta steps of size `dt`, in order.
    pub fn solve(&mut self, dt: T, steps: usize)
        requires
            forall|s: S, t: T| #[trigger] old(self).spec_dsdt().requires((s, t)),
            rk4_total::<S, T>(),
        ensures
            final(self).spec_dsdt() == old(self).spec_dsdt(),
            steps == 0 ==> final(self).spec_state() == old(self).spec_state()
                && final(self).spec_time() == old(self).spec_time(),
            exact_add::<T>() ==> final(self).spec_time() == time_after(
                old(self).spec_time(),
                dt,
                steps as nat,
            ),
            rk4_exact::<S, T>() ==> exists|run: Seq<S>|
                #[trigger] rk4_run(old(self).spec_dsdt(), old(self).spec_time(), dt, run)
                && run.len() == steps + 1
                && run[0] == old(self).spec_state()
                && run.last() == final(self).spec_state(),
    {
        let ghost start = *self;
        let ghost run: Seq<S> = seq![self.state];
        let mut i: usize = 0;
        while i < steps
            invariant
                0 <= i <= steps,
                start == *old(self),
                self.spec_dsdt() == start.spec_dsdt(),
                forall|s: S, t: T| #[trigger] start.spec_dsdt().requires((s, t)),
                rk4_total::<S, T>(),
                i == 0 ==> *self == start,
                exact_add::<T>() ==> self.spec_time() == time_after(start.spec_time(), dt, i as nat),
                run.len() == i + 1,
                run[0] == start.spec_state(),
                run.last() == self.spec_state(),
                rk4_exact::<S, T>() ==> rk4_run(start.spec_dsdt(), start.spec_time(), dt, run),
            decreases steps - i,
        {
            self.step(dt);
            proof {
                run = run.push(self.spec_state());
            }
            i = i + 1;
        }
    }

    pub fn state(&self) -> (r: S)
        ensures
            r == self.spec_state(),
    {
        self.state
    }

    pub fn time(&self) -> (r: T)
        ensures
            r == self.spec_time(),
    {
        self.time
    }
}

} // verus!
