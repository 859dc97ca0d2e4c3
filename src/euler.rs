//! The explicit Euler method.
use std::ops::{Add, Mul};
use vstd::prelude::*;
use vstd::std_specs::ops::{AddSpec, MulSpec};
use crate::arith::{exact_add, exact_mul, total_add, total_mul};
use crate::clock::{clock_moved, time_after};

verus! {

/// `state + slope * dt`: one Euler update from a slope already evaluated.
pub open spec fn euler_update<S, T>(state: S, slope: S, dt: T) -> S
    where
        S: Add<Output = S> + Mul<T, Output = S>,
{
    state.add_spec(slope.mul_spec(dt))
}

/// `next` is a possible outcome of one Euler step: the derivative, evaluated
/// once at `(state, time)`, scaled by `dt` and added to `state`.
pub open spec fn euler_advances<S, T, DF>(state: S, time: T, dt: T, dsdt: DF, next: S) -> bool
    where
        S: Add<Output = S> + Mul<T, Output = S>,
        DF: Fn(S, T) -> S,
{
    exists|slope: S| #[trigger] dsdt.ensures((state, time), slope)
        && next == euler_update(state, slope, dt)
}

/// `run` is a sequence of states that Euler steps of size `dt` could pass
/// through, starting at `time`: each follows from the one before it at the
/// clock reading of that step.
pub open spec fn euler_run<S, T, DF>(dsdt: DF, time: T, dt: T, run: Seq<S>) -> bool
    where
        S: Add<Output = S> + Mul<T, Output = S>,
        T: Add<Output = T>,
        DF: Fn(S, T) -> S,
{
    forall|i: int|
        0 <= i < run.len() - 1 ==> euler_advances(
            #[trigger] run[i],
            time_after(time, dt, i as nat),
            dt,
            dsdt,
            run[i + 1],
        )
}

/// One step of the explicit Euler method: `state + dsdt(state, time) * dt`.
pub fn euler<S, T, DF>(state: S, time: T, dt: T, dsdt: DF) -> (next: S)
    where
        S: Copy + Add<Output = S> + Mul<T, Output = S>,
        T: Copy,
        DF: Copy + Fn(S, T) -> S,
    requires
        dsdt.requires((state, time)),
        total_add::<S>(),
        total_mul::<S, T>(),
    ensures
        exact_add::<S>() && exact_mul::<S, T>() ==> euler_advances(state, time, dt, dsdt, next),
{
    let slope = dsdt(state, time);
    state + slope * dt
}


/// The engine driven by the explicit Euler method: a state, a clock and a
/// derivative function, advanced by `euler`.
pub struct EulerSolver<S, T, DF> {
    dsdt: DF,
    state: S,
    time: T,
}

impl<S, T, DF> EulerSolver<S, T, DF>
    where
        S: Copy + Add<Output = S> + Mul<T, Output = S>,
        T: Copy + Add<Output = T>,
        DF: Copy + Fn(S, T) -> S,
{
    pub closed spec fn spec_state(&self) -> S {
        self.state
    }

    pub closed spec fn spec_time(&self) -> T {
        self.time
    }

    pub closed spec fn spec_dsdt(&self) -> DF {
        self.dsdt
    }

    pub fn new(state: S, time: T, dsdt: DF) -> (r: Self)
        ensures
            r.spec_state() == state,
            r.spec_time() == time,
            r.spec_dsdt() == dsdt,
    {
        EulerSolver { dsdt, state, time }
    }

    /// One Euler step of size `dt` from the current state and time, then the
    /// clock moves on by `dt`.
    pub fn step(&mut self, dt: T)
        requires
            old(self).spec_dsdt().requires((old(self).spec_state(), old(self).spec_time())),
            total_add::<S>(),
            total_mul::<S, T>(),
            old(self).spec_time().add_req(dt),
        ensures
            exact_add::<S>() && exact_mul::<S, T>() ==> euler_advances(
                old(self).spec_state(),
                old(self).spec_time(),
                dt,
                old(self).spec_dsdt(),
                final(self).spec_state(),
            ),
            clock_moved(old(self).spec_time(), final(self).spec_time(), dt),
            final(self).spec_dsdt() == old(self).spec_dsdt(),
    {
        self.state = euler(self.state, self.time, dt, self.dsdt);
        self.time = self.time + dt;
    }

    /// `steps` Euler steps of size `dt`, in order.
    pub fn solve(&mut self, dt: T, steps: usize)
        requires
            forall|s: S, t: T| #[trigger] old(self).spec_dsdt().requires((s, t)),
            total_add::<S>(),
            total_mul::<S, T>(),
            forall|t: T| #[trigger] t.add_req(dt),
        ensures
            final(self).spec_dsdt() == old(self).spec_dsdt(),
            steps == 0 ==> final(self).spec_state() == old(self).spec_state()
                && final(self).spec_time() == old(self).spec_time(),
            exact_add::<T>() ==> final(self).spec_time() == time_after(
                old(self).spec_time(),
                dt,
                steps as nat,
            ),
            exact_add::<T>() && exact_add::<S>() && exact_mul::<S, T>() ==> exists|run: Seq<S>|
                #[trigger] euler_run(old(self).spec_dsdt(), old(self).spec_time(), dt, run)
                && run.len() == steps + 1
                && run[0] == old(self).spec_state()
                && run.last() == final(self).spec_state(),
    {
        let ghost start = *self;
        let ghost run: Seq<S> = seq![self.state];
        let mut i: usize = 0;
        while i < steps
            invariant
                0 <= i <= steps,
                start == *old(self),
                self.spec_dsdt() == start.spec_dsdt(),
                forall|s: S, t: T| #[trigger] start.spec_dsdt().requires((s, t)),
                total_add::<S>(),
                total_mul::<S, T>(),
                forall|t: T| #[trigger] t.add_req(dt),
                i == 0 ==> *self == start,
                exact_add::<T>() ==> self.spec_time() == time_after(start.spec_time(), dt, i as nat),
                run.len() == i + 1,
                run[0] == start.spec_state(),
                run.last() == self.spec_state(),
                exact_add::<T>() && exact_add::<S>() && exact_mul::<S, T>() ==> euler_run(
                    start.spec_dsdt(),
                    start.spec_time(),
                    dt,
                    run,
                ),
            decreases steps - i,
        {
            self.step(dt);
            proof {
                run = run.push(self.spec_state());
            }
            i = i + 1;
        }
    }

    pub fn state(&self) -> (r: S)
        ensures
            r == self.spec_state(),
    {
        self.state
    }

    pub fn time(&self) -> (r: T)
        ensures
            r == self.spec_time(),
    {
        self.time
    }
}

} // verus!
