//! The generic stepping engine: it owns a state, a clock, a method and a
//! derivative function, and advances them without knowing what the method
//! computes.
use std::ops::Add;
use vstd::prelude::*;
use vstd::std_specs::ops::AddSpec;
use crate::arith::exact_add;
use crate::clock::{clock_moved, time_after};

verus! {

/// `run` is a sequence of states that `method` could produce step by step,
/// starting at `time` with step size `dt`: each state follows from the one
/// before it at the clock reading of that step.
pub open spec fn is_run<M, S, T, DF>(method: M, dsdt: DF, time: T, dt: T, run: Seq<S>) -> bool
    where
        M: Fn(S, T, T, DF) -> S,
        T: Add<Output = T>,
{
    forall|i: int|
        0 <= i < run.len() - 1 ==> method.ensures(
            (#[trigger] run[i], time_after(time, dt, i as nat), dt, dsdt),
            run[i + 1],
        )
}

/// A stepping engine with an explicit time axis, driven by the method `M`.
pub struct Solver<M, S, T, DF> {
    method: M,
    dsdt: DF,
    state: S,
    time: T,
}

impl<M, S, T, DF> Solver<M, S, T, DF>
    where
        M: Copy + Fn(S, T, T, DF) -> S,
        S: Copy,
        T: Copy + Add<Output = T>,
        DF: Copy + Fn(S, T) -> S,
{
    pub closed spec fn spec_state(&self) -> S {
        self.state
    }

    pub closed spec fn spec_time(&self) -> T {
        self.time
    }

    pub closed spec fn spec_dsdt(&self) -> DF {
        self.dsdt
    }

    pub closed spec fn spec_method(&self) -> M {
        self.method
    }

    /// The method may be applied from any state and time with step `dt`,
    /// and the clock can always move on by `dt`.
    pub open spec fn admits_all(self, dt: T) -> bool {
        &&& forall|s: S, t: T| #[trigger] self.spec_method().requires((s, t, dt, self.spec_dsdt()))
        &&& forall|t: T| #[trigger] t.add_req(dt)
    }

    pub fn new(method: M, state: S, time: T, dsdt: DF) -> (r: Self)
        ensures
            r.spec_method() == method,
            r.spec_state() == state,
            r.spec_time() == time,
            r.spec_dsdt() == dsdt,
    {
        Solver { method, dsdt, state, time }
    }

    /// Advances by one step: the new state comes from the method at the
    /// current state and time, then the clock moves on by `dt`.
    pub fn step(&mut self, dt: T)
        requires
            old(self).spec_method().requires(
                (old(self).spec_state(), old(self).spec_time(), dt, old(self).spec_dsdt()),
            ),
            old(self).spec_time().add_req(dt),
        ensures
            old(self).spec_method().ensures(
                (old(self).spec_state(), old(self).spec_time(), dt, old(self).spec_dsdt()),
                final(self).spec_state(),
            ),
            clock_moved(old(self).spec_time(), final(self).spec_time(), dt),
            final(self).spec_method() == old(self).spec_method(),
            final(self).spec_dsdt() == old(self).spec_dsdt(),
    {
        self.state = (self.method)(self.state, self.time, dt, self.dsdt);
        self.time = self.time + dt;
    }

    /// Advances by `steps` steps of size `dt`, in order.
    pub fn solve(&mut self, dt: T, steps: usize)
        requires
            old(self).admits_all(dt),
        ensures
            final(self).spec_method() == old(self).spec_method(),
            final(self).spec_dsdt() == old(self).spec_dsdt(),
            steps == 0 ==> final(self).spec_state() == old(self).spec_state()
                && final(self).spec_time() == old(self).spec_time(),
            exact_add::<T>() ==> final(self).spec_time() == time_after(
                old(self).spec_time(),
                dt,
                steps as nat,
            ),
            exact_add::<T>() ==> exists|run: Seq<S>|
                #[trigger] is_run(
                    old(self).spec_method(),
                    old(self).spec_dsdt(),
                    old(self).spec_time(),
                    dt,
                    run,
                )
                && run.len() == steps + 1
                && run[0] == old(self).spec_state()
                && run.last() == final(self).spec_state(),
    {
        let ghost start = *self;
        let ghost run: Seq<S> = seq![self.state];
        let mut i: usize = 0;
        while i < steps
            invariant
                0 <= i <= steps,
                start == *old(self),
                self.spec_method() == start.spec_method(),
                self.spec_dsdt() == start.spec_dsdt(),
                start.admits_all(dt),
                i == 0 ==> *self == start,
                exact_add::<T>() ==> self.spec_time() == time_after(start.spec_time(), dt, i as nat),
                run.len() == i + 1,
                run[0] == start.spec_state(),
                run.last() == self.spec_state(),
                exact_add::<T>() ==> is_run(start.spec_method(), start.spec_dsdt(), start.spec_time(), dt, run),
            decreases steps - i,
        {
            self.step(dt);
            proof {
                run = run.push(self.spec_state());
            }
            i = i + 1;
        }
    }

    pub fn state(&self) -> (r: S)
        ensures
            r == self.spec_state(),
    {
        self.state
    }

    /// Hands out the state slot itself; whatever is written there becomes the
    /// engine's state, and nothing else changes.
    pub fn state_mut(&mut self) -> (r: &mut S)
        ensures
            *r == old(self).spec_state(),
            final(self).spec_state() == *final(r),
            final(self).spec_time() == old(self).spec_time(),
            final(self).spec_method() == old(self).spec_method(),
            final(self).spec_dsdt() == old(self).spec_dsdt(),
    {
        &mut self.state
    }

    pub fn time(&self) -> (r: T)
        ensures
            r == self.spec_time(),
    {
        self.time
    }

    /// Hands out the clock itself; whatever is written there becomes the
    /// engine's time, and nothing else changes.
    pub fn time_mut(&mut self) -> (r: &mut T)
        ensures
            *r == old(self).spec_time(),
            final(self).spec_time() == *final(r),
            final(self).spec_state() == old(self).spec_state(),
            final(self).spec_method() == old(self).spec_method(),
            final(self).spec_dsdt() == old(self).spec_dsdt(),
    {
        &mut self.time
    }

    pub fn dsdt(&self) -> (r: DF)
        ensures
            r == self.spec_dsdt(),
    {
        self.dsdt
    }

    /// Hands out the derivative function itself, so that it can be replaced.
    pub fn dsdt_mut(&mut self) -> (r: &mut DF)
        ensures
            *r == old(self).spec_dsdt(),
            final(self).spec_dsdt() == *final(r),
            final(self).spec_state() == old(self).spec_state(),
            final(self).spec_time() == old(self).spec_time(),
            final(self).spec_method() == old(self).spec_method(),
    {
        &mut self.dsdt
    }

    pub fn method(&self) -> (r: M)
        ensures
            r == self.spec_method(),
    {
        self.method
    }

    /// Hands out the method itself, so that it can be replaced.
    pub fn method_mut(&mut self) -> (r: &mut M)
        ensures
            *r == old(self).spec_method(),
            final(self).spec_method() == *final(r),
            final(self).spec_state() == old(self).spec_state(),
            final(self).spec_time() == old(self).spec_time(),
            final(self).spec_dsdt() == old(self).spec_dsdt(),
    {
        &mut self.method
    }
}

/// `run` is a sequence of states that `method` could produce step by step
/// with step size `ds`, on an engine without a clock.
pub open spec fn is_state_run<M, S, D, DF>(method: M, dsds: DF, ds: D, run: Seq<S>) -> bool
    where
        M: Fn(S, D, DF) -> S,
{
    forall|i: int| 0 <= i < run.len() - 1 ==> method.ensures((#[trigger] run[i], ds, dsds), run[i + 1])
}

/// A stepping engine without a time axis: the state alone is advanced, by
/// a step variable `ds` handed to each step.
pub struct StateSolver<M, S, D, DF> {
    method: M,
    dsds: DF,
    state: S,
    phantom: core::marker::PhantomData<D>,
}

impl<M, S, D, DF> StateSolver<M, S, D, DF>
    where
        M: Copy + Fn(S, D, DF) -> S,
        S: Copy,
        D: Copy,
        DF: Copy + Fn(S) -> S,
{
    pub closed spec fn spec_state(&self) -> S {
        self.state
    }

    pub closed spec fn spec_dsds(&self) -> DF {
        self.dsds
    }

    pub closed spec fn spec_method(&self) -> M {
        self.method
    }

    pub fn new(method: M, state: S, dsds: DF) -> (r: Self)
        ensures
            r.spec_method() == method,
            r.spec_state() == state,
            r.spec_dsds() == dsds,
    {
        StateSolver { method, dsds, state, phantom: core::marker::PhantomData }
    }

    /// Replaces the state by what the method makes of it with step `ds`.
    pub fn step(&mut self, ds: D)
        requires
            old(self).spec_method().requires((old(self).spec_state(), ds, old(self).spec_dsds())),
        ensures
            old(self).spec_method().ensures(
                (old(self).spec_state(), ds, old(self).spec_dsds()),
                final(self).spec_state(),
            ),
            final(self).spec_method() == old(self).spec_method(),
            final(self).spec_dsds() == old(self).spec_dsds(),
    {
        self.state = (self.method)(self.state, ds, self.dsds);
    }

    /// Advances by `steps` steps of size `ds`, in order.
    pub fn solve(&mut self, ds: D, steps: usize)
        requires
            forall|s: S| #[trigger] old(self).spec_method().requires((s, ds, old(self).spec_dsds())),
        ensures
            final(self).spec_method() == old(self).spec_method(),
            final(self).spec_dsds() == old(self).spec_dsds(),
            steps == 0 ==> final(self).spec_state() == old(self).spec_state(),
            exists|run: Seq<S>|
                #[trigger] is_state_run(old(self).spec_method(), old(self).spec_dsds(), ds, run)
                && run.len() == steps + 1
                && run[0] == old(self).spec_state()
                && run.last() == final(self).spec_state(),
    {
        let ghost start = *self;
        let ghost run: Seq<S> = seq![self.state];
        let mut i: usize = 0;
        while i < steps
            invariant
                0 <= i <= steps,
                start == *old(self),
                self.spec_method() == start.spec_method(),
                self.spec_dsds() == start.spec_dsds(),
                forall|s: S| #[trigger] start.spec_method().requires((s, ds, start.spec_dsds())),
                i == 0 ==> *self == start,
                run.len() == i + 1,
                run[0] == start.spec_state(),
                run.last() == self.spec_state(),
                is_state_run(start.spec_method(), start.spec_dsds(), ds, run),
            decreases steps - i,
        {
            self.step(ds);
            proof {
                run = run.push(self.spec_state());
            }
            i = i + 1;
        }
    }

    pub fn state(&self) -> (r: S)
        ensures
            r == self.spec_state(),
    {
        self.state
    }
}

} // verus!
