//! The clock that every engine keeps: each `step(dt)` moves it on by `dt`,
//! whatever the method.
use std::ops::{Add, Div, Mul};
use vstd::prelude::*;
use vstd::std_specs::ops::AddSpec;
use crate::arith::exact_add;
use crate::euler::EulerSolver;
use crate::runge_kutta::RungeKutta4Solver;

verus! {

/// The clock after `n` steps of size `dt` from `time`: `time + dt + ... + dt`,
/// summed from the left as the engines do.
pub open spec fn time_after<T: Add<Output = T>>(time: T, dt: T, n: nat) -> T
    decreases n,
{
    if n == 0 {
        time
    } else {
        time_after(time, dt, (n - 1) as nat).add_spec(dt)
    }
}

/// What every engine's `step(dt)` does to its clock: `after` is `time + dt`.
pub open spec fn clock_moved<T: Add<Output = T>>(time: T, after: T, dt: T) -> bool {
    exact_add::<T>() ==> after == time.add_spec(dt)
}

/// After `k` calls of `step(dt)`, on an engine with any method, the clock
/// reads `time_after(initial, dt, k)`: the initial time plus `k` times `dt`,
/// summed step by step. `times` are the clock readings before the first call
/// and after each call.
pub proof fn lemma_clock_after_steps<T: Add<Output = T>>(times: Seq<T>, dt: T)
    requires
        exact_add::<T>(),
        times.len() >= 1,
        forall|i: int|
            0 <= i < times.len() - 1 ==> clock_moved(#[trigger] times[i], times[i + 1], dt),
    ensures
        forall|k: int| 0 <= k < times.len() ==> #[trigger] times[k] == time_after(times[0], dt, k as nat),
    decreases times.len(),
{
    if times.len() > 1 {
        let before = times.drop_last();
        lemma_clock_after_steps(before, dt);
        assert forall|k: int| 0 <= k < times.len() implies #[trigger] times[k] == time_after(
            times[0],
            dt,
            k as nat,
        ) by {
            if k < times.len() - 1 {
                assert(before[k] == times[k]);
            } else {
                assert(clock_moved(times[k - 1], times[k], dt));
                assert(before[k - 1] == times[k - 1]);
            }
        }
    }
}

/// Swapping the Euler method for the Runge-Kutta method changes only the
/// states passed through: two engines that start at the same time with the
/// same derivative function and take steps of the same sizes `dts` read the
/// same time and hold the same derivative function after every step. `e` and
/// `r` are the engines before the first step and after each step.
pub proof fn lemma_method_substitutable<S, T, DF>(
    e: Seq<EulerSolver<S, T, DF>>,
    r: Seq<RungeKutta4Solver<S, T, DF>>,
    dts: Seq<T>,
)
    where
        S: Copy + Add<Output = S> + Mul<T, Output = S> + Div<T, Output = S>,
        T: Copy + From<u8> + Add<Output = T> + Mul<Output = T> + Div<Output = T>,
        DF: Copy + Fn(S, T) -> S,
    requires
        exact_add::<T>(),
        e.len() == dts.len() + 1,
        r.len() == dts.len() + 1,
        e[0].spec_time() == r[0].spec_time(),
        e[0].spec_dsdt() == r[0].spec_dsdt(),
        forall|i: int|
            0 <= i < dts.len() ==> {
                &&& clock_moved(#[trigger] e[i].spec_time(), e[i + 1].spec_time(), dts[i])
                &&& e[i + 1].spec_dsdt() == e[i].spec_dsdt()
            },
        forall|i: int|
            0 <= i < dts.len() ==> {
                &&& clock_moved(#[trigger] r[i].spec_time(), r[i + 1].spec_time(), dts[i])
                &&& r[i + 1].spec_dsdt() == r[i].spec_dsdt()
            },
    ensures
        forall|i: int|
            0 <= i < e.len() ==> #[trigger] e[i].spec_time() == r[i].spec_time()
                && e[i].spec_dsdt() == r[i].spec_dsdt(),
    decreases dts.len(),
{
    if dts.len() > 0 {
        let n = dts.len() - 1;
        lemma_method_substitutable(e.drop_last(), r.drop_last(), dts.drop_last());
        assert forall|i: int| 0 <= i < e.len() implies #[trigger] e[i].spec_time() == r[i].spec_time()
            && e[i].spec_dsdt() == r[i].spec_dsdt() by {
            if i <= n {
                assert(e.drop_last()[i] == e[i]);
                assert(r.drop_last()[i] == r[i]);
            } else {
                assert(e.drop_last()[n] == e[n]);
                assert(r.drop_last()[n] == r[n]);
                assert(clock_moved(e[n].spec_time(), e[n + 1].spec_time(), dts[n]));
                assert(clock_moved(r[n].spec_time(), r[n + 1].spec_time(), dts[n]));
            }
        }
    }
}

} // verus!
