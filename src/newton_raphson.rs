//! Newton-Raphson root finding for a function of one variable.
use std::ops::{Div, Neg, Sub};
use vstd::prelude::*;
use vstd::std_specs::cmp::PartialOrdSpec;
use vstd::std_specs::convert::FromSpec;
use vstd::std_specs::ops::{DivSpec, NegSpec, SubSpec};
use crate::arith::{
    exact_div, exact_from_u8, exact_neg, exact_sub, total_div, total_neg, total_sub,
};

verus! {

/// `next` is `x - fx / dfx`, where `f` may return `fx` and `df` may return
/// `dfx` at `x`.
pub open spec fn newton_update<T, F, DF>(f: F, df: DF, x: T, fx: T, dfx: T, next: T) -> bool
    where
        T: Div<Output = T> + Sub<Output = T>,
        F: Fn(T) -> T,
        DF: Fn(T) -> T,
{
    &&& f.ensures((x,), fx)
    &&& df.ensures((x,), dfx)
    &&& next == x.sub_spec(fx.div_spec(dfx))
}

/// `next` is a possible outcome of one Newton-Raphson update from `x`.
pub open spec fn newton_advances<T, F, DF>(f: F, df: DF, x: T, next: T) -> bool
    where
        T: Div<Output = T> + Sub<Output = T>,
        F: Fn(T) -> T,
        DF: Fn(T) -> T,
{
    exists|fx: T, dfx: T| #[trigger] newton_update(f, df, x, fx, dfx, next)
}

/// One Newton-Raphson update: `x - f(x) / df(x)`.
pub fn newton_raphson<T, F, DF>(x: T, f: F, df: DF) -> (next: T)
    where
        T: Copy + Div<Output = T> + Sub<Output = T>,
        F: Copy + Fn(T) -> T,
        DF: Copy + Fn(T) -> T,
    requires
        f.requires((x,)),
        df.requires((x,)),
        total_sub::<T>(),
        total_div::<T, T>(),
    ensures
        exact_sub::<T>() && exact_div::<T, T>() ==> newton_advances(f, df, x, next),
{
    let fx = f(x);
    let dfx = df(x);
    let next = x - fx / dfx;
    assert(exact_sub::<T>() && exact_div::<T, T>() ==> newton_update(f, df, x, fx, dfx, next));
    next
}


/// How many updates `NewtonRalphsonSolver::solve` makes at most before it
/// gives up on reaching the tolerance.
pub const MAX_ITERATIONS: usize = 1000;

/// The magnitude of `d`: `-d` where `d < 0`, else `d`.
pub open spec fn magnitude<T: From<u8> + Neg<Output = T> + PartialOrd>(d: T) -> T {
    if d.partial_cmp_spec(&T::from_spec(0u8)) == Some(core::cmp::Ordering::Less) {
        d.neg_spec()
    } else {
        d
    }
}

/// Moving from `x` to `next` is a change smaller than `tol`: `|next - x| < tol`.
pub open spec fn settled<T>(x: T, next: T, tol: T) -> bool
    where
        T: From<u8> + Sub<Output = T> + Neg<Output = T> + PartialOrd,
{
    magnitude(next.sub_spec(x)).partial_cmp_spec(&tol) == Some(core::cmp::Ordering::Less)
}

/// The operations that the tolerance test uses compute their spec functions.
pub open spec fn settle_exact<T>() -> bool
    where
        T: From<u8> + Sub<Output = T> + Neg<Output = T> + PartialOrd,
{
    &&& exact_sub::<T>()
    &&& exact_neg::<T>()
    &&& exact_from_u8::<T>()
    &&& T::obeys_partial_cmp_spec()
}

/// `xs` is a sequence of Newton-Raphson iterates: each follows from the one
/// before it by one update.
pub open spec fn is_iteration<T, F, DF>(f: F, df: DF, xs: Seq<T>) -> bool
    where
        T: Div<Output = T> + Sub<Output = T>,
        F: Fn(T) -> T,
        DF: Fn(T) -> T,
{
    forall|i: int| 0 <= i < xs.len() - 1 ==> newton_advances(f, df, #[trigger] xs[i], xs[i + 1])
}

/// `xs` is what `solve` does from `xs[0]` with tolerance `tol` and at most
/// `max` updates: no update before the last one moved by less than `tol`;
/// it stops at the first one that does (`converged`), or after `max`
/// updates (not `converged`).
pub open spec fn is_search<T, F, DF>(f: F, df: DF, xs: Seq<T>, tol: T, max: nat, converged: bool) -> bool
    where
        T: From<u8> + Div<Output = T> + Sub<Output = T> + Neg<Output = T> + PartialOrd,
        F: Fn(T) -> T,
        DF: Fn(T) -> T,
{
    &&& 1 <= xs.len() <= max + 1
    &&& is_iteration(f, df, xs)
    &&& forall|i: int| 0 <= i < xs.len() - 2 ==> !settled(#[trigger] xs[i], xs[i + 1], tol)
    &&& converged <==> (xs.len() >= 2 && settled(xs[xs.len() - 2], xs.last(), tol))
    &&& !converged ==> xs.len() == max + 1
}

/// A root finder: owns the current iterate, the function and its derivative.
pub struct NewtonRalphsonSolver<T, F, DF> {
    f: F,
    df: DF,
    x: T,
}

impl<T, F, DF> NewtonRalphsonSolver<T, F, DF>
    where
        T: Copy + Div<Output = T> + Sub<Output = T>,
        F: Copy + Fn(T) -> T,
        DF: Copy + Fn(T) -> T,
{
    pub closed spec fn spec_x(&self) -> T {
        self.x
    }

    pub closed spec fn spec_f(&self) -> F {
        self.f
    }

    pub closed spec fn spec_df(&self) -> DF {
        self.df
    }

    /// Both functions accept every argument.
    pub open spec fn total(&self) -> bool {
        &&& forall|x: T| #[trigger] self.spec_f().requires((x,))
        &&& forall|x: T| #[trigger] self.spec_df().requires((x,))
    }

    pub fn new(x: T, f: F, df: DF) -> (r: Self)
        ensures
            r.spec_x() == x,
            r.spec_f() == f,
            r.spec_df() == df,
    {
        NewtonRalphsonSolver { f, df, x }
    }

    /// Replaces the iterate by one Newton-Raphson update of it.
    pub fn step(&mut self)
        requires
            old(self).spec_f().requires((old(self).spec_x(),)),
            old(self).spec_df().requires((old(self).spec_x(),)),
            total_sub::<T>(),
            total_div::<T, T>(),
        ensures
            exact_sub::<T>() && exact_div::<T, T>() ==> newton_advances(
                old(self).spec_f(),
                old(self).spec_df(),
                old(self).spec_x(),
                final(self).spec_x(),
            ),
            final(self).spec_f() == old(self).spec_f(),
            final(self).spec_df() == old(self).spec_df(),
    {
        self.x = newton_raphson(self.x, self.f, self.df);
    }

    /// Updates the iterate until an update moves it by less than `tol`, and
    /// keeps that last update; gives up after `max_iterations` updates.
    /// Returns whether the tolerance was reached.
    pub fn solve_bounded(&mut self, tol: T, max_iterations: usize) -> (converged: bool)
        where
            T: From<u8> + Neg<Output = T> + PartialOrd,
        requires
            old(self).total(),
            total_sub::<T>(),
            total_div::<T, T>(),
            total_neg::<T>(),
        ensures
            final(self).spec_f() == old(self).spec_f(),
            final(self).spec_df() == old(self).spec_df(),
            exact_div::<T, T>() && settle_exact::<T>() ==> exists|xs: Seq<T>|
                #[trigger] is_search(
                    old(self).spec_f(),
                    old(self).spec_df(),
                    xs,
                    tol,
                    max_iterations as nat,
                    converged,
                )
                && xs[0] == old(self).spec_x()
                && xs.last() == final(self).spec_x(),
    {
        let ghost xs: Seq<T> = seq![self.x];
        let mut i: usize = 0;
        while i < max_iterations
            invariant
                0 <= i <= max_iterations,
                self.spec_f() == old(self).spec_f(),
                self.spec_df() == old(self).spec_df(),
                self.total(),
                total_sub::<T>(),
                total_div::<T, T>(),
                total_neg::<T>(),
                xs.len() == i + 1,
                xs[0] == old(self).spec_x(),
                xs.last() == self.spec_x(),
                exact_div::<T, T>() && settle_exact::<T>() ==> is_iteration(self.spec_f(), self.spec_df(), xs),
                exact_div::<T, T>() && settle_exact::<T>() ==> forall|j: int|
                    0 <= j < xs.len() - 1 ==> !settled(#[trigger] xs[j], xs[j + 1], tol),
            decreases max_iterations - i,
        {
            let x = self.x;
            let candidate = newton_raphson(x, self.f, self.df);
            let change = candidate - x;
            let zero = T::from(0u8);
            let distance = if change < zero { change.neg() } else { change };
            let close = distance < tol;
            assert(exact_div::<T, T>() && settle_exact::<T>() ==> (close <==> settled(x, candidate, tol)));
            self.x = candidate;
            proof {
                xs = xs.push(candidate);
            }
            if close {
                assert(exact_div::<T, T>() && settle_exact::<T>() ==> is_search(
                    self.spec_f(), self.spec_df(), xs, tol, max_iterations as nat, true));
                return true;
            }
            i = i + 1;
        }
        assert(exact_div::<T, T>() && settle_exact::<T>() ==> is_search(
            self.spec_f(), self.spec_df(), xs, tol, max_iterations as nat, false));
        false
    }

    /// `solve_bounded` with at most `MAX_ITERATIONS` updates.
    pub fn solve(&mut self, tol: T) -> (converged: bool)
        where
            T: From<u8> + Neg<Output = T> + PartialOrd,
        requires
            old(self).total(),
            total_sub::<T>(),
            total_div::<T, T>(),
            total_neg::<T>(),
        ensures
            final(self).spec_f() == old(self).spec_f(),
            final(self).spec_df() == old(self).spec_df(),
            exact_div::<T, T>() && settle_exact::<T>() ==> exists|xs: Seq<T>|
                #[trigger] is_search(
                    old(self).spec_f(),
                    old(self).spec_df(),
                    xs,
                    tol,
                    MAX_ITERATIONS as nat,
                    converged,
                )
                && xs[0] == old(self).spec_x()
                && xs.last() == final(self).spec_x(),
    {
        self.solve_bounded(tol, MAX_ITERATIONS)
    }

    pub fn x(&self) -> (r: T)
        ensures
            r == self.spec_x(),
    {
        self.x
    }
}

} // verus!
