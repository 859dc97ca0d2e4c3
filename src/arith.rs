//! What the numerical methods assume of the arithmetic on their values.
//!
//! The numeric types are generic and reached only through std's operator
//! traits. An operator may have a precondition (`add_req`, ...) and, when the
//! type follows its specification (`obeys_add_spec`, ...), a result described
//! by a spec function (`add_spec`, ...). The predicates here collect those facts
//! for the operators that each method uses.
use std::ops::{Add, Div, Mul, Neg, Sub};
use vstd::prelude::*;
use vstd::std_specs::convert::FromSpec;
use vstd::std_specs::ops::{AddSpec, DivSpec, MulSpec, NegSpec, SubSpec};

verus! {

/// Adding two values of `A` never fails.
pub open spec fn total_add<A: Add<Output = A>>() -> bool {
    forall|a: A, b: A| #[trigger] a.add_req(b)
}

/// Multiplying a value of `A` by a value of `B` never fails.
pub open spec fn total_mul<A: Mul<B, Output = A>, B>() -> bool {
    forall|a: A, b: B| #[trigger] a.mul_req(b)
}

/// Subtracting two values of `A` never fails.
pub open spec fn total_sub<A: Sub<Output = A>>() -> bool {
    forall|a: A, b: A| #[trigger] a.sub_req(b)
}

/// Dividing a value of `A` by a value of `B` never fails.
pub open spec fn total_div<A: Div<B, Output = A>, B>() -> bool {
    forall|a: A, b: B| #[trigger] a.div_req(b)
}

/// Negating a value of `A` never fails.
pub open spec fn total_neg<A: Neg<Output = A>>() -> bool {
    forall|a: A| #[trigger] a.neg_req()
}

/// Addition on `A` computes `add_spec`.
pub open spec fn exact_add<A: Add<Output = A>>() -> bool {
    A::obeys_add_spec()
}

/// Multiplication of `A` by `B` computes `mul_spec`.
pub open spec fn exact_mul<A: Mul<B, Output = A>, B>() -> bool {
    <A as MulSpec<B>>::obeys_mul_spec()
}

/// Subtraction on `A` computes `sub_spec`.
pub open spec fn exact_sub<A: Sub<Output = A>>() -> bool {
    A::obeys_sub_spec()
}

/// Division of `A` by `B` computes `div_spec`.
pub open spec fn exact_div<A: Div<B, Output = A>, B>() -> bool {
    <A as DivSpec<B>>::obeys_div_spec()
}

/// Negation on `A` computes `neg_spec`.
pub open spec fn exact_neg<A: Neg<Output = A>>() -> bool {
    A::obeys_neg_spec()
}

/// Converting a byte into `A` computes `from_spec`.
pub open spec fn exact_from_u8<A: From<u8>>() -> bool {
    <A as FromSpec<u8>>::obeys_from_spec()
}

} // verus!
