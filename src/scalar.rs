//! The scalars that duals are built from.
use core::ops::{Add, Div, Mul, Neg, Sub};
use vstd::prelude::*;
use vstd::std_specs::cmp::{PartialEqSpec, PartialOrdSpec};
use vstd::std_specs::convert::FromSpec;
use vstd::std_specs::ops::{AddSpec, DivSpec, MulSpec, NegSpec, SubSpec};

verus! {

/// The numbers that a dual carries in its value and its derivative slots.
pub trait Scalar: Copy + Add<Output = Self> + Sub<Output = Self> + Mul<Output = Self> + Div<
    Output = Self,
> + Neg<Output = Self> + PartialOrd + From<i32> {

}

impl<T> Scalar for T where
    T: Copy + Add<Output = T> + Sub<Output = T> + Mul<Output = T> + Div<Output = T> + Neg<
        Output = T,
    > + PartialOrd + From<i32>,
 {

}

/// The scalar's operators, comparisons and conversion from `i32` compute what their
/// specifications say: the results below are then exact statements about the code.
pub open spec fn exact<T: Scalar>() -> bool {
    &&& <T as AddSpec>::obeys_add_spec()
    &&& <T as SubSpec>::obeys_sub_spec()
    &&& <T as MulSpec>::obeys_mul_spec()
    &&& <T as DivSpec>::obeys_div_spec()
    &&& <T as NegSpec>::obeys_neg_spec()
    &&& <T as PartialEqSpec>::obeys_eq_spec()
    &&& <T as PartialOrdSpec>::obeys_partial_cmp_spec()
    &&& <T as FromSpec<i32>>::obeys_from_spec()
}

/// The scalar that the integer `n` converts to.
pub open spec fn lit<T: Scalar>(n: i32) -> T {
    <T as FromSpec<i32>>::from_spec(n)
}

/// The scalar's zero.
pub open spec fn zero<T: Scalar>() -> T {
    lit::<T>(0)
}

/// The scalar's one.
pub open spec fn one<T: Scalar>() -> T {
    lit::<T>(1)
}

/// Converts the integer `n` to the scalar.
pub fn make_lit<T: Scalar>(n: i32) -> (r: T)
    requires
        exact::<T>(),
    ensures
        r == lit::<T>(n),
{
    T::from(n)
}

} // verus!
