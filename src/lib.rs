//! Forward-mode automatic differentiation with dual numbers.
//!
//! A dual carries a value together with its partial derivatives with respect to a
//! fixed, ordered set of variables, and every operation applies the matching
//! differentiation rule to each derivative slot. The algebra is generic over the
//! scalar: for a scalar whose operators compute what their specifications say
//! (`scalar::exact`), each operation's result is stated exactly. Functions that
//! only the host can evaluate (sin, exp, ln, ...) are supplied by the caller as
//! values at the dual's point; the library does the differentiation around them.
use vstd::prelude::*;

pub mod cblas;
pub mod dual;
pub mod laws;
pub mod naive;
pub mod reverse;
pub mod scalar;

use crate::dual::{
    chain_jet, product_defined, product_jet, scalable, sum_defined, sum_jet, variable_jet, variables,
    Dual, Jet,
};
use crate::naive::{naive_chain, naive_product, naive_product_defined, naive_sum, NaiveDual, NaiveJet};
use crate::scalar::{exact, one, zero, Scalar};
use vstd::std_specs::ops::{AddSpec, MulSpec};

verus! {

/// f(x, y) = x * y + sin(x) * y on duals, where sin(x) has value `s` and
/// derivative `c` at x's value.
pub open spec fn objective_jet<T: Scalar>(x: Jet<T>, y: Jet<T>, s: T, c: T) -> Jet<T> {
    sum_jet(product_jet(x, y), product_jet(chain_jet(x, s, c), y))
}

/// The scalar operations that `objective_jet` performs are all defined.
pub open spec fn objective_defined<T: Scalar>(x: Jet<T>, y: Jet<T>, s: T, c: T) -> bool {
    &&& product_defined(x, y)
    &&& scalable(x.1, c)
    &&& product_defined(chain_jet(x, s, c), y)
    &&& sum_defined(product_jet(x, y), product_jet(chain_jet(x, s, c), y))
}

/// f(x, y) = x * y + sin(x) * y on single-variable duals.
pub open spec fn naive_objective<T: Scalar>(x: NaiveJet<T>, y: NaiveJet<T>, s: T, c: T) -> NaiveJet<T> {
    naive_sum(naive_product(x, y), naive_product(naive_chain(x, s, c), y))
}

/// The scalar operations that `naive_objective` performs are all defined.
pub open spec fn naive_objective_defined<T: Scalar>(x: NaiveJet<T>, y: NaiveJet<T>, s: T, c: T) -> bool {
    &&& naive_product_defined(x, y)
    &&& x.1.mul_req(c)
    &&& naive_product_defined(naive_chain(x, s, c), y)
    &&& naive_product(x, y).0.add_req(naive_product(naive_chain(x, s, c), y).0)
    &&& naive_product(x, y).1.add_req(naive_product(naive_chain(x, s, c), y).1)
}

fn naive_objective_at<T: Scalar>(x: NaiveDual<T>, y: NaiveDual<T>, sin_x: T, cos_x: T) -> (r:
    NaiveDual<T>)
    requires
        exact::<T>(),
        naive_objective_defined(x@, y@, sin_x, cos_x),
    ensures
        r@ == naive_objective(x@, y@, sin_x, cos_x),
{
    x.mul(y).add(x.sin(sin_x, cos_x).mul(y))
}

/// Differentiates f(x, y) = x * y + sin(x) * y at (`x0`, `y0`) one variable at a
/// time: first with x the variable and y fixed, then the other way round.
/// `sin_x0` and `cos_x0` are the sine and cosine of `x0`.
pub fn naive_forward_pass<T: Scalar>(x0: T, y0: T, sin_x0: T, cos_x0: T) -> (r: (
    NaiveDual<T>,
    NaiveDual<T>,
))
    requires
        exact::<T>(),
        naive_objective_defined((x0, one::<T>()), (y0, zero::<T>()), sin_x0, cos_x0),
        naive_objective_defined((x0, zero::<T>()), (y0, one::<T>()), sin_x0, cos_x0),
    ensures
        r.0@ == naive_objective((x0, one::<T>()), (y0, zero::<T>()), sin_x0, cos_x0),
        r.1@ == naive_objective((x0, zero::<T>()), (y0, one::<T>()), sin_x0, cos_x0),
{
    let x_var = NaiveDual::variable(x0);
    let y_const = NaiveDual::constant(y0);
    let result_dx = naive_objective_at(x_var, y_const, sin_x0, cos_x0);

    let x_const = NaiveDual::constant(x0);
    let y_var = NaiveDual::variable(y0);
    let result_dy = naive_objective_at(x_const, y_var, sin_x0, cos_x0);
    (result_dx, result_dy)
}

/// Differentiates f(x, y) = x * y + sin(x) * y at (`x0`, `y0`) with respect to
/// both variables in one pass. `sin_x0` and `cos_x0` are the sine and cosine of
/// `x0`.
pub fn dual_forward_pass<T: Scalar>(x0: T, y0: T, sin_x0: T, cos_x0: T) -> (r: Dual<T, 2>)
    requires
        exact::<T>(),
        objective_defined(
            variable_jet::<T>(2, 0, x0),
            variable_jet::<T>(2, 1, y0),
            sin_x0,
            cos_x0,
        ),
    ensures
        r@ == objective_jet(variable_jet::<T>(2, 0, x0), variable_jet::<T>(2, 1, y0), sin_x0, cos_x0),
{
    let seeds = variables([x0, y0]);
    let x = seeds[0];
    let y = seeds[1];
    x.mul(y).add(x.sin(sin_x0, cos_x0).mul(y))
}

} // verus!
