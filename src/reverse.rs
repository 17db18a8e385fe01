//! Reverse mode by hand for f(x, y) = x * y + (sin(x) if x > y else 0): a forward
//! pass that records what the backward pass needs, and the backward pass.
use crate::scalar::{exact, make_lit, zero, Scalar};
use vstd::prelude::*;
use vstd::std_specs::cmp::PartialOrdIs;
use vstd::std_specs::ops::{AddSpec, MulSpec};

verus! {

/// What the backward pass needs from the forward pass.
#[derive(Clone, Copy, Debug)]
pub struct Tape<T> {
    x: T,
    branch_taken: bool,
    cos_x: T,
}

impl<T> View for Tape<T> {
    /// The point's x, whether the sine term was taken, and the cosine of x where it was.
    type V = (T, bool, T);

    closed spec fn view(&self) -> (T, bool, T) {
        (self.x, self.branch_taken, self.cos_x)
    }
}

/// The value of f at (x, y), where the sine of x is `sin_x`.
pub open spec fn primal_value<T: Scalar>(x: T, y: T, sin_x: T) -> T {
    x.mul_spec(y).add_spec(if x.is_gt(&y) { sin_x } else { zero::<T>() })
}

/// The forward pass at (`x`, `y`); `sin_x` and `cos_x` are the sine and cosine of `x`.
pub fn primal_with_tape<T: Scalar>(x: T, y: T, sin_x: T, cos_x: T) -> (r: (T, Tape<T>))
    requires
        exact::<T>(),
        x.mul_req(y),
        x.mul_spec(y).add_req(if x.is_gt(&y) { sin_x } else { zero::<T>() }),
    ensures
        r.0 == primal_value(x, y, sin_x),
        r.1@ == (x, x.is_gt(&y), if x.is_gt(&y) { cos_x } else { zero::<T>() }),
{
    let product = x * y;
    let branch_taken = x > y;
    let sin_term: T = if branch_taken {
        sin_x
    } else {
        make_lit(0)
    };
    let cos_term: T = if branch_taken {
        cos_x
    } else {
        make_lit(0)
    };
    let value = product + sin_term;
    (value, Tape { x, branch_taken, cos_x: cos_term })
}

/// The backward pass: the derivatives of f with respect to x and y, each
/// multiplied by `seed_df`. `y` is the point's y.
pub fn reverse_from_tape<T: Scalar>(t: &Tape<T>, seed_df: T, y: T) -> (r: (T, T))
    requires
        exact::<T>(),
        seed_df.mul_req(y),
        seed_df.mul_req(t@.0),
        t@.1 ==> seed_df.mul_req(t@.2),
        t@.1 ==> seed_df.mul_spec(y).add_req(seed_df.mul_spec(t@.2)),
    ensures
        r.0 == (if t@.1 {
            seed_df.mul_spec(y).add_spec(seed_df.mul_spec(t@.2))
        } else {
            seed_df.mul_spec(y)
        }),
        r.1 == seed_df.mul_spec(t@.0),
{
    let d_product = seed_df;
    let mut dx = d_product * y;
    let dy = d_product * t.x;
    if t.branch_taken {
        let d_sin = seed_df;
        dx = dx + d_sin * t.cos_x;
    }
    (dx, dy)
}

} // verus!
