//! Duals over a single variable: a value and one derivative.
use core::ops::Neg;
use crate::dual::{half, powf_factor, powi_factor, sqrt_factor, tan_factor};
use crate::scalar::{exact, lit, make_lit, one, zero, Scalar};
use vstd::prelude::*;
use vstd::std_specs::cmp::{PartialEqSpec, PartialOrdIs};
use vstd::std_specs::ops::{AddSpec, DivSpec, MulSpec, NegSpec, SubSpec};

verus! {

/// A value and its derivative with respect to the one variable.
pub type NaiveJet<T> = (T, T);

/// Sum of values, sum of derivatives.
pub open spec fn naive_sum<T: Scalar>(a: NaiveJet<T>, b: NaiveJet<T>) -> NaiveJet<T> {
    (a.0.add_spec(b.0), a.1.add_spec(b.1))
}

/// Difference of values, difference of derivatives.
pub open spec fn naive_difference<T: Scalar>(a: NaiveJet<T>, b: NaiveJet<T>) -> NaiveJet<T> {
    (a.0.sub_spec(b.0), a.1.sub_spec(b.1))
}

/// The product rule.
pub open spec fn naive_product<T: Scalar>(a: NaiveJet<T>, b: NaiveJet<T>) -> NaiveJet<T> {
    (a.0.mul_spec(b.0), a.0.mul_spec(b.1).add_spec(b.0.mul_spec(a.1)))
}

/// The quotient rule.
pub open spec fn naive_quotient<T: Scalar>(a: NaiveJet<T>, b: NaiveJet<T>) -> NaiveJet<T> {
    (
        a.0.div_spec(b.0),
        a.1.mul_spec(b.0).sub_spec(a.0.mul_spec(b.1)).div_spec(b.0.mul_spec(b.0)),
    )
}

/// Value and derivative negated.
pub open spec fn naive_negated<T: Scalar>(a: NaiveJet<T>) -> NaiveJet<T> {
    (a.0.neg_spec(), a.1.neg_spec())
}

/// A univariate function with value `v` and derivative `factor` at `a.0`, composed
/// with `a`.
pub open spec fn naive_chain<T: Scalar>(a: NaiveJet<T>, v: T, factor: T) -> NaiveJet<T> {
    (v, a.1.mul_spec(factor))
}

/// The requirements of the scalar operations that `naive_product` performs.
pub open spec fn naive_product_defined<T: Scalar>(a: NaiveJet<T>, b: NaiveJet<T>) -> bool {
    &&& a.0.mul_req(b.0)
    &&& a.0.mul_req(b.1)
    &&& b.0.mul_req(a.1)
    &&& a.0.mul_spec(b.1).add_req(b.0.mul_spec(a.1))
}

/// The requirements of the scalar operations that `naive_quotient` performs.
pub open spec fn naive_quotient_defined<T: Scalar>(a: NaiveJet<T>, b: NaiveJet<T>) -> bool {
    &&& a.0.div_req(b.0)
    &&& b.0.mul_req(b.0)
    &&& a.1.mul_req(b.0)
    &&& a.0.mul_req(b.1)
    &&& a.1.mul_spec(b.0).sub_req(a.0.mul_spec(b.1))
    &&& a.1.mul_spec(b.0).sub_spec(a.0.mul_spec(b.1)).div_req(b.0.mul_spec(b.0))
}

/// A dual number over a single variable.
#[derive(Clone, Copy, Debug)]
pub struct NaiveDual<T> {
    value: T,
    derivatives: T,
}

impl<T> View for NaiveDual<T> {
    type V = (T, T);

    closed spec fn view(&self) -> (T, T) {
        (self.value, self.derivatives)
    }
}

impl<T: Scalar> NaiveDual<T> {
    /// A fixed number: derivative zero.
    pub fn constant(value: T) -> (r: Self)
        requires
            exact::<T>(),
        ensures
            r@ == (value, zero::<T>()),
    {
        NaiveDual { value, derivatives: make_lit(0) }
    }

    /// The variable itself: derivative one.
    pub fn variable(value: T) -> (r: Self)
        requires
            exact::<T>(),
        ensures
            r@ == (value, one::<T>()),
    {
        NaiveDual { value, derivatives: make_lit(1) }
    }

    /// One where `condition` holds, zero where not; derivative zero.
    pub fn indicator(condition: bool) -> (r: Self)
        requires
            exact::<T>(),
        ensures
            r@ == (if condition { one::<T>() } else { zero::<T>() }, zero::<T>()),
    {
        if condition {
            Self::constant(make_lit(1))
        } else {
            Self::constant(make_lit(0))
        }
    }

    pub fn value(&self) -> (r: T)
        ensures
            r == self@.0,
    {
        self.value
    }

    pub fn derivative(&self) -> (r: T)
        ensures
            r == self@.1,
    {
        self.derivatives
    }

    pub fn add(self, rhs: Self) -> (r: Self)
        requires
            exact::<T>(),
            self@.0.add_req(rhs@.0),
            self@.1.add_req(rhs@.1),
        ensures
            r@ == naive_sum(self@, rhs@),
    {
        NaiveDual { value: self.value + rhs.value, derivatives: self.derivatives + rhs.derivatives }
    }

    /// Adds a number that no variable moves: the derivative stays.
    pub fn add_scalar(self, rhs: T) -> (r: Self)
        requires
            exact::<T>(),
            self@.0.add_req(rhs),
        ensures
            r@ == (self@.0.add_spec(rhs), self@.1),
    {
        NaiveDual { value: self.value + rhs, derivatives: self.derivatives }
    }

    pub fn sub(self, rhs: Self) -> (r: Self)
        requires
            exact::<T>(),
            self@.0.sub_req(rhs@.0),
            self@.1.sub_req(rhs@.1),
        ensures
            r@ == naive_difference(self@, rhs@),
    {
        NaiveDual { value: self.value - rhs.value, derivatives: self.derivatives - rhs.derivatives }
    }

    /// Subtracts a number that no variable moves: the derivative stays.
    pub fn sub_scalar(self, rhs: T) -> (r: Self)
        requires
            exact::<T>(),
            self@.0.sub_req(rhs),
        ensures
            r@ == (self@.0.sub_spec(rhs), self@.1),
    {
        NaiveDual { value: self.value - rhs, derivatives: self.derivatives }
    }

    /// The product, with the product rule.
    pub fn mul(self, rhs: Self) -> (r: Self)
        requires
            exact::<T>(),
            naive_product_defined(self@, rhs@),
        ensures
            r@ == naive_product(self@, rhs@),
    {
        NaiveDual {
            value: self.value * rhs.value,
            derivatives: self.value * rhs.derivatives + rhs.value * self.derivatives,
        }
    }

    /// Multiplies value and derivative by a number that no variable moves.
    pub fn mul_scalar(self, rhs: T) -> (r: Self)
        requires
            exact::<T>(),
            self@.0.mul_req(rhs),
            self@.1.mul_req(rhs),
        ensures
            r@ == (self@.0.mul_spec(rhs), self@.1.mul_spec(rhs)),
    {
        NaiveDual { value: self.value * rhs, derivatives: self.derivatives * rhs }
    }

    /// The quotient, with the quotient rule; a zero divisor is left to the
    /// scalar's own division.
    pub fn div(self, rhs: Self) -> (r: Self)
        requires
            exact::<T>(),
            naive_quotient_defined(self@, rhs@),
        ensures
            r@ == naive_quotient(self@, rhs@),
    {
        let denominator = rhs.value * rhs.value;
        NaiveDual {
            value: self.value / rhs.value,
            derivatives: (self.derivatives * rhs.value - self.value * rhs.derivatives) / denominator,
        }
    }

    /// Divides value and derivative by a number that no variable moves.
    pub fn div_scalar(self, rhs: T) -> (r: Self)
        requires
            exact::<T>(),
            self@.0.div_req(rhs),
            self@.1.div_req(rhs),
        ensures
            r@ == (self@.0.div_spec(rhs), self@.1.div_spec(rhs)),
    {
        NaiveDual { value: self.value / rhs, derivatives: self.derivatives / rhs }
    }

    pub fn neg(self) -> (r: Self)
        requires
            exact::<T>(),
            self@.0.neg_req(),
            self@.1.neg_req(),
        ensures
            r@ == naive_negated(self@),
    {
        NaiveDual { value: self.value.neg(), derivatives: self.derivatives.neg() }
    }

    /// Composes a univariate function with value `value` and derivative `factor`
    /// at this dual's value.
    pub fn compose(self, value: T, factor: T) -> (r: Self)
        requires
            exact::<T>(),
            self@.1.mul_req(factor),
        ensures
            r@ == naive_chain(self@, value, factor),
    {
        NaiveDual { value, derivatives: self.derivatives * factor }
    }

    /// sin, given `sin_v` and `cos_v`, the sine and cosine of this dual's value.
    pub fn sin(self, sin_v: T, cos_v: T) -> (r: Self)
        requires
            exact::<T>(),
            self@.1.mul_req(cos_v),
        ensures
            r@ == naive_chain(self@, sin_v, cos_v),
    {
        self.compose(sin_v, cos_v)
    }

    /// cos, given `cos_v` and `sin_v`, the cosine and sine of this dual's value.
    pub fn cos(self, cos_v: T, sin_v: T) -> (r: Self)
        requires
            exact::<T>(),
            sin_v.neg_req(),
            self@.1.mul_req(sin_v.neg_spec()),
        ensures
            r@ == naive_chain(self@, cos_v, sin_v.neg_spec()),
    {
        self.compose(cos_v, sin_v.neg())
    }

    /// tan, given `tan_v` and `cos_v`, the tangent and cosine of this dual's value.
    pub fn tan(self, tan_v: T, cos_v: T) -> (r: Self)
        requires
            exact::<T>(),
            cos_v.mul_req(cos_v),
            one::<T>().div_req(cos_v.mul_spec(cos_v)),
            self@.1.mul_req(tan_factor(cos_v)),
        ensures
            r@ == naive_chain(self@, tan_v, tan_factor(cos_v)),
    {
        let one_v: T = make_lit(1);
        self.compose(tan_v, one_v / (cos_v * cos_v))
    }

    /// exp, given `exp_v`, the exponential of this dual's value.
    pub fn exp(self, exp_v: T) -> (r: Self)
        requires
            exact::<T>(),
            self@.1.mul_req(exp_v),
        ensures
            r@ == naive_chain(self@, exp_v, exp_v),
    {
        self.compose(exp_v, exp_v)
    }

    /// The natural logarithm, given `ln_v`, the logarithm of this dual's value;
    /// only for a positive value. The derivative is divided by the value.
    pub fn ln(self, ln_v: T) -> (r: Self)
        requires
            exact::<T>(),
            self@.0.is_gt(&zero::<T>()),
            self@.1.div_req(self@.0),
        ensures
            r@ == (ln_v, self@.1.div_spec(self@.0)),
    {
        NaiveDual { value: ln_v, derivatives: self.derivatives / self.value }
    }

    /// The square root, given `sqrt_v`, the square root of this dual's value;
    /// only for a value that is not negative.
    pub fn sqrt(self, sqrt_v: T) -> (r: Self)
        requires
            exact::<T>(),
            self@.0.is_ge(&zero::<T>()),
            one::<T>().div_req(lit::<T>(2)),
            half::<T>().div_req(sqrt_v),
            self@.1.mul_req(sqrt_factor(sqrt_v)),
        ensures
            r@ == naive_chain(self@, sqrt_v, sqrt_factor(sqrt_v)),
    {
        let one_v: T = make_lit(1);
        let two_v: T = make_lit(2);
        self.compose(sqrt_v, one_v / two_v / sqrt_v)
    }

    /// The integer power `exponent`, given `pow_v`, this dual's value to that
    /// power, and `below`, its value to the power `exponent - 1`.
    pub fn powi(self, exponent: i32, pow_v: T, below: T) -> (r: Self)
        requires
            exact::<T>(),
            exponent != 0 ==> lit::<T>(exponent).mul_req(below),
            self@.1.mul_req(powi_factor(exponent, below)),
        ensures
            r@ == naive_chain(self@, pow_v, powi_factor(exponent, below)),
    {
        let factor: T = if exponent == 0 {
            make_lit(0)
        } else {
            let n: T = make_lit(exponent);
            n * below
        };
        self.compose(pow_v, factor)
    }

    /// The real power `exponent`, given `pow_v`, this dual's value to that power,
    /// and `below`, its value to the power `exponent - 1`.
    pub fn powf(self, exponent: T, pow_v: T, below: T) -> (r: Self)
        requires
            exact::<T>(),
            !exponent.eq_spec(&zero::<T>()) ==> exponent.mul_req(below),
            self@.1.mul_req(powf_factor(exponent, below)),
        ensures
            r@ == naive_chain(self@, pow_v, powf_factor(exponent, below)),
    {
        let z: T = make_lit(0);
        let factor: T = if exponent == z {
            z
        } else {
            exponent * below
        };
        self.compose(pow_v, factor)
    }
}

} // verus!
