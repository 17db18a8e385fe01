//! Duals over `N` variables: a value and one derivative slot per variable.
use core::ops::Neg;
use crate::scalar::{exact, lit, make_lit, one, zero, Scalar};
use vstd::prelude::*;
use vstd::std_specs::cmp::{PartialEqSpec, PartialOrdIs};
use vstd::std_specs::ops::{AddSpec, DivSpec, MulSpec, NegSpec, SubSpec};

verus! {

/// A value seen as a value and its partial derivatives, slot `i` holding the
/// derivative with respect to variable `i`.
pub type Jet<T> = (T, Seq<T>);

/// A fixed number `v`: every slot is zero.
pub open spec fn constant_jet<T: Scalar>(n: nat, v: T) -> Jet<T> {
    (v, Seq::new(n, |j: int| zero::<T>()))
}

/// The `index`-th standard basis vector of length `n`.
pub open spec fn unit_slots<T: Scalar>(n: nat, index: int) -> Seq<T> {
    Seq::new(n, |j: int| if j == index { one::<T>() } else { zero::<T>() })
}

/// Variable `index` of `n`, at value `v`.
pub open spec fn variable_jet<T: Scalar>(n: nat, index: int, v: T) -> Jet<T> {
    (v, unit_slots::<T>(n, index))
}

/// Sum of values, sum of slots.
pub open spec fn sum_jet<T: Scalar>(a: Jet<T>, b: Jet<T>) -> Jet<T> {
    (a.0.add_spec(b.0), Seq::new(a.1.len(), |i: int| a.1[i].add_spec(b.1[i])))
}

/// Difference of values, difference of slots.
pub open spec fn difference_jet<T: Scalar>(a: Jet<T>, b: Jet<T>) -> Jet<T> {
    (a.0.sub_spec(b.0), Seq::new(a.1.len(), |i: int| a.1[i].sub_spec(b.1[i])))
}

/// The product rule, slot by slot.
pub open spec fn product_jet<T: Scalar>(a: Jet<T>, b: Jet<T>) -> Jet<T> {
    (
        a.0.mul_spec(b.0),
        Seq::new(a.1.len(), |i: int| a.0.mul_spec(b.1[i]).add_spec(b.0.mul_spec(a.1[i]))),
    )
}

/// The quotient rule, slot by slot.
pub open spec fn quotient_jet<T: Scalar>(a: Jet<T>, b: Jet<T>) -> Jet<T> {
    (
        a.0.div_spec(b.0),
        Seq::new(
            a.1.len(),
            |i: int| a.1[i].mul_spec(b.0).sub_spec(a.0.mul_spec(b.1[i])).div_spec(b.0.mul_spec(b.0)),
        ),
    )
}

/// Every slot multiplied by `k`.
pub open spec fn scaled_slots<T: Scalar>(s: Seq<T>, k: T) -> Seq<T> {
    Seq::new(s.len(), |i: int| s[i].mul_spec(k))
}

/// Every slot divided by `k`.
pub open spec fn divided_slots<T: Scalar>(s: Seq<T>, k: T) -> Seq<T> {
    Seq::new(s.len(), |i: int| s[i].div_spec(k))
}

/// Value and slots negated.
pub open spec fn negated_jet<T: Scalar>(a: Jet<T>) -> Jet<T> {
    (a.0.neg_spec(), Seq::new(a.1.len(), |i: int| a.1[i].neg_spec()))
}

/// A univariate function with value `v` and derivative `factor` at `a.0`, composed
/// with `a`: the chain rule scales every slot by the same factor.
pub open spec fn chain_jet<T: Scalar>(a: Jet<T>, v: T, factor: T) -> Jet<T> {
    (v, scaled_slots(a.1, factor))
}

/// The requirements of the scalar operations that `sum_jet` performs.
pub open spec fn sum_defined<T: Scalar>(a: Jet<T>, b: Jet<T>) -> bool {
    &&& a.0.add_req(b.0)
    &&& forall|i: int| 0 <= i < a.1.len() ==> (#[trigger] a.1[i]).add_req(b.1[i])
}

/// The requirements of the scalar operations that `difference_jet` performs.
pub open spec fn difference_defined<T: Scalar>(a: Jet<T>, b: Jet<T>) -> bool {
    &&& a.0.sub_req(b.0)
    &&& forall|i: int| 0 <= i < a.1.len() ==> (#[trigger] a.1[i]).sub_req(b.1[i])
}

/// The requirements of the scalar operations that `negated_jet` performs.
pub open spec fn negation_defined<T: Scalar>(a: Jet<T>) -> bool {
    &&& a.0.neg_req()
    &&& forall|i: int| 0 <= i < a.1.len() ==> (#[trigger] a.1[i]).neg_req()
}

/// The requirements of the scalar operations that `product_jet` performs in slot `i`.
pub open spec fn product_slot_defined<T: Scalar>(a: Jet<T>, b: Jet<T>, i: int) -> bool {
    &&& a.0.mul_req(b.1[i])
    &&& b.0.mul_req(a.1[i])
    &&& a.0.mul_spec(b.1[i]).add_req(b.0.mul_spec(a.1[i]))
}

/// The requirements of the scalar operations that `product_jet` performs.
pub open spec fn product_defined<T: Scalar>(a: Jet<T>, b: Jet<T>) -> bool {
    &&& a.0.mul_req(b.0)
    &&& forall|i: int| 0 <= i < a.1.len() ==> #[trigger] product_slot_defined(a, b, i)
}

/// The requirements of the scalar operations that `quotient_jet` performs in slot `i`.
pub open spec fn quotient_slot_defined<T: Scalar>(a: Jet<T>, b: Jet<T>, i: int) -> bool {
    &&& a.1[i].mul_req(b.0)
    &&& a.0.mul_req(b.1[i])
    &&& a.1[i].mul_spec(b.0).sub_req(a.0.mul_spec(b.1[i]))
    &&& a.1[i].mul_spec(b.0).sub_spec(a.0.mul_spec(b.1[i])).div_req(b.0.mul_spec(b.0))
}

/// The requirements of the scalar operations that `quotient_jet` performs.
pub open spec fn quotient_defined<T: Scalar>(a: Jet<T>, b: Jet<T>) -> bool {
    &&& a.0.div_req(b.0)
    &&& b.0.mul_req(b.0)
    &&& forall|i: int| 0 <= i < a.1.len() ==> #[trigger] quotient_slot_defined(a, b, i)
}

/// Every slot can be multiplied by `k`.
pub open spec fn scalable<T: Scalar>(s: Seq<T>, k: T) -> bool {
    forall|i: int| 0 <= i < s.len() ==> (#[trigger] s[i]).mul_req(k)
}

/// Every slot can be divided by `k`.
pub open spec fn divisible<T: Scalar>(s: Seq<T>, k: T) -> bool {
    forall|i: int| 0 <= i < s.len() ==> (#[trigger] s[i]).div_req(k)
}

/// The derivative of tan at a point whose cosine is `c`: 1 / c².
pub open spec fn tan_factor<T: Scalar>(c: T) -> T {
    one::<T>().div_spec(c.mul_spec(c))
}

/// One half, as the scalar computes it.
pub open spec fn half<T: Scalar>() -> T {
    one::<T>().div_spec(lit::<T>(2))
}

/// The derivative of sqrt at a point whose square root is `r`: 0.5 / r.
pub open spec fn sqrt_factor<T: Scalar>(r: T) -> T {
    half::<T>().div_spec(r)
}

/// The derivative of x^n at a point where x^(n-1) is `below`; zero for n == 0.
pub open spec fn powi_factor<T: Scalar>(n: i32, below: T) -> T {
    if n == 0 {
        zero::<T>()
    } else {
        lit::<T>(n).mul_spec(below)
    }
}

/// The derivative of x^p at a point where x^(p-1) is `below`; zero for p == 0.
pub open spec fn powf_factor<T: Scalar>(p: T, below: T) -> T {
    if p.eq_spec(&zero::<T>()) {
        zero::<T>()
    } else {
        p.mul_spec(below)
    }
}

/// A dual number over `N` independent variables.
#[derive(Clone, Copy, Debug)]
pub struct Dual<T, const N: usize> {
    value: T,
    derivatives: [T; N],
}

impl<T, const N: usize> View for Dual<T, N> {
    type V = (T, Seq<T>);

    closed spec fn view(&self) -> (T, Seq<T>) {
        (self.value, self.derivatives@)
    }
}

impl<T: Scalar, const N: usize> Dual<T, N> {
    /// Every dual has one derivative slot per variable.
    pub broadcast proof fn lemma_slot_count(d: Self)
        ensures
            (#[trigger] d@).1.len() == N,
    {
    }

    /// A fixed number: no variable moves it.
    pub fn constant(value: T) -> (r: Self)
        requires
            exact::<T>(),
        ensures
            r@ == constant_jet::<T>(N as nat, value),
    {
        let z: T = make_lit(0);
        let r = Dual { value, derivatives: [z; N] };
        assert(r@.1 =~= constant_jet::<T>(N as nat, value).1);
        r
    }

    /// The identity function of variable `index`.
    pub fn variable(index: usize, value: T) -> (r: Self)
        requires
            exact::<T>(),
            index < N,
        ensures
            r@ == variable_jet::<T>(N as nat, index as int, value),
    {
        let z: T = make_lit(0);
        let mut derivatives = [z; N];
        derivatives[index] = make_lit(1);
        let r = Dual { value, derivatives };
        assert(r@.1 =~= unit_slots::<T>(N as nat, index as int));
        r
    }

    /// One where `condition` holds, zero where not; no derivative flows through it.
    pub fn indicator(condition: bool) -> (r: Self)
        requires
            exact::<T>(),
        ensures
            r@ == constant_jet::<T>(N as nat, if condition { one::<T>() } else { zero::<T>() }),
    {
        if condition {
            Self::constant(make_lit(1))
        } else {
            Self::constant(make_lit(0))
        }
    }

    /// Slot by slot sum.
    pub fn add(self, rhs: Self) -> (r: Self)
        requires
            exact::<T>(),
            sum_defined(self@, rhs@),
        ensures
            r@ == sum_jet(self@, rhs@),
    {
        proof {
            Self::lemma_slot_count(self);
        }
        let mut derivatives = self.derivatives;
        let mut i: usize = 0;
        while i < N
            invariant
                i <= N,
                exact::<T>(),
                sum_defined(self@, rhs@),
                self@.1.len() == N,
                forall|j: int| i <= j < N ==> #[trigger] derivatives@[j] == self@.1[j],
                forall|j: int| 0 <= j < i ==> #[trigger] derivatives@[j] == self@.1[j].add_spec(rhs@.1[j]),
            decreases N - i,
        {
            assert(self@.1[i as int].add_req(rhs@.1[i as int]));
            derivatives[i] = self.derivatives[i] + rhs.derivatives[i];
            i = i + 1;
        }
        let r = Dual { value: self.value + rhs.value, derivatives };
        assert(r@.1 =~= sum_jet(self@, rhs@).1);
        r
    }

    /// Adds a number that no variable moves: the slots stay as they are.
    pub fn add_scalar(self, rhs: T) -> (r: Self)
        requires
            exact::<T>(),
            self@.0.add_req(rhs),
        ensures
            r@ == (self@.0.add_spec(rhs), self@.1),
    {
        Dual { value: self.value + rhs, derivatives: self.derivatives }
    }

    /// Slot by slot difference.
    pub fn sub(self, rhs: Self) -> (r: Self)
        requires
            exact::<T>(),
            difference_defined(self@, rhs@),
        ensures
            r@ == difference_jet(self@, rhs@),
    {
        proof {
            Self::lemma_slot_count(self);
        }
        let mut derivatives = self.derivatives;
        let mut i: usize = 0;
        while i < N
            invariant
                i <= N,
                exact::<T>(),
                difference_defined(self@, rhs@),
                self@.1.len() == N,
                forall|j: int| i <= j < N ==> #[trigger] derivatives@[j] == self@.1[j],
                forall|j: int| 0 <= j < i ==> #[trigger] derivatives@[j] == self@.1[j].sub_spec(rhs@.1[j]),
            decreases N - i,
        {
            assert(self@.1[i as int].sub_req(rhs@.1[i as int]));
            derivatives[i] = self.derivatives[i] - rhs.derivatives[i];
            i = i + 1;
        }
        let r = Dual { value: self.value - rhs.value, derivatives };
        assert(r@.1 =~= difference_jet(self@, rhs@).1);
        r
    }

    /// Subtracts a number that no variable moves: the slots stay as they are.
    pub fn sub_scalar(self, rhs: T) -> (r: Self)
        requires
            exact::<T>(),
            self@.0.sub_req(rhs),
        ensures
            r@ == (self@.0.sub_spec(rhs), self@.1),
    {
        Dual { value: self.value - rhs, derivatives: self.derivatives }
    }

    /// The product, with the product rule in every slot.
    pub fn mul(self, rhs: Self) -> (r: Self)
        requires
            exact::<T>(),
            product_defined(self@, rhs@),
        ensures
            r@ == product_jet(self@, rhs@),
    {
        proof {
            Self::lemma_slot_count(self);
            Self::lemma_slot_count(rhs);
        }
        let mut derivatives = self.derivatives;
        let mut i: usize = 0;
        while i < N
            invariant
                i <= N,
                exact::<T>(),
                product_defined(self@, rhs@),
                self@.1.len() == N,
                forall|j: int| i <= j < N ==> #[trigger] derivatives@[j] == self@.1[j],
                forall|j: int|
                    0 <= j < i ==> #[trigger] derivatives@[j] == self@.0.mul_spec(rhs@.1[j]).add_spec(
                        rhs@.0.mul_spec(self@.1[j]),
                    ),
            decreases N - i,
        {
            assert(product_slot_defined(self@, rhs@, i as int));
            derivatives[i] = self.value * rhs.derivatives[i] + rhs.value * self.derivatives[i];
            i = i + 1;
        }
        let r = Dual { value: self.value * rhs.value, derivatives };
        assert(r@.1 =~= product_jet(self@, rhs@).1);
        r
    }

    /// Multiplies by a number that no variable moves: value and slots scale alike.
    pub fn mul_scalar(self, rhs: T) -> (r: Self)
        requires
            exact::<T>(),
            self@.0.mul_req(rhs),
            scalable(self@.1, rhs),
        ensures
            r@ == (self@.0.mul_spec(rhs), scaled_slots(self@.1, rhs)),
    {
        self.compose(self.value * rhs, rhs)
    }

    /// The quotient, with the quotient rule in every slot. A zero divisor is no
    /// error here: the scalar's own division decides what comes out.
    pub fn div(self, rhs: Self) -> (r: Self)
        requires
            exact::<T>(),
            quotient_defined(self@, rhs@),
        ensures
            r@ == quotient_jet(self@, rhs@),
    {
        proof {
            Self::lemma_slot_count(self);
            Self::lemma_slot_count(rhs);
        }
        let denominator = rhs.value * rhs.value;
        let mut derivatives = self.derivatives;
        let mut i: usize = 0;
        while i < N
            invariant
                i <= N,
                exact::<T>(),
                quotient_defined(self@, rhs@),
                self@.1.len() == N,
                denominator == rhs@.0.mul_spec(rhs@.0),
                forall|j: int| i <= j < N ==> #[trigger] derivatives@[j] == self@.1[j],
                forall|j: int|
                    0 <= j < i ==> #[trigger] derivatives@[j] == self@.1[j].mul_spec(rhs@.0).sub_spec(
                        self@.0.mul_spec(rhs@.1[j]),
                    ).div_spec(denominator),
            decreases N - i,
        {
            assert(quotient_slot_defined(self@, rhs@, i as int));
            derivatives[i] = (self.derivatives[i] * rhs.value - self.value * rhs.derivatives[i])
                / denominator;
            i = i + 1;
        }
        let r = Dual { value: self.value / rhs.value, derivatives };
        assert(r@.1 =~= quotient_jet(self@, rhs@).1);
        r
    }

    /// Divides by a number that no variable moves: value and slots alike.
    pub fn div_scalar(self, rhs: T) -> (r: Self)
        requires
            exact::<T>(),
            self@.0.div_req(rhs),
            divisible(self@.1, rhs),
        ensures
            r@ == (self@.0.div_spec(rhs), divided_slots(self@.1, rhs)),
    {
        Dual { value: self.value / rhs, derivatives: self.divided(rhs) }
    }

    /// Negates the value and every slot.
    pub fn neg(self) -> (r: Self)
        requires
            exact::<T>(),
            negation_defined(self@),
        ensures
            r@ == negated_jet(self@),
    {
        proof {
            Self::lemma_slot_count(self);
        }
        let mut derivatives = self.derivatives;
        let mut i: usize = 0;
        while i < N
            invariant
                i <= N,
                exact::<T>(),
                negation_defined(self@),
                self@.1.len() == N,
                forall|j: int| i <= j < N ==> #[trigger] derivatives@[j] == self@.1[j],
                forall|j: int| 0 <= j < i ==> #[trigger] derivatives@[j] == self@.1[j].neg_spec(),
            decreases N - i,
        {
            assert(self@.1[i as int].neg_req());
            derivatives[i] = self.derivatives[i].neg();
            i = i + 1;
        }
        let r = Dual { value: self.value.neg(), derivatives };
        assert(r@.1 =~= negated_jet(self@).1);
        r
    }

    /// sin, given `sin_v` and `cos_v`, the sine and cosine of this dual's value.
    pub fn sin(self, sin_v: T, cos_v: T) -> (r: Self)
        requires
            exact::<T>(),
            scalable(self@.1, cos_v),
        ensures
            r@ == chain_jet(self@, sin_v, cos_v),
    {
        self.compose(sin_v, cos_v)
    }

    /// cos, given `cos_v` and `sin_v`, the cosine and sine of this dual's value.
    pub fn cos(self, cos_v: T, sin_v: T) -> (r: Self)
        requires
            exact::<T>(),
            sin_v.neg_req(),
            scalable(self@.1, sin_v.neg_spec()),
        ensures
            r@ == chain_jet(self@, cos_v, sin_v.neg_spec()),
    {
        self.compose(cos_v, sin_v.neg())
    }

    /// tan, given `tan_v` and `cos_v`, the tangent and cosine of this dual's value.
    pub fn tan(self, tan_v: T, cos_v: T) -> (r: Self)
        requires
            exact::<T>(),
            cos_v.mul_req(cos_v),
            one::<T>().div_req(cos_v.mul_spec(cos_v)),
            scalable(self@.1, tan_factor(cos_v)),
        ensures
            r@ == chain_jet(self@, tan_v, tan_factor(cos_v)),
    {
        let one_v: T = make_lit(1);
        self.compose(tan_v, one_v / (cos_v * cos_v))
    }

    /// exp, given `exp_v`, the exponential of this dual's value, which is also
    /// its derivative.
    pub fn exp(self, exp_v: T) -> (r: Self)
        requires
            exact::<T>(),
            scalable(self@.1, exp_v),
        ensures
            r@ == chain_jet(self@, exp_v, exp_v),
    {
        self.compose(exp_v, exp_v)
    }

    /// The natural logarithm, given `ln_v`, the logarithm of this dual's value;
    /// only for a positive value. The slots are divided by the value.
    pub fn ln(self, ln_v: T) -> (r: Self)
        requires
            exact::<T>(),
            self@.0.is_gt(&zero::<T>()),
            divisible(self@.1, self@.0),
        ensures
            r@ == (ln_v, divided_slots(self@.1, self@.0)),
    {
        Dual { value: ln_v, derivatives: self.divided(self.value) }
    }

    /// The square root, given `sqrt_v`, the square root of this dual's value;
    /// only for a value that is not negative.
    pub fn sqrt(self, sqrt_v: T) -> (r: Self)
        requires
            exact::<T>(),
            self@.0.is_ge(&zero::<T>()),
            one::<T>().div_req(lit::<T>(2)),
            half::<T>().div_req(sqrt_v),
            scalable(self@.1, sqrt_factor(sqrt_v)),
        ensures
            r@ == chain_jet(self@, sqrt_v, sqrt_factor(sqrt_v)),
    {
        let one_v: T = make_lit(1);
        let two_v: T = make_lit(2);
        self.compose(sqrt_v, one_v / two_v / sqrt_v)
    }

    /// The integer power `exponent`, given `pow_v`, this dual's value to that
    /// power, and `below`, its value to the power `exponent - 1`.
    pub fn powi(self, exponent: i32, pow_v: T, below: T) -> (r: Self)
        requires
            exact::<T>(),
            exponent != 0 ==> lit::<T>(exponent).mul_req(below),
            scalable(self@.1, powi_factor(exponent, below)),
        ensures
            r@ == chain_jet(self@, pow_v, powi_factor(exponent, below)),
    {
        let factor: T = if exponent == 0 {
            make_lit(0)
        } else {
            let n: T = make_lit(exponent);
            n * below
        };
        self.compose(pow_v, factor)
    }

    /// The real power `exponent`, given `pow_v`, this dual's value to that power,
    /// and `below`, its value to the power `exponent - 1`.
    pub fn powf(self, exponent: T, pow_v: T, below: T) -> (r: Self)
        requires
            exact::<T>(),
            !exponent.eq_spec(&zero::<T>()) ==> exponent.mul_req(below),
            scalable(self@.1, powf_factor(exponent, below)),
        ensures
            r@ == chain_jet(self@, pow_v, powf_factor(exponent, below)),
    {
        let z: T = make_lit(0);
        let factor: T = if exponent == z {
            z
        } else {
            exponent * below
        };
        self.compose(pow_v, factor)
    }

    /// The slots, each divided by `k`.
    fn divided(&self, k: T) -> (r: [T; N])
        requires
            exact::<T>(),
            divisible(self@.1, k),
        ensures
            r@ == divided_slots(self@.1, k),
    {
        proof {
            Self::lemma_slot_count(*self);
        }
        let mut derivatives = self.derivatives;
        let mut i: usize = 0;
        while i < N
            invariant
                i <= N,
                exact::<T>(),
                divisible(self@.1, k),
                self@.1.len() == N,
                forall|j: int| i <= j < N ==> #[trigger] derivatives@[j] == self@.1[j],
                forall|j: int| 0 <= j < i ==> #[trigger] derivatives@[j] == self@.1[j].div_spec(k),
            decreases N - i,
        {
            assert(self@.1[i as int].div_req(k));
            derivatives[i] = self.derivatives[i] / k;
            i = i + 1;
        }
        assert(derivatives@ =~= divided_slots(self@.1, k));
        derivatives
    }

    /// Composes a univariate function with this dual, given the function's value
    /// `value` and its derivative `factor` at this dual's value.
    pub fn compose(self, value: T, factor: T) -> (r: Self)
        requires
            exact::<T>(),
            scalable(self@.1, factor),
        ensures
            r@ == chain_jet(self@, value, factor),
    {
        proof {
            Self::lemma_slot_count(self);
        }
        let mut derivatives = self.derivatives;
        let mut i: usize = 0;
        while i < N
            invariant
                i <= N,
                exact::<T>(),
                scalable(self@.1, factor),
                self@.1.len() == N,
                forall|j: int| i <= j < N ==> #[trigger] derivatives@[j] == self@.1[j],
                forall|j: int| 0 <= j < i ==> #[trigger] derivatives@[j] == self@.1[j].mul_spec(factor),
            decreases N - i,
        {
            assert(self@.1[i as int].mul_req(factor));
            derivatives[i] = self.derivatives[i] * factor;
            i = i + 1;
        }
        let r = Dual { value, derivatives };
        assert(r@.1 =~= chain_jet(self@, value, factor).1);
        r
    }

    pub fn value(&self) -> (r: T)
        ensures
            r == self@.0,
    {
        self.value
    }

    pub fn derivatives(&self) -> (r: &[T; N])
        ensures
            r@ == self@.1,
    {
        &self.derivatives
    }
}

/// The standard basis: dual `i` is variable `i` with value `values[i]`. Evaluating
/// a function on these gives its value and its whole gradient in one pass.
pub fn variables<T: Scalar, const N: usize>(values: [T; N]) -> (r: [Dual<T, N>; N])
    requires
        exact::<T>(),
    ensures
        forall|i: int| 0 <= i < N ==> (#[trigger] r@[i])@ == variable_jet::<T>(N as nat, i, values@[i]),
{
    let z: T = make_lit(0);
    let filler: Dual<T, N> = Dual::constant(z);
    let mut r: [Dual<T, N>; N] = [filler; N];
    let mut i: usize = 0;
    while i < N
        invariant
            i <= N,
            exact::<T>(),
            forall|j: int| 0 <= j < i ==> (#[trigger] r@[j])@ == variable_jet::<T>(N as nat, j, values@[j]),
        decreases N - i,
    {
        r[i] = Dual::variable(i, values[i]);
        i = i + 1;
    }
    r
}

} // verus!
