//! Laws of the dual algebra that relate several operations.
use crate::dual::{
    chain_jet, constant_jet, difference_jet, divided_slots, negated_jet, product_jet, scaled_slots,
    quotient_defined, quotient_jet, quotient_slot_defined, sum_jet, variable_jet, Jet,
};
use crate::naive::{
    naive_chain, naive_difference, naive_negated, naive_product, naive_quotient, naive_sum,
    NaiveJet,
};
use crate::scalar::{exact, one, zero, Scalar};
use vstd::prelude::*;
use vstd::std_specs::ops::{AddSpec, DivSpec, MulSpec, NegSpec, SubSpec};

verus! {

/// Machine integers are exact scalars: their operators compute what their
/// specifications say.
pub proof fn lemma_i64_is_exact()
    ensures
        exact::<i64>(),
{
}

/// The scalar's zero combines with itself and absorbs products and quotients
/// the way zero does.
pub open spec fn zero_absorbs<T: Scalar>() -> bool {
    &&& zero::<T>().add_spec(zero::<T>()) == zero::<T>()
    &&& zero::<T>().sub_spec(zero::<T>()) == zero::<T>()
    &&& zero::<T>().neg_spec() == zero::<T>()
    &&& forall|x: T| #[trigger] x.mul_spec(zero::<T>()) == zero::<T>()
    &&& forall|x: T| #[trigger] zero::<T>().mul_spec(x) == zero::<T>()
    &&& forall|x: T| zero::<T>().div_req(x) ==> #[trigger] zero::<T>().div_spec(x) == zero::<T>()
}

/// Machine integers have such a zero.
pub proof fn lemma_i64_zero_absorbs()
    ensures
        zero_absorbs::<i64>(),
{
}

/// The scalar's one is the identity of its multiplication.
pub open spec fn one_is_identity<T: Scalar>() -> bool {
    forall|x: T| #[trigger] one::<T>().mul_spec(x) == x
}

/// Machine integers have such a one.
pub proof fn lemma_i64_one_is_identity()
    ensures
        one_is_identity::<i64>(),
{
    assert forall|x: i64| #[trigger] one::<i64>().mul_spec(x) == x by {
        assert(one::<i64>() == 1);
        assert(1 * x == x);
    }
}

/// At a variable with value `v`, the logarithm's derivative is 1 / v, and the
/// sine's derivative is cos v. `ln_v`, `sin_v` and `cos_v` are the host's values
/// of the logarithm, sine and cosine at `v`.
pub proof fn lemma_elementary_slopes_at_a_variable<T: Scalar>(v: T, ln_v: T, sin_v: T, cos_v: T)
    requires
        one_is_identity::<T>(),
    ensures
        (ln_v, divided_slots(variable_jet::<T>(1, 0, v).1, v)).1[0] == one::<T>().div_spec(v),
        chain_jet(variable_jet::<T>(1, 0, v), sin_v, cos_v).1[0] == cos_v,
{
}

/// No variable moves the dual: every slot is zero.
pub open spec fn is_constant<T: Scalar>(a: Jet<T>) -> bool {
    forall|i: int| 0 <= i < a.1.len() ==> #[trigger] a.1[i] == zero::<T>()
}

/// A constant has no derivative, and arithmetic on constants, or a function of
/// a constant, gives constants again.
pub proof fn lemma_constants_stay_constant<T: Scalar>(n: nat, a: Jet<T>, b: Jet<T>, v: T, factor: T)
    requires
        zero_absorbs::<T>(),
        is_constant(a),
        is_constant(b),
        a.1.len() == n,
        b.1.len() == n,
    ensures
        is_constant(constant_jet::<T>(n, v)),
        is_constant(sum_jet(a, b)),
        is_constant(difference_jet(a, b)),
        is_constant(product_jet(a, b)),
        quotient_defined(a, b) ==> is_constant(quotient_jet(a, b)),
        is_constant(negated_jet(a)),
        is_constant(chain_jet(a, v, factor)),
        is_constant((a.0.add_spec(v), a.1)),
        is_constant((a.0.sub_spec(v), a.1)),
        is_constant((a.0.mul_spec(v), scaled_slots(a.1, v))),
        zero::<T>().div_req(v) ==> is_constant((a.0.div_spec(v), divided_slots(a.1, v))),
        zero::<T>().div_req(a.0) ==> is_constant((v, divided_slots(a.1, a.0))),
{
    if quotient_defined(a, b) {
        assert forall|i: int| 0 <= i < n implies #[trigger] quotient_jet(a, b).1[i] == zero::<T>() by {
            assert(quotient_slot_defined(a, b, i));
        }
    }
}

/// A single-variable dual seen as a dual over one variable.
pub open spec fn single<T>(a: NaiveJet<T>) -> Jet<T> {
    (a.0, seq![a.1])
}

/// The single-variable dual computes what a dual over one variable computes:
/// seeds, arithmetic, and the composition with a function all agree.
pub proof fn lemma_naive_matches_single_variable<T: Scalar>(a: NaiveJet<T>, b: NaiveJet<T>, v: T, factor: T)
    ensures
        single((v, one::<T>())) == variable_jet::<T>(1, 0, v),
        single((v, zero::<T>())) == constant_jet::<T>(1, v),
        single(naive_sum(a, b)) == sum_jet(single(a), single(b)),
        single(naive_difference(a, b)) == difference_jet(single(a), single(b)),
        single(naive_product(a, b)) == product_jet(single(a), single(b)),
        single(naive_quotient(a, b)) == quotient_jet(single(a), single(b)),
        single(naive_negated(a)) == negated_jet(single(a)),
        single(naive_chain(a, v, factor)) == chain_jet(single(a), v, factor),
        single((v, a.1.div_spec(a.0))) == (v, divided_slots(single(a).1, a.0)),
{
    assert(single((v, one::<T>())).1 =~= variable_jet::<T>(1, 0, v).1);
    assert(single((v, zero::<T>())).1 =~= constant_jet::<T>(1, v).1);
    assert(single(naive_sum(a, b)).1 =~= sum_jet(single(a), single(b)).1);
    assert(single(naive_difference(a, b)).1 =~= difference_jet(single(a), single(b)).1);
    assert(single(naive_product(a, b)).1 =~= product_jet(single(a), single(b)).1);
    assert(single(naive_quotient(a, b)).1 =~= quotient_jet(single(a), single(b)).1);
    assert(single(naive_negated(a)).1 =~= negated_jet(single(a)).1);
    assert(single(naive_chain(a, v, factor)).1 =~= chain_jet(single(a), v, factor).1);
    assert(single((v, a.1.div_spec(a.0))).1 =~= divided_slots(single(a).1, a.0));
}

/// An expression in one variable, built from the operations that both kinds of
/// dual share. `Apply(e, f)` applies the elementary function tagged `f`, `Ln` the
/// logarithm; the host supplies their values and slopes.
pub enum Expr<T> {
    Var,
    Const(T),
    Add(Box<Expr<T>>, Box<Expr<T>>),
    Sub(Box<Expr<T>>, Box<Expr<T>>),
    Mul(Box<Expr<T>>, Box<Expr<T>>),
    Div(Box<Expr<T>>, Box<Expr<T>>),
    Neg(Box<Expr<T>>),
    AddScalar(Box<Expr<T>>, T),
    SubScalar(Box<Expr<T>>, T),
    MulScalar(Box<Expr<T>>, T),
    DivScalar(Box<Expr<T>>, T),
    Apply(Box<Expr<T>>, int),
    Ln(Box<Expr<T>>),
}

/// What a single-variable dual seeded with `NaiveDual::variable(v)` computes for `e`.
pub open spec fn eval_naive<T: Scalar>(
    e: Expr<T>,
    v: T,
    value_of: spec_fn(int, T) -> T,
    slope_of: spec_fn(int, T) -> T,
    log: spec_fn(T) -> T,
) -> NaiveJet<T>
    decreases e,
{
    match e {
        Expr::Var => (v, one::<T>()),
        Expr::Const(k) => (k, zero::<T>()),
        Expr::Add(l, r) => naive_sum(
            eval_naive(*l, v, value_of, slope_of, log),
            eval_naive(*r, v, value_of, slope_of, log),
        ),
        Expr::Sub(l, r) => naive_difference(
            eval_naive(*l, v, value_of, slope_of, log),
            eval_naive(*r, v, value_of, slope_of, log),
        ),
        Expr::Mul(l, r) => naive_product(
            eval_naive(*l, v, value_of, slope_of, log),
            eval_naive(*r, v, value_of, slope_of, log),
        ),
        Expr::Div(l, r) => naive_quotient(
            eval_naive(*l, v, value_of, slope_of, log),
            eval_naive(*r, v, value_of, slope_of, log),
        ),
        Expr::Neg(a) => naive_negated(eval_naive(*a, v, value_of, slope_of, log)),
        Expr::AddScalar(a, k) => {
            let x = eval_naive(*a, v, value_of, slope_of, log);
            (x.0.add_spec(k), x.1)
        },
        Expr::SubScalar(a, k) => {
            let x = eval_naive(*a, v, value_of, slope_of, log);
            (x.0.sub_spec(k), x.1)
        },
        Expr::MulScalar(a, k) => {
            let x = eval_naive(*a, v, value_of, slope_of, log);
            (x.0.mul_spec(k), x.1.mul_spec(k))
        },
        Expr::DivScalar(a, k) => {
            let x = eval_naive(*a, v, value_of, slope_of, log);
            (x.0.div_spec(k), x.1.div_spec(k))
        },
        Expr::Apply(a, f) => {
            let x = eval_naive(*a, v, value_of, slope_of, log);
            naive_chain(x, value_of(f, x.0), slope_of(f, x.0))
        },
        Expr::Ln(a) => {
            let x = eval_naive(*a, v, value_of, slope_of, log);
            (log(x.0), x.1.div_spec(x.0))
        },
    }
}

/// What a dual over one variable seeded with `Dual::variable(0, v)` computes for `e`.
pub open spec fn eval_single<T: Scalar>(
    e: Expr<T>,
    v: T,
    value_of: spec_fn(int, T) -> T,
    slope_of: spec_fn(int, T) -> T,
    log: spec_fn(T) -> T,
) -> Jet<T>
    decreases e,
{
    match e {
        Expr::Var => variable_jet::<T>(1, 0, v),
        Expr::Const(k) => constant_jet::<T>(1, k),
        Expr::Add(l, r) => sum_jet(
            eval_single(*l, v, value_of, slope_of, log),
            eval_single(*r, v, value_of, slope_of, log),
        ),
        Expr::Sub(l, r) => difference_jet(
            eval_single(*l, v, value_of, slope_of, log),
            eval_single(*r, v, value_of, slope_of, log),
        ),
        Expr::Mul(l, r) => product_jet(
            eval_single(*l, v, value_of, slope_of, log),
            eval_single(*r, v, value_of, slope_of, log),
        ),
        Expr::Div(l, r) => quotient_jet(
            eval_single(*l, v, value_of, slope_of, log),
            eval_single(*r, v, value_of, slope_of, log),
        ),
        Expr::Neg(a) => negated_jet(eval_single(*a, v, value_of, slope_of, log)),
        Expr::AddScalar(a, k) => {
            let x = eval_single(*a, v, value_of, slope_of, log);
            (x.0.add_spec(k), x.1)
        },
        Expr::SubScalar(a, k) => {
            let x = eval_single(*a, v, value_of, slope_of, log);
            (x.0.sub_spec(k), x.1)
        },
        Expr::MulScalar(a, k) => {
            let x = eval_single(*a, v, value_of, slope_of, log);
            (x.0.mul_spec(k), scaled_slots(x.1, k))
        },
        Expr::DivScalar(a, k) => {
            let x = eval_single(*a, v, value_of, slope_of, log);
            (x.0.div_spec(k), divided_slots(x.1, k))
        },
        Expr::Apply(a, f) => {
            let x = eval_single(*a, v, value_of, slope_of, log);
            chain_jet(x, value_of(f, x.0), slope_of(f, x.0))
        },
        Expr::Ln(a) => {
            let x = eval_single(*a, v, value_of, slope_of, log);
            (log(x.0), divided_slots(x.1, x.0))
        },
    }
}

/// Any expression of the shared operations gives the same value and the same
/// derivative on a single-variable dual as on a dual over one variable.
pub proof fn lemma_naive_matches_single_variable_on_expressions<T: Scalar>(
    e: Expr<T>,
    v: T,
    value_of: spec_fn(int, T) -> T,
    slope_of: spec_fn(int, T) -> T,
    log: spec_fn(T) -> T,
)
    ensures
        single(eval_naive(e, v, value_of, slope_of, log)) == eval_single(e, v, value_of, slope_of, log),
    decreases e,
{
    let n = eval_naive(e, v, value_of, slope_of, log);
    match e {
        Expr::Var => {
            lemma_naive_matches_single_variable(n, n, v, v);
        },
        Expr::Const(k) => {
            lemma_naive_matches_single_variable(n, n, k, k);
        },
        Expr::Add(l, r) | Expr::Sub(l, r) | Expr::Mul(l, r) | Expr::Div(l, r) => {
            lemma_naive_matches_single_variable_on_expressions(*l, v, value_of, slope_of, log);
            lemma_naive_matches_single_variable_on_expressions(*r, v, value_of, slope_of, log);
            lemma_naive_matches_single_variable(
                eval_naive(*l, v, value_of, slope_of, log),
                eval_naive(*r, v, value_of, slope_of, log),
                v,
                v,
            );
        },
        Expr::Neg(a) | Expr::Ln(a) => {
            lemma_naive_matches_single_variable_on_expressions(*a, v, value_of, slope_of, log);
            let x = eval_naive(*a, v, value_of, slope_of, log);
            lemma_naive_matches_single_variable(x, x, log(x.0), v);
        },
        Expr::AddScalar(a, k) | Expr::SubScalar(a, k) => {
            lemma_naive_matches_single_variable_on_expressions(*a, v, value_of, slope_of, log);
        },
        Expr::MulScalar(a, k) => {
            lemma_naive_matches_single_variable_on_expressions(*a, v, value_of, slope_of, log);
            let x = eval_naive(*a, v, value_of, slope_of, log);
            lemma_naive_matches_single_variable(x, x, k, k);
            assert(single(n).1 =~= scaled_slots(single(x).1, k));
        },
        Expr::DivScalar(a, k) => {
            lemma_naive_matches_single_variable_on_expressions(*a, v, value_of, slope_of, log);
            let x = eval_naive(*a, v, value_of, slope_of, log);
            assert(single(n).1 =~= divided_slots(single(x).1, k));
        },
        Expr::Apply(a, f) => {
            lemma_naive_matches_single_variable_on_expressions(*a, v, value_of, slope_of, log);
            let x = eval_naive(*a, v, value_of, slope_of, log);
            lemma_naive_matches_single_variable(x, x, value_of(f, x.0), slope_of(f, x.0));
        },
    }
}

} // verus!
