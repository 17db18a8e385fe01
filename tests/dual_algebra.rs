use forward_mode::dual::{variables, Dual};
use forward_mode::naive::NaiveDual;
use forward_mode::{dual_forward_pass, naive_forward_pass};

fn close(a: f64, b: f64) -> bool {
    (a - b).abs() <= 1e-9 * (1.0 + b.abs())
}

#[test]
fn variables_seed_the_standard_basis() {
    let v = [3.0, -4.5, 7.25];
    let seeds = variables(v);
    for i in 0..3 {
        assert_eq!(seeds[i].value(), v[i]);
        for j in 0..3 {
            let expected = if i == j { 1.0 } else { 0.0 };
            assert_eq!(seeds[i].derivatives()[j], expected);
        }
    }
}

#[test]
fn variable_sets_one_slot() {
    let d = Dual::<f64, 4>::variable(2, 1.5);
    assert_eq!(d.value(), 1.5);
    assert_eq!(d.derivatives(), &[0.0, 0.0, 1.0, 0.0]);
}

#[test]
fn product_rule_in_every_slot() {
    let [x, y] = variables([3.0, -2.0]);
    let a = x.mul(x).add(y);
    let b = y.mul_scalar(4.0).add_scalar(1.0);
    let p = a.mul(b);
    assert_eq!(p.value(), a.value() * b.value());
    for i in 0..2 {
        let expected = a.value() * b.derivatives()[i] + b.value() * a.derivatives()[i];
        assert!(close(p.derivatives()[i], expected));
    }
    assert_eq!(p.value(), 7.0 * -7.0);
    assert_eq!(p.derivatives(), &[6.0 * -7.0, 7.0 * 4.0 + -7.0]);
}

#[test]
fn product_rule_on_integers_is_exact() {
    let [x, y] = variables([5i64, 3i64]);
    let p = x.mul(y).mul(y);
    assert_eq!(p.value(), 45);
    assert_eq!(p.derivatives(), &[9, 30]);
}

#[test]
fn quotient_then_product_gives_back_the_dividend() {
    let [x, y] = variables([1.7, -0.3]);
    let a = x.mul(y).add_scalar(2.0);
    let b = y.mul(y).add(x);
    let back = a.div(b).mul(b);
    assert!(close(back.value(), a.value()));
    for i in 0..2 {
        assert!(close(back.derivatives()[i], a.derivatives()[i]));
    }
}

#[test]
fn quotient_rule_values() {
    let [x, y] = variables([6.0, 2.0]);
    let q = x.div(y);
    assert_eq!(q.value(), 3.0);
    assert_eq!(q.derivatives(), &[0.5, -1.5]);
    let h = x.div_scalar(4.0);
    assert_eq!(h.value(), 1.5);
    assert_eq!(h.derivatives(), &[0.25, 0.0]);
}

#[test]
fn division_by_zero_follows_the_float_rules() {
    let x = Dual::<f64, 1>::variable(0, 1.0);
    let z = Dual::<f64, 1>::constant(0.0);
    let q = x.div(z);
    assert!(q.value().is_infinite());
    assert!(q.derivatives()[0].is_infinite() || q.derivatives()[0].is_nan());
    let n = z.div(z);
    assert!(n.value().is_nan());
}

#[test]
fn sum_difference_and_negation() {
    let [x, y] = variables([1.0, 2.0]);
    let s = x.add(y);
    assert_eq!(s.value(), 3.0);
    assert_eq!(s.derivatives(), &[1.0, 1.0]);
    let d = x.sub(y);
    assert_eq!(d.value(), -1.0);
    assert_eq!(d.derivatives(), &[1.0, -1.0]);
    let k = x.sub_scalar(5.0);
    assert_eq!(k.value(), -4.0);
    assert_eq!(k.derivatives(), &[1.0, 0.0]);
    let n = y.neg();
    assert_eq!(n.value(), -2.0);
    assert_eq!(n.derivatives(), &[-0.0, -1.0]);
}

#[test]
fn logarithm_slope_is_the_reciprocal() {
    for v in [0.25, 1.0, 3.0, 100.0] {
        let x = Dual::<f64, 1>::variable(0, v);
        let l = x.ln(v.ln());
        assert_eq!(l.value(), v.ln());
        assert_eq!(l.derivatives()[0], 1.0 / v);
    }
}

#[test]
fn sine_slope_is_the_cosine() {
    for v in [-3.0, -0.5, 0.0, 1.0, 2.0, 10.0] {
        let x = Dual::<f64, 1>::variable(0, v);
        let s = x.sin(v.sin(), v.cos());
        assert_eq!(s.value(), v.sin());
        assert_eq!(s.derivatives()[0], v.cos());
    }
}

#[test]
fn other_elementary_functions() {
    let v: f64 = 0.7;
    let x = Dual::<f64, 1>::variable(0, v).mul_scalar(2.0);
    let w = x.value();
    let c = x.cos(w.cos(), w.sin());
    assert_eq!(c.derivatives()[0], 2.0 * -w.sin());
    let t = x.tan(w.tan(), w.cos());
    assert_eq!(t.value(), w.tan());
    assert_eq!(t.derivatives()[0], 2.0 * (1.0 / (w.cos() * w.cos())));
    let e = x.exp(w.exp());
    assert_eq!(e.derivatives()[0], 2.0 * w.exp());
    let r = x.sqrt(w.sqrt());
    assert_eq!(r.value(), w.sqrt());
    assert_eq!(r.derivatives()[0], 2.0 * (0.5 / w.sqrt()));
}

#[test]
fn powers_and_the_zero_exponent() {
    let x = Dual::<f64, 2>::variable(1, 3.0);
    let p = x.powi(3, 27.0, 9.0);
    assert_eq!(p.value(), 27.0);
    assert_eq!(p.derivatives(), &[0.0, 27.0]);
    let p0 = x.powi(0, 1.0, 1.0 / 3.0);
    assert_eq!(p0.value(), 1.0);
    assert_eq!(p0.derivatives(), &[0.0, 0.0]);
    let f = x.powf(0.5, 3.0f64.powf(0.5), 3.0f64.powf(-0.5));
    assert_eq!(f.derivatives()[1], 0.5 * 3.0f64.powf(-0.5));
    let f0 = x.powf(0.0, 1.0, 1.0 / 3.0);
    assert_eq!(f0.value(), 1.0);
    assert_eq!(f0.derivatives(), &[0.0, 0.0]);
}

#[test]
fn constants_have_no_derivatives() {
    for v in [-2.5, 0.0, 4.0] {
        let c = Dual::<f64, 3>::constant(v);
        assert_eq!(c.value(), v);
        assert_eq!(c.derivatives(), &[0.0, 0.0, 0.0]);
        let k = Dual::<f64, 3>::constant(1.5);
        for d in [c.add(k), c.sub(k), c.mul(k), c.div(k), c.mul_scalar(3.0), k.exp(1.5f64.exp())] {
            for s in d.derivatives() {
                assert_eq!(*s, 0.0);
            }
        }
    }
    let on = Dual::<f64, 2>::indicator(true);
    let off = Dual::<f64, 2>::indicator(false);
    assert_eq!((on.value(), off.value()), (1.0, 0.0));
    assert_eq!(on.derivatives(), &[0.0, 0.0]);
    assert_eq!(off.derivatives(), &[0.0, 0.0]);
}

fn naive_expr(x: NaiveDual<f64>) -> NaiveDual<f64> {
    let v = x.value();
    let a = x.mul(x).add_scalar(3.0);
    let b = x.sin(v.sin(), v.cos()).sub(x.mul_scalar(0.5));
    let c = a.div(b.mul(b).add_scalar(1.0));
    let w = x.mul(x).add_scalar(1.0);
    c.add(w.ln(w.value().ln())).neg().div_scalar(2.0)
}

fn single_expr(x: Dual<f64, 1>) -> Dual<f64, 1> {
    let v = x.value();
    let a = x.mul(x).add_scalar(3.0);
    let b = x.sin(v.sin(), v.cos()).sub(x.mul_scalar(0.5));
    let c = a.div(b.mul(b).add_scalar(1.0));
    let w = x.mul(x).add_scalar(1.0);
    c.add(w.ln(w.value().ln())).neg().div_scalar(2.0)
}

#[test]
fn naive_dual_matches_single_variable_dual() {
    for v in [-100.0, -1.0, 0.0, 1.0, 100.0] {
        let n = naive_expr(NaiveDual::variable(v));
        let d = single_expr(Dual::variable(0, v));
        assert_eq!(n.value().to_bits(), d.value().to_bits());
        assert_eq!(n.derivative().to_bits(), d.derivatives()[0].to_bits());
    }
}

#[test]
fn naive_dual_constructors() {
    let x = NaiveDual::<f64>::variable(2.0);
    assert_eq!((x.value(), x.derivative()), (2.0, 1.0));
    let c = NaiveDual::<f64>::constant(2.0);
    assert_eq!((c.value(), c.derivative()), (2.0, 0.0));
    let i = NaiveDual::<f64>::indicator(true);
    assert_eq!((i.value(), i.derivative()), (1.0, 0.0));
    let p = x.powi(2, 4.0, 2.0);
    assert_eq!((p.value(), p.derivative()), (4.0, 4.0));
}

#[test]
fn one_pass_gives_the_whole_gradient() {
    let (x0, y0): (f64, f64) = (2.0, 1.0);
    let r = dual_forward_pass(x0, y0, x0.sin(), x0.cos());
    assert!((r.value() - 2.9093).abs() < 1e-4);
    assert!((r.derivatives()[0] - 0.5839).abs() < 1e-4);
    assert!((r.derivatives()[1] - 2.9093).abs() < 1e-4);
    assert!(close(r.value(), x0 * y0 + x0.sin() * y0));
    assert!(close(r.derivatives()[0], y0 + x0.cos() * y0));
    assert!(close(r.derivatives()[1], x0 + x0.sin()));
}

#[test]
fn two_passes_give_one_derivative_each() {
    let (x0, y0): (f64, f64) = (2.0, 1.0);
    let (by_x, by_y) = naive_forward_pass(x0, y0, x0.sin(), x0.cos());
    assert!((by_x.value() - 2.9093).abs() < 1e-4);
    assert!((by_x.derivative() - 0.5839).abs() < 1e-4);
    assert!((by_y.value() - 2.9093).abs() < 1e-4);
    assert!((by_y.derivative() - 2.9093).abs() < 1e-4);
}

#[test]
fn many_variables_at_once() {
    let mut v = [0.0; 64];
    for (i, x) in v.iter_mut().enumerate() {
        *x = i as f64;
    }
    let seeds = variables(v);
    let mut total = Dual::<f64, 64>::constant(0.0);
    for s in seeds {
        total = total.add(s.mul(s));
    }
    assert_eq!(total.value(), (0..64).map(|i| (i * i) as f64).sum::<f64>());
    for i in 0..64 {
        assert_eq!(total.derivatives()[i], 2.0 * i as f64);
    }
}
