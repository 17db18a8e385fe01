use forward_mode::reverse::{primal_with_tape, reverse_from_tape};

#[test]
fn trig_branch_is_used_when_x_greater_than_y() {
    let x: f64 = 2.0;
    let y: f64 = 1.0;
    let (value, tape) = primal_with_tape(x, y, x.sin(), x.cos());
    assert!((value - (x * y + x.sin())).abs() < 1e-12);

    let (dx, dy) = reverse_from_tape(&tape, 1.0, y);
    assert!((dx - (y + x.cos())).abs() < 1e-12);
    assert!((dy - x).abs() < 1e-12);
}

#[test]
fn trig_branch_skipped_when_x_not_greater_than_y() {
    let x: f64 = 0.5;
    let y: f64 = 1.0;
    let (value, tape) = primal_with_tape(x, y, x.sin(), x.cos());
    assert!((value - x * y).abs() < 1e-12);

    let (dx, dy) = reverse_from_tape(&tape, 1.0, y);
    assert!((dx - y).abs() < 1e-12);
    assert!((dy - x).abs() < 1e-12);
}

#[test]
fn reverse_pass_scales_by_seed() {
    let (_, tape) = primal_with_tape(3i64, 2i64, 5, 7);
    assert_eq!(reverse_from_tape(&tape, 2, 2), (2 * 2 + 2 * 7, 2 * 3));
    let (value, tape) = primal_with_tape(1i64, 2i64, 5, 7);
    assert_eq!(value, 2);
    assert_eq!(reverse_from_tape(&tape, 3, 2), (6, 3));
}
