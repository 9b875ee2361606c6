use gjk::fx::{fx_add, fx_div, fx_half, fx_mul, fx_neg, fx_sqrt, fx_sub, FX_ONE};
use gjk::linalg::{vec3, Vec3};

fn fx(v: f64) -> i64 {
    (v * FX_ONE as f64).round() as i64
}

#[test]
fn fixed_point_products_are_exact_on_the_grid() {
    assert_eq!(fx_mul(fx(1.5), fx(2.0)), fx(3.0));
    assert_eq!(fx_mul(fx(-1.5), fx(2.0)), fx(-3.0));
    assert_eq!(fx_mul(fx(0.25), fx(0.5)), fx(0.125));
    assert_eq!(fx_mul(0, fx(123.0)), 0);
}

#[test]
fn fixed_point_multiplication_truncates_toward_zero() {
    // 1 raw unit times 1 raw unit is far below the grid: it vanishes, on
    // both sides of zero.
    assert_eq!(fx_mul(1, 1), 0);
    assert_eq!(fx_mul(-1, 1), 0);
    assert_eq!(fx_mul(3, FX_ONE / 2), 1);
    assert_eq!(fx_mul(-3, FX_ONE / 2), -1);
}

#[test]
fn arithmetic_saturates_at_the_range_ends() {
    assert_eq!(fx_add(i64::MAX, i64::MAX), i64::MAX);
    assert_eq!(fx_sub(-i64::MAX, i64::MAX), -i64::MAX);
    assert_eq!(fx_neg(i64::MIN), i64::MAX);
    assert_eq!(fx_mul(i64::MAX, i64::MAX), i64::MAX);
    assert_eq!(fx_mul(i64::MAX, -i64::MAX), -i64::MAX);
    assert_eq!(fx_div(i64::MAX, 1), i64::MAX);
}

#[test]
fn division_by_zero_yields_the_deterministic_fallback() {
    assert_eq!(fx_div(fx(5.0), 0), 0);
    assert_eq!(fx_div(0, 0), 0);
    assert_eq!(fx_div(fx(1.0), fx(4.0)), fx(0.25));
    assert_eq!(fx_div(fx(-1.0), fx(4.0)), fx(-0.25));
    assert_eq!(fx_div(fx(1.0), fx(-4.0)), fx(-0.25));
}

#[test]
fn square_roots_are_exact_integer_roots() {
    assert_eq!(fx_sqrt(fx(4.0)), fx(2.0));
    assert_eq!(fx_sqrt(fx(1.0)), fx(1.0));
    assert_eq!(fx_sqrt(0), 0);
    assert_eq!(fx_sqrt(-fx(9.0)), 0);
    // floor(sqrt(2) * 2^20)
    assert_eq!(fx_sqrt(fx(2.0)), 1482910);
}

#[test]
fn halving_truncates_toward_zero() {
    assert_eq!(fx_half(fx(3.0)), fx(1.5));
    assert_eq!(fx_half(5), 2);
    assert_eq!(fx_half(-5), -2);
}

#[test]
fn vector_algebra_matches_hand_computed_values() {
    let a = vec3(fx(3.0), fx(4.0), 0);
    assert_eq!(a.length(), fx(5.0));
    let b = vec3(fx(1.0), fx(2.0), fx(3.0));
    assert_eq!(a.dot(b), fx(11.0));
    assert_eq!(
        b.cross(vec3(fx(1.0), 0, 0)),
        vec3(0, fx(3.0), fx(-2.0))
    );
    assert_eq!(a.add(b), vec3(fx(4.0), fx(6.0), fx(3.0)));
    assert_eq!(a.sub(b), vec3(fx(2.0), fx(2.0), fx(-3.0)));
    assert_eq!(b.neg(), vec3(fx(-1.0), fx(-2.0), fx(-3.0)));
    assert_eq!(b.scale(fx(2.0)), vec3(fx(2.0), fx(4.0), fx(6.0)));
    assert_eq!(b.divide(fx(2.0)), vec3(fx(0.5), fx(1.0), fx(1.5)));
    let zero: Vec3 = vec3(0, 0, 0);
    assert_eq!(zero.length(), 0);
}
