use minions::fixed::{abs64, clamp64, div_floor, div_trunc, fx_mul, FX_ONE};

#[test]
fn div_trunc_rounds_toward_zero() {
    assert_eq!(div_trunc(7, 2), 3);
    assert_eq!(div_trunc(-7, 2), -3);
    assert_eq!(div_trunc(7, -2), -3);
    assert_eq!(div_trunc(-7, -2), 3);
    assert_eq!(div_trunc(6, 3), 2);
    assert_eq!(div_trunc(0, 5), 0);
}

#[test]
fn div_floor_rounds_downward() {
    assert_eq!(div_floor(7, 2), 3);
    assert_eq!(div_floor(-7, 2), -4);
    assert_eq!(div_floor(-8, 2), -4);
    assert_eq!(div_floor(6, 3), 2);
    assert_eq!(div_floor(-1, 1000), -1);
    assert_eq!(div_floor(0, 1000), 0);
}

#[test]
fn fx_mul_scales_by_one_unit() {
    assert_eq!(FX_ONE, 1000);
    assert_eq!(fx_mul(1500, 2000), 3000);
    assert_eq!(fx_mul(-1500, 2000), -3000);
    assert_eq!(fx_mul(999, 1), 0);
    assert_eq!(fx_mul(-999, 1), 0);
    assert_eq!(fx_mul(1000, 1000), 1000);
}

#[test]
fn clamp_is_closed_interval() {
    assert_eq!(clamp64(5, 0, 3), 3);
    assert_eq!(clamp64(-5, 0, 3), 0);
    assert_eq!(clamp64(2, 0, 3), 2);
    assert_eq!(clamp64(0, 0, 3), 0);
    assert_eq!(clamp64(3, 0, 3), 3);
    // An inverted interval collapses to its upper argument, never wraps.
    assert_eq!(clamp64(5, 3, 1), 1);
}

#[test]
fn abs_magnitude() {
    assert_eq!(abs64(-5), 5);
    assert_eq!(abs64(5), 5);
    assert_eq!(abs64(0), 0);
}
