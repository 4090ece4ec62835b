use camera_core::fx::{
    exp_fx, fx_add_sat, fx_mul, fx_saturate, lerp, EXP_ARG_MAX, EXP_ARG_MIN, FX_MAX, FX_ONE,
};

#[test]
fn lerp_hits_exact_fractions() {
    assert_eq!(lerp(0, FX_ONE, 500_000), 500_000);
    assert_eq!(lerp(0, FX_ONE, FX_ONE), FX_ONE);
    assert_eq!(lerp(0, FX_ONE, 0), 0);
    assert_eq!(lerp(200_000, 100_000, 250_000), 175_000);
    assert_eq!(lerp(-FX_ONE, FX_ONE, 500_000), 0);
}

#[test]
fn lerp_of_equal_endpoints_is_fixed() {
    assert_eq!(lerp(42, 42, 999_999), 42);
    assert_eq!(lerp(-7, -7, 0), -7);
}

#[test]
fn lerp_truncates_toward_zero() {
    // 3 * 0.5 = 1.5 micro-units, truncated to 1
    assert_eq!(lerp(0, 3, 500_000), 1);
    assert_eq!(lerp(0, -3, 500_000), -1);
}

#[test]
fn lerp_above_one_overshoots() {
    assert_eq!(lerp(0, FX_ONE, 2_000_000), 2_000_000);
}

#[test]
fn fixed_point_products_are_exact() {
    assert_eq!(fx_mul(2_000_000, 3_000_000), 6_000_000);
    assert_eq!(fx_mul(-2_000_000, 3_000_000), -6_000_000);
    assert_eq!(fx_mul(-2_000_000, -3_000_000), 6_000_000);
    assert_eq!(fx_mul(FX_ONE, 123_456), 123_456);
    // truncation is toward zero on both sides
    assert_eq!(fx_mul(1, 500_000), 0);
    assert_eq!(fx_mul(-1, 500_000), 0);
}

#[test]
fn arithmetic_saturates_at_the_bound() {
    assert_eq!(fx_add_sat(FX_MAX, FX_MAX), FX_MAX);
    assert_eq!(fx_add_sat(-FX_MAX, -FX_MAX), -FX_MAX);
    assert_eq!(fx_mul(FX_MAX, 2_000_000), FX_MAX);
    assert_eq!(fx_mul(FX_MAX, -2_000_000), -FX_MAX);
    assert_eq!(fx_saturate(i64::MAX), FX_MAX);
    assert_eq!(fx_saturate(i64::MIN), -FX_MAX);
    assert_eq!(fx_saturate(123), 123);
}

#[test]
fn exp_of_whole_exponents_is_exact() {
    assert_eq!(exp_fx(0), FX_ONE);
    assert_eq!(exp_fx(-FX_ONE), 367_879);
    assert_eq!(exp_fx(FX_ONE), 2_718_282);
}

#[test]
fn exp_of_fractions_is_close() {
    // e^-0.5 = 0.606531, e^0.5 = 1.648721
    let lo = exp_fx(-500_000);
    assert!((lo - 606_531).abs() < 300, "exp(-0.5) = {lo}");
    let hi = exp_fx(500_000);
    assert!((hi - 1_648_721).abs() < 600, "exp(0.5) = {hi}");
}

#[test]
fn exp_is_monotone_and_clamps_at_the_edges() {
    assert!(exp_fx(-2_000_000) < exp_fx(-1_000_000));
    assert!(exp_fx(-1_000_000) < exp_fx(0));
    assert!(exp_fx(0) < exp_fx(1_000_000));
    assert_eq!(exp_fx(EXP_ARG_MAX), FX_MAX);
    assert_eq!(exp_fx(i64::MAX), FX_MAX);
    assert_eq!(exp_fx(EXP_ARG_MIN - 1), 0);
    assert_eq!(exp_fx(i64::MIN), 0);
}
