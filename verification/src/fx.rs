//! Signed 64-bit fixed-point arithmetic in micro-units: an `i64` value `v`
//! stands for the real number `v / 1_000_000`. All camera state is kept in
//! this encoding. Results are truncated toward zero and saturate at the
//! representable bound `FX_MAX`, so every operation is total.

use vstd::prelude::*;
use vstd::arithmetic::div_mod::{
    lemma_fundamental_div_mod, lemma_fundamental_div_mod_converse, lemma_div_is_ordered,
    lemma_div_multiples_vanish, lemma_div_pos_is_pos,
};
use vstd::arithmetic::mul::{
    lemma_mul_nonnegative, lemma_mul_inequality, lemma_mul_is_commutative,
};

verus! {

/// One whole unit: the fixed-point encoding of `1.0`.
pub const FX_ONE: i64 = 1_000_000;

/// Largest magnitude a fixed-point value may take (one billion whole units).
/// Operations clamp to `[-FX_MAX, FX_MAX]` instead of overflowing.
pub const FX_MAX: i64 = 1_000_000_000_000_000;

/// A value lies in the representable fixed-point range.
pub open spec fn fx_valid(x: int) -> bool {
    -FX_MAX <= x <= FX_MAX
}

/// Clamp a mathematical value to the representable range.
pub open spec fn fx_sat(x: int) -> int {
    if x > FX_MAX {
        FX_MAX as int
    } else if x < -FX_MAX {
        -FX_MAX as int
    } else {
        x
    }
}

/// Division truncated toward zero (for a positive divisor), as machine
/// division computes it. Spec-level `/` rounds toward negative infinity,
/// which is not what the executable code does on negative numerators.
pub open spec fn div_trunc(a: int, b: int) -> int {
    if a >= 0 {
        a / b
    } else {
        -((-a) / b)
    }
}

/// Fixed-point product: the wide product scaled back down by `FX_ONE`,
/// truncated toward zero, clamped to the representable range.
pub open spec fn fx_mul_s(a: int, b: int) -> int {
    fx_sat(div_trunc(a * b, FX_ONE as int))
}

/// Fixed-point sum, clamped to the representable range.
pub open spec fn fx_add_s(a: int, b: int) -> int {
    fx_sat(a + b)
}

/// Linear interpolation `start + (end - start) * t` in fixed point.
/// `t` is not clamped to `[0, FX_ONE]`: a large `t` overshoots `end`.
pub open spec fn fx_lerp_s(start: int, end: int, t: int) -> int {
    fx_add_s(start, fx_mul_s(end - start, t))
}

/// Clamp to the representable range.
pub fn fx_saturate(x: i64) -> (r: i64)
    ensures
        r == fx_sat(x as int),
        fx_valid(r as int),
{
    if x > FX_MAX {
        FX_MAX
    } else if x < -FX_MAX {
        -FX_MAX
    } else {
        x
    }
}

/// Saturating fixed-point addition.
pub fn fx_add_sat(a: i64, b: i64) -> (r: i64)
    requires
        -2 * FX_MAX <= a <= 2 * FX_MAX,
        -2 * FX_MAX <= b <= 2 * FX_MAX,
    ensures
        r == fx_add_s(a as int, b as int),
        fx_valid(r as int),
{
    fx_saturate(a + b)
}

/// Saturating fixed-point multiplication: computes `a * b / FX_ONE` with a
/// 128-bit intermediate, truncating toward zero.
pub fn fx_mul(a: i64, b: i64) -> (r: i64)
    requires
        -2 * FX_MAX <= a <= 2 * FX_MAX,
        -2 * FX_MAX <= b <= 2 * FX_MAX,
    ensures
        r == fx_mul_s(a as int, b as int),
        fx_valid(r as int),
{
    let negative = (a < 0) != (b < 0);
    let am: u64 = if a < 0 { (-a) as u64 } else { a as u64 };
    let bm: u64 = if b < 0 { (-b) as u64 } else { b as u64 };
    proof {
        assert(am == if a >= 0 { a as int } else { -(a as int) });
        assert(bm == if b >= 0 { b as int } else { -(b as int) });
        assert((am as int) * (bm as int) == if negative { -((a as int) * (b as int)) } else { (a as int) * (b as int) }) by (nonlinear_arith)
            requires
                am == if a >= 0 { a as int } else { -(a as int) },
                bm == if b >= 0 { b as int } else { -(b as int) },
                negative == ((a < 0) != (b < 0));
        assert((am as int) * (bm as int) <= 4_000_000_000_000_000_000_000_000_000_000int) by (nonlinear_arith)
            requires
                am <= 2 * FX_MAX,
                bm <= 2 * FX_MAX;
    }
    let p: u128 = (am as u128) * (bm as u128);
    let q: u128 = p / (FX_ONE as u128);
    let m: i64 = if q > (FX_MAX as u128) {
        FX_MAX
    } else {
        q as i64
    };
    proof {
        let prod = (a as int) * (b as int);
        if negative {
            assert(prod <= 0);
            assert(div_trunc(prod, FX_ONE as int) == -(q as int));
            assert(fx_sat(div_trunc(prod, FX_ONE as int)) == -(m as int));
        } else {
            assert(prod >= 0);
            assert(div_trunc(prod, FX_ONE as int) == q as int);
            assert(fx_sat(div_trunc(prod, FX_ONE as int)) == m as int);
        }
    }
    if negative {
        -m
    } else {
        m
    }
}

/// Linear interpolation `start + (end - start) * t` in fixed point, where
/// `t == FX_ONE` means "all the way to `end`". `t` is not clamped: a value
/// above `FX_ONE` overshoots `end`.
pub fn lerp(start: i64, end: i64, t: i64) -> (r: i64)
    requires
        fx_valid(start as int),
        fx_valid(end as int),
        fx_valid(t as int),
    ensures
        r == fx_lerp_s(start as int, end as int, t as int),
        fx_valid(r as int),
{
    let d = end - start;
    let m = fx_mul(d, t);
    fx_add_sat(start, m)
}

/// Law: for a smoothing factor between `0` and `FX_ONE`, interpolation never
/// overshoots: the result lies between `start` and `end`. Over repeated
/// bounded steps the interpolated value therefore approaches its target
/// monotonically, without oscillation.
pub proof fn lemma_lerp_converges(start: int, end: int, t: int)
    requires
        fx_valid(start),
        fx_valid(end),
        0 <= t <= FX_ONE,
    ensures
        start <= end ==> start <= fx_lerp_s(start, end, t) <= end,
        end <= start ==> end <= fx_lerp_s(start, end, t) <= start,
{
    let d = end - start;
    if d >= 0 {
        lemma_mul_nonnegative(d, t);
        lemma_mul_inequality(t, FX_ONE as int, d);
        lemma_mul_is_commutative(d, t);
        lemma_mul_is_commutative(d, FX_ONE as int);
        lemma_div_is_ordered(d * t, d * (FX_ONE as int), FX_ONE as int);
        lemma_div_multiples_vanish(d, FX_ONE as int);
        lemma_div_pos_is_pos(d * t, FX_ONE as int);
        assert(0 <= div_trunc(d * t, FX_ONE as int) <= d);
    } else {
        let e = -d;
        lemma_mul_nonnegative(e, t);
        lemma_mul_inequality(t, FX_ONE as int, e);
        lemma_mul_is_commutative(e, t);
        lemma_mul_is_commutative(e, FX_ONE as int);
        lemma_div_is_ordered(e * t, e * (FX_ONE as int), FX_ONE as int);
        lemma_div_multiples_vanish(e, FX_ONE as int);
        lemma_div_pos_is_pos(e * t, FX_ONE as int);
        assert(d * t == -(e * t)) by (nonlinear_arith)
            requires
                d == -e,
        ;
        assert(d <= div_trunc(d * t, FX_ONE as int) <= 0);
    }
}

/// Fixed-point encoding of Euler's number `e`.
pub const FX_E: i64 = 2_718_282;

/// Fixed-point encoding of `1 / e`.
pub const FX_INV_E: i64 = 367_879;

/// Arguments at or above this value (`21.0`) saturate `exp_fx` to `FX_MAX`:
/// `e^21` exceeds one billion whole units.
pub const EXP_ARG_MAX: i64 = 21_000_000;

/// Arguments below this value (`-15.0`) underflow `exp_fx` to `0`: `e^-15`
/// is smaller than one micro-unit.
pub const EXP_ARG_MIN: i64 = -15_000_000;

/// Scale a nonnegative wide product back down by one unit, truncating.
pub open spec fn fx_scale(x: int) -> int {
    x / (FX_ONE as int)
}

/// `e^k` for a whole exponent `k >= 0`: repeated fixed-point multiplication
/// by `FX_E`, saturating at `FX_MAX`.
pub open spec fn exp_grow_s(k: nat) -> int
    decreases k,
{
    if k == 0 {
        FX_ONE as int
    } else {
        fx_sat(fx_scale(exp_grow_s((k - 1) as nat) * FX_E))
    }
}

/// `e^-k` for a whole exponent `k >= 0`: repeated fixed-point multiplication
/// by `FX_INV_E`.
pub open spec fn exp_decay_s(k: nat) -> int
    decreases k,
{
    if k == 0 {
        FX_ONE as int
    } else {
        fx_scale(exp_decay_s((k - 1) as nat) * FX_INV_E)
    }
}

/// Degree-six Taylor polynomial of `e^f`, evaluated by Horner's rule in
/// fixed point, for a fractional argument `0 <= f < FX_ONE`.
pub open spec fn exp_poly_s(f: int) -> int {
    let p5 = 8_333 + fx_scale(f * 1_389);
    let p4 = 41_667 + fx_scale(f * p5);
    let p3 = 166_667 + fx_scale(f * p4);
    let p2 = 500_000 + fx_scale(f * p3);
    let p1 = (FX_ONE as int) + fx_scale(f * p2);
    (FX_ONE as int) + fx_scale(f * p1)
}

/// What `exp_fx` returns: the whole-exponent factor times the Taylor
/// polynomial of the fractional part, clamped to the representable range.
pub open spec fn exp_fx_s(x: int) -> int {
    if x >= EXP_ARG_MAX {
        FX_MAX as int
    } else if x < EXP_ARG_MIN {
        0
    } else {
        let k = x / (FX_ONE as int);
        let f = x % (FX_ONE as int);
        let base = if k >= 0 {
            exp_grow_s(k as nat)
        } else {
            exp_decay_s((-k) as nat)
        };
        fx_sat(fx_scale(base * exp_poly_s(f)))
    }
}

/// Split `x` into whole exponent and nonnegative fraction by floor division:
/// `x == k * FX_ONE + f` with `0 <= f < FX_ONE`.
fn fx_floor_split(x: i64) -> (kf: (i64, i64))
    requires
        EXP_ARG_MIN <= x < EXP_ARG_MAX,
    ensures
        kf.0 == (x as int) / (FX_ONE as int),
        kf.1 == (x as int) % (FX_ONE as int),
{
    if x >= 0 {
        let xu: u64 = x as u64;
        let k: u64 = xu / 1_000_000;
        let f: u64 = xu % 1_000_000;
        ((k as i64), (f as i64))
    } else {
        let xp: u64 = (-x) as u64;
        let kq: u64 = xp / 1_000_000;
        let rem: u64 = xp % 1_000_000;
        proof {
            lemma_fundamental_div_mod(xp as int, 1_000_000);
        }
        if rem == 0 {
            proof {
                lemma_fundamental_div_mod_converse(x as int, 1_000_000, -(kq as int), 0);
            }
            ((-(kq as i64)), 0)
        } else {
            proof {
                lemma_fundamental_div_mod_converse(
                    x as int,
                    1_000_000,
                    -(kq as int) - 1,
                    1_000_000 - (rem as int),
                );
            }
            ((-(kq as i64) - 1), (1_000_000 - (rem as i64)))
        }
    }
}

/// Taylor polynomial of `e^f` for the fractional part, `0 <= f < FX_ONE`.
fn exp_poly(f: i64) -> (r: i64)
    requires
        0 <= f < FX_ONE,
    ensures
        r == exp_poly_s(f as int),
        0 <= r <= 2_800_000,
{
    let fu: u64 = f as u64;
    let p5: u64 = 8_333 + fu * 1_389 / 1_000_000;
    assert(p5 <= 9_722);
    assert(fu * p5 <= 9_722_000_000) by (nonlinear_arith)
        requires
            fu <= 1_000_000,
            p5 <= 9_722,
    ;
    let p4: u64 = 41_667 + fu * p5 / 1_000_000;
    assert(p4 <= 51_389);
    assert(fu * p4 <= 51_389_000_000) by (nonlinear_arith)
        requires
            fu <= 1_000_000,
            p4 <= 51_389,
    ;
    let p3: u64 = 166_667 + fu * p4 / 1_000_000;
    assert(p3 <= 218_056);
    assert(fu * p3 <= 218_056_000_000) by (nonlinear_arith)
        requires
            fu <= 1_000_000,
            p3 <= 218_056,
    ;
    let p2: u64 = 500_000 + fu * p3 / 1_000_000;
    assert(p2 <= 718_056);
    assert(fu * p2 <= 718_056_000_000) by (nonlinear_arith)
        requires
            fu <= 1_000_000,
            p2 <= 718_056,
    ;
    let p1: u64 = 1_000_000 + fu * p2 / 1_000_000;
    assert(p1 <= 1_718_056);
    assert(fu * p1 <= 1_718_056_000_000) by (nonlinear_arith)
        requires
            fu <= 1_000_000,
            p1 <= 1_718_056,
    ;
    let r: u64 = 1_000_000 + fu * p1 / 1_000_000;
    r as i64
}

/// Fixed-point `e^x`, truncated toward zero: the zoom-dependent factor for
/// pan speed. Saturates to `FX_MAX` at `EXP_ARG_MAX` and above, and
/// underflows to `0` below `EXP_ARG_MIN`.
pub fn exp_fx(x: i64) -> (r: i64)
    ensures
        r == exp_fx_s(x as int),
        0 <= r <= FX_MAX,
{
    if x >= EXP_ARG_MAX {
        FX_MAX
    } else if x < EXP_ARG_MIN {
        0
    } else {
        let kf = fx_floor_split(x);
        let k: i64 = kf.0;
        let f: i64 = kf.1;
        proof {
            lemma_div_is_ordered(x as int, 20_999_999, 1_000_000);
            lemma_div_is_ordered(-15_000_000, x as int, 1_000_000);
            lemma_fundamental_div_mod(x as int, 1_000_000);
        }
        let base: u64 = if k >= 0 {
            let mut acc: u64 = 1_000_000;
            let mut i: i64 = 0;
            while i < k
                invariant
                    0 <= i <= k <= 20,
                    acc == exp_grow_s(i as nat),
                    0 <= acc <= FX_MAX,
                decreases k - i,
            {
                proof {
                    assert((acc as int) * (FX_E as int) <= 2_718_282_000_000_000_000_000int)
                        by (nonlinear_arith)
                        requires
                            0 <= acc <= 1_000_000_000_000_000int,
                            FX_E == 2_718_282int,
                    ;
                    assert((acc as int) * (FX_E as int) >= 0) by (nonlinear_arith)
                        requires
                            0 <= acc,
                            FX_E == 2_718_282int,
                    ;
                }
                let wide: u128 = (acc as u128) * (FX_E as u128);
                let q: u128 = wide / 1_000_000;
                acc = if q > (FX_MAX as u128) {
                    FX_MAX as u64
                } else {
                    q as u64
                };
                i = i + 1;
            }
            acc
        } else {
            let kneg: i64 = -k;
            let mut acc: u64 = 1_000_000;
            let mut i: i64 = 0;
            while i < kneg
                invariant
                    0 <= i <= kneg <= 15,
                    acc == exp_decay_s(i as nat),
                    0 <= acc <= FX_ONE,
                decreases kneg - i,
            {
                proof {
                    assert(0 <= (acc as int) * (FX_INV_E as int) <= (acc as int) * 1_000_000)
                        by (nonlinear_arith)
                        requires
                            0 <= acc,
                            FX_INV_E == 367_879int,
                    ;
                }
                let wide: u64 = acc * (FX_INV_E as u64);
                let q: u64 = wide / 1_000_000;
                proof {
                    lemma_div_is_ordered(wide as int, (acc as int) * 1_000_000, 1_000_000);
                    lemma_div_multiples_vanish(acc as int, 1_000_000);
                    lemma_div_pos_is_pos(wide as int, 1_000_000);
                }
                acc = q;
                i = i + 1;
            }
            acc
        };
        let poly: i64 = exp_poly(f);
        assert((base as int) * (poly as int) <= 2_800_000_000_000_000_000_000int) by (nonlinear_arith)
            requires
                0 <= base <= FX_MAX,
                0 <= poly <= 2_800_000,
        ;
        assert((base as int) * (poly as int) >= 0) by (nonlinear_arith)
            requires
                0 <= base,
                0 <= poly,
        ;
        let wide: u128 = (base as u128) * (poly as u128);
        let q: u128 = wide / 1_000_000;
        let r: i64 = if q > (FX_MAX as u128) {
            FX_MAX
        } else {
            q as i64
        };
        proof {
            lemma_div_pos_is_pos(wide as int, 1_000_000);
        }
        r
    }
}

} // verus!
