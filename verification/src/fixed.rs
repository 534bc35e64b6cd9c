//! Fixed-point scalar arithmetic.
//!
//! Every world-space quantity in this crate (coordinates, axis values, tile
//! sizes, trigonometric components) is an `i64` count of thousandths of a
//! unit: the value `1.5` is stored as `1500`. Multiplication of two such
//! values therefore divides the raw product by [`FX_ONE`], rounding toward
//! zero, and all contracts are stated over that exact integer semantics.

use vstd::prelude::*;

verus! {

use vstd::math::abs;
use vstd::math::max;
use vstd::math::min;
use vstd::arithmetic::div_mod::lemma_div_is_ordered;
use vstd::arithmetic::div_mod::lemma_div_multiples_vanish;
use vstd::arithmetic::div_mod::lemma_div_nonincreasing;
use vstd::arithmetic::div_mod::lemma_div_pos_is_pos;
use vstd::arithmetic::div_mod::lemma_fundamental_div_mod;
use vstd::arithmetic::div_mod::lemma_fundamental_div_mod_converse;
use vstd::arithmetic::div_mod::lemma_mod_bound;
use vstd::arithmetic::mul::lemma_mul_increases;

/// One world-space unit in fixed-point representation.
pub const FX_ONE: i64 = 1000;

/// Largest magnitude a world-space coordinate (a translation component, a
/// camera border) may take; keeps every intermediate product inside `i64`.
pub const COORD_LIMIT: i64 = 0x100_0000_0000;

/// Largest tile size the grid configuration accepts.
pub const TILE_LIMIT: i64 = 0x10_0000;

/// Largest tangent-of-half-field-of-view a camera may carry.
pub const TAN_LIMIT: i64 = 64_000;

/// Largest magnitude of a ray direction component produced by a screen ray:
/// two frustum terms of at most [`TAN_LIMIT`] plus a basis component of at
/// most [`FX_ONE`].
pub const DIR_LIMIT: i64 = 2 * TAN_LIMIT + FX_ONE;

/// Largest magnitude of a ground-plane hit coordinate: the ray origin plus
/// the truncated quotient, whose magnitude is at most the raw product of an
/// origin component and a direction component.
pub const HIT_LIMIT: i64 = COORD_LIMIT + COORD_LIMIT * DIR_LIMIT;

/// Largest screen dimension, and largest mouse coordinate, in pixels.
pub const SCREEN_LIMIT: i64 = 0x10_0000;

/// Largest movement-speed factor the camera configuration accepts.
pub const FACTOR_LIMIT: i64 = 0x10_0000;

/// Largest per-tick elapsed time, in fixed-point seconds.
pub const DELTA_LIMIT: i64 = 0x10_0000;

/// `v` lies within `[-lim, lim]`.
pub open spec fn fits(v: int, lim: int) -> bool {
    -lim <= v <= lim
}

/// Division rounding toward zero, the semantics of hardware division.
/// Stated via Euclidean division of the magnitudes, which agrees with
/// mathematical division on non-negative operands.
pub open spec fn div_trunc_s(a: int, b: int) -> int
    recommends
        b != 0,
{
    let q = abs(a) as int / abs(b) as int;
    if (a < 0) == (b < 0) {
        q
    } else {
        -q
    }
}

/// The fixed-point product: the raw product scaled back down by [`FX_ONE`],
/// rounding toward zero.
pub open spec fn fx_mul_s(a: int, b: int) -> int {
    div_trunc_s(a * b, FX_ONE as int)
}

/// Closed-interval clamping, `min(max(v, lo), hi)`; never wraps, and yields
/// `hi` when the interval is empty.
pub open spec fn clamp_s(v: int, lo: int, hi: int) -> int {
    min(max(v, lo), hi)
}

/// The magnitude of a truncating quotient never exceeds `k` once the
/// dividend is bounded by `k` times the divisor.
pub proof fn lemma_div_trunc_bound(a: int, b: int, k: int)
    requires
        b != 0,
        0 <= k,
        abs(a) <= k * abs(b),
    ensures
        abs(div_trunc_s(a, b)) <= k,
{
    let ua = abs(a) as int;
    let ub = abs(b) as int;
    lemma_div_pos_is_pos(ua, ub);
    lemma_div_is_ordered(ua, k * ub, ub);
    lemma_div_multiples_vanish(k, ub);
    assert(ub * k == k * ub);
}

/// The magnitude of a product is bounded by the product of the bounds.
pub proof fn lemma_mul_abs_bound(a: int, b: int, ka: int, kb: int)
    requires
        abs(a) <= ka,
        abs(b) <= kb,
    ensures
        abs(a * b) <= ka * kb,
{
    assert(abs(a * b) <= ka * kb) by (nonlinear_arith)
        requires
            abs(a) <= ka,
            abs(b) <= kb,
    ;
}

/// Absolute value; the minimum `i64` is excluded because its magnitude has
/// no `i64` representation.
pub fn abs64(a: i64) -> (r: i64)
    requires
        a != i64::MIN,
    ensures
        r == abs(a as int),
{
    if a < 0 {
        -a
    } else {
        a
    }
}

/// Truncating division on `i64`, computed through the magnitudes.
pub fn div_trunc(a: i64, b: i64) -> (q: i64)
    requires
        b != 0,
        a != i64::MIN,
        b != i64::MIN,
    ensures
        q == div_trunc_s(a as int, b as int),
        abs(q as int) <= abs(a as int),
{
    let ua: u64 = if a < 0 {
        (-a) as u64
    } else {
        a as u64
    };
    let ub: u64 = if b < 0 {
        (-b) as u64
    } else {
        b as u64
    };
    let uq: u64 = ua / ub;
    proof {
        lemma_div_nonincreasing(ua as int, ub as int);
        lemma_div_pos_is_pos(ua as int, ub as int);
    }
    if (a < 0) != (b < 0) {
        -(uq as i64)
    } else {
        uq as i64
    }
}

/// Flooring division on `i64` for a positive divisor, the Euclidean
/// semantics of `/` on `int` in specifications.
pub fn div_floor(a: i64, b: i64) -> (q: i64)
    requires
        0 < b,
        a != i64::MIN,
    ensures
        q == a as int / b as int,
{
    if a >= 0 {
        let uq: u64 = (a as u64) / (b as u64);
        proof {
            lemma_div_nonincreasing(a as int, b as int);
            lemma_div_pos_is_pos(a as int, b as int);
        }
        uq as i64
    } else {
        let ua: u64 = (-a) as u64;
        let ub: u64 = b as u64;
        let num: u64 = ua + ub - 1;
        let uq: u64 = num / ub;
        proof {
            let n = num as int;
            let d = ub as int;
            lemma_fundamental_div_mod(n, d);
            lemma_mod_bound(n, d);
            let q0 = n / d;
            let r0 = n % d;
            assert(a as int == (-q0) * d + (d - 1 - r0)) by {
                assert(n == d * q0 + r0);
                assert((-q0) * d == -(d * q0)) by (nonlinear_arith);
            }
            lemma_fundamental_div_mod_converse(a as int, d, -q0, d - 1 - r0);
            // The quotient magnitude stays below `i64::MIN`'s magnitude.
            lemma_mul_increases(d, ua as int);
            lemma_div_is_ordered(n, ua as int * d + (d - 1), d);
            assert((ua as int * d + (d - 1)) / d == ua as int) by {
                lemma_fundamental_div_mod_converse(
                    ua as int * d + (d - 1),
                    d,
                    ua as int,
                    d - 1,
                );
            }
            lemma_div_pos_is_pos(n, d);
        }
        -(uq as i64)
    }
}

/// Fixed-point multiplication; the bound on the raw product keeps it inside
/// `i64`.
pub fn fx_mul(a: i64, b: i64) -> (r: i64)
    requires
        fits(a * b, 0x2000_0000_0000_0000),
    ensures
        r == fx_mul_s(a as int, b as int),
{
    let p: i64 = a * b;
    div_trunc(p, FX_ONE)
}

/// Closed-interval clamping on `i64`.
pub fn clamp64(v: i64, lo: i64, hi: i64) -> (r: i64)
    ensures
        r == clamp_s(v as int, lo as int, hi as int),
{
    let m: i64 = if v >= lo {
        v
    } else {
        lo
    };
    if m <= hi {
        m
    } else {
        hi
    }
}

} // verus!
