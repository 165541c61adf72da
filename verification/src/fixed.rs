//! Fixed-point arithmetic on the unit interval.
//!
//! A component (a color channel, a saturation, a value) is a `u64` counting
//! millionths: `0` stands for `0.0` and [`UNIT`] for `1.0`. A hue is a `u64`
//! counting millionths of a degree, below `360 * UNIT`. Every derivation in
//! the crate works on these integers, so each step has an exact statement.

use vstd::prelude::*;
use vstd::arithmetic::div_mod::{
    lemma_div_is_ordered, lemma_div_multiples_vanish_fancy, lemma_fundamental_div_mod,
    lemma_mod_bound,
};
use vstd::arithmetic::mul::lemma_mul_inequality;

verus! {

/// One whole unit: the fixed-point image of `1.0`.
pub const UNIT: u64 = 1_000_000;

/// The fixed-point image of 360 degrees; hues live in `[0, HUE_SPAN)`.
pub const HUE_SPAN: u64 = 360_000_000;

/// The fixed-point image of 60 degrees, the width of one hue sector.
pub const SIXTY_DEG: u64 = 60_000_000;

/// Division rounded to the nearest integer, halves rounding up.
pub open spec fn rdiv(n: int, d: int) -> int {
    (2 * n + d) / (2 * d)
}

/// `min` over the fixed-point integers.
pub open spec fn spec_min(a: int, b: int) -> int {
    if a <= b {
        a
    } else {
        b
    }
}

/// `rdiv` of nonnegative arguments is nonnegative.
pub proof fn lemma_rdiv_nonneg(n: int, d: int)
    requires
        n >= 0,
        d > 0,
    ensures
        rdiv(n, d) >= 0,
{
    lemma_div_is_ordered(0, 2 * n + d, 2 * d);
}

/// The rounded quotient is within half a divisor of the true ratio:
/// `-d < 2 * d * rdiv(n, d) - 2 * n <= d`.
pub proof fn lemma_rdiv_close(n: int, d: int)
    requires
        d > 0,
    ensures
        -d < 2 * d * rdiv(n, d) - 2 * n <= d,
{
    let x = 2 * n + d;
    lemma_fundamental_div_mod(x, 2 * d);
    lemma_mod_bound(x, 2 * d);
    assert(x == 2 * d * (x / (2 * d)) + x % (2 * d));
}

/// `rdiv` is monotone in the numerator.
pub proof fn lemma_rdiv_mono(n1: int, n2: int, d: int)
    requires
        n1 <= n2,
        d > 0,
    ensures
        rdiv(n1, d) <= rdiv(n2, d),
{
    lemma_div_is_ordered(2 * n1 + d, 2 * n2 + d, 2 * d);
}

/// `rdiv` recovers an exact multiple: `rdiv(k * d, d) == k`.
pub proof fn lemma_rdiv_exact(k: int, d: int)
    requires
        d > 0,
    ensures
        rdiv(k * d, d) == k,
{
    assert(2 * (k * d) + d == (2 * d) * k + d) by (nonlinear_arith);
    lemma_div_multiples_vanish_fancy(k, d, 2 * d);
}

/// Scaling a fraction of the divisor stays within the factor:
/// `a <= d` gives `rdiv(a * k, d) <= k`.
pub proof fn lemma_rdiv_factor_le(a: int, k: int, d: int)
    requires
        0 <= a <= d,
        k >= 0,
        d > 0,
    ensures
        rdiv(a * k, d) <= k,
{
    lemma_mul_inequality(a, d, k);
    lemma_rdiv_mono(a * k, d * k, d);
    lemma_rdiv_exact(k, d);
    assert(d * k == k * d) by (nonlinear_arith);
}

/// A ratio of at least one half rounds up to at least one.
pub proof fn lemma_rdiv_pos(n: int, d: int)
    requires
        d > 0,
        2 * n >= d,
    ensures
        rdiv(n, d) >= 1,
{
    lemma_div_is_ordered(2 * d, 2 * n + d, 2 * d);
    lemma_div_multiples_vanish_fancy(1, 0, 2 * d);
    assert((2 * d) * 1 + 0 == 2 * d);
}

/// Rounding to 256 steps and back is lossless: a byte maps to the
/// fixed-point channel `rdiv(b * UNIT, 255)` and that channel maps back to
/// the same byte.
pub proof fn lemma_channel_byte_round_trip(b: int)
    requires
        0 <= b <= 255,
    ensures
        rdiv(rdiv(b * (UNIT as int), 255) * 255, UNIT as int) == b,
{
    let u = UNIT as int;
    let c = rdiv(b * u, 255);
    lemma_rdiv_close(b * u, 255);
    lemma_rdiv_nonneg(b * u, 255);
    let s = 2 * (c * 255) + u - 2 * (b * u);
    assert(2 * (c * 255) == 2 * 255 * c) by (nonlinear_arith);
    assert(0 < s < 2 * u);
    assert(2 * (c * 255) + u == (2 * u) * b + s) by (nonlinear_arith)
        requires
            s == 2 * (c * 255) + u - 2 * (b * u),
            u == UNIT,
    ;
    lemma_div_multiples_vanish_fancy(b, s, 2 * u);
}

/// Executable rounded division, equal to [`rdiv`] on its arguments.
pub fn round_div(n: u64, d: u64) -> (q: u64)
    requires
        0 < d <= 0x4000_0000_0000_0000,
        n < 0x4000_0000_0000_0000,
    ensures
        q == rdiv(n as int, d as int),
{
    (2 * n + d) / (2 * d)
}

} // verus!
