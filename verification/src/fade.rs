//! Brightness arithmetic: percentage-to-absolute conversion and linear fade
//! sampling, all over device-native integer brightness units.

use vstd::prelude::*;

verus! {

/// `p` percent of `max`, rounded to the nearest integer (halves round up):
/// the mathematical value `round(p/100 * max)`.
pub open spec fn rounded_percent_of(p: int, max: int) -> int {
    (p * max + 50) / 100
}

/// Absolute target brightness for a percentage of a device's maximum.
pub fn target_brightness(p: u8, max: u32) -> (r: u32)
    requires
        p <= 100,
    ensures
        r == rounded_percent_of(p as int, max as int),
        r <= max,
        p == 0 ==> r == 0,
        p == 100 ==> r == max,
{
    proof {
        assert((p as int) * (max as int) <= 100 * (max as int)) by (nonlinear_arith)
            requires
                p <= 100,
        ;
        assert((100 * (max as int) + 50) / 100 == max as int) by (nonlinear_arith);
        assert(p == 0 ==> (p as int) * (max as int) == 0) by (nonlinear_arith);
    }
    let wide: u64 = (p as u64) * (max as u64);
    proof {
        assert((wide + 50) / 100 <= (100 * (max as int) + 50) / 100) by (nonlinear_arith)
            requires
                wide <= 100 * (max as int),
        ;
    }
    ((wide + 50) / 100) as u32
}

/// Nearest integer to the exact rational `a / b` (halves round up), for `b > 0`.
pub open spec fn round_div(a: int, b: int) -> int {
    (2 * a + b) / (2 * b)
}

/// The elapsed-time numerator clamped to `[0, den]`, so that `num / den`
/// stays in the unit interval.
pub open spec fn clamped_num(num: int, den: int) -> int {
    if num >= den {
        den
    } else if num <= 0 {
        0
    } else {
        num
    }
}

/// Brightness of a linear fade from `start` to `target` once `num` of `den`
/// time units have elapsed: `round(start + clamp(num/den, 0, 1) * (target - start))`,
/// written over a common denominator.
pub open spec fn fade_sample(start: int, target: int, num: int, den: int) -> int {
    round_div(start * (den - clamped_num(num, den)) + target * clamped_num(num, den), den)
}

/// Rounding an exact multiple of the denominator returns the quotient itself.
proof fn lemma_round_div_exact(v: int, d: int)
    requires
        d > 0,
    ensures
        round_div(v * d, d) == v,
{
    assert(2 * (v * d) + d == (2 * d) * v + d) by (nonlinear_arith);
    vstd::arithmetic::div_mod::lemma_div_multiples_vanish_fancy(v, d, 2 * d);
}

/// A rounded quotient lies between the quotients of bracketing multiples.
proof fn lemma_round_div_bounds(a: int, d: int, lo: int, hi: int)
    requires
        d > 0,
        lo * d <= a,
        a <= hi * d,
    ensures
        lo <= round_div(a, d),
        round_div(a, d) <= hi,
{
    lemma_round_div_exact(lo, d);
    lemma_round_div_exact(hi, d);
    vstd::arithmetic::div_mod::lemma_div_is_ordered(2 * (lo * d) + d, 2 * a + d, 2 * d);
    vstd::arithmetic::div_mod::lemma_div_is_ordered(2 * a + d, 2 * (hi * d) + d, 2 * d);
}

/// One sample of the fade animation: the brightness to write after
/// `elapsed_ms` of a fade lasting `fade_ms`, linear in wall-time fraction
/// and rounded to the nearest device-native unit. Once the full duration
/// has elapsed the sample lands exactly on the target.
pub fn sample_brightness(start: u32, target: u32, elapsed_ms: u64, fade_ms: u64) -> (r: u32)
    requires
        fade_ms > 0,
    ensures
        r == fade_sample(start as int, target as int, elapsed_ms as int, fade_ms as int),
        elapsed_ms >= fade_ms ==> r == target,
        elapsed_ms == 0 ==> r == start,
        start <= target ==> start <= r <= target,
        target <= start ==> target <= r <= start,
{
    let num: u64 = if elapsed_ms >= fade_ms {
        fade_ms
    } else {
        elapsed_ms
    };
    let den: u64 = fade_ms;
    let ghost s = start as int;
    let ghost t = target as int;
    let ghost n = num as int;
    let ghost d = den as int;
    let ghost lo: int = if s <= t { s } else { t };
    let ghost hi: int = if s <= t { t } else { s };
    proof {
        assert(s * (d - n) <= (u32::MAX as int) * (u64::MAX as int)) by (nonlinear_arith)
            requires
                0 <= s <= u32::MAX as int,
                0 <= d - n <= u64::MAX as int,
        ;
        assert(t * n <= (u32::MAX as int) * (u64::MAX as int)) by (nonlinear_arith)
            requires
                0 <= t <= u32::MAX as int,
                0 <= n <= u64::MAX as int,
        ;
        assert(s * (d - n) >= 0 && t * n >= 0) by (nonlinear_arith)
            requires
                0 <= s && 0 <= t && 0 <= n <= d,
        ;
    }
    let a: u128 = (start as u128) * ((den - num) as u128) + (target as u128) * (num as u128);
    proof {
        assert(a == s * (d - n) + t * n);
        assert(lo * d <= s * (d - n) + t * n <= hi * d) by (nonlinear_arith)
            requires
                0 <= n <= d,
                lo <= s <= hi,
                lo <= t <= hi,
        ;
        lemma_round_div_bounds(a as int, d, lo, hi);
        if num == den {
            assert(s * (d - n) + t * n == t * d) by (nonlinear_arith)
                requires
                    n == d,
            ;
            lemma_round_div_exact(t, d);
        }
        if num == 0 {
            assert(s * (d - n) + t * n == s * d) by (nonlinear_arith)
                requires
                    n == 0,
            ;
            lemma_round_div_exact(s, d);
        }
        assert(clamped_num(elapsed_ms as int, d) == n);
    }
    let val: u128 = (2 * a + (den as u128)) / (2 * (den as u128));
    proof {
        assert(val == round_div(a as int, d));
    }
    val as u32
}

} // verus!
