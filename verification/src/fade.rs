//! Opacity of the min/max stop ticks: fully visible at the current value,
//! fading with angular distance and invisible from one and a half turns away.

use vstd::prelude::*;
use crate::angle::ANGLE_MAX;
use crate::common::UNIT_SCALE;
use vstd::arithmetic::div_mod::{
    lemma_div_is_ordered, lemma_div_multiples_vanish, lemma_div_pos_is_pos,
};
use vstd::arithmetic::mul::{lemma_mul_nonnegative, lemma_mul_upper_bound};

verus! {

/// Angular distance at which a stop tick has fully faded: 1.5π in angle units.
pub const FADE_LIMIT: i64 = 972_000;

/// Magnitude of the difference of two angles.
pub open spec fn abs_diff_spec(a: int, b: int) -> int {
    if a >= b {
        a - b
    } else {
        b - a
    }
}

/// Fifth power, the steepness of the fade law near the current value.
pub open spec fn pow5_spec(x: int) -> int {
    x * x * x * x * x
}

/// The denominator that turns a fifth power of a `UNIT_SCALE` ratio back into
/// `UNIT_SCALE` units.
pub open spec fn unit_scale_pow4() -> int {
    (UNIT_SCALE as int) * (UNIT_SCALE as int) * (UNIT_SCALE as int) * (UNIT_SCALE as int)
}

/// Stop-tick opacity in `UNIT_SCALE` units: one minus the fifth power of the
/// angular distance to the stop as a fraction of `FADE_LIMIT`, the fraction
/// clamped to one.
pub open spec fn fade_spec(stop: int, value: int) -> int {
    let d = abs_diff_spec(stop, value);
    let dc = if d > FADE_LIMIT as int {
        FADE_LIMIT as int
    } else {
        d
    };
    let ratio = dc * (UNIT_SCALE as int) / (FADE_LIMIT as int);
    UNIT_SCALE as int - pow5_spec(ratio) / unit_scale_pow4()
}

/// The clamped distance fraction lies in `[0, UNIT_SCALE]`.
proof fn lemma_ratio_bounds(dc: int)
    requires
        0 <= dc <= FADE_LIMIT as int,
    ensures
        0 <= dc * (UNIT_SCALE as int) / (FADE_LIMIT as int) <= UNIT_SCALE as int,
{
    let s = UNIT_SCALE as int;
    let l = FADE_LIMIT as int;
    lemma_mul_nonnegative(dc, s);
    lemma_div_pos_is_pos(dc * s, l);
    lemma_div_is_ordered(dc * s, l * s, l);
    lemma_div_multiples_vanish(s, l);
}

/// Fifth powers of bounded non-negative numbers are bounded.
proof fn lemma_pow5_monotone(x: int, y: int)
    requires
        0 <= x <= y,
    ensures
        0 <= pow5_spec(x) <= pow5_spec(y),
{
    lemma_mul_nonnegative(x, x);
    lemma_mul_nonnegative(x * x, x);
    lemma_mul_nonnegative(x * x * x, x);
    lemma_mul_nonnegative(x * x * x * x, x);
    lemma_mul_upper_bound(x, y, x, y);
    lemma_mul_nonnegative(y, y);
    lemma_mul_upper_bound(x * x, y * y, x, y);
    lemma_mul_nonnegative(y * y, y);
    lemma_mul_upper_bound(x * x * x, y * y * y, x, y);
    lemma_mul_nonnegative(y * y * y, y);
    lemma_mul_upper_bound(x * x * x * x, y * y * y * y, x, y);
}

/// The fade law never leaves `[0, UNIT_SCALE]`.
pub proof fn lemma_fade_range(stop: int, value: int)
    ensures
        0 <= fade_spec(stop, value) <= UNIT_SCALE as int,
{
    let s = UNIT_SCALE as int;
    let d = abs_diff_spec(stop, value);
    let dc = if d > FADE_LIMIT as int {
        FADE_LIMIT as int
    } else {
        d
    };
    lemma_ratio_bounds(dc);
    let ratio = dc * s / (FADE_LIMIT as int);
    lemma_pow5_monotone(ratio, s);
    lemma_pow5_monotone(0, ratio);
    lemma_div_pos_is_pos(pow5_spec(ratio), unit_scale_pow4());
    lemma_div_is_ordered(pow5_spec(ratio), pow5_spec(s), unit_scale_pow4());
    assert(pow5_spec(s) == unit_scale_pow4() * s);
    lemma_div_multiples_vanish(s, unit_scale_pow4());
}

/// A stop tick at the current value is fully opaque.
pub proof fn lemma_fade_at_stop(stop: int)
    ensures
        fade_spec(stop, stop) == UNIT_SCALE as int,
{
    let s = UNIT_SCALE as int;
    let l = FADE_LIMIT as int;
    assert(0int * s == 0);
    assert(0int / l == 0) by {
        vstd::arithmetic::div_mod::lemma_div_of0(l);
    }
    assert(pow5_spec(0) == 0);
    assert(0int / unit_scale_pow4() == 0) by {
        vstd::arithmetic::div_mod::lemma_div_of0(unit_scale_pow4());
    }
}

/// A stop tick at least one and a half turns away is invisible.
pub proof fn lemma_fade_zero_far(stop: int, value: int)
    requires
        abs_diff_spec(stop, value) >= FADE_LIMIT as int,
    ensures
        fade_spec(stop, value) == 0,
{
    let s = UNIT_SCALE as int;
    let l = FADE_LIMIT as int;
    assert(l * s / l == s) by {
        lemma_div_multiples_vanish(s, l);
    }
    assert(pow5_spec(s) == unit_scale_pow4() * s);
    lemma_div_multiples_vanish(s, unit_scale_pow4());
}

/// The fade is monotonically non-increasing in the angular distance from the
/// stop to the value.
pub proof fn lemma_fade_monotone(stop: int, v1: int, v2: int)
    requires
        abs_diff_spec(stop, v1) <= abs_diff_spec(stop, v2),
    ensures
        fade_spec(stop, v1) >= fade_spec(stop, v2),
{
    let s = UNIT_SCALE as int;
    let l = FADE_LIMIT as int;
    let d1 = abs_diff_spec(stop, v1);
    let d2 = abs_diff_spec(stop, v2);
    let dc1 = if d1 > l {
        l
    } else {
        d1
    };
    let dc2 = if d2 > l {
        l
    } else {
        d2
    };
    lemma_div_is_ordered(dc1 * s, dc2 * s, l);
    lemma_ratio_bounds(dc1);
    lemma_pow5_monotone(dc1 * s / l, dc2 * s / l);
    lemma_div_is_ordered(pow5_spec(dc1 * s / l), pow5_spec(dc2 * s / l), unit_scale_pow4());
}

/// Compute the stop-tick opacity for a stop position and the current value,
/// in `UNIT_SCALE` units.
pub fn stop_fade(stop: i64, value: i64) -> (alpha: i64)
    requires
        -ANGLE_MAX <= stop <= ANGLE_MAX,
        -ANGLE_MAX <= value <= ANGLE_MAX,
    ensures
        alpha == fade_spec(stop as int, value as int),
        0 <= alpha <= UNIT_SCALE,
{
    let d = if stop >= value {
        stop - value
    } else {
        value - stop
    };
    let dc = if d > FADE_LIMIT {
        FADE_LIMIT
    } else {
        d
    };
    assert(0 <= dc <= FADE_LIMIT);
    let ratio: u64 = ((dc as u64) * 1_000_000) / 972_000;
    proof {
        lemma_ratio_bounds(dc as int);
    }
    assert(ratio <= UNIT_SCALE as u64);
    let r: u128 = ratio as u128;
    proof {
        lemma_pow5_monotone(r as int, UNIT_SCALE as int);
    }
    assert(r * r <= 1_000_000_000_000) by {
        lemma_mul_upper_bound(r as int, UNIT_SCALE as int, r as int, UNIT_SCALE as int);
    }
    assert(r * r * r <= 1_000_000_000_000_000_000) by {
        lemma_mul_upper_bound(r as int * r as int, 1_000_000_000_000, r as int, UNIT_SCALE as int);
    }
    assert(r * r * r * r <= 1_000_000_000_000_000_000_000_000) by {
        lemma_mul_upper_bound(
            r as int * r as int * r as int,
            1_000_000_000_000_000_000,
            r as int,
            UNIT_SCALE as int,
        );
    }
    let p5: u128 = r * r * r * r * r;
    let denom: u128 = 1_000_000_000_000_000_000_000_000;
    let q5: u128 = p5 / denom;
    proof {
        lemma_div_pos_is_pos(p5 as int, denom as int);
        lemma_div_is_ordered(p5 as int, pow5_spec(UNIT_SCALE as int), denom as int);
        assert(pow5_spec(UNIT_SCALE as int) == unit_scale_pow4() * (UNIT_SCALE as int));
        lemma_div_multiples_vanish(UNIT_SCALE as int, unit_scale_pow4());
    }
    UNIT_SCALE - (q5 as i64)
}

} // verus!
