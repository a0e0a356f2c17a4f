//! Integer angle arithmetic: normalization, rounding to a snap grid,
//! multi-turn continuity and clamping.

use vstd::prelude::*;
use vstd::arithmetic::div_mod::{
    lemma_fundamental_div_mod, lemma_fundamental_div_mod_converse_div,
    lemma_fundamental_div_mod_converse_mod, lemma_mod_division_less_than_divisor,
    lemma_mod_multiples_vanish,
};
use vstd::arithmetic::mul::{
    lemma_mul_is_associative, lemma_mul_is_distributive_sub_other_way, lemma_mul_unary_negation,
};

verus! {

/// Angle units in one full turn (2π radians); one unit is 1/3600 of a degree.
pub const TURN: i64 = 1_296_000;

/// Angle units in half a turn (π radians).
pub const HALF_TURN: i64 = 648_000;

/// Angle units in a quarter turn (π/2 radians).
pub const QUARTER_TURN: i64 = 324_000;

/// Largest angle magnitude the widgets accept, about 54 million turns.
/// A machine limit only: it keeps every intermediate sum and product of the
/// angle pipeline inside `i64`.
pub const ANGLE_MAX: i64 = 0x4000_0000_0000;

/// The representative of `a` in `[0, TURN)`; spec-level `%` is Euclidean.
pub open spec fn norm_unsigned_spec(a: int) -> int {
    a % (TURN as int)
}

/// The representative of `a` in `(-HALF_TURN, HALF_TURN]`.
pub open spec fn norm_signed_spec(a: int) -> int {
    if norm_unsigned_spec(a) > HALF_TURN as int {
        norm_unsigned_spec(a) - TURN as int
    } else {
        norm_unsigned_spec(a)
    }
}

/// Normalize an angle into `[0, TURN)`, i.e. `[0, 2π)`; exact multiples of a
/// turn map to 0, never to `TURN` itself.
pub fn normalize_unsigned(a: i64) -> (r: i64)
    ensures
        r == norm_unsigned_spec(a as int),
        0 <= r < TURN,
{
    if a >= 0 {
        let r = ((a as u64) % (TURN as u64)) as i64;
        proof {
            lemma_mod_division_less_than_divisor(a as int, TURN as int);
        }
        r
    } else {
        let na: u64 = (-(a as i128)) as u64;
        let m: u64 = na % (TURN as u64);
        proof {
            let n = -(a as int);
            lemma_fundamental_div_mod(n, TURN as int);
            lemma_mod_division_less_than_divisor(n, TURN as int);
            let q = n / (TURN as int);
            if m == 0 {
                assert(a as int == (TURN as int) * (-q) + 0) by {
                    assert((TURN as int) * (-q) == -((TURN as int) * q));
                }
                lemma_fundamental_div_mod_converse_mod(a as int, TURN as int, -q, 0);
            } else {
                assert(a as int == (TURN as int) * (-q - 1) + (TURN as int - m)) by {
                    assert((TURN as int) * (-q - 1) == -((TURN as int) * q) - TURN);
                }
                lemma_fundamental_div_mod_converse_mod(
                    a as int,
                    TURN as int,
                    -q - 1,
                    TURN as int - m,
                );
            }
        }
        if m == 0 {
            0
        } else {
            TURN - (m as i64)
        }
    }
}

/// Normalize an angle into `(-HALF_TURN, HALF_TURN]`, i.e. `(-π, π]`.
pub fn normalize_signed(a: i64) -> (r: i64)
    ensures
        r == norm_signed_spec(a as int),
        -HALF_TURN < r <= HALF_TURN,
{
    let u = normalize_unsigned(a);
    if u > HALF_TURN {
        u - TURN
    } else {
        u
    }
}

/// Unsigned normalization lands in `[0, TURN)` and is invariant under adding
/// any whole number of turns.
pub proof fn lemma_norm_unsigned_periodic(a: int, k: int)
    ensures
        0 <= norm_unsigned_spec(a) < TURN as int,
        norm_unsigned_spec(a + k * (TURN as int)) == norm_unsigned_spec(a),
{
    lemma_mod_division_less_than_divisor(a, TURN as int);
    lemma_mod_multiples_vanish(k, a, TURN as int);
    assert((TURN as int) * k + a == a + k * (TURN as int));
}

/// Signed normalization lands in `(-HALF_TURN, HALF_TURN]` and differs from
/// its argument by a whole number of turns.
pub proof fn lemma_norm_signed_range(a: int)
    ensures
        -(HALF_TURN as int) < norm_signed_spec(a) <= HALF_TURN as int,
        (norm_signed_spec(a) - a) % (TURN as int) == 0,
{
    lemma_mod_division_less_than_divisor(a, TURN as int);
    lemma_fundamental_div_mod(a, TURN as int);
    let q = a / (TURN as int);
    let u = norm_unsigned_spec(a);
    if u > HALF_TURN as int {
        assert(norm_signed_spec(a) - a == (TURN as int) * (-q) - TURN) by {
            assert((TURN as int) * (-q) == -((TURN as int) * q));
        }
        assert(norm_signed_spec(a) - a == (TURN as int) * (-q - 1) + 0) by {
            assert((TURN as int) * (-q - 1) == (TURN as int) * (-q) - TURN);
        }
        lemma_fundamental_div_mod_converse_mod(
            norm_signed_spec(a) - a,
            TURN as int,
            -q - 1,
            0,
        );
    } else {
        assert(norm_signed_spec(a) - a == (TURN as int) * (-q) + 0) by {
            assert((TURN as int) * (-q) == -((TURN as int) * q));
        }
        lemma_fundamental_div_mod_converse_mod(norm_signed_spec(a) - a, TURN as int, -q, 0);
    }
}

/// The quotient `a / d` rounded to the nearest whole number, ties away from
/// zero, matching how the dial rounds a value onto its snap grid.
pub open spec fn round_div_spec(a: int, d: int) -> int
    recommends
        d > 0,
{
    if a >= 0 {
        (2 * a + d) / (2 * d)
    } else {
        -((2 * (-a) + d) / (2 * d))
    }
}

/// `a` rounded to the nearest multiple of `inc`, ties away from zero.
pub open spec fn snap_spec(a: int, inc: int) -> int
    recommends
        inc > 0,
{
    inc * round_div_spec(a, inc)
}

/// The rounded multiple sits within half an increment of the argument.
pub proof fn lemma_round_div_near(a: int, d: int)
    requires
        d > 0,
    ensures
        2 * (d * round_div_spec(a, d) - a) <= d,
        2 * (a - d * round_div_spec(a, d)) <= d,
{
    if a >= 0 {
        lemma_round_div_near_nonneg(a, d);
    } else {
        lemma_round_div_near_nonneg(-a, d);
        let q = (2 * (-a) + d) / (2 * d);
        lemma_mul_unary_negation(d, q);
        assert(d * round_div_spec(a, d) == -(d * q));
    }
}

proof fn lemma_round_div_near_nonneg(a: int, d: int)
    requires
        a >= 0,
        d > 0,
    ensures
        2 * (d * round_div_spec(a, d) - a) <= d,
        2 * (a - d * round_div_spec(a, d)) <= d,
{
    let q = (2 * a + d) / (2 * d);
    lemma_fundamental_div_mod(2 * a + d, 2 * d);
    lemma_mod_division_less_than_divisor(2 * a + d, 2 * d);
    lemma_mul_is_associative(2, d, q);
    assert(2 * a + d == 2 * (d * q) + (2 * a + d) % (2 * d));
}

/// A value that is already a multiple of the increment rounds to itself.
pub proof fn lemma_round_div_multiple(a: int, d: int)
    requires
        d > 0,
        a % d == 0,
    ensures
        d * round_div_spec(a, d) == a,
        round_div_spec(a, d) == a / d,
{
    lemma_fundamental_div_mod(a, d);
    let k = a / d;
    lemma_mul_is_associative(2, d, k);
    if a >= 0 {
        assert(2 * a + d == (2 * d) * k + d) by {
            assert((2 * d) * k == 2 * (d * k));
        }
        lemma_fundamental_div_mod_converse_div(2 * a + d, 2 * d, k, d);
        assert(d * round_div_spec(a, d) == d * k);
    } else {
        let n = -a;
        assert(n == d * (-k)) by {
            lemma_mul_unary_negation(d, k);
        }
        assert(2 * n + d == (2 * d) * (-k) + d) by {
            lemma_mul_is_associative(2, d, -k);
            assert((2 * d) * (-k) == 2 * (d * (-k)));
        }
        lemma_fundamental_div_mod_converse_div(2 * n + d, 2 * d, -k, d);
        assert(round_div_spec(a, d) == k);
        assert(d * round_div_spec(a, d) == d * k);
    }
}

/// Snapping is idempotent: a snapped value snapped to the same increment is
/// unchanged.
pub proof fn lemma_snap_idempotent(a: int, inc: int)
    requires
        inc > 0,
    ensures
        snap_spec(snap_spec(a, inc), inc) == snap_spec(a, inc),
{
    let r = snap_spec(a, inc);
    let q = round_div_spec(a, inc);
    assert(r == q * inc) by {
        lemma_mul_is_associative(1, inc, q);
    }
    lemma_fundamental_div_mod_converse_mod(r, inc, q, 0);
    lemma_round_div_multiple(r, inc);
}

/// Exact multiples of the increment are fixed points of snapping.
pub proof fn lemma_snap_fixes_multiples(a: int, inc: int)
    requires
        inc > 0,
        a % inc == 0,
    ensures
        snap_spec(a, inc) == a,
{
    lemma_round_div_multiple(a, inc);
}

/// Round `a / d` to the nearest whole number, ties away from zero.
pub fn round_div_nearest(a: i64, d: i64) -> (q: i64)
    requires
        0 < d <= ANGLE_MAX,
        -2 * ANGLE_MAX <= a <= 2 * ANGLE_MAX,
    ensures
        q == round_div_spec(a as int, d as int),
{
    if a >= 0 {
        let num: u64 = 2 * (a as u64) + (d as u64);
        let q64: u64 = num / (2 * (d as u64));
        assert(q64 <= num) by {
            vstd::arithmetic::div_mod::lemma_div_is_ordered_by_denominator(
                num as int,
                1,
                2 * (d as int),
            );
            vstd::arithmetic::div_mod::lemma_div_by_self(1);
        }
        q64 as i64
    } else {
        let na: u64 = (-(a as i128)) as u64;
        let num: u64 = 2 * na + (d as u64);
        let q64: u64 = num / (2 * (d as u64));
        assert(q64 <= num) by {
            vstd::arithmetic::div_mod::lemma_div_is_ordered_by_denominator(
                num as int,
                1,
                2 * (d as int),
            );
            vstd::arithmetic::div_mod::lemma_div_by_self(1);
        }
        -(q64 as i64)
    }
}

/// `a` rounded to the nearest multiple of `inc` (ties away from zero): the
/// snap rule applied to an interactively computed angle. The result never
/// moves by more than half an increment.
pub fn snap_angle(a: i64, inc: i64) -> (r: i64)
    requires
        0 < inc <= ANGLE_MAX,
        -2 * ANGLE_MAX <= a <= 2 * ANGLE_MAX,
    ensures
        r == snap_spec(a as int, inc as int),
        2 * (r - a) <= inc,
        2 * (a - r) <= inc,
{
    let q = round_div_nearest(a, inc);
    proof {
        lemma_round_div_near(a as int, inc as int);
    }
    inc * q
}

/// Multi-turn continuity for the free-spin wrap policy: put the raw angle back
/// onto the turn the previous value was on, then move by one more turn if that
/// still leaves a jump of more than half a turn.
pub open spec fn wrap_free_spec(prev: int, raw: int) -> int {
    let shifted = raw + round_div_spec(prev, TURN as int) * (TURN as int);
    if shifted - prev > HALF_TURN as int {
        shifted - TURN as int
    } else if shifted - prev < -(HALF_TURN as int) {
        shifted + TURN as int
    } else {
        shifted
    }
}

/// The continuity adjustment changes the raw angle by whole turns only.
pub proof fn lemma_wrap_free_congruent(prev: int, raw: int)
    ensures
        (wrap_free_spec(prev, raw) - raw) % (TURN as int) == 0,
{
    let t = TURN as int;
    let q = round_div_spec(prev, t);
    let r = wrap_free_spec(prev, raw);
    if r == raw + q * t - t {
        assert(r - raw == (q - 1) * t + 0) by {
            lemma_mul_is_distributive_sub_other_way(t, q, 1);
        }
        lemma_fundamental_div_mod_converse_mod(r - raw, t, q - 1, 0);
    } else if r == raw + q * t + t {
        assert(r - raw == (q + 1) * t + 0) by {
            lemma_mul_is_distributive_sub_other_way(t, q, -1);
        }
        lemma_fundamental_div_mod_converse_mod(r - raw, t, q + 1, 0);
    } else {
        assert(r - raw == q * t + 0);
        lemma_fundamental_div_mod_converse_mod(r - raw, t, q, 0);
    }
}

/// Shortest-path property: for a raw angle already within half a turn of zero,
/// the turn-adjusted value stays within half a turn of the previous value.
pub proof fn lemma_wrap_free_shortest_path(prev: int, raw: int)
    requires
        -(HALF_TURN as int) <= raw <= HALF_TURN as int,
    ensures
        -(HALF_TURN as int) <= wrap_free_spec(prev, raw) - prev <= HALF_TURN as int,
{
    lemma_round_div_near(prev, TURN as int);
    let q = round_div_spec(prev, TURN as int);
    assert((TURN as int) * q == q * (TURN as int));
}

/// Apply the free-spin continuity adjustment to a raw angle.
pub fn wrap_free_adjust(prev: i64, raw: i64) -> (r: i64)
    requires
        -ANGLE_MAX <= prev <= ANGLE_MAX,
        -2 * ANGLE_MAX <= raw <= 2 * ANGLE_MAX,
    ensures
        r == wrap_free_spec(prev as int, raw as int),
{
    let turns = round_div_nearest(prev, TURN);
    proof {
        lemma_round_div_near(prev as int, TURN as int);
        assert((TURN as int) * (turns as int) == (turns as int) * (TURN as int));
    }
    let shifted = raw + turns * TURN;
    let delta = shifted - prev;
    if delta > HALF_TURN {
        shifted - TURN
    } else if delta < -HALF_TURN {
        shifted + TURN
    } else {
        shifted
    }
}

/// Clamp `v` to the configured bounds: the lower bound is applied first, then
/// the upper bound, so with crossed bounds the upper one wins.
pub open spec fn clamp_spec(v: int, lo: Option<i64>, hi: Option<i64>) -> int {
    let raised = match lo {
        Option::Some(l) => if v < l { l as int } else { v },
        Option::None => v,
    };
    match hi {
        Option::Some(h) => if raised > h { h as int } else { raised },
        Option::None => raised,
    }
}

/// Clamp a computed value to the optional minimum and maximum stops.
pub fn clamp_to_range(v: i64, lo: Option<i64>, hi: Option<i64>) -> (r: i64)
    ensures
        r == clamp_spec(v as int, lo, hi),
{
    let mut r = v;
    if let Option::Some(l) = lo {
        if r < l {
            r = l;
        }
    }
    if let Option::Some(h) = hi {
        if r > h {
            r = h;
        }
    }
    r
}

/// With ordered bounds configured, clamping returns the nearest bound for a
/// value outside the range and leaves a value inside the range unchanged.
pub proof fn lemma_clamp_bounds(v: int, lo: i64, hi: i64)
    requires
        lo <= hi,
    ensures
        lo <= clamp_spec(v, Option::Some(lo), Option::Some(hi)) <= hi,
        v < lo ==> clamp_spec(v, Option::Some(lo), Option::Some(hi)) == lo,
        v > hi ==> clamp_spec(v, Option::Some(lo), Option::Some(hi)) == hi,
        lo <= v <= hi ==> clamp_spec(v, Option::Some(lo), Option::Some(hi)) == v,
{
}

} // verus!
