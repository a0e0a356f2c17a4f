//! The angle arithmetic on concrete values: normalization, snapping,
//! free-spin continuity, clamping and the stop-tick fade.

use knobs::angle::{
    clamp_to_range, normalize_signed, normalize_unsigned, snap_angle, wrap_free_adjust, HALF_TURN,
    QUARTER_TURN, TURN,
};
use knobs::fade::{stop_fade, FADE_LIMIT};

/// Radians to angle units, rounded to the nearest unit, as a host would
/// convert at its boundary.
fn units(rad: f64) -> i64 {
    (rad / std::f64::consts::TAU * (TURN as f64)).round() as i64
}

#[test]
fn normalize_unsigned_range_and_period() {
    assert_eq!(normalize_unsigned(0), 0);
    assert_eq!(normalize_unsigned(TURN), 0);
    assert_eq!(normalize_unsigned(-TURN), 0);
    assert_eq!(normalize_unsigned(5 * TURN), 0);
    assert_eq!(normalize_unsigned(-1), TURN - 1);
    assert_eq!(normalize_unsigned(TURN + 7), 7);
    let a = 123_456;
    for k in [-3i64, -1, 0, 1, 2, 10] {
        assert_eq!(normalize_unsigned(a + k * TURN), normalize_unsigned(a));
    }
    for v in [i64::MIN + 1, -987_654_321, -1, 0, 1, 987_654_321, i64::MAX] {
        let r = normalize_unsigned(v);
        assert!(0 <= r && r < TURN);
    }
}

#[test]
fn normalize_unsigned_never_returns_a_full_turn() {
    // exact multiples of 2π map to 0, never to 2π itself
    for k in [-4i64, -2, -1, 0, 1, 3, 100] {
        assert_eq!(normalize_unsigned(k * TURN), 0);
    }
}

#[test]
fn normalize_signed_range() {
    assert_eq!(normalize_signed(0), 0);
    assert_eq!(normalize_signed(HALF_TURN), HALF_TURN);
    assert_eq!(normalize_signed(HALF_TURN + 1), -(HALF_TURN - 1));
    assert_eq!(normalize_signed(-HALF_TURN), HALF_TURN);
    assert_eq!(normalize_signed(TURN - QUARTER_TURN), -QUARTER_TURN);
    for v in [i64::MIN + 1, -5_000_000, -1, 0, 1, 5_000_000, i64::MAX] {
        let r = normalize_signed(v);
        assert!(-HALF_TURN < r && r <= HALF_TURN);
    }
}

#[test]
fn snap_rounds_to_nearest_multiple() {
    // a raw angle of 0.26 rad snaps onto a π/12 (15°) grid as π/12
    let raw = units(0.26);
    assert_eq!(raw, 53_629);
    let inc = TURN / 24;
    assert_eq!(snap_angle(raw, inc), inc);
    assert_eq!(units(std::f64::consts::PI / 12.0), inc);
    assert_eq!(snap_angle(0, inc), 0);
    assert_eq!(snap_angle(26_000, inc), 0);
    assert_eq!(snap_angle(82_000, inc), 2 * inc);
    assert_eq!(snap_angle(-53_629, inc), -inc);
}

#[test]
fn snap_ties_round_away_from_zero() {
    assert_eq!(snap_angle(27_000, 54_000), 54_000);
    assert_eq!(snap_angle(-27_000, 54_000), -54_000);
}

#[test]
fn snap_is_idempotent() {
    for inc in [1i64, 7, 54_000, TURN] {
        for a in [-987_654i64, -54_000, -1, 0, 1, 26_999, 27_000, 53_629, 987_654] {
            let once = snap_angle(a, inc);
            assert_eq!(snap_angle(once, inc), once);
        }
    }
}

#[test]
fn wrap_free_takes_the_shortest_path() {
    // previous value 3.0 rad; the raw angle reduces to -3.0 rad, which must
    // resolve near 2π - 3.0 ≈ 3.28 rad, not jump by nearly a full turn
    let prev = units(3.0);
    assert_eq!(prev, 618_794);
    let raw = -prev;
    let adjusted = wrap_free_adjust(prev, raw);
    assert_eq!(adjusted, raw + TURN);
    assert_eq!(adjusted, 677_206);
    assert!((adjusted - prev).abs() <= HALF_TURN);
    assert_eq!((adjusted - raw) % TURN, 0);
}

#[test]
fn wrap_free_keeps_the_turn_count() {
    // five turns plus a bit, nudged slightly: the value stays on turn five
    let prev = 5 * TURN + 1_000;
    let raw = 2_000;
    assert_eq!(wrap_free_adjust(prev, raw), 5 * TURN + 2_000);
    // crossing the boundary downwards from just above a whole turn
    let prev = 5 * TURN + 100;
    let raw = -200;
    assert_eq!(wrap_free_adjust(prev, raw), 5 * TURN - 200);
}

#[test]
fn clamp_applies_nearest_bound() {
    let lo = units(-1.0);
    let hi = units(1.0);
    assert_eq!(hi, 206_265);
    assert_eq!(clamp_to_range(300_000, Some(lo), Some(hi)), hi);
    assert_eq!(clamp_to_range(-300_000, Some(lo), Some(hi)), lo);
    assert_eq!(clamp_to_range(123, Some(lo), Some(hi)), 123);
    assert_eq!(clamp_to_range(hi, Some(lo), Some(hi)), hi);
    assert_eq!(clamp_to_range(300_000, Some(lo), None), 300_000);
    assert_eq!(clamp_to_range(-300_000, None, Some(hi)), -300_000);
    assert_eq!(clamp_to_range(7, None, None), 7);
    // crossed bounds: the lower bound is applied first, so the upper one wins
    assert_eq!(clamp_to_range(0, Some(hi), Some(lo)), lo);
}

#[test]
fn fade_is_full_at_the_stop() {
    for v in [0i64, -206_265, 618_794] {
        assert_eq!(stop_fade(v, v), 1_000_000);
    }
}

#[test]
fn fade_vanishes_beyond_the_limit() {
    assert_eq!(FADE_LIMIT, 3 * TURN / 4);
    assert_eq!(stop_fade(FADE_LIMIT, 0), 0);
    assert_eq!(stop_fade(0, FADE_LIMIT), 0);
    assert_eq!(stop_fade(2_000_000, 0), 0);
    assert_eq!(stop_fade(-2_000_000, 0), 0);
}

#[test]
fn fade_exact_values() {
    // half the fade distance: 1 - 0.5^5 of full opacity
    assert_eq!(stop_fade(FADE_LIMIT / 2, 0), 968_750);
    assert_eq!(stop_fade(206_265, 0), 999_570);
    assert_eq!(stop_fade(HALF_TURN, 0), 868_314);
    assert_eq!(stop_fade(FADE_LIMIT - 1, 0), 10);
}

#[test]
fn fade_is_monotone_in_distance() {
    let mut last = 1_000_001i64;
    for d in [0i64, 1, 100, 54_000, 206_265, 486_000, 648_000, 971_999, 972_000, 1_500_000] {
        let alpha = stop_fade(d, 0);
        assert!(alpha <= last);
        assert_eq!(alpha, stop_fade(0, d));
        last = alpha;
    }
}
