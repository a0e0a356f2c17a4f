//! The angle knob end to end: presets, builder chains, the pointer-to-value
//! pipeline and the rendered primitives.

use knobs::angle::{HALF_TURN, QUARTER_TURN, TURN};
use knobs::angle_knob::PaintOp;
use knobs::{AngleKnob, AngleKnobPreset, Orientation, WidgetShape, Winding, WrapMode};

/// Radians to angle units, rounded to the nearest unit.
fn units(rad: f64) -> i64 {
    (rad / std::f64::consts::TAU * (TURN as f64)).round() as i64
}

/// The host-side conversion of a pointer offset from the widget center into
/// the angle handed to `update`: a plain atan2 in screen coordinates.
fn pointer_angle(x: f64, y: f64) -> i64 {
    units(y.atan2(x) as f64)
}

#[test]
fn preset_properties() {
    assert_eq!(
        AngleKnobPreset::AdobePhotoshop.properties(),
        (Orientation::Right, Winding::Counterclockwise, WrapMode::Signed),
    );
    assert_eq!(
        AngleKnobPreset::AdobePremierePro.properties(),
        (Orientation::Top, Winding::Clockwise, WrapMode::Free),
    );
    assert_eq!(
        AngleKnobPreset::Gimp.properties(),
        (Orientation::Right, Winding::Counterclockwise, WrapMode::Unsigned),
    );
    assert_eq!(
        AngleKnobPreset::GoogleChromeDevTools.properties(),
        (Orientation::Top, Winding::Clockwise, WrapMode::Unsigned),
    );
    assert_eq!(
        AngleKnobPreset::Krita.properties(),
        (Orientation::Right, Winding::Counterclockwise, WrapMode::Signed),
    );
    assert_eq!(
        AngleKnobPreset::LibreOffice.properties(),
        (Orientation::Right, Winding::Counterclockwise, WrapMode::Unsigned),
    );
    assert_eq!(
        AngleKnobPreset::QtWidgets.properties(),
        (Orientation::Bottom, Winding::Clockwise, WrapMode::Unsigned),
    );
}

#[test]
fn builder_chain_sets_every_field() {
    let k = AngleKnob::new()
        .diameter(64)
        .orientation(Orientation::Custom(1_000))
        .winding(Winding::Counterclockwise)
        .shape(WidgetShape::Squircle(4_000))
        .wrap(WrapMode::Signed)
        .min(Some(-206_265))
        .max(Some(206_265))
        .snap(Some(54_000))
        .shift_snap(None)
        .show_axes(false)
        .axis_count(8);
    assert_eq!(k.diameter, 64);
    assert_eq!(k.orientation, Orientation::Custom(1_000));
    assert_eq!(k.winding, Winding::Counterclockwise);
    assert_eq!(k.shape, WidgetShape::Squircle(4_000));
    assert_eq!(k.wrap, WrapMode::Signed);
    assert_eq!(k.min, Some(-206_265));
    assert_eq!(k.max, Some(206_265));
    assert_eq!(k.snap, Some(54_000));
    assert_eq!(k.shift_snap, None);
    assert!(!k.show_axes);
    assert_eq!(k.axis_count, 8);
}

#[test]
fn default_configuration() {
    let k = AngleKnob::new();
    assert_eq!(k.diameter, 32);
    assert_eq!(k.orientation, Orientation::Top);
    assert_eq!(k.winding, Winding::Clockwise);
    assert_eq!(k.shape, WidgetShape::Circle);
    assert_eq!(k.wrap, WrapMode::Unsigned);
    assert_eq!(k.min, None);
    assert_eq!(k.max, None);
    assert_eq!(k.snap, None);
    assert_eq!(k.shift_snap, Some(TURN / 24));
    assert!(k.show_axes);
    assert_eq!(k.axis_count, 4);
}

#[test]
fn preset_seeds_the_configuration() {
    let k = AngleKnob::new().preset(AngleKnobPreset::QtWidgets);
    assert_eq!(k.orientation, Orientation::Bottom);
    assert_eq!(k.winding, Winding::Clockwise);
    assert_eq!(k.wrap, WrapMode::Unsigned);
    assert_eq!(k.diameter, 32);
}

#[test]
fn click_up_is_zero_click_right_is_quarter_turn() {
    // orientation Top, clockwise, unsigned wrap, no snap
    let k = AngleKnob::new();
    // pointer straight up from the center: (0, -r) on screen
    let up = pointer_angle(0.0, -32.0);
    assert_eq!(up, -QUARTER_TURN);
    assert_eq!(k.update(0, up, false), 0);
    // pointer to the right of the center: (r, 0)
    let right = pointer_angle(32.0, 0.0);
    assert_eq!(right, 0);
    assert_eq!(k.update(0, right, false), QUARTER_TURN);
    assert_eq!(units(std::f64::consts::PI / 2.0), QUARTER_TURN);
}

#[test]
fn counterclockwise_flips_the_sign() {
    let k = AngleKnob::new().orientation(Orientation::Right).winding(Winding::Counterclockwise);
    // pointer at +90° on screen reads as a quarter turn backwards
    assert_eq!(k.update(0, QUARTER_TURN, false), TURN - QUARTER_TURN);
}

#[test]
fn snap_applies_to_the_pointed_angle() {
    // a raw computed angle of 0.26 rad on a π/12 grid lands on π/12
    let k = AngleKnob::new().orientation(Orientation::Right).snap(Some(TURN / 24));
    let p = units(0.26);
    assert_eq!(k.update(0, p, false), TURN / 24);
}

#[test]
fn shift_snap_only_applies_while_shift_is_held() {
    let k = AngleKnob::new().orientation(Orientation::Right);
    let p = units(0.26);
    // shift held: the default shift-snap grid of a 24th of a turn is used
    assert_eq!(k.update(0, p, true), TURN / 24);
    // shift not held: no snap increment is configured, the angle passes through
    assert_eq!(k.update(0, p, false), p);
    // shift held with the shift grid cleared: no fallback to the plain grid
    let k = k.shift_snap(None).snap(Some(TURN / 24));
    assert_eq!(k.update(0, p, true), p);
    assert_eq!(k.update(0, p, false), TURN / 24);
}

#[test]
fn unsigned_wrap_keeps_the_value_in_one_turn() {
    let k = AngleKnob::new().orientation(Orientation::Right);
    assert_eq!(k.update(0, -QUARTER_TURN, false), TURN - QUARTER_TURN);
    assert_eq!(k.update(0, HALF_TURN, false), HALF_TURN);
}

#[test]
fn signed_wrap_passes_the_raw_angle_through() {
    let k = AngleKnob::new().orientation(Orientation::Right).wrap(WrapMode::Signed);
    assert_eq!(k.update(0, -QUARTER_TURN, false), -QUARTER_TURN);
    assert_eq!(k.update(0, HALF_TURN, false), HALF_TURN);
}

#[test]
fn free_wrap_is_continuous_across_the_boundary() {
    let k = AngleKnob::new().orientation(Orientation::Right).wrap(WrapMode::Free);
    // previous value 3.0 rad, pointer at its antipode -3.0 rad: the value
    // moves to 2π - 3.0 rad, not by nearly a full turn
    let prev = units(3.0);
    let new = k.update(prev, -prev, false);
    assert_eq!(new, -prev + TURN);
    assert!((new - prev).abs() <= HALF_TURN);
    // several turns out, the turn count is preserved
    let new = k.update(5 * TURN + 1_000, 2_000, false);
    assert_eq!(new, 5 * TURN + 2_000);
}

#[test]
fn stops_clamp_the_computed_value() {
    let lo = units(-1.0);
    let hi = units(1.0);
    let k = AngleKnob::new()
        .orientation(Orientation::Right)
        .wrap(WrapMode::Signed)
        .min(Some(lo))
        .max(Some(hi));
    assert_eq!(k.update(0, 300_000, false), hi);
    assert_eq!(k.update(0, -300_000, false), lo);
    assert_eq!(k.update(0, 123, false), 123);
}

#[test]
fn paint_ops_default_face() {
    let k = AngleKnob::new();
    let ops = k.paint_ops(QUARTER_TURN);
    assert_eq!(
        ops,
        vec![
            PaintOp::Outline,
            PaintOp::AxisLine { shape_angle: 0 },
            PaintOp::AxisLine { shape_angle: QUARTER_TURN },
            PaintOp::AxisLine { shape_angle: HALF_TURN },
            PaintOp::AxisLine { shape_angle: 3 * QUARTER_TURN },
            PaintOp::Needle { shape_angle: QUARTER_TURN },
            PaintOp::CenterDot,
            PaintOp::TipDot { shape_angle: QUARTER_TURN },
        ],
    );
}

#[test]
fn paint_ops_counterclockwise_mirrors_the_angles() {
    let k = AngleKnob::new().winding(Winding::Counterclockwise);
    let ops = k.paint_ops(QUARTER_TURN);
    assert_eq!(
        ops,
        vec![
            PaintOp::Outline,
            PaintOp::AxisLine { shape_angle: 0 },
            PaintOp::AxisLine { shape_angle: 3 * QUARTER_TURN },
            PaintOp::AxisLine { shape_angle: HALF_TURN },
            PaintOp::AxisLine { shape_angle: QUARTER_TURN },
            PaintOp::Needle { shape_angle: 3 * QUARTER_TURN },
            PaintOp::CenterDot,
            PaintOp::TipDot { shape_angle: 3 * QUARTER_TURN },
        ],
    );
}

#[test]
fn paint_ops_stop_ticks_fade_with_distance() {
    let k = AngleKnob::new().min(Some(-206_265)).max(Some(206_265)).show_axes(false);
    let ops = k.paint_ops(0);
    assert_eq!(
        ops,
        vec![
            PaintOp::Outline,
            PaintOp::StopLine { shape_angle: TURN - 206_265, alpha: 999_570 },
            PaintOp::StopLine { shape_angle: 206_265, alpha: 999_570 },
            PaintOp::Needle { shape_angle: 0 },
            PaintOp::CenterDot,
            PaintOp::TipDot { shape_angle: 0 },
        ],
    );
    // a stop right at the value is fully opaque
    let ops = k.paint_ops(206_265);
    assert!(matches!(ops[2], PaintOp::StopLine { alpha: 1_000_000, .. }));
}

#[test]
fn paint_ops_zero_axes_draws_none() {
    let k = AngleKnob::new().axis_count(0);
    let ops = k.paint_ops(0);
    assert_eq!(
        ops,
        vec![
            PaintOp::Outline,
            PaintOp::Needle { shape_angle: 0 },
            PaintOp::CenterDot,
            PaintOp::TipDot { shape_angle: 0 },
        ],
    );
}

#[test]
fn outline_is_periodic_over_a_full_turn() {
    // the same face is drawn for a value and the value one turn later,
    // whatever the shape variant
    for shape in [WidgetShape::Circle, WidgetShape::Squircle(4_000)] {
        let k = AngleKnob::new().shape(shape).wrap(WrapMode::Free);
        let v = units(1.0);
        assert_eq!(k.paint_ops(v), k.paint_ops(v + TURN));
    }
}

#[test]
fn circle_profile_is_exactly_flat() {
    assert_eq!(WidgetShape::Circle.eval(), Some(1_000_000));
    assert_eq!(WidgetShape::Squircle(4_000).eval(), None);
}

#[test]
fn wrap_mode_normalization() {
    assert_eq!(WrapMode::Unsigned.normalize(-QUARTER_TURN), 3 * QUARTER_TURN);
    assert_eq!(WrapMode::Signed.normalize(3 * QUARTER_TURN), -QUARTER_TURN);
    assert_eq!(WrapMode::Free.normalize(5 * TURN + 7), 5 * TURN + 7);
}

#[test]
fn orientation_rotations_and_winding_signs() {
    assert_eq!(Orientation::Top.rotation_angle(), -QUARTER_TURN);
    assert_eq!(Orientation::Right.rotation_angle(), 0);
    assert_eq!(Orientation::Bottom.rotation_angle(), QUARTER_TURN);
    assert_eq!(Orientation::Left.rotation_angle(), HALF_TURN);
    assert_eq!(Orientation::Custom(12_345).rotation_angle(), 12_345);
    assert_eq!(Winding::Clockwise.sign(), 1);
    assert_eq!(Winding::Counterclockwise.sign(), -1);
}
