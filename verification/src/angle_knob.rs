//! The angle knob: a dial whose value is an absolute angle, set by pointing at
//! it. A pointer event is turned into an angle, snapped onto an optional grid,
//! wrapped by the configured wrap mode and clamped to the optional stops; the
//! face is rendered as an outline, axis gridlines, fading stop ticks and a
//! needle.

use vstd::prelude::*;
use crate::angle::{
    clamp_spec, clamp_to_range, norm_signed_spec, norm_unsigned_spec, normalize_signed,
    normalize_unsigned, snap_angle, snap_spec, wrap_free_adjust, wrap_free_spec, ANGLE_MAX,
    HALF_TURN, TURN,
};
use crate::common::{outline_angle, outline_angle_spec, Orientation, WidgetShape, Winding, WrapMode};
use crate::fade::{fade_spec, stop_fade};
use vstd::arithmetic::div_mod::lemma_multiply_divide_lt;
use vstd::arithmetic::mul::{lemma_mul_inequality, lemma_mul_nonnegative};

verus! {

/// Named (orientation, winding, wrap mode) bundles matching the angle dials of
/// well-known programs.
#[derive(Clone, Copy, Debug, PartialEq, Eq, Structural)]
#[non_exhaustive]
pub enum AngleKnobPreset {
    AdobePhotoshop,
    AdobePremierePro,
    Gimp,
    GoogleChromeDevTools,
    Krita,
    LibreOffice,
    QtWidgets,
}

impl AngleKnobPreset {
    /// The (orientation, winding, wrap mode) triple of this preset.
    pub open spec fn properties_spec(&self) -> (Orientation, Winding, WrapMode) {
        match *self {
            AngleKnobPreset::AdobePhotoshop => (
                Orientation::Right,
                Winding::Counterclockwise,
                WrapMode::Signed,
            ),
            AngleKnobPreset::AdobePremierePro => (
                Orientation::Top,
                Winding::Clockwise,
                WrapMode::Free,
            ),
            AngleKnobPreset::Gimp => (
                Orientation::Right,
                Winding::Counterclockwise,
                WrapMode::Unsigned,
            ),
            AngleKnobPreset::GoogleChromeDevTools => (
                Orientation::Top,
                Winding::Clockwise,
                WrapMode::Unsigned,
            ),
            AngleKnobPreset::Krita => (
                Orientation::Right,
                Winding::Counterclockwise,
                WrapMode::Signed,
            ),
            AngleKnobPreset::LibreOffice => (
                Orientation::Right,
                Winding::Counterclockwise,
                WrapMode::Unsigned,
            ),
            AngleKnobPreset::QtWidgets => (
                Orientation::Bottom,
                Winding::Clockwise,
                WrapMode::Unsigned,
            ),
        }
    }

    /// Look up the orientation, winding and wrap mode this preset bundles.
    pub fn properties(&self) -> (p: (Orientation, Winding, WrapMode))
        ensures
            p == self.properties_spec(),
    {
        match *self {
            AngleKnobPreset::AdobePhotoshop => (
                Orientation::Right,
                Winding::Counterclockwise,
                WrapMode::Signed,
            ),
            AngleKnobPreset::AdobePremierePro => (
                Orientation::Top,
                Winding::Clockwise,
                WrapMode::Free,
            ),
            AngleKnobPreset::Gimp => (
                Orientation::Right,
                Winding::Counterclockwise,
                WrapMode::Unsigned,
            ),
            AngleKnobPreset::GoogleChromeDevTools => (
                Orientation::Top,
                Winding::Clockwise,
                WrapMode::Unsigned,
            ),
            AngleKnobPreset::Krita => (
                Orientation::Right,
                Winding::Counterclockwise,
                WrapMode::Signed,
            ),
            AngleKnobPreset::LibreOffice => (
                Orientation::Right,
                Winding::Counterclockwise,
                WrapMode::Unsigned,
            ),
            AngleKnobPreset::QtWidgets => (
                Orientation::Bottom,
                Winding::Clockwise,
                WrapMode::Unsigned,
            ),
        }
    }
}

/// An optional configured angle stays within the machine limit of the
/// angle pipeline.
pub open spec fn opt_angle_wf(o: Option<i64>) -> bool {
    match o {
        Option::Some(v) => -ANGLE_MAX <= v <= ANGLE_MAX,
        Option::None => true,
    }
}

/// One drawing primitive of a dial face, in polar form: rays run from the
/// center to the outline point at the carried shape-space angle (already
/// reduced to `[0, TURN)`), and the host resolves them against the configured
/// shape, diameter and orientation.
#[derive(Clone, Copy, Debug, PartialEq, Eq, Structural)]
pub enum PaintOp {
    /// The closed shape outline at full radius.
    Outline,
    /// A dashed gridline from the center to the outline.
    AxisLine { shape_angle: i64 },
    /// A min/max stop tick, with its fade opacity in `UNIT_SCALE` units.
    StopLine { shape_angle: i64, alpha: i64 },
    /// The needle from the center to the outline point at the current value.
    Needle { shape_angle: i64 },
    /// A small filled marker at the center.
    CenterDot,
    /// A small filled marker at the needle tip.
    TipDot { shape_angle: i64 },
}

/// Per-frame configuration of an angle knob, rebuilt by the caller for every
/// frame through the chainable setters. The value itself is owned by the
/// caller and handed to `update` and `paint_ops` directly.
pub struct AngleKnob {
    pub diameter: u32,
    pub orientation: Orientation,
    pub winding: Winding,
    pub shape: WidgetShape,
    pub wrap: WrapMode,
    pub min: Option<i64>,
    pub max: Option<i64>,
    pub snap: Option<i64>,
    pub shift_snap: Option<i64>,
    pub show_axes: bool,
    pub axis_count: usize,
}

impl AngleKnob {
    /// The default configuration: a 32-pixel circle pointing up, clockwise,
    /// unsigned wrap, no stops, no snap, shift-snap of a 24th of a turn (15°),
    /// four axes.
    pub open spec fn default_spec() -> AngleKnob {
        AngleKnob {
            diameter: 32,
            orientation: Orientation::Top,
            winding: Winding::Clockwise,
            shape: WidgetShape::Circle,
            wrap: WrapMode::Unsigned,
            min: Option::None,
            max: Option::None,
            snap: Option::None,
            shift_snap: Option::Some(54_000),
            show_axes: true,
            axis_count: 4,
        }
    }

    /// A fresh knob configuration with the defaults.
    pub fn new() -> (k: AngleKnob)
        ensures
            k == Self::default_spec(),
    {
        AngleKnob {
            diameter: 32,
            orientation: Orientation::Top,
            winding: Winding::Clockwise,
            shape: WidgetShape::Circle,
            wrap: WrapMode::Unsigned,
            min: Option::None,
            max: Option::None,
            snap: Option::None,
            shift_snap: Option::Some(54_000),
            show_axes: true,
            axis_count: 4,
        }
    }

    /// Seed orientation, winding and wrap mode from a preset.
    pub fn preset(self, preset: AngleKnobPreset) -> (k: AngleKnob)
        ensures
            k == (AngleKnob {
                orientation: preset.properties_spec().0,
                winding: preset.properties_spec().1,
                wrap: preset.properties_spec().2,
                ..self
            }),
    {
        let (orientation, winding, wrap) = preset.properties();
        AngleKnob { orientation, winding, wrap, ..self }
    }

    /// Set the widget diameter in pixels.
    pub fn diameter(self, diameter: u32) -> (k: AngleKnob)
        ensures
            k == (AngleKnob { diameter, ..self }),
    {
        AngleKnob { diameter, ..self }
    }

    /// Set the winding direction.
    pub fn winding(self, winding: Winding) -> (k: AngleKnob)
        ensures
            k == (AngleKnob { winding, ..self }),
    {
        AngleKnob { winding, ..self }
    }

    /// Set the orientation of angle zero.
    pub fn orientation(self, orientation: Orientation) -> (k: AngleKnob)
        ensures
            k == (AngleKnob { orientation, ..self }),
    {
        AngleKnob { orientation, ..self }
    }

    /// Set the outline shape.
    pub fn shape(self, shape: WidgetShape) -> (k: AngleKnob)
        ensures
            k == (AngleKnob { shape, ..self }),
    {
        AngleKnob { shape, ..self }
    }

    /// Set the wrap mode.
    pub fn wrap(self, wrap: WrapMode) -> (k: AngleKnob)
        ensures
            k == (AngleKnob { wrap, ..self }),
    {
        AngleKnob { wrap, ..self }
    }

    /// Set or clear the minimum stop, in angle units.
    pub fn min(self, min: Option<i64>) -> (k: AngleKnob)
        ensures
            k == (AngleKnob { min, ..self }),
    {
        AngleKnob { min, ..self }
    }

    /// Set or clear the maximum stop, in angle units.
    pub fn max(self, max: Option<i64>) -> (k: AngleKnob)
        ensures
            k == (AngleKnob { max, ..self }),
    {
        AngleKnob { max, ..self }
    }

    /// Set or clear the snap increment, in angle units.
    pub fn snap(self, snap: Option<i64>) -> (k: AngleKnob)
        ensures
            k == (AngleKnob { snap, ..self }),
    {
        AngleKnob { snap, ..self }
    }

    /// Set or clear the snap increment used while shift is held.
    pub fn shift_snap(self, shift_snap: Option<i64>) -> (k: AngleKnob)
        ensures
            k == (AngleKnob { shift_snap, ..self }),
    {
        AngleKnob { shift_snap, ..self }
    }

    /// Show or hide the axis gridlines.
    pub fn show_axes(self, show_axes: bool) -> (k: AngleKnob)
        ensures
            k == (AngleKnob { show_axes, ..self }),
    {
        AngleKnob { show_axes, ..self }
    }

    /// Set how many axis gridlines are spread over the full turn.
    pub fn axis_count(self, axis_count: usize) -> (k: AngleKnob)
        ensures
            k == (AngleKnob { axis_count, ..self }),
    {
        AngleKnob { axis_count, ..self }
    }

    /// Every configured angle lies within the machine limit.
    pub open spec fn wf(&self) -> bool {
        &&& self.orientation.wf()
        &&& opt_angle_wf(self.min)
        &&& opt_angle_wf(self.max)
        &&& opt_angle_wf(self.snap)
        &&& opt_angle_wf(self.shift_snap)
    }

    /// The snap increment in force: the shift increment while shift is held,
    /// the plain one otherwise, with no fallback between the two.
    pub open spec fn effective_snap_spec(&self, shift_held: bool) -> Option<i64> {
        if shift_held {
            self.shift_snap
        } else {
            self.snap
        }
    }

    /// The dial angle pointed at: the orientation rotation is undone by
    /// subtracting its angle before the atan2 result is reduced, and the
    /// winding sign is applied.
    pub open spec fn raw_angle_spec(&self, pointer_angle: int) -> int {
        self.winding.sign_spec() * norm_signed_spec(pointer_angle - self.orientation.rotation_spec())
    }

    /// The value written back for a pointer event: the pointed-at angle,
    /// snapped onto the effective increment, wrapped by the wrap mode
    /// (`Signed` adds nothing beyond the construction of the raw angle, and in
    /// particular applies no multi-turn adjustment), then clamped to the
    /// stops.
    pub open spec fn update_spec(&self, prev_value: int, pointer_angle: int, shift_held: bool) -> int {
        let raw = self.raw_angle_spec(pointer_angle);
        let snapped = match self.effective_snap_spec(shift_held) {
            Option::Some(inc) => snap_spec(raw, inc as int),
            Option::None => raw,
        };
        let wrapped = match self.wrap {
            WrapMode::Unsigned => norm_unsigned_spec(snapped),
            WrapMode::Free => wrap_free_spec(prev_value, snapped),
            WrapMode::Signed => snapped,
        };
        clamp_spec(wrapped, self.min, self.max)
    }

    /// React to a click or drag: compute the new value from the angle of the
    /// pointer offset (the atan2 of the offset from the widget center, in
    /// angle units, as the host measured it on screen). A configured
    /// non-positive snap increment is a programming error and is excluded
    /// here; the host asserts it before calling.
    pub fn update(&self, prev_value: i64, pointer_angle: i64, shift_held: bool) -> (new_value: i64)
        requires
            self.wf(),
            -ANGLE_MAX <= prev_value <= ANGLE_MAX,
            -HALF_TURN <= pointer_angle <= HALF_TURN,
            (match self.effective_snap_spec(shift_held) {
                Option::Some(inc) => inc > 0,
                Option::None => true,
            }),
        ensures
            new_value == self.update_spec(prev_value as int, pointer_angle as int, shift_held),
    {
        let rot = self.orientation.rotation_angle();
        let sign = self.winding.sign();
        let raw = sign * normalize_signed(pointer_angle - rot);
        let eff = if shift_held {
            self.shift_snap
        } else {
            self.snap
        };
        let snapped = match eff {
            Option::Some(inc) => snap_angle(raw, inc),
            Option::None => raw,
        };
        let wrapped = match self.wrap {
            WrapMode::Unsigned => normalize_unsigned(snapped),
            WrapMode::Free => wrap_free_adjust(prev_value, snapped),
            WrapMode::Signed => snapped,
        };
        clamp_to_range(wrapped, self.min, self.max)
    }

    /// Under unsigned wrap with no stops configured, every value the knob
    /// writes back lies in `[0, TURN)`.
    pub proof fn lemma_update_unsigned_range(
        &self,
        prev_value: int,
        pointer_angle: int,
        shift_held: bool,
    )
        requires
            self.wrap == WrapMode::Unsigned,
            self.min is None,
            self.max is None,
        ensures
            0 <= self.update_spec(prev_value, pointer_angle, shift_held) < TURN as int,
    {
        let raw = self.raw_angle_spec(pointer_angle);
        let snapped = match self.effective_snap_spec(shift_held) {
            Option::Some(inc) => snap_spec(raw, inc as int),
            Option::None => raw,
        };
        crate::angle::lemma_norm_unsigned_periodic(snapped, 0);
    }

    /// Under free-spin wrap with no snap and no stops, the written value stays
    /// within half a turn of the previous value: the knob always takes the
    /// shorter angular path.
    pub proof fn lemma_update_free_shortest_path(
        &self,
        prev_value: int,
        pointer_angle: int,
        shift_held: bool,
    )
        requires
            self.wrap == WrapMode::Free,
            self.effective_snap_spec(shift_held) is None,
            self.min is None,
            self.max is None,
        ensures
            -(HALF_TURN as int) <= self.update_spec(prev_value, pointer_angle, shift_held)
                - prev_value <= HALF_TURN as int,
    {
        let reduced = norm_signed_spec(pointer_angle - self.orientation.rotation_spec());
        crate::angle::lemma_norm_signed_range(pointer_angle - self.orientation.rotation_spec());
        let raw = self.raw_angle_spec(pointer_angle);
        match self.winding {
            Winding::Clockwise => {
                assert(raw == reduced);
            },
            Winding::Counterclockwise => {
                assert(raw == -reduced);
            },
        }
        crate::angle::lemma_wrap_free_shortest_path(prev_value, raw);
    }

    /// With ordered stops configured, every value the knob writes back lies
    /// between them.
    pub proof fn lemma_update_within_stops(
        &self,
        prev_value: int,
        pointer_angle: int,
        shift_held: bool,
        lo: i64,
        hi: i64,
    )
        requires
            self.min == Option::Some(lo),
            self.max == Option::Some(hi),
            lo <= hi,
        ensures
            lo <= self.update_spec(prev_value, pointer_angle, shift_held) <= hi,
    {
        let raw = self.raw_angle_spec(pointer_angle);
        let snapped = match self.effective_snap_spec(shift_held) {
            Option::Some(inc) => snap_spec(raw, inc as int),
            Option::None => raw,
        };
        let wrapped = match self.wrap {
            WrapMode::Unsigned => norm_unsigned_spec(snapped),
            WrapMode::Free => wrap_free_spec(prev_value, snapped),
            WrapMode::Signed => snapped,
        };
        crate::angle::lemma_clamp_bounds(wrapped, lo, hi);
    }

    /// The dial angle of the `i`-th axis gridline: the full turn divided
    /// evenly, rounded down to the angle grid.
    pub open spec fn axis_dial_angle_spec(&self, i: int) -> int {
        i * (TURN as int) / (self.axis_count as int)
    }

    /// The reduced shape-space angle of the `i`-th axis gridline.
    pub open spec fn axis_angle_spec(&self, i: int) -> int {
        outline_angle_spec(self.winding, self.axis_dial_angle_spec(i))
    }

    fn axis_angle(&self, i: usize) -> (r: i64)
        requires
            i < self.axis_count,
        ensures
            r == self.axis_angle_spec(i as int),
    {
        let num: u128 = (i as u128) * 1_296_000;
        let dial = (num / (self.axis_count as u128)) as i64;
        proof {
            lemma_mul_nonnegative(i as int, TURN as int);
            vstd::arithmetic::div_mod::lemma_div_pos_is_pos(num as int, self.axis_count as int);
            assert(num < (self.axis_count as int) * (TURN as int)) by {
                lemma_mul_inequality(i as int, self.axis_count as int - 1, TURN as int);
                assert((self.axis_count as int - 1) * (TURN as int)
                    == (self.axis_count as int) * (TURN as int) - TURN as int) by {
                    vstd::arithmetic::mul::lemma_mul_is_distributive_sub_other_way(
                        TURN as int,
                        self.axis_count as int,
                        1,
                    );
                }
            }
            lemma_multiply_divide_lt(num as int, self.axis_count as int, TURN as int);
        }
        outline_angle(&self.winding, dial)
    }

    /// The axis gridline primitives: one per axis when axes are shown, at
    /// evenly spaced dial angles, none otherwise.
    pub open spec fn axis_ops_spec(&self) -> Seq<PaintOp> {
        if self.show_axes {
            Seq::new(
                self.axis_count as nat,
                |i: int| PaintOp::AxisLine { shape_angle: self.axis_angle_spec(i) as i64 },
            )
        } else {
            Seq::empty()
        }
    }

    /// The stop-tick primitives: one per configured bound, the minimum first,
    /// each faded by its angular distance from the current value.
    pub open spec fn stop_ops_spec(&self, value: int) -> Seq<PaintOp> {
        let min_ops = match self.min {
            Option::Some(m) => seq![
                PaintOp::StopLine {
                    shape_angle: outline_angle_spec(self.winding, m as int) as i64,
                    alpha: fade_spec(m as int, value) as i64,
                },
            ],
            Option::None => Seq::empty(),
        };
        let max_ops = match self.max {
            Option::Some(m) => seq![
                PaintOp::StopLine {
                    shape_angle: outline_angle_spec(self.winding, m as int) as i64,
                    alpha: fade_spec(m as int, value) as i64,
                },
            ],
            Option::None => Seq::empty(),
        };
        min_ops + max_ops
    }

    /// Everything a frame draws, in paint order: the outline, the axis
    /// gridlines, the stop ticks, and the needle with its center and tip
    /// markers.
    pub open spec fn paint_ops_spec(&self, value: int) -> Seq<PaintOp> {
        seq![PaintOp::Outline] + self.axis_ops_spec() + self.stop_ops_spec(value) + seq![
            PaintOp::Needle { shape_angle: outline_angle_spec(self.winding, value) as i64 },
            PaintOp::CenterDot,
            PaintOp::TipDot { shape_angle: outline_angle_spec(self.winding, value) as i64 },
        ]
    }

    /// Compute the frame's drawing primitives for the current value.
    pub fn paint_ops(&self, value: i64) -> (ops: Vec<PaintOp>)
        requires
            self.wf(),
            -ANGLE_MAX <= value <= ANGLE_MAX,
        ensures
            ops@ == self.paint_ops_spec(value as int),
    {
        let mut ops: Vec<PaintOp> = Vec::new();
        ops.push(PaintOp::Outline);
        if self.show_axes {
            let mut i: usize = 0;
            while i < self.axis_count
                invariant
                    i <= self.axis_count,
                    self.show_axes,
                    ops@ == seq![PaintOp::Outline] + self.axis_ops_spec().take(i as int),
                decreases self.axis_count - i,
            {
                let a = self.axis_angle(i);
                ops.push(PaintOp::AxisLine { shape_angle: a });
                proof {
                    assert(ops@ =~= seq![PaintOp::Outline] + self.axis_ops_spec().take(
                        i as int + 1,
                    ));
                }
                i += 1;
            }
            proof {
                assert(self.axis_ops_spec().take(self.axis_count as int) =~= self.axis_ops_spec());
            }
        }
        if let Option::Some(m) = self.min {
            let alpha = stop_fade(m, value);
            let sa = outline_angle(&self.winding, m);
            ops.push(PaintOp::StopLine { shape_angle: sa, alpha });
        }
        if let Option::Some(m) = self.max {
            let alpha = stop_fade(m, value);
            let sa = outline_angle(&self.winding, m);
            ops.push(PaintOp::StopLine { shape_angle: sa, alpha });
        }
        let needle = outline_angle(&self.winding, value);
        ops.push(PaintOp::Needle { shape_angle: needle });
        ops.push(PaintOp::CenterDot);
        ops.push(PaintOp::TipDot { shape_angle: needle });
        proof {
            assert(ops@ =~= self.paint_ops_spec(value as int));
        }
        ops
    }
}

} // verus!
