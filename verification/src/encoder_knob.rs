//! The encoder knob: a dial whose value is an unbounded accumulator. Drag
//! motion is added up relative to the previous value — no absolute angle is
//! derived from the pointer, and no wrap, snap or clamp applies. The face is a
//! center disk, spokes that rotate rigidly with the value, and an outer ring.

use vstd::prelude::*;
use crate::angle::TURN;
use crate::common::{outline_angle, outline_angle_spec, UNIT_SCALE, WidgetShape, Winding};
use vstd::arithmetic::div_mod::{
    lemma_div_is_ordered, lemma_div_multiples_vanish, lemma_div_of0, lemma_div_pos_is_pos,
    lemma_multiply_divide_lt,
};
use vstd::arithmetic::mul::{
    lemma_mul_inequality, lemma_mul_nonnegative, lemma_mul_unary_negation,
    lemma_mul_upper_bound,
};

verus! {

/// Largest accumulator magnitude the encoder accepts: far beyond any real
/// drag history, and a machine limit only — it keeps the accumulation inside
/// `i64`.
pub const ENCODER_VALUE_MAX: i64 = 1_000_000_000_000_000_000;

/// Largest single-event pointer delta, in angle units.
pub const DRAG_DELTA_MAX: i64 = 1_000_000_000;

/// Largest accepted diameter, in pixels.
pub const DIAMETER_MAX: u32 = 100_000;

/// Largest accepted drag-length magnitude, in `UNIT_SCALE` units.
pub const DRAG_LENGTH_MAX: i64 = 1_000_000_000;

/// Integer division truncated towards zero, how the accumulator gain scales
/// back from `UNIT_SCALE` units.
pub open spec fn trunc_div_spec(a: int, b: int) -> int
    recommends
        b > 0,
{
    if a >= 0 {
        a / b
    } else {
        -((-a) / b)
    }
}

/// One drawing primitive of an encoder face, in polar form as in
/// `angle_knob::PaintOp`.
#[derive(Clone, Copy, Debug, PartialEq, Eq, Structural)]
pub enum EncoderPaintOp {
    /// A filled disk at the center, a third of the diameter.
    CenterDisk,
    /// A spoke from the center to the outline, carried along by the value.
    Spoke { shape_angle: i64 },
    /// The outer ring outline at full radius.
    Ring,
}

/// Per-frame configuration of an encoder knob, rebuilt by the caller for
/// every frame through the chainable setters.
pub struct EncoderKnob {
    pub interactive: bool,
    pub diameter: u32,
    /// Drag sensitivity in `UNIT_SCALE` units: the value gains
    /// `delta * diameter * drag_length` per event.
    pub drag_length: i64,
    pub winding: Winding,
    /// Ring thickness as a fraction of the radius, in `UNIT_SCALE` units.
    pub thickness: i64,
    pub shape: WidgetShape,
    pub animated: bool,
    pub show_axes: bool,
    pub axis_count: usize,
}

impl EncoderKnob {
    /// The default configuration: an interactive, animated 32-pixel circle,
    /// clockwise, unit drag length, two-thirds ring thickness, ten spokes.
    pub open spec fn default_spec() -> EncoderKnob {
        EncoderKnob {
            interactive: true,
            diameter: 32,
            drag_length: 1_000_000,
            winding: Winding::Clockwise,
            thickness: 660_000,
            shape: WidgetShape::Circle,
            animated: true,
            show_axes: true,
            axis_count: 10,
        }
    }

    /// A fresh encoder configuration with the defaults.
    pub fn new() -> (k: EncoderKnob)
        ensures
            k == Self::default_spec(),
    {
        EncoderKnob {
            interactive: true,
            diameter: 32,
            drag_length: 1_000_000,
            winding: Winding::Clockwise,
            thickness: 660_000,
            shape: WidgetShape::Circle,
            animated: true,
            show_axes: true,
            axis_count: 10,
        }
    }

    /// Enable or disable interaction.
    pub fn interactive(self, interactive: bool) -> (k: EncoderKnob)
        ensures
            k == (EncoderKnob { interactive, ..self }),
    {
        EncoderKnob { interactive, ..self }
    }

    /// Set the widget diameter in pixels.
    pub fn diameter(self, diameter: u32) -> (k: EncoderKnob)
        ensures
            k == (EncoderKnob { diameter, ..self }),
    {
        EncoderKnob { diameter, ..self }
    }

    /// Set the drag sensitivity, in `UNIT_SCALE` units.
    pub fn drag_length(self, drag_length: i64) -> (k: EncoderKnob)
        ensures
            k == (EncoderKnob { drag_length, ..self }),
    {
        EncoderKnob { drag_length, ..self }
    }

    /// Set the winding direction.
    pub fn winding(self, winding: Winding) -> (k: EncoderKnob)
        ensures
            k == (EncoderKnob { winding, ..self }),
    {
        EncoderKnob { winding, ..self }
    }

    /// Set the ring thickness, in `UNIT_SCALE` units of the radius.
    pub fn thickness(self, thickness: i64) -> (k: EncoderKnob)
        ensures
            k == (EncoderKnob { thickness, ..self }),
    {
        EncoderKnob { thickness, ..self }
    }

    /// Set the outline shape.
    pub fn shape(self, shape: WidgetShape) -> (k: EncoderKnob)
        ensures
            k == (EncoderKnob { shape, ..self }),
    {
        EncoderKnob { shape, ..self }
    }

    /// Enable or disable release smoothing, a rendering-only concern of the
    /// host's animation facility; the authoritative value is never animated.
    pub fn animated(self, animated: bool) -> (k: EncoderKnob)
        ensures
            k == (EncoderKnob { animated, ..self }),
    {
        EncoderKnob { animated, ..self }
    }

    /// Show or hide the spokes.
    pub fn show_axes(self, show_axes: bool) -> (k: EncoderKnob)
        ensures
            k == (EncoderKnob { show_axes, ..self }),
    {
        EncoderKnob { show_axes, ..self }
    }

    /// Set how many spokes are spread over the full turn.
    pub fn axis_count(self, axis_count: usize) -> (k: EncoderKnob)
        ensures
            k == (EncoderKnob { axis_count, ..self }),
    {
        EncoderKnob { axis_count, ..self }
    }

    /// The configured gains stay within the machine limits.
    pub open spec fn wf(&self) -> bool {
        &&& self.diameter <= DIAMETER_MAX
        &&& -DRAG_LENGTH_MAX <= self.drag_length <= DRAG_LENGTH_MAX
    }

    /// The signed drag delta: the horizontal motion plus the vertical motion
    /// weighted by the winding sign.
    pub open spec fn drag_delta_spec(&self, dx: int, dy: int) -> int {
        dx + self.winding.sign_spec() * dy
    }

    /// The accumulator after a drag event: the delta, scaled by the diameter
    /// and the drag length, is added to the value.
    pub open spec fn drag_update_spec(&self, value: int, dx: int, dy: int) -> int {
        value + trunc_div_spec(
            self.drag_delta_spec(dx, dy) * (self.diameter as int) * (self.drag_length as int),
            UNIT_SCALE as int,
        )
    }

    /// Accumulate a drag event into the value. `dx` and `dy` are the pointer
    /// delta of this event in angle units, as converted by the host.
    pub fn drag_update(&self, value: i64, dx: i64, dy: i64) -> (new_value: i64)
        requires
            self.wf(),
            -ENCODER_VALUE_MAX <= value <= ENCODER_VALUE_MAX,
            -DRAG_DELTA_MAX <= dx <= DRAG_DELTA_MAX,
            -DRAG_DELTA_MAX <= dy <= DRAG_DELTA_MAX,
        ensures
            new_value == self.drag_update_spec(value as int, dx as int, dy as int),
            -2 * ENCODER_VALUE_MAX <= new_value <= 2 * ENCODER_VALUE_MAX,
    {
        let sign = self.winding.sign();
        let delta: i64 = dx + sign * dy;
        let dl = self.drag_length;
        let da: u64 = if delta >= 0 {
            delta as u64
        } else {
            (-delta) as u64
        };
        let la: u64 = if dl >= 0 {
            dl as u64
        } else {
            (-dl) as u64
        };
        proof {
            lemma_mul_upper_bound(da as int, 2 * DRAG_DELTA_MAX as int, self.diameter as int,
                DIAMETER_MAX as int);
            lemma_mul_nonnegative(da as int, self.diameter as int);
            lemma_mul_upper_bound((da as int) * (self.diameter as int),
                2 * (DRAG_DELTA_MAX as int) * (DIAMETER_MAX as int), la as int,
                DRAG_LENGTH_MAX as int);
            lemma_mul_nonnegative((da as int) * (self.diameter as int), la as int);
        }
        let mag: u128 = (da as u128) * (self.diameter as u128) * (la as u128);
        let q: u128 = mag / 1_000_000;
        proof {
            lemma_div_pos_is_pos(mag as int, UNIT_SCALE as int);
            lemma_div_is_ordered(
                mag as int,
                200_000_000_000_000_000_000_000,
                UNIT_SCALE as int,
            );
            lemma_div_multiples_vanish(200_000_000_000_000_000, UNIT_SCALE as int);
        }
        let gain: i64 = if (delta < 0) != (dl < 0) {
            -(q as i64)
        } else {
            q as i64
        };
        proof {
            let p = (delta as int) * (self.diameter as int) * (dl as int);
            let m = (da as int) * (self.diameter as int) * (la as int);
            if delta >= 0 {
                if dl >= 0 {
                    assert(p == m);
                } else {
                    assert(p == -m) by {
                        lemma_mul_unary_negation((delta as int) * (self.diameter as int), la as int);
                    }
                }
            } else {
                if dl >= 0 {
                    assert(p == -m) by {
                        lemma_mul_unary_negation(da as int, self.diameter as int);
                        lemma_mul_unary_negation((da as int) * (self.diameter as int), dl as int);
                    }
                } else {
                    assert(p == m) by {
                        lemma_mul_unary_negation(da as int, self.diameter as int);
                        vstd::arithmetic::mul::lemma_mul_cancels_negatives(
                            (da as int) * (self.diameter as int),
                            la as int,
                        );
                    }
                }
            }
            if p == 0 {
                lemma_div_of0(UNIT_SCALE as int);
            }
            assert(gain == trunc_div_spec(p, UNIT_SCALE as int));
        }
        value + gain
    }

    /// The dial angle of the `i`-th spoke for the current value: the evenly
    /// spaced axis angle carried along by the value.
    pub open spec fn spoke_dial_angle_spec(&self, i: int, value: int) -> int {
        i * (TURN as int) / (self.axis_count as int) + value
    }

    /// The reduced shape-space angle of the `i`-th spoke.
    pub open spec fn spoke_angle_spec(&self, i: int, value: int) -> int {
        outline_angle_spec(self.winding, self.spoke_dial_angle_spec(i, value))
    }

    fn spoke_angle(&self, i: usize, value: i64) -> (r: i64)
        requires
            i < self.axis_count,
            -2 * ENCODER_VALUE_MAX <= value <= 2 * ENCODER_VALUE_MAX,
        ensures
            r == self.spoke_angle_spec(i as int, value as int),
    {
        let num: u128 = (i as u128) * 1_296_000;
        let axis = (num / (self.axis_count as u128)) as i64;
        proof {
            lemma_mul_nonnegative(i as int, TURN as int);
            lemma_div_pos_is_pos(num as int, self.axis_count as int);
            assert(num < (self.axis_count as int) * (TURN as int)) by {
                lemma_mul_inequality(i as int, self.axis_count as int - 1, TURN as int);
                assert((self.axis_count as int - 1) * (TURN as int)
                    == (self.axis_count as int) * (TURN as int) - TURN as int) by {
                    vstd::arithmetic::mul::lemma_mul_is_distributive_sub_other_way(
                        TURN as int,
                        self.axis_count as int,
                        1,
                    );
                }
            }
            lemma_multiply_divide_lt(num as int, self.axis_count as int, TURN as int);
        }
        outline_angle(&self.winding, axis + value)
    }

    /// The spoke primitives: one per axis when axes are shown, rotated
    /// rigidly with the value, none otherwise.
    pub open spec fn spoke_ops_spec(&self, value: int) -> Seq<EncoderPaintOp> {
        if self.show_axes {
            Seq::new(
                self.axis_count as nat,
                |i: int| EncoderPaintOp::Spoke {
                    shape_angle: self.spoke_angle_spec(i, value) as i64,
                },
            )
        } else {
            Seq::empty()
        }
    }

    /// Everything a frame draws, in paint order: the center disk, the spokes,
    /// and the outer ring.
    pub open spec fn paint_ops_spec(&self, value: int) -> Seq<EncoderPaintOp> {
        seq![EncoderPaintOp::CenterDisk] + self.spoke_ops_spec(value) + seq![EncoderPaintOp::Ring]
    }

    /// Compute the frame's drawing primitives for the current (possibly
    /// animation-smoothed) value.
    pub fn paint_ops(&self, value: i64) -> (ops: Vec<EncoderPaintOp>)
        requires
            -2 * ENCODER_VALUE_MAX <= value <= 2 * ENCODER_VALUE_MAX,
        ensures
            ops@ == self.paint_ops_spec(value as int),
    {
        let mut ops: Vec<EncoderPaintOp> = Vec::new();
        ops.push(EncoderPaintOp::CenterDisk);
        if self.show_axes {
            let mut i: usize = 0;
            while i < self.axis_count
                invariant
                    i <= self.axis_count,
                    self.show_axes,
                    -2 * ENCODER_VALUE_MAX <= value <= 2 * ENCODER_VALUE_MAX,
                    ops@ == seq![EncoderPaintOp::CenterDisk] + self.spoke_ops_spec(
                        value as int,
                    ).take(i as int),
                decreases self.axis_count - i,
            {
                let a = self.spoke_angle(i, value);
                ops.push(EncoderPaintOp::Spoke { shape_angle: a });
                proof {
                    assert(ops@ =~= seq![EncoderPaintOp::CenterDisk] + self.spoke_ops_spec(
                        value as int,
                    ).take(i as int + 1));
                }
                i += 1;
            }
            proof {
                assert(self.spoke_ops_spec(value as int).take(self.axis_count as int)
                    =~= self.spoke_ops_spec(value as int));
            }
        }
        ops.push(EncoderPaintOp::Ring);
        proof {
            assert(ops@ =~= self.paint_ops_spec(value as int));
        }
        ops
    }
}

} // verus!
