//! Shared dial vocabulary: orientation, winding direction, wrap mode and the
//! parametric shape outline.

use vstd::prelude::*;
use crate::angle::{
    lemma_norm_unsigned_periodic, norm_signed_spec, norm_unsigned_spec, normalize_signed,
    normalize_unsigned, ANGLE_MAX, HALF_TURN, QUARTER_TURN, TURN,
};

verus! {

/// Fixed-point one: radius multipliers and opacities count millionths.
pub const UNIT_SCALE: i64 = 1_000_000;

/// Where dial angle zero points on screen, as the angle (in angle units,
/// screen coordinates with y growing downwards) by which shape space is
/// rotated into screen space. Each variant stands for exactly one rotation.
#[derive(Clone, Copy, Debug, PartialEq, Eq, Structural)]
pub enum Orientation {
    Top,
    Right,
    Bottom,
    Left,
    Custom(i64),
}

impl Orientation {
    /// The rotation angle of this orientation, in angle units.
    pub open spec fn rotation_spec(&self) -> int {
        match *self {
            Orientation::Top => -(QUARTER_TURN as int),
            Orientation::Right => 0,
            Orientation::Bottom => QUARTER_TURN as int,
            Orientation::Left => HALF_TURN as int,
            Orientation::Custom(a) => a as int,
        }
    }

    /// A custom rotation angle stays within the machine limit of the
    /// angle pipeline.
    pub open spec fn wf(&self) -> bool {
        -ANGLE_MAX <= self.rotation_spec() <= ANGLE_MAX
    }

    /// The angle of the screen-space rotation this orientation stands for.
    pub fn rotation_angle(&self) -> (r: i64)
        ensures
            r == self.rotation_spec(),
    {
        match *self {
            Orientation::Top => -QUARTER_TURN,
            Orientation::Right => 0,
            Orientation::Bottom => QUARTER_TURN,
            Orientation::Left => HALF_TURN,
            Orientation::Custom(a) => a,
        }
    }
}

/// Which rotational sense counts as the positive angular direction.
#[derive(Clone, Copy, Debug, PartialEq, Eq, Structural)]
pub enum Winding {
    Clockwise,
    Counterclockwise,
}

impl Winding {
    /// The sign multiplier applied to raw angles: exactly +1 or -1, clockwise
    /// positive in screen coordinates (y grows downwards).
    pub open spec fn sign_spec(&self) -> int {
        match *self {
            Winding::Clockwise => 1,
            Winding::Counterclockwise => -1,
        }
    }

    /// The sign multiplier applied to raw angle deltas.
    pub fn sign(&self) -> (s: i64)
        ensures
            s == self.sign_spec(),
            s == 1 || s == -1,
    {
        match *self {
            Winding::Clockwise => 1,
            Winding::Counterclockwise => -1,
        }
    }
}

/// How a dial value is normalized across full-turn boundaries. `Free` allows
/// unbounded multi-turn accumulation: within a single call it does not
/// normalize at all, and continuity across turns is the caller's business
/// (see `angle::wrap_free_adjust`).
#[derive(Clone, Copy, Debug, PartialEq, Eq, Structural)]
pub enum WrapMode {
    Signed,
    Unsigned,
    Free,
}

impl WrapMode {
    /// Normalization applied by this wrap mode within a single call.
    pub open spec fn normalize_spec(&self, a: int) -> int {
        match *self {
            WrapMode::Signed => norm_signed_spec(a),
            WrapMode::Unsigned => norm_unsigned_spec(a),
            WrapMode::Free => a,
        }
    }

    /// Normalize an angle as this wrap mode prescribes: `Unsigned` into
    /// `[0, 2π)`, `Signed` into `(-π, π]`, `Free` unchanged.
    pub fn normalize(&self, a: i64) -> (r: i64)
        ensures
            r == self.normalize_spec(a as int),
    {
        match *self {
            WrapMode::Signed => normalize_signed(a),
            WrapMode::Unsigned => normalize_unsigned(a),
            WrapMode::Free => a,
        }
    }
}

/// Parametric outline of a dial face: a map from shape-space angle to a radius
/// multiplier in `(0, 1]`, continuous and periodic over one turn.
#[derive(Clone, Copy, Debug, PartialEq, Eq, Structural)]
pub enum WidgetShape {
    Circle,
    /// Squircle with the given exponent in thousandths (4000 stands for 4.0).
    Squircle(u32),
}

impl WidgetShape {
    /// The radius multiplier where the profile is exactly representable on the
    /// fixed-point grid: a circle is flat at one. A squircle profile is
    /// transcendental, so only the host's floating-point evaluation can
    /// produce it; it receives the same reduced angle (see `outline_angle`).
    pub open spec fn eval_spec(&self) -> Option<i64> {
        match *self {
            WidgetShape::Circle => Option::Some(UNIT_SCALE),
            WidgetShape::Squircle(_) => Option::None,
        }
    }

    /// Radius multiplier of the outline, in `UNIT_SCALE` units, for variants
    /// whose profile the fixed-point grid represents exactly.
    pub fn eval(&self) -> (scale: Option<i64>)
        ensures
            scale == self.eval_spec(),
    {
        match *self {
            WidgetShape::Circle => Option::Some(UNIT_SCALE),
            WidgetShape::Squircle(_) => Option::None,
        }
    }
}

/// The shape-space angle at which the outline is sampled for dial angle `a`:
/// the winding sign is applied and the result is reduced to one turn, so every
/// outline profile sees an argument in `[0, TURN)`.
pub open spec fn outline_angle_spec(w: Winding, a: int) -> int {
    norm_unsigned_spec(w.sign_spec() * a)
}

/// Compute the reduced shape-space outline angle for dial angle `a`.
pub fn outline_angle(w: &Winding, a: i64) -> (r: i64)
    requires
        -0x4000_0000_0000_0000 <= a <= 0x4000_0000_0000_0000,
    ensures
        r == outline_angle_spec(*w, a as int),
        0 <= r < TURN,
{
    let s = w.sign();
    normalize_unsigned(s * a)
}

/// Outline periodicity: the outline sample for a dial angle repeats each full
/// turn, for every winding and hence for every shape variant, which sees only
/// the reduced angle.
pub proof fn lemma_outline_periodic(w: Winding, a: int)
    ensures
        outline_angle_spec(w, a + TURN as int) == outline_angle_spec(w, a),
{
    let s = w.sign_spec();
    match w {
        Winding::Clockwise => {
            assert(s * (a + TURN as int) == s * a + s * (TURN as int));
        },
        Winding::Counterclockwise => {
            assert(s * (a + TURN as int) == s * a + s * (TURN as int));
        },
    }
    lemma_norm_unsigned_periodic(s * a, s);
}

} // verus!
