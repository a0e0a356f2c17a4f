//! Geometry and interaction model for rotary dial widgets.
//!
//! Angles are measured in integer angle units: one full turn is [`angle::TURN`]
//! units, so a unit is 1/3600 of a degree. Working on an integer grid keeps the
//! wrap, snap and clamp rules exact; the host converts between radians and
//! units at its own boundary, where it also runs the trigonometry that places
//! the widgets on screen.

pub mod angle;
pub mod common;
pub mod fade;
pub mod angle_knob;
pub mod encoder_knob;

pub use angle_knob::AngleKnob;
pub use angle_knob::AngleKnobPreset;
pub use common::Orientation;
pub use common::WidgetShape;
pub use common::Winding;
pub use common::WrapMode;
pub use encoder_knob::EncoderKnob;
