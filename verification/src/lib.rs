//! An immediate-mode vector painter and the animated gallery that drives it,
//! in exact fixed-point arithmetic.
//!
//! * [`fixed`], [`trig`] and [`roots`]: saturating numbers with six decimal
//!   places, their sine and cosine, and their square and fifth roots.
//! * [`color`], [`vector`] and [`transform`]: the values a painter holds.
//! * [`shape`]: shape requests and the geometry generated from them.
//! * [`painter`]: the painter itself, which accumulates transform, style
//!   and finished draw commands.
//! * [`gallery`] and [`sketch`]: scenes that drive a painter.
//! * [`continuity`], [`laws`] and [`order`]: what holds of all this for
//!   every input.
//!
//! Nothing here touches a window or a pixel: a scene ends in a list of
//! draw commands, in the order in which they are to be painted.

pub mod fixed;
pub mod trig;
pub mod roots;
pub mod color;
pub mod vector;
pub mod transform;
pub mod shape;
pub mod painter;
pub mod gallery;
pub mod sketch;
pub mod continuity;
pub mod laws;
pub mod order;
