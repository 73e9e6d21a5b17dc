//! One- and two-dimensional alignment of sized content within a bounding frame.

pub mod align;
pub mod geometry;
pub mod scalar;

pub use align::{center_size_in_rect, Align, Align2};
pub use geometry::{pos2, vec2, ClosedRange, Pos2, Rect, Vec2};
pub use scalar::Scalar;
