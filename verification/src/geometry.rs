//! The geometry that alignment works on: points, vectors, closed ranges and rectangles.

use vstd::prelude::*;
use crate::scalar::Scalar;

verus! {

/// A position in the plane.
#[derive(Clone, Copy, Debug, PartialEq, Eq, Structural)]
pub struct Pos2 {
    /// How far to the right.
    pub x: Scalar,
    /// How far down.
    pub y: Scalar,
}

/// A displacement or a size in the plane.
#[derive(Clone, Copy, Debug, PartialEq, Eq, Structural)]
pub struct Vec2 {
    /// The horizontal extent.
    pub x: Scalar,
    /// The vertical extent.
    pub y: Scalar,
}

/// The scalars from `min` to `max`, both included.
///
/// Nothing asks that `min` is at most `max`: a range with `min` above `max` is kept as it is.
#[derive(Clone, Copy, Debug, PartialEq, Eq, Structural)]
pub struct ClosedRange {
    /// The low end.
    pub min: Scalar,
    /// The high end.
    pub max: Scalar,
}

/// An axis-aligned rectangle, from its `min` corner (left, top) to its `max` corner
/// (right, bottom).
///
/// Nothing asks that `min` is left of and above `max`.
#[derive(Clone, Copy, Debug, PartialEq, Eq, Structural)]
pub struct Rect {
    /// The left top corner.
    pub min: Pos2,
    /// The right bottom corner.
    pub max: Pos2,
}

/// The position at `(x, y)`.
pub fn pos2(x: Scalar, y: Scalar) -> (p: Pos2)
    ensures
        p.x == x,
        p.y == y,
{
    Pos2 { x, y }
}

/// The vector `(x, y)`.
pub fn vec2(x: Scalar, y: Scalar) -> (v: Vec2)
    ensures
        v.x == x,
        v.y == y,
{
    Vec2 { x, y }
}

impl ClosedRange {
    /// The low end is at most the high end.
    pub open spec fn is_ordered(self) -> bool {
        self.min.le(self.max)
    }

    /// Every scalar of `inner` is a scalar of `self`, for an ordered `inner`.
    pub open spec fn encloses(self, inner: ClosedRange) -> bool {
        self.min.le(inner.min) && inner.max.le(self.max)
    }

    /// Half of the sum of the two ends.
    pub open spec fn midpoint_spec(self) -> Scalar {
        self.min.add(self.max).half()
    }

    /// The range from `min` to `max`.
    pub fn new(min: Scalar, max: Scalar) -> (r: ClosedRange)
        ensures
            r.min == min,
            r.max == max,
    {
        ClosedRange { min, max }
    }

    /// The scalar halfway between the two ends.
    #[verifier::when_used_as_spec(midpoint_spec)]
    pub fn midpoint(self) -> (m: Scalar)
        ensures
            m == self.min.add(self.max).half(),
    {
        self.min.add(self.max).half()
    }
}

impl Rect {
    /// The rectangle whose left top corner is `min` and whose extent is `size`.
    pub open spec fn from_min_size_spec(min: Pos2, size: Vec2) -> Rect {
        Rect { min, max: Pos2 { x: min.x.add(size.x), y: min.y.add(size.y) } }
    }

    /// The rectangle that spans `x_range` horizontally and `y_range` vertically.
    pub open spec fn from_x_y_ranges_spec(x_range: ClosedRange, y_range: ClosedRange) -> Rect {
        Rect {
            min: Pos2 { x: x_range.min, y: y_range.min },
            max: Pos2 { x: x_range.max, y: y_range.max },
        }
    }

    /// The horizontal extent, `max.x - min.x`.
    pub open spec fn width_spec(&self) -> Scalar {
        self.max.x.sub(self.min.x)
    }

    /// The vertical extent, `max.y - min.y`.
    pub open spec fn height_spec(&self) -> Scalar {
        self.max.y.sub(self.min.y)
    }

    /// The horizontal range, from the left edge to the right edge.
    pub open spec fn x_range_spec(&self) -> ClosedRange {
        ClosedRange { min: self.min.x, max: self.max.x }
    }

    /// The vertical range, from the top edge to the bottom edge.
    pub open spec fn y_range_spec(&self) -> ClosedRange {
        ClosedRange { min: self.min.y, max: self.max.y }
    }

    /// The rectangle whose left top corner is `min` and whose extent is `size`.
    #[verifier::when_used_as_spec(from_min_size_spec)]
    pub fn from_min_size(min: Pos2, size: Vec2) -> (r: Rect)
        ensures
            r.min == min,
            r.max.x == min.x.add(size.x),
            r.max.y == min.y.add(size.y),
    {
        Rect { min, max: Pos2 { x: min.x.add(size.x), y: min.y.add(size.y) } }
    }

    /// The rectangle that spans `x_range` horizontally and `y_range` vertically.
    #[verifier::when_used_as_spec(from_x_y_ranges_spec)]
    pub fn from_x_y_ranges(x_range: ClosedRange, y_range: ClosedRange) -> (r: Rect)
        ensures
            r.x_range() == x_range,
            r.y_range() == y_range,
    {
        Rect {
            min: Pos2 { x: x_range.min, y: y_range.min },
            max: Pos2 { x: x_range.max, y: y_range.max },
        }
    }

    /// The x coordinate of the left edge.
    pub fn left(&self) -> (r: Scalar)
        ensures
            r == self.min.x,
    {
        self.min.x
    }

    /// The x coordinate of the right edge.
    pub fn right(&self) -> (r: Scalar)
        ensures
            r == self.max.x,
    {
        self.max.x
    }

    /// The y coordinate of the top edge.
    pub fn top(&self) -> (r: Scalar)
        ensures
            r == self.min.y,
    {
        self.min.y
    }

    /// The y coordinate of the bottom edge.
    pub fn bottom(&self) -> (r: Scalar)
        ensures
            r == self.max.y,
    {
        self.max.y
    }

    /// The horizontal extent.
    #[verifier::when_used_as_spec(width_spec)]
    pub fn width(&self) -> (r: Scalar)
        ensures
            r == self.max.x.sub(self.min.x),
    {
        self.max.x.sub(self.min.x)
    }

    /// The vertical extent.
    #[verifier::when_used_as_spec(height_spec)]
    pub fn height(&self) -> (r: Scalar)
        ensures
            r == self.max.y.sub(self.min.y),
    {
        self.max.y.sub(self.min.y)
    }

    /// The extent on both axes.
    pub fn size(&self) -> (r: Vec2)
        ensures
            r.x == self.width(),
            r.y == self.height(),
    {
        Vec2 { x: self.width(), y: self.height() }
    }

    /// The point halfway along both axes.
    pub fn center(&self) -> (r: Pos2)
        ensures
            r.x == self.x_range().midpoint(),
            r.y == self.y_range().midpoint(),
    {
        Pos2 { x: self.x_range().midpoint(), y: self.y_range().midpoint() }
    }

    /// The horizontal range.
    #[verifier::when_used_as_spec(x_range_spec)]
    pub fn x_range(&self) -> (r: ClosedRange)
        ensures
            r.min == self.min.x,
            r.max == self.max.x,
    {
        ClosedRange { min: self.min.x, max: self.max.x }
    }

    /// The vertical range.
    #[verifier::when_used_as_spec(y_range_spec)]
    pub fn y_range(&self) -> (r: ClosedRange)
        ensures
            r.min == self.min.y,
            r.max == self.max.y,
    {
        ClosedRange { min: self.min.y, max: self.max.y }
    }
}

} // verus!
