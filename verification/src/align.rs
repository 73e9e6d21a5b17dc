//! One- and two-dimensional alignment ([`Align::Center`], [`Align2::LEFT_TOP`] etc).

use vstd::prelude::*;
use crate::geometry::{pos2, vec2, ClosedRange, Pos2, Rect, Vec2};
use crate::scalar::Scalar;

verus! {

/// Left/center/right or top/center/bottom alignment for e.g. anchors and layouts.
#[derive(Clone, Copy, Debug, PartialEq, Eq, Structural)]
pub enum Align {
    /// Left or top.
    Min,
    /// Horizontal or vertical center.
    Center,
    /// Right or bottom.
    Max,
}

impl Align {
    /// Convenience for [`Self::Min`]
    pub const LEFT: Align = Align::Min;

    /// Convenience for [`Self::Max`]
    pub const RIGHT: Align = Align::Max;

    /// Convenience for [`Self::Min`]
    pub const TOP: Align = Align::Min;

    /// Convenience for [`Self::Max`]
    pub const BOTTOM: Align = Align::Max;

    /// `Min => 0`, `Center => 1/2`, `Max => 1`.
    pub open spec fn to_factor_spec(self) -> Scalar {
        match self {
            Align::Min => Scalar::from_int(0),
            Align::Center => Scalar::from_int(1).half(),
            Align::Max => Scalar::from_int(1),
        }
    }

    /// `Min => -1`, `Center => 0`, `Max => 1`.
    pub open spec fn to_sign_spec(self) -> Scalar {
        match self {
            Align::Min => Scalar::from_int(-1i32),
            Align::Center => Scalar::from_int(0),
            Align::Max => Scalar::from_int(1),
        }
    }

    /// The share of `extent` that this alignment's factor takes: none of it for `Min`, half
    /// of it for `Center`, all of it for `Max`.
    pub open spec fn share_of(self, extent: Scalar) -> Scalar {
        match self {
            Align::Min => Scalar::from_int(0),
            Align::Center => extent.half(),
            Align::Max => extent,
        }
    }

    /// The one scalar of `range` that this alignment names: its low end for `Min`, its
    /// midpoint for `Center`, its high end for `Max`.
    pub open spec fn point_in(self, range: ClosedRange) -> Scalar {
        match self {
            Align::Min => range.min,
            Align::Center => range.midpoint(),
            Align::Max => range.max,
        }
    }

    /// Where content of the given `size` goes within `range`.
    ///
    /// `Min` starts it at the low end and `Max` ends it at the high end. `Center` puts half
    /// of it on either side of the midpoint of `range`; content of infinite size is centered
    /// on the whole line, from negative to positive infinity.
    pub open spec fn align_size_within_range_spec(
        self,
        size: Scalar,
        range: ClosedRange,
    ) -> ClosedRange {
        match self {
            Align::Min => ClosedRange { min: range.min, max: range.min.add(size) },
            Align::Center => {
                if size == Scalar::Infinity {
                    ClosedRange { min: Scalar::NegInfinity, max: Scalar::Infinity }
                } else {
                    ClosedRange {
                        min: range.midpoint().sub(size.half()),
                        max: range.midpoint().add(size.half()),
                    }
                }
            },
            Align::Max => ClosedRange { min: range.max.sub(size), max: range.max },
        }
    }

    /// Convert `Min => 0`, `Center => 1/2` or `Max => 1`.
    #[verifier::when_used_as_spec(to_factor_spec)]
    pub fn to_factor(self) -> (r: Scalar)
        ensures
            self == Align::Min ==> r == Scalar::from_int(0),
            self == Align::Center ==> r.add(r) == Scalar::from_int(1),
            self == Align::Max ==> r == Scalar::from_int(1),
            r == self.to_factor_spec(),
    {
        match self {
            Align::Min => Scalar::from_int(0),
            Align::Center => Scalar::from_int(1).half(),
            Align::Max => Scalar::from_int(1),
        }
    }

    /// Convert `Min => -1`, `Center => 0` or `Max => 1`.
    #[verifier::when_used_as_spec(to_sign_spec)]
    pub fn to_sign(self) -> (r: Scalar)
        ensures
            self == Align::Min ==> r == Scalar::from_int(-1i32),
            self == Align::Center ==> r == Scalar::from_int(0),
            self == Align::Max ==> r == Scalar::from_int(1),
            r == self.to_sign_spec(),
    {
        match self {
            Align::Min => Scalar::from_int(-1i32),
            Align::Center => Scalar::from_int(0),
            Align::Max => Scalar::from_int(1),
        }
    }

    /// Places content of the given `size` within `range`.
    ///
    /// No input is refused: a negative `size` and a `range` whose ends are swapped give the
    /// range that the same arithmetic yields.
    #[verifier::when_used_as_spec(align_size_within_range_spec)]
    pub fn align_size_within_range(self, size: Scalar, range: ClosedRange) -> (r: ClosedRange)
        ensures
            self == Align::Min ==> r.min == range.min && r.max == range.min.add(size),
            self == Align::Max ==> r.min == range.max.sub(size) && r.max == range.max,
            self == Align::Center && size == Scalar::Infinity ==> r.min == Scalar::NegInfinity
                && r.max == Scalar::Infinity,
            self == Align::Center && size != Scalar::Infinity ==> r.min == range.midpoint().sub(
                size.half(),
            ) && r.max == range.midpoint().add(size.half()),
            r == self.align_size_within_range_spec(size, range),
    {
        match self {
            Align::Min => ClosedRange { min: range.min, max: range.min.add(size) },
            Align::Center => {
                if size == Scalar::INFINITY {
                    ClosedRange { min: Scalar::NEG_INFINITY, max: Scalar::INFINITY }
                } else {
                    let mid = range.midpoint();
                    let half_size = size.half();
                    ClosedRange { min: mid.sub(half_size), max: mid.add(half_size) }
                }
            },
            Align::Max => ClosedRange { min: range.max.sub(size), max: range.max },
        }
    }
}

impl Default for Align {
    fn default() -> (r: Align)
        ensures
            r == Align::Min,
    {
        Align::Min
    }
}

// ----------------------------------------------------------------------------

/// Two-dimension alignment, e.g. [`Align2::LEFT_TOP`]: one [`Align`] for the horizontal axis
/// and one for the vertical axis.
///
/// Each variant is one pair of the two; [`Align2::new`] makes the value from its pair and
/// [`Align2::x`] and [`Align2::y`] give the pair back.
#[derive(Clone, Copy, Debug, PartialEq, Eq, Structural)]
pub enum Align2 {
    /// `Min` horizontally, `Max` vertically.
    LeftBottom,
    /// `Min` horizontally, `Center` vertically.
    LeftCenter,
    /// `Min` horizontally, `Min` vertically.
    LeftTop,
    /// `Center` horizontally, `Max` vertically.
    CenterBottom,
    /// `Center` on both axes.
    CenterCenter,
    /// `Center` horizontally, `Min` vertically.
    CenterTop,
    /// `Max` horizontally, `Max` vertically.
    RightBottom,
    /// `Max` horizontally, `Center` vertically.
    RightCenter,
    /// `Max` horizontally, `Min` vertically.
    RightTop,
}

impl Align2 {
    /// Left on the horizontal axis, bottom on the vertical axis.
    pub const LEFT_BOTTOM: Align2 = Align2::LeftBottom;

    /// Left on the horizontal axis, centered on the vertical axis.
    pub const LEFT_CENTER: Align2 = Align2::LeftCenter;

    /// Left on the horizontal axis, top on the vertical axis.
    pub const LEFT_TOP: Align2 = Align2::LeftTop;

    /// Centered on the horizontal axis, bottom on the vertical axis.
    pub const CENTER_BOTTOM: Align2 = Align2::CenterBottom;

    /// Centered on both axes.
    pub const CENTER_CENTER: Align2 = Align2::CenterCenter;

    /// Centered on the horizontal axis, top on the vertical axis.
    pub const CENTER_TOP: Align2 = Align2::CenterTop;

    /// Right on the horizontal axis, bottom on the vertical axis.
    pub const RIGHT_BOTTOM: Align2 = Align2::RightBottom;

    /// Right on the horizontal axis, centered on the vertical axis.
    pub const RIGHT_CENTER: Align2 = Align2::RightCenter;

    /// Right on the horizontal axis, top on the vertical axis.
    pub const RIGHT_TOP: Align2 = Align2::RightTop;
}

impl Align2 {
    /// The alignment that is `x` horizontally and `y` vertically.
    pub open spec fn new_spec(x: Align, y: Align) -> Align2 {
        match (x, y) {
            (Align::Min, Align::Max) => Align2::LeftBottom,
            (Align::Min, Align::Center) => Align2::LeftCenter,
            (Align::Min, Align::Min) => Align2::LeftTop,
            (Align::Center, Align::Max) => Align2::CenterBottom,
            (Align::Center, Align::Center) => Align2::CenterCenter,
            (Align::Center, Align::Min) => Align2::CenterTop,
            (Align::Max, Align::Max) => Align2::RightBottom,
            (Align::Max, Align::Center) => Align2::RightCenter,
            (Align::Max, Align::Min) => Align2::RightTop,
        }
    }

    /// The horizontal alignment.
    pub open spec fn x_spec(self) -> Align {
        match self {
            Align2::LeftBottom | Align2::LeftCenter | Align2::LeftTop => Align::Min,
            Align2::CenterBottom | Align2::CenterCenter | Align2::CenterTop => Align::Center,
            Align2::RightBottom | Align2::RightCenter | Align2::RightTop => Align::Max,
        }
    }

    /// The vertical alignment.
    pub open spec fn y_spec(self) -> Align {
        match self {
            Align2::LeftTop | Align2::CenterTop | Align2::RightTop => Align::Min,
            Align2::LeftCenter | Align2::CenterCenter | Align2::RightCenter => Align::Center,
            Align2::LeftBottom | Align2::CenterBottom | Align2::RightBottom => Align::Max,
        }
    }

    /// Where a box of the given `size` goes within `frame`: each axis is aligned by itself.
    pub open spec fn align_size_within_rect_spec(self, size: Vec2, frame: Rect) -> Rect {
        Rect::from_x_y_ranges(
            self.x().align_size_within_range(size.x, frame.x_range()),
            self.y().align_size_within_range(size.y, frame.y_range()),
        )
    }

    /// The alignment that is `x` horizontally and `y` vertically.
    #[verifier::when_used_as_spec(new_spec)]
    pub fn new(x: Align, y: Align) -> (r: Align2)
        ensures
            r.x() == x,
            r.y() == y,
            r == Align2::new_spec(x, y),
    {
        match (x, y) {
            (Align::Min, Align::Max) => Align2::LeftBottom,
            (Align::Min, Align::Center) => Align2::LeftCenter,
            (Align::Min, Align::Min) => Align2::LeftTop,
            (Align::Center, Align::Max) => Align2::CenterBottom,
            (Align::Center, Align::Center) => Align2::CenterCenter,
            (Align::Center, Align::Min) => Align2::CenterTop,
            (Align::Max, Align::Max) => Align2::RightBottom,
            (Align::Max, Align::Center) => Align2::RightCenter,
            (Align::Max, Align::Min) => Align2::RightTop,
        }
    }

    /// The horizontal alignment.
    #[verifier::when_used_as_spec(x_spec)]
    pub fn x(self) -> (r: Align)
        ensures
            r == self.x_spec(),
    {
        match self {
            Align2::LeftBottom | Align2::LeftCenter | Align2::LeftTop => Align::Min,
            Align2::CenterBottom | Align2::CenterCenter | Align2::CenterTop => Align::Center,
            Align2::RightBottom | Align2::RightCenter | Align2::RightTop => Align::Max,
        }
    }

    /// The vertical alignment.
    #[verifier::when_used_as_spec(y_spec)]
    pub fn y(self) -> (r: Align)
        ensures
            r == self.y_spec(),
    {
        match self {
            Align2::LeftTop | Align2::CenterTop | Align2::RightTop => Align::Min,
            Align2::LeftCenter | Align2::CenterCenter | Align2::RightCenter => Align::Center,
            Align2::LeftBottom | Align2::CenterBottom | Align2::RightBottom => Align::Max,
        }
    }

    /// -1, 0, or +1 for each axis
    pub fn to_sign(self) -> (r: Vec2)
        ensures
            r.x == self.x().to_sign(),
            r.y == self.y().to_sign(),
    {
        vec2(self.x().to_sign(), self.y().to_sign())
    }

    /// Used e.g. to anchor a piece of text to a part of the rectangle.
    ///
    /// Moves `rect`, keeping its extent, so that the point of it that `self` names comes to
    /// lie where its left top corner was: on each axis the rectangle goes back by none, by
    /// half or by all of its extent.
    pub fn anchor_rect(self, rect: Rect) -> (r: Rect)
        ensures
            r.min.x == rect.min.x.sub(self.x().share_of(rect.width())),
            r.min.y == rect.min.y.sub(self.y().share_of(rect.height())),
            r.max.x == r.min.x.add(rect.width()),
            r.max.y == r.min.y.add(rect.height()),
            r.max.x is Finite ==> r.width() == rect.width(),
            r.max.y is Finite ==> r.height() == rect.height(),
    {
        let x = match self.x() {
            Align::Min => rect.left(),
            Align::Center => rect.left().sub(rect.width().half()),
            Align::Max => rect.left().sub(rect.width()),
        };
        let y = match self.y() {
            Align::Min => rect.top(),
            Align::Center => rect.top().sub(rect.height().half()),
            Align::Max => rect.top().sub(rect.height()),
        };
        Rect::from_min_size(pos2(x, y), rect.size())
    }

    /// e.g. center a size within a given frame
    #[verifier::when_used_as_spec(align_size_within_rect_spec)]
    pub fn align_size_within_rect(self, size: Vec2, frame: Rect) -> (r: Rect)
        ensures
            r.x_range() == self.x().align_size_within_range(size.x, frame.x_range()),
            r.y_range() == self.y().align_size_within_range(size.y, frame.y_range()),
            self.x() == Align::Min ==> r.min.x == frame.min.x,
            self.y() == Align::Min ==> r.min.y == frame.min.y,
            r == self.align_size_within_rect_spec(size, frame),
    {
        let x_range = self.x().align_size_within_range(size.x, frame.x_range());
        let y_range = self.y().align_size_within_range(size.y, frame.y_range());
        Rect::from_x_y_ranges(x_range, y_range)
    }

    /// The point of `frame` that this alignment names: on each axis the low edge, the
    /// midpoint or the high edge.
    pub fn pos_in_rect(self, frame: &Rect) -> (r: Pos2)
        ensures
            r.x == self.x().point_in(frame.x_range()),
            r.y == self.y().point_in(frame.y_range()),
    {
        let x = match self.x() {
            Align::Min => frame.left(),
            Align::Center => frame.center().x,
            Align::Max => frame.right(),
        };
        let y = match self.y() {
            Align::Min => frame.top(),
            Align::Center => frame.center().y,
            Align::Max => frame.bottom(),
        };
        pos2(x, y)
    }
}

/// Centers a box of the given `size` within `frame`, on both axes.
pub fn center_size_in_rect(size: Vec2, frame: Rect) -> (r: Rect)
    ensures
        r == Align2::CENTER_CENTER.align_size_within_rect(size, frame),
{
    Align2::CENTER_CENTER.align_size_within_rect(size, frame)
}

// ----------------------------------------------------------------------------

/// Content of no size stays within the range it is aligned in: whatever the alignment, it is
/// given a single point of an ordered `range`.
///
/// `Center` takes the midpoint of `range`, which lies in `range` where the sum of its two
/// ends is exact; [`Scalar::adds_exactly`] says when that is.
pub proof fn lemma_zero_size_stays_within_range(align: Align, range: ClosedRange)
    requires
        range.is_ordered(),
        align == Align::Center ==> range.min.adds_exactly(range.max),
    ensures
        align.align_size_within_range(Scalar::from_int(0), range).min
            == align.align_size_within_range(Scalar::from_int(0), range).max,
        range.encloses(align.align_size_within_range(Scalar::from_int(0), range)),
{
}

/// Centered content of finite size lies evenly about the midpoint of `range`: it reaches as
/// far below the midpoint as above it, and where the midpoint is finite that is half of
/// `size` on either side.
pub proof fn lemma_center_is_symmetric(size: Scalar, range: ClosedRange)
    requires
        size is Finite,
    ensures
        range.midpoint().sub(Align::Center.align_size_within_range(size, range).min)
            == Align::Center.align_size_within_range(size, range).max.sub(range.midpoint()),
        range.midpoint() is Finite ==> range.midpoint().sub(
            Align::Center.align_size_within_range(size, range).min,
        ) == size.half(),
{
}

/// The pair that an [`Align2`] was made from is the pair that it gives back, and making it
/// again from what it gives back changes nothing.
pub proof fn lemma_new_keeps_both_axes(x: Align, y: Align, both: Align2)
    ensures
        Align2::new(x, y).x() == x,
        Align2::new(x, y).y() == y,
        Align2::new(both.x(), both.y()) == both,
{
}

/// Aligned left and top, a box of any `size` has its left top corner on the left top corner
/// of `frame`.
pub proof fn lemma_left_top_keeps_min_corner(size: Vec2, frame: Rect)
    ensures
        Align2::LEFT_TOP.align_size_within_rect(size, frame).min == frame.min,
{
}

} // verus!
