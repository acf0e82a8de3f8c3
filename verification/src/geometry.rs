//! Typed values in absolute screen-pixel space: points, sizes,
//! rectangles and per-edge insets, with axis-aligned rectangle
//! arithmetic (intersection, area, center, translation, inset and
//! outset by edge thicknesses).
use vstd::prelude::*;

verus! {

/// Bound on the magnitude of any absolute pixel coordinate the library
/// works with. Every edge of a well-formed rectangle lies within
/// `[-COORD_LIMIT, COORD_LIMIT]`, which keeps all intermediate
/// arithmetic far inside the `i64` range.
pub const COORD_LIMIT: i64 = 0x100_0000;

/// Loose bound within which rectangle arithmetic (insetting,
/// outsetting) stays far from the `i64` range: large enough for any
/// rectangle a percentage mapping can produce.
pub const ARITH_LIMIT: i64 = 0x0400_0000_0000_0000;

/// A point in absolute desktop pixel coordinates (origin at the
/// desktop's top-left, y growing downward).
#[derive(Clone, Copy, PartialEq, Eq, Structural, Debug)]
pub struct ScreenPoint {
    pub x: i64,
    pub y: i64,
}

/// A width and height in absolute desktop pixels.
#[derive(Clone, Copy, PartialEq, Eq, Structural, Debug)]
pub struct ScreenSize {
    pub width: i64,
    pub height: i64,
}

/// An axis-aligned rectangle in absolute desktop pixel coordinates.
#[derive(Clone, Copy, PartialEq, Eq, Structural, Debug)]
pub struct ScreenRect {
    pub origin: ScreenPoint,
    pub size: ScreenSize,
}

/// Per-edge pixel thicknesses, e.g. the decorations a window manager
/// draws around a window's content box.
#[derive(Clone, Copy, PartialEq, Eq, Structural, Debug)]
pub struct ScreenInsets {
    pub top: i64,
    pub right: i64,
    pub bottom: i64,
    pub left: i64,
}

impl ScreenPoint {
    pub fn new(x: i64, y: i64) -> (r: ScreenPoint)
        ensures
            r.x == x,
            r.y == y,
    {
        ScreenPoint { x, y }
    }
}

impl ScreenSize {
    pub fn new(width: i64, height: i64) -> (r: ScreenSize)
        ensures
            r.width == width,
            r.height == height,
    {
        ScreenSize { width, height }
    }
}

impl ScreenRect {
    /// x coordinate of the left edge.
    pub open spec fn left(self) -> int {
        self.origin.x as int
    }

    /// x coordinate one past the right edge.
    pub open spec fn right(self) -> int {
        self.origin.x + self.size.width
    }

    /// y coordinate of the top edge.
    pub open spec fn top(self) -> int {
        self.origin.y as int
    }

    /// y coordinate one past the bottom edge.
    pub open spec fn bottom(self) -> int {
        self.origin.y + self.size.height
    }

    /// A rectangle is well formed when its extents are non-negative
    /// and all four edges lie within the coordinate bound.
    pub open spec fn wf(self) -> bool {
        &&& 0 <= self.size.width
        &&& 0 <= self.size.height
        &&& -COORD_LIMIT <= self.left()
        &&& self.right() <= COORD_LIMIT
        &&& -COORD_LIMIT <= self.top()
        &&& self.bottom() <= COORD_LIMIT
    }

    /// Every field within the given magnitude: the loose bound under
    /// which arithmetic cannot overflow, weaker than `wf`.
    pub open spec fn bounded(self, b: int) -> bool {
        &&& -b <= self.origin.x <= b
        &&& -b <= self.origin.y <= b
        &&& -b <= self.size.width <= b
        &&& -b <= self.size.height <= b
    }

    /// Number of pixels covered.
    pub open spec fn area_spec(self) -> int {
        self.size.width * self.size.height
    }

    /// Whether the overlap of the two rectangles is non-empty on both
    /// axes. Rectangles that merely share an edge do not overlap.
    pub open spec fn overlaps(self, other: ScreenRect) -> bool {
        &&& vstd::math::max(self.left(), other.left()) < vstd::math::min(self.right(), other.right())
        &&& vstd::math::max(self.top(), other.top()) < vstd::math::min(self.bottom(), other.bottom())
    }

    /// The common region of two overlapping rectangles.
    pub open spec fn intersection_spec(self, other: ScreenRect) -> ScreenRect {
        ScreenRect {
            origin: ScreenPoint {
                x: vstd::math::max(self.left(), other.left()) as i64,
                y: vstd::math::max(self.top(), other.top()) as i64,
            },
            size: ScreenSize {
                width: (vstd::math::min(self.right(), other.right())
                    - vstd::math::max(self.left(), other.left())) as i64,
                height: (vstd::math::min(self.bottom(), other.bottom())
                    - vstd::math::max(self.top(), other.top())) as i64,
            },
        }
    }

    /// Pixels shared by the two rectangles: the area of their
    /// intersection, or zero when they do not overlap.
    pub open spec fn overlap_area(self, other: ScreenRect) -> int {
        if self.overlaps(other) {
            self.intersection_spec(other).area_spec()
        } else {
            0
        }
    }

    /// Midpoint (componentwise, rounding the half-pixel down).
    pub open spec fn center_spec(self) -> ScreenPoint {
        ScreenPoint {
            x: (self.origin.x + self.size.width / 2) as i64,
            y: (self.origin.y + self.size.height / 2) as i64,
        }
    }

    pub fn new(origin: ScreenPoint, size: ScreenSize) -> (r: ScreenRect)
        ensures
            r.origin == origin,
            r.size == size,
    {
        ScreenRect { origin, size }
    }

    /// The overlap of `self` and `other`, or `None` when the two have
    /// zero overlap on either axis: a shared edge or corner does not
    /// count as an intersection.
    pub fn intersection(&self, other: &ScreenRect) -> (r: Option<ScreenRect>)
        requires
            self.wf(),
            other.wf(),
        ensures
            r is Some <==> self.overlaps(*other),
            r is Some ==> r->Some_0 == self.intersection_spec(*other) && r->Some_0.wf(),
    {
        let left = if self.origin.x >= other.origin.x { self.origin.x } else { other.origin.x };
        let top = if self.origin.y >= other.origin.y { self.origin.y } else { other.origin.y };
        let self_right = self.origin.x + self.size.width;
        let other_right = other.origin.x + other.size.width;
        let right = if self_right <= other_right { self_right } else { other_right };
        let self_bottom = self.origin.y + self.size.height;
        let other_bottom = other.origin.y + other.size.height;
        let bottom = if self_bottom <= other_bottom { self_bottom } else { other_bottom };
        if left < right && top < bottom {
            Some(ScreenRect {
                origin: ScreenPoint { x: left, y: top },
                size: ScreenSize { width: right - left, height: bottom - top },
            })
        } else {
            None
        }
    }

    /// Pixels covered by this rectangle.
    pub fn area(&self) -> (r: i64)
        requires
            self.wf(),
        ensures
            r == self.area_spec(),
            0 <= r,
    {
        proof {
            lemma_area_bounds(*self);
        }
        self.size.width * self.size.height
    }

    /// The rectangle's midpoint.
    pub fn center(&self) -> (r: ScreenPoint)
        requires
            self.wf(),
        ensures
            r == self.center_spec(),
    {
        ScreenPoint {
            x: self.origin.x + self.size.width / 2,
            y: self.origin.y + self.size.height / 2,
        }
    }

    /// The same extent moved by the given vector.
    pub fn translate(&self, dx: i64, dy: i64) -> (r: ScreenRect)
        requires
            self.wf(),
            -COORD_LIMIT <= dx <= COORD_LIMIT,
            -COORD_LIMIT <= dy <= COORD_LIMIT,
        ensures
            r.origin.x == self.origin.x + dx,
            r.origin.y == self.origin.y + dy,
            r.size == self.size,
    {
        ScreenRect {
            origin: ScreenPoint { x: self.origin.x + dx, y: self.origin.y + dy },
            size: self.size,
        }
    }

    /// The rectangle shrunk by the given edge thicknesses.
    pub open spec fn inner_rect_spec(self, insets: ScreenInsets) -> ScreenRect {
        ScreenRect {
            origin: ScreenPoint {
                x: (self.origin.x + insets.left) as i64,
                y: (self.origin.y + insets.top) as i64,
            },
            size: ScreenSize {
                width: (self.size.width - (insets.left + insets.right)) as i64,
                height: (self.size.height - (insets.top + insets.bottom)) as i64,
            },
        }
    }

    /// The rectangle grown by the given edge thicknesses.
    pub open spec fn outer_rect_spec(self, insets: ScreenInsets) -> ScreenRect {
        ScreenRect {
            origin: ScreenPoint {
                x: (self.origin.x - insets.left) as i64,
                y: (self.origin.y - insets.top) as i64,
            },
            size: ScreenSize {
                width: (self.size.width + insets.left + insets.right) as i64,
                height: (self.size.height + insets.top + insets.bottom) as i64,
            },
        }
    }

    /// Shrinks the rectangle by the given edge thicknesses: what
    /// remains of a decorated frame once its decorations are taken
    /// away. The extent may come out negative when the insets exceed
    /// the rectangle; no clamping is done.
    pub fn inner_rect(&self, insets: ScreenInsets) -> (r: ScreenRect)
        requires
            self.bounded(ARITH_LIMIT as int),
            insets.wf(),
        ensures
            r == self.inner_rect_spec(insets),
    {
        ScreenRect {
            origin: ScreenPoint {
                x: self.origin.x + insets.left,
                y: self.origin.y + insets.top,
            },
            size: ScreenSize {
                width: self.size.width - (insets.left + insets.right),
                height: self.size.height - (insets.top + insets.bottom),
            },
        }
    }

    /// Grows the rectangle by the given edge thicknesses: the frame a
    /// window occupies on screen once the window manager has drawn its
    /// decorations around the content box. Exact inverse of
    /// `inner_rect` for the same insets.
    pub fn outer_rect(&self, insets: ScreenInsets) -> (r: ScreenRect)
        requires
            self.bounded(ARITH_LIMIT as int),
            insets.wf(),
        ensures
            r == self.outer_rect_spec(insets),
    {
        ScreenRect {
            origin: ScreenPoint {
                x: self.origin.x - insets.left,
                y: self.origin.y - insets.top,
            },
            size: ScreenSize {
                width: self.size.width + (insets.left + insets.right),
                height: self.size.height + (insets.top + insets.bottom),
            },
        }
    }
}

impl ScreenInsets {
    /// Each edge thickness is non-negative and within the coordinate
    /// bound.
    pub open spec fn wf(self) -> bool {
        &&& 0 <= self.top <= COORD_LIMIT
        &&& 0 <= self.right <= COORD_LIMIT
        &&& 0 <= self.bottom <= COORD_LIMIT
        &&& 0 <= self.left <= COORD_LIMIT
    }

    pub fn new(top: i64, right: i64, bottom: i64, left: i64) -> (r: ScreenInsets)
        ensures
            r.top == top,
            r.right == right,
            r.bottom == bottom,
            r.left == left,
    {
        ScreenInsets { top, right, bottom, left }
    }

    /// Insets of zero thickness on every edge.
    pub fn zero() -> (r: ScreenInsets)
        ensures
            r.top == 0,
            r.right == 0,
            r.bottom == 0,
            r.left == 0,
            r.wf(),
    {
        ScreenInsets { top: 0, right: 0, bottom: 0, left: 0 }
    }
}

/// A well-formed rectangle covers a non-negative, bounded number of
/// pixels.
pub proof fn lemma_area_bounds(r: ScreenRect)
    requires
        r.wf(),
    ensures
        0 <= r.area_spec() <= COORD_LIMIT * 4 * COORD_LIMIT,
{
    assert(0 <= r.size.width <= 2 * COORD_LIMIT);
    assert(0 <= r.size.height <= 2 * COORD_LIMIT);
    assert(0 <= r.size.width * r.size.height <= (2 * COORD_LIMIT) * (2 * COORD_LIMIT))
        by (nonlinear_arith)
        requires
            0 <= r.size.width <= 2 * COORD_LIMIT,
            0 <= r.size.height <= 2 * COORD_LIMIT,
    ;
}

/// Intersection of well-formed rectangles is commutative, and the
/// pixels it covers are never more than either input covers.
pub proof fn lemma_intersection_properties(a: ScreenRect, b: ScreenRect)
    requires
        a.wf(),
        b.wf(),
    ensures
        a.overlaps(b) == b.overlaps(a),
        a.intersection_spec(b) == b.intersection_spec(a),
        a.overlaps(b) ==> a.intersection_spec(b).area_spec() <= a.area_spec(),
        a.overlaps(b) ==> a.intersection_spec(b).area_spec() <= b.area_spec(),
{
    let i = a.intersection_spec(b);
    if a.overlaps(b) {
        assert(0 <= i.size.width <= a.size.width && 0 <= i.size.width <= b.size.width);
        assert(0 <= i.size.height <= a.size.height && 0 <= i.size.height <= b.size.height);
        assert(i.size.width * i.size.height <= a.size.width * a.size.height)
            by (nonlinear_arith)
            requires
                0 <= i.size.width <= a.size.width,
                0 <= i.size.height <= a.size.height,
        ;
        assert(i.size.width * i.size.height <= b.size.width * b.size.height)
            by (nonlinear_arith)
            requires
                0 <= i.size.width <= b.size.width,
                0 <= i.size.height <= b.size.height,
        ;
    }
}

} // verus!
