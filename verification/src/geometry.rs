//! Points, rectangles and the distance and overlap tests of the game.
//!
//! Coordinates are signed 16.16 fixed-point numbers: a coordinate counts
//! steps of 1/65536 of a window unit. Rectangles carry 64-bit fields in the
//! same steps, so that a box built around any point is representable.

use vstd::prelude::*;

verus! {

/// Coordinate steps in one window unit.
pub const UNIT: i32 = 65536;

/// Half the side of the marker square, in coordinate steps (10 units).
pub const MARKER_HALF_SIDE: i32 = 10 * UNIT;

/// A position in the window.
#[derive(Clone, Copy, Debug, PartialEq, Eq, Structural)]
pub struct Point {
    pub x: i32,
    pub y: i32,
}

/// An axis-aligned rectangle, given by its left and top edge and its extent.
/// A rectangle whose width or height is not positive covers no area.
#[derive(Clone, Copy, Debug, PartialEq, Eq, Structural)]
pub struct Rect {
    pub left: i64,
    pub top: i64,
    pub width: i64,
    pub height: i64,
}

/// The square of the Euclidean distance between two points, in squared steps.
pub open spec fn dist_sq(a: Point, b: Point) -> int {
    (a.x - b.x) * (a.x - b.x) + (a.y - b.y) * (a.y - b.y)
}

/// Whether the Euclidean distance between `a` and `b` is less than `radius`.
pub open spec fn closer_than(a: Point, b: Point, radius: int) -> bool {
    radius > 0 && dist_sq(a, b) < radius * radius
}

/// The absolute value of `v`.
pub open spec fn magnitude(v: int) -> int {
    if v < 0 {
        -v
    } else {
        v
    }
}

/// Whether `a` lies within `reach` of `b` on each axis taken by itself: the
/// open square of half-side `reach` around `b`.
pub open spec fn within_square(a: Point, b: Point, reach: int) -> bool {
    magnitude(a.x - b.x) < reach && magnitude(a.y - b.y) < reach
}

/// Whether the spans from `a_lo` to `a_hi` and from `b_lo` to `b_hi` share a
/// stretch of positive length.
pub open spec fn spans_overlap(a_lo: int, a_hi: int, b_lo: int, b_hi: int) -> bool {
    (if a_lo >= b_lo { a_lo } else { b_lo }) < (if a_hi <= b_hi { a_hi } else { b_hi })
}

impl Point {
    /// The point at the whole-unit position `(x, y)`.
    pub open spec fn spec_from_units(x: int, y: int) -> Point {
        Point { x: (x * UNIT) as i32, y: (y * UNIT) as i32 }
    }

    /// The point at the whole-unit position `(x, y)`.
    pub fn from_units(x: i16, y: i16) -> (p: Point)
        ensures
            p == Point::spec_from_units(x as int, y as int),
            p.x == x * UNIT,
            p.y == y * UNIT,
    {
        Point { x: (x as i32) * UNIT, y: (y as i32) * UNIT }
    }

    /// Whether this point is closer to `center` than `radius` steps.
    pub fn is_closer_than(&self, center: &Point, radius: i32) -> (near: bool)
        ensures
            near == closer_than(*self, *center, radius as int),
    {
        if radius <= 0 {
            return false;
        }
        let dx: i128 = self.x as i128 - center.x as i128;
        let dy: i128 = self.y as i128 - center.y as i128;
        let r: i128 = radius as i128;
        assert(0 <= dx * dx <= 0x1_0000_0000_0000_0000) by (nonlinear_arith)
            requires
                -0x1_0000_0000 <= dx <= 0x1_0000_0000,
        ;
        assert(0 <= dy * dy <= 0x1_0000_0000_0000_0000) by (nonlinear_arith)
            requires
                -0x1_0000_0000 <= dy <= 0x1_0000_0000,
        ;
        assert(0 <= r * r <= 0x1_0000_0000_0000_0000) by (nonlinear_arith)
            requires
                0 <= r <= 0x1_0000_0000,
        ;
        dx * dx + dy * dy < r * r
    }

    /// Whether this point lies within `reach` steps of `center` on both axes.
    pub fn is_within_square(&self, center: &Point, reach: i32) -> (near: bool)
        ensures
            near == within_square(*self, *center, reach as int),
    {
        let dx: i64 = self.x as i64 - center.x as i64;
        let dy: i64 = self.y as i64 - center.y as i64;
        let ax: i64 = if dx < 0 { -dx } else { dx };
        let ay: i64 = if dy < 0 { -dy } else { dy };
        ax < reach as i64 && ay < reach as i64
    }
}

impl Rect {
    /// The coordinate of the right edge.
    pub open spec fn right(self) -> int {
        self.left + self.width
    }

    /// The coordinate of the bottom edge.
    pub open spec fn bottom(self) -> int {
        self.top + self.height
    }

    /// The rectangle with the given edges and extent in whole units.
    pub open spec fn spec_from_units(left: int, top: int, width: int, height: int) -> Rect {
        Rect {
            left: (left * UNIT) as i64,
            top: (top * UNIT) as i64,
            width: (width * UNIT) as i64,
            height: (height * UNIT) as i64,
        }
    }

    /// The marker: the square of side `2 * MARKER_HALF_SIDE` centred on `center`.
    pub open spec fn spec_marker(center: Point) -> Rect {
        Rect {
            left: (center.x - MARKER_HALF_SIDE) as i64,
            top: (center.y - MARKER_HALF_SIDE) as i64,
            width: (2 * MARKER_HALF_SIDE) as i64,
            height: (2 * MARKER_HALF_SIDE) as i64,
        }
    }

    /// Whether the two rectangles share a region of non-zero area. Touching
    /// edges and corners do not count.
    pub open spec fn overlaps_spec(self, other: Rect) -> bool {
        &&& spans_overlap(self.left as int, self.right(), other.left as int, other.right())
        &&& spans_overlap(self.top as int, self.bottom(), other.top as int, other.bottom())
    }

    /// The rectangle with the given edges and extent in whole units.
    pub fn from_units(left: i32, top: i32, width: i32, height: i32) -> (r: Rect)
        ensures
            r == Rect::spec_from_units(left as int, top as int, width as int, height as int),
            r.left == left * UNIT,
            r.top == top * UNIT,
            r.width == width * UNIT,
            r.height == height * UNIT,
    {
        let unit: i64 = UNIT as i64;
        Rect {
            left: (left as i64) * unit,
            top: (top as i64) * unit,
            width: (width as i64) * unit,
            height: (height as i64) * unit,
        }
    }

    /// The marker square centred on `center`.
    pub fn marker(center: Point) -> (r: Rect)
        ensures
            r == Rect::spec_marker(center),
            r.left == center.x - MARKER_HALF_SIDE,
            r.top == center.y - MARKER_HALF_SIDE,
            r.width == 2 * MARKER_HALF_SIDE,
            r.height == 2 * MARKER_HALF_SIDE,
    {
        let half: i64 = MARKER_HALF_SIDE as i64;
        Rect {
            left: center.x as i64 - half,
            top: center.y as i64 - half,
            width: 2 * half,
            height: 2 * half,
        }
    }

    /// Whether the two rectangles share a region of non-zero area.
    pub fn overlaps(&self, other: &Rect) -> (hit: bool)
        ensures
            hit == self.overlaps_spec(*other),
    {
        spans_share_length(self.left, self.width, other.left, other.width)
            && spans_share_length(self.top, self.height, other.top, other.height)
    }
}

/// Whether the span of `a_len` steps from `a_lo` and the span of `b_len`
/// steps from `b_lo` share a stretch of positive length.
fn spans_share_length(a_lo: i64, a_len: i64, b_lo: i64, b_len: i64) -> (shared: bool)
    ensures
        shared == spans_overlap(a_lo as int, a_lo + a_len, b_lo as int, b_lo + b_len),
{
    let a_hi: i128 = a_lo as i128 + a_len as i128;
    let b_hi: i128 = b_lo as i128 + b_len as i128;
    let lo: i128 = if a_lo >= b_lo { a_lo as i128 } else { b_lo as i128 };
    let hi: i128 = if a_hi <= b_hi { a_hi } else { b_hi };
    lo < hi
}

} // verus!
