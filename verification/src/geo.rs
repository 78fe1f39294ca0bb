//! Axis-aligned geometry primitives: 2D points and rectangles with
//! containment, inset and translation arithmetic.
//!
//! Coordinates are whole pixel units. Every operation that adds or
//! subtracts coordinates is proved free of overflow under the coordinate
//! bounds below.
use vstd::prelude::*;

verus! {

/// Largest coordinate magnitude the host may hand to the library.
pub const COORD_LIMIT: i64 = 1073741824;

/// Largest coordinate magnitude that internally derived geometry
/// (composite children, relative offsets) may reach.
pub const GEOM_LIMIT: i64 = 8 * COORD_LIMIT;

/// A point on the screen, in pixels, origin at the top-left.
#[derive(Clone, Copy, PartialEq, Eq, Structural, Debug)]
pub struct Point {
    pub x: i64,
    pub y: i64,
}

impl Default for Point {
    fn default() -> (r: Point)
        ensures
            r == (Point { x: 0, y: 0 }),
    {
        Point { x: 0, y: 0 }
    }
}

impl Point {
    /// Both coordinates within `b` of the origin.
    pub open spec fn bounded(self, b: i64) -> bool {
        -b <= self.x <= b && -b <= self.y <= b
    }

    /// Strict containment: points on the boundary of `rect` are outside.
    pub open spec fn spec_inside(self, rect: Rect) -> bool {
        self.x > rect.x && self.x < rect.x + rect.w && self.y > rect.y && self.y < rect.y + rect.h
    }

    /// Strict containment test against `rect`.
    pub fn inside(&self, rect: Rect) -> (r: bool)
        requires
            self.bounded(GEOM_LIMIT),
            rect.bounded(GEOM_LIMIT),
        ensures
            r == self.spec_inside(rect),
    {
        self.x > rect.x && self.x < rect.right() && self.y > rect.y && self.y < rect.bottom()
    }

    /// Componentwise sum.
    pub fn add(&self, other: Point) -> (r: Point)
        requires
            self.bounded(GEOM_LIMIT),
            other.bounded(GEOM_LIMIT),
        ensures
            r.x == self.x + other.x,
            r.y == self.y + other.y,
    {
        Point { x: self.x + other.x, y: self.y + other.y }
    }

    /// Componentwise difference.
    pub fn sub(&self, other: Point) -> (r: Point)
        requires
            self.bounded(GEOM_LIMIT),
            other.bounded(GEOM_LIMIT),
        ensures
            r.x == self.x - other.x,
            r.y == self.y - other.y,
    {
        Point { x: self.x - other.x, y: self.y - other.y }
    }
}

/// An axis-aligned box: origin at the top-left corner, size extending
/// right and down. Sizes are non-negative by convention, not enforced.
#[derive(Clone, Copy, PartialEq, Eq, Structural, Debug)]
pub struct Rect {
    pub x: i64,
    pub y: i64,
    pub w: i64,
    pub h: i64,
}

impl Default for Rect {
    fn default() -> (r: Rect)
        ensures
            r == (Rect { x: 0, y: 0, w: 0, h: 0 }),
    {
        Rect { x: 0, y: 0, w: 0, h: 0 }
    }
}

impl Rect {
    /// All four fields within `b` of zero.
    pub open spec fn bounded(self, b: i64) -> bool {
        -b <= self.x <= b && -b <= self.y <= b && -b <= self.w <= b && -b <= self.h <= b
    }

    pub fn new(x: i64, y: i64, w: i64, h: i64) -> (r: Rect)
        ensures
            r == (Rect { x, y, w, h }),
    {
        Rect { x, y, w, h }
    }

    /// Grow (or, for negative `v`, shrink) the box by `v` on every side.
    pub fn inflate(&self, v: i64) -> (r: Rect)
        requires
            self.bounded(GEOM_LIMIT),
            -GEOM_LIMIT <= v <= GEOM_LIMIT,
        ensures
            r.x == self.x - v,
            r.y == self.y - v,
            r.w == self.w + 2 * v,
            r.h == self.h + 2 * v,
    {
        Rect { x: self.x - v, y: self.y - v, w: self.w + v * 2, h: self.h + v * 2 }
    }

    pub fn top_left(&self) -> (r: Point)
        ensures
            r == (Point { x: self.x, y: self.y }),
    {
        Point { x: self.x, y: self.y }
    }

    pub fn top_right(&self) -> (r: Point)
        requires
            self.bounded(GEOM_LIMIT),
        ensures
            r.x == self.x + self.w,
            r.y == self.y,
    {
        Point { x: self.x + self.w, y: self.y }
    }

    pub fn bottom_left(&self) -> (r: Point)
        requires
            self.bounded(GEOM_LIMIT),
        ensures
            r.x == self.x,
            r.y == self.y + self.h,
    {
        Point { x: self.x, y: self.y + self.h }
    }

    pub fn bottom_right(&self) -> (r: Point)
        requires
            self.bounded(GEOM_LIMIT),
        ensures
            r.x == self.x + self.w,
            r.y == self.y + self.h,
    {
        Point { x: self.x + self.w, y: self.y + self.h }
    }

    /// The x coordinate of the right edge.
    pub fn right(&self) -> (r: i64)
        requires
            self.bounded(GEOM_LIMIT),
        ensures
            r == self.x + self.w,
    {
        self.bottom_right().x
    }

    /// The y coordinate of the bottom edge.
    pub fn bottom(&self) -> (r: i64)
        requires
            self.bounded(GEOM_LIMIT),
        ensures
            r == self.y + self.h,
    {
        self.bottom_right().y
    }

    /// Translate by the origin of `other`, keeping the size.
    pub fn add(&self, other: Rect) -> (r: Rect)
        requires
            self.bounded(GEOM_LIMIT),
            other.bounded(GEOM_LIMIT),
        ensures
            r.x == self.x + other.x,
            r.y == self.y + other.y,
            r.w == self.w,
            r.h == self.h,
    {
        Rect { x: self.x + other.x, y: self.y + other.y, ..*self }
    }

    /// Translate by a point, keeping the size.
    pub fn add_pt(&self, other: Point) -> (r: Rect)
        requires
            self.bounded(GEOM_LIMIT),
            other.bounded(GEOM_LIMIT),
        ensures
            r.x == self.x + other.x,
            r.y == self.y + other.y,
            r.w == self.w,
            r.h == self.h,
    {
        Rect { x: self.x + other.x, y: self.y + other.y, ..*self }
    }

    /// Translate backwards by the origin of `other`, keeping the size.
    pub fn sub(&self, other: Rect) -> (r: Rect)
        requires
            self.bounded(GEOM_LIMIT),
            other.bounded(GEOM_LIMIT),
        ensures
            r.x == self.x - other.x,
            r.y == self.y - other.y,
            r.w == self.w,
            r.h == self.h,
    {
        Rect { x: self.x - other.x, y: self.y - other.y, ..*self }
    }

    /// Translate backwards by a point, keeping the size.
    pub fn sub_pt(&self, other: Point) -> (r: Rect)
        requires
            self.bounded(GEOM_LIMIT),
            other.bounded(GEOM_LIMIT),
        ensures
            r.x == self.x - other.x,
            r.y == self.y - other.y,
            r.w == self.w,
            r.h == self.h,
    {
        Rect { x: self.x - other.x, y: self.y - other.y, ..*self }
    }
}

/// What `remap` returns: `value` carried linearly from the range
/// `[from1, to1]` into the range `[from2, to2]`, rounding down.
pub open spec fn spec_remap(value: int, from1: int, to1: int, from2: int, to2: int) -> int {
    ((value - from1) * (to2 - from2)) / (to1 - from1) + from2
}

/// Linearly remap `value` from the range `[from1, to1]` into `[from2, to2]`.
///
/// The dividend is kept non-negative and the divisor positive, so the
/// executable division and the mathematical floor division agree.
pub fn remap(value: i64, from1: i64, to1: i64, from2: i64, to2: i64) -> (r: i64)
    requires
        from1 <= value <= to1,
        from1 < to1,
        to1 - from1 <= GEOM_LIMIT,
        from2 <= to2,
        -GEOM_LIMIT <= from2 <= GEOM_LIMIT,
        to2 - from2 <= GEOM_LIMIT,
        (to1 - from1) * (to2 - from2) <= i64::MAX,
    ensures
        r == spec_remap(value as int, from1 as int, to1 as int, from2 as int, to2 as int),
        from2 <= r <= to2,
{
    let num: i64 = value - from1;
    let den: i64 = to1 - from1;
    let span: i64 = to2 - from2;
    proof {
        lemma_mul_in_box(num as int, den as int, span as int);
    }
    let scaled: i64 = num * span;
    let q: i64 = scaled / den;
    q + from2
}

/// The scaled offset `(num * span) / den` stays within `[0, span]`
/// whenever `0 <= num <= den` and `span` is non-negative.
proof fn lemma_mul_in_box(num: int, den: int, span: int)
    requires
        0 <= num <= den,
        0 < den,
        0 <= span,
    ensures
        0 <= num * span <= den * span,
        0 <= (num * span) / den <= span,
{
    assert(num * span <= den * span) by (nonlinear_arith)
        requires
            0 <= num <= den,
            span >= 0,
    ;
    assert(0 <= num * span) by (nonlinear_arith)
        requires
            0 <= num,
            0 <= span,
    ;
    vstd::arithmetic::div_mod::lemma_div_is_ordered(num * span, den * span, den);
    assert(den * span == span * den) by (nonlinear_arith);
    vstd::arithmetic::div_mod::lemma_div_by_multiple(span, den);
    vstd::arithmetic::div_mod::lemma_div_pos_is_pos(num * span, den);
}

} // verus!
