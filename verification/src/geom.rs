//! Integer rectangle geometry in viewport-local coordinates.
//!
//! Positions and rectangles carry `i64` coordinates, but every value the
//! frame logic works with stays within [`COORD_LIMIT`] of zero, so the
//! handful of additions the frame performs can never overflow.

use vstd::prelude::*;

verus! {

/// Largest magnitude a configured coordinate may have. A caption
/// rectangle that should extend without bound uses this as its far edge.
pub const COORD_LIMIT: i64 = 0x7fff_ffff;

/// A point in viewport-local coordinates.
#[derive(Clone, Copy, PartialEq, Eq, Debug)]
pub struct Pos {
    pub x: i64,
    pub y: i64,
}

/// An axis-aligned rectangle given by two corners. When `max` is
/// componentwise below `min` the rectangle is empty: it contains nothing.
#[derive(Clone, Copy, PartialEq, Eq, Debug)]
pub struct Rect {
    pub min: Pos,
    pub max: Pos,
}

/// Four-sided inset thickness.
#[derive(Clone, Copy, PartialEq, Eq, Debug)]
pub struct Margin {
    pub left: i64,
    pub right: i64,
    pub top: i64,
    pub bottom: i64,
}

/// Mathematical model of a rectangle: `(left, top, right, bottom)`.
pub type RectModel = (int, int, int, int);

pub open spec fn coord_wf(v: int) -> bool {
    -COORD_LIMIT <= v <= COORD_LIMIT
}

pub open spec fn pos_wf(p: Pos) -> bool {
    coord_wf(p.x as int) && coord_wf(p.y as int)
}

pub open spec fn rect_wf(r: Rect) -> bool {
    pos_wf(r.min) && pos_wf(r.max)
}

pub open spec fn margin_wf(m: Margin) -> bool {
    &&& 0 <= m.left <= COORD_LIMIT
    &&& 0 <= m.right <= COORD_LIMIT
    &&& 0 <= m.top <= COORD_LIMIT
    &&& 0 <= m.bottom <= COORD_LIMIT
}

/// Whether the point `(x, y)` lies in the rectangle, edges included.
pub open spec fn model_contains(r: RectModel, x: int, y: int) -> bool {
    r.0 <= x <= r.2 && r.1 <= y <= r.3
}

/// The rectangle moved by `(dx, dy)`.
pub open spec fn model_translate(r: RectModel, dx: int, dy: int) -> RectModel {
    (r.0 + dx, r.1 + dy, r.2 + dx, r.3 + dy)
}

/// The rectangle shrunk inward by `by` on all four sides.
pub open spec fn model_shrink(r: RectModel, by: int) -> RectModel {
    (r.0 + by, r.1 + by, r.2 - by, r.3 - by)
}

/// The rectangle shrunk inward by a four-sided margin.
pub open spec fn model_sub_margin(r: RectModel, m: Margin) -> RectModel {
    (r.0 + m.left, r.1 + m.top, r.2 - m.right, r.3 - m.bottom)
}

/// The common area of two rectangles.
pub open spec fn model_intersect(a: RectModel, b: RectModel) -> RectModel {
    (
        if a.0 >= b.0 { a.0 } else { b.0 },
        if a.1 >= b.1 { a.1 } else { b.1 },
        if a.2 <= b.2 { a.2 } else { b.2 },
        if a.3 <= b.3 { a.3 } else { b.3 },
    )
}

impl Pos {
    pub fn new(x: i64, y: i64) -> (p: Pos)
        ensures
            p.x == x,
            p.y == y,
    {
        Pos { x, y }
    }
}

impl Rect {
    /// The rectangle as `(left, top, right, bottom)` mathematical integers.
    pub open spec fn model(self) -> RectModel {
        (self.min.x as int, self.min.y as int, self.max.x as int, self.max.y as int)
    }

    pub fn from_min_max(min: Pos, max: Pos) -> (r: Rect)
        ensures
            r.model() == (min.x as int, min.y as int, max.x as int, max.y as int),
    {
        Rect { min, max }
    }

    /// The corner rectangle with origin `min` and the given extent.
    pub fn from_min_size(min: Pos, width: i64, height: i64) -> (r: Rect)
        requires
            i64::MIN <= min.x + width <= i64::MAX,
            i64::MIN <= min.y + height <= i64::MAX,
        ensures
            r.model() == (min.x as int, min.y as int, min.x + width, min.y + height),
    {
        Rect { min, max: Pos { x: min.x + width, y: min.y + height } }
    }

    pub fn width(&self) -> (w: i64)
        requires
            i64::MIN <= self.max.x - self.min.x <= i64::MAX,
        ensures
            w == self.max.x - self.min.x,
    {
        self.max.x - self.min.x
    }

    pub fn height(&self) -> (h: i64)
        requires
            i64::MIN <= self.max.y - self.min.y <= i64::MAX,
        ensures
            h == self.max.y - self.min.y,
    {
        self.max.y - self.min.y
    }

    /// Whether `p` lies in the rectangle, edges included.
    pub fn contains(&self, p: Pos) -> (b: bool)
        ensures
            b == model_contains(self.model(), p.x as int, p.y as int),
    {
        self.min.x <= p.x && p.x <= self.max.x && self.min.y <= p.y && p.y <= self.max.y
    }

    /// The rectangle moved by `(dx, dy)`.
    pub fn translate(&self, dx: i64, dy: i64) -> (r: Rect)
        requires
            i64::MIN <= self.min.x + dx <= i64::MAX,
            i64::MIN <= self.min.y + dy <= i64::MAX,
            i64::MIN <= self.max.x + dx <= i64::MAX,
            i64::MIN <= self.max.y + dy <= i64::MAX,
        ensures
            r.model() == model_translate(self.model(), dx as int, dy as int),
    {
        Rect {
            min: Pos { x: self.min.x + dx, y: self.min.y + dy },
            max: Pos { x: self.max.x + dx, y: self.max.y + dy },
        }
    }

    /// The rectangle shrunk inward by `by` on all four sides.
    pub fn shrink(&self, by: i64) -> (r: Rect)
        requires
            i64::MIN <= self.min.x + by <= i64::MAX,
            i64::MIN <= self.min.y + by <= i64::MAX,
            i64::MIN <= self.max.x - by <= i64::MAX,
            i64::MIN <= self.max.y - by <= i64::MAX,
        ensures
            r.model() == model_shrink(self.model(), by as int),
    {
        Rect {
            min: Pos { x: self.min.x + by, y: self.min.y + by },
            max: Pos { x: self.max.x - by, y: self.max.y - by },
        }
    }

    /// The rectangle shrunk inward by a four-sided margin.
    pub fn sub_margin(&self, m: &Margin) -> (r: Rect)
        requires
            i64::MIN <= self.min.x + m.left <= i64::MAX,
            i64::MIN <= self.min.y + m.top <= i64::MAX,
            i64::MIN <= self.max.x - m.right <= i64::MAX,
            i64::MIN <= self.max.y - m.bottom <= i64::MAX,
        ensures
            r.model() == model_sub_margin(self.model(), *m),
    {
        Rect {
            min: Pos { x: self.min.x + m.left, y: self.min.y + m.top },
            max: Pos { x: self.max.x - m.right, y: self.max.y - m.bottom },
        }
    }

    /// The common area of `self` and `other`.
    pub fn intersect(&self, other: &Rect) -> (r: Rect)
        ensures
            r.model() == model_intersect(self.model(), other.model()),
    {
        Rect {
            min: Pos {
                x: if self.min.x >= other.min.x { self.min.x } else { other.min.x },
                y: if self.min.y >= other.min.y { self.min.y } else { other.min.y },
            },
            max: Pos {
                x: if self.max.x <= other.max.x { self.max.x } else { other.max.x },
                y: if self.max.y <= other.max.y { self.max.y } else { other.max.y },
            },
        }
    }
}

impl Margin {
    /// The margin with the same thickness on all four sides.
    pub fn same(v: i64) -> (m: Margin)
        ensures
            m.left == v,
            m.right == v,
            m.top == v,
            m.bottom == v,
    {
        Margin { left: v, right: v, top: v, bottom: v }
    }
}

} // verus!
