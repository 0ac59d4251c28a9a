//! Points, extents and rectangles in integer device coordinates.
//!
//! Coordinates are `i32`. Geometry that the layout engines produce stays
//! within `[-FULL_EXTENT, FULL_EXTENT]`, so that sums and differences of two
//! coordinates never leave the `i32` range.
use vstd::prelude::*;
use crate::limits::FULL_EXTENT;

verus! {

/// True when `v` lies in the coordinate range the library works in.
pub open spec fn in_coord_range(v: int) -> bool {
    -(FULL_EXTENT as int) <= v <= FULL_EXTENT as int
}

/// The two layout axes.
#[derive(Debug, Clone, Copy, PartialEq, Eq, Structural)]
pub enum Axis {
    X,
    Y,
}

/// The axis perpendicular to `a`.
pub open spec fn other_axis(a: Axis) -> Axis {
    match a {
        Axis::X => Axis::Y,
        Axis::Y => Axis::X,
    }
}

impl Axis {
    /// The perpendicular axis.
    pub fn other(self) -> (r: Axis)
        ensures
            r == other_axis(self),
            r != self,
    {
        match self {
            Axis::X => Axis::Y,
            Axis::Y => Axis::X,
        }
    }
}

/// A position.
#[derive(Debug, Clone, Copy, PartialEq, Eq, Structural)]
pub struct Point {
    pub x: i32,
    pub y: i32,
}

/// The coordinate of `p` along `axis`.
pub open spec fn point_on(p: Point, axis: Axis) -> int {
    match axis {
        Axis::X => p.x as int,
        Axis::Y => p.y as int,
    }
}

impl Point {
    pub fn new(x: i32, y: i32) -> (r: Point)
        ensures
            r.x == x,
            r.y == y,
    {
        Point { x, y }
    }

    pub fn zero() -> (r: Point)
        ensures
            r.x == 0,
            r.y == 0,
    {
        Point { x: 0, y: 0 }
    }

    /// The coordinate along `axis`.
    pub fn get(&self, axis: Axis) -> (r: i32)
        ensures
            r as int == point_on(*self, axis),
    {
        match axis {
            Axis::X => self.x,
            Axis::Y => self.y,
        }
    }

    /// Moves the point by `(dx, dy)`.
    pub fn translate(self, dx: i32, dy: i32) -> (r: Point)
        requires
            in_coord_range(self.x as int),
            in_coord_range(self.y as int),
            in_coord_range(dx as int),
            in_coord_range(dy as int),
        ensures
            r.x == self.x + dx,
            r.y == self.y + dy,
    {
        Point { x: self.x + dx, y: self.y + dy }
    }
}

/// A size: a width and a height.
#[derive(Debug, Clone, Copy, PartialEq, Eq, Structural)]
pub struct Extent {
    pub x: i32,
    pub y: i32,
}

impl Extent {
    pub fn new(width: i32, height: i32) -> (r: Extent)
        ensures
            r.x == width,
            r.y == height,
    {
        Extent { x: width, y: height }
    }

    pub fn width(&self) -> (r: i32)
        ensures
            r == self.x,
    {
        self.x
    }

    pub fn height(&self) -> (r: i32)
        ensures
            r == self.y,
    {
        self.y
    }

    pub fn area(&self) -> (r: i64)
        ensures
            r == self.x * self.y,
    {
        assert(-0x8000_0000 * 0x8000_0000 <= self.x * self.y <= 0x8000_0000 * 0x8000_0000)
            by (nonlinear_arith)
            requires
                -0x8000_0000 <= self.x < 0x8000_0000,
                -0x8000_0000 <= self.y < 0x8000_0000,
        ;
        self.x as i64 * self.y as i64
    }
}

/// An axis-aligned rectangle given by its four edges.
#[derive(Debug, Clone, Copy, PartialEq, Eq, Structural)]
pub struct Rect {
    pub left: i32,
    pub top: i32,
    pub right: i32,
    pub bottom: i32,
}

/// The all-zero rectangle, the result that degenerate geometry falls back to.
pub open spec fn zero_rect() -> Rect {
    Rect { left: 0, top: 0, right: 0, bottom: 0 }
}

/// `p` lies inside `r`, edges included.
pub open spec fn rect_contains(r: Rect, p: Point) -> bool {
    r.left <= p.x <= r.right && r.top <= p.y <= r.bottom
}

/// The interiors of `a` and `b` overlap.
pub open spec fn rects_intersect(a: Rect, b: Rect) -> bool {
    a.left < b.right && b.left < a.right && a.top < b.bottom && b.top < a.bottom
}

impl Rect {
    /// True when every edge lies in the coordinate range.
    pub open spec fn in_range(&self) -> bool {
        &&& in_coord_range(self.left as int)
        &&& in_coord_range(self.top as int)
        &&& in_coord_range(self.right as int)
        &&& in_coord_range(self.bottom as int)
    }

    /// True when every edge lies in the coordinate range.
    pub fn is_in_range(&self) -> (r: bool)
        ensures
            r == self.in_range(),
    {
        -FULL_EXTENT <= self.left && self.left <= FULL_EXTENT && -FULL_EXTENT <= self.top && self.top <= FULL_EXTENT
            && -FULL_EXTENT <= self.right && self.right <= FULL_EXTENT && -FULL_EXTENT <= self.bottom
            && self.bottom <= FULL_EXTENT
    }

    pub fn new(left: i32, top: i32, right: i32, bottom: i32) -> (r: Rect)
        ensures
            r == (Rect { left, top, right, bottom }),
    {
        Rect { left, top, right, bottom }
    }

    pub fn zero() -> (r: Rect)
        ensures
            r == zero_rect(),
    {
        Rect { left: 0, top: 0, right: 0, bottom: 0 }
    }

    /// The rectangle with top-left corner `origin` and the given size.
    pub fn from_origin_size(origin: Point, size: Extent) -> (r: Rect)
        requires
            in_coord_range(origin.x as int),
            in_coord_range(origin.y as int),
            in_coord_range(size.x as int),
            in_coord_range(size.y as int),
        ensures
            r == (Rect {
                left: origin.x,
                top: origin.y,
                right: (origin.x + size.x) as i32,
                bottom: (origin.y + size.y) as i32,
            }),
    {
        Rect { left: origin.x, top: origin.y, right: origin.x + size.x, bottom: origin.y + size.y }
    }

    pub fn width(&self) -> (r: i64)
        ensures
            r == self.right - self.left,
    {
        self.right as i64 - self.left as i64
    }

    pub fn height(&self) -> (r: i64)
        ensures
            r == self.bottom - self.top,
    {
        self.bottom as i64 - self.top as i64
    }

    /// The extent along `axis`.
    pub fn extent(&self, axis: Axis) -> (r: i64)
        ensures
            axis == Axis::X ==> r == self.right - self.left,
            axis == Axis::Y ==> r == self.bottom - self.top,
    {
        match axis {
            Axis::X => self.width(),
            Axis::Y => self.height(),
        }
    }

    pub fn area(&self) -> (r: i128)
        ensures
            r == (self.right - self.left) * (self.bottom - self.top),
    {
        let w = self.width() as i128;
        let h = self.height() as i128;
        assert(-0x1_0000_0000 * 0x1_0000_0000 <= w * h <= 0x1_0000_0000 * 0x1_0000_0000)
            by (nonlinear_arith)
            requires
                -0x1_0000_0000 <= w <= 0x1_0000_0000,
                -0x1_0000_0000 <= h <= 0x1_0000_0000,
        ;
        w * h
    }

    /// True when the rectangle encloses no area.
    pub fn is_empty(&self) -> (r: bool)
        ensures
            r == (self.left == self.right || self.top == self.bottom),
    {
        self.left == self.right || self.top == self.bottom
    }

    /// True when the edges are ordered.
    pub fn is_valid(&self) -> (r: bool)
        ensures
            r == (self.left <= self.right && self.top <= self.bottom),
    {
        self.left <= self.right && self.top <= self.bottom
    }

    /// True when `p` lies inside the rectangle, edges included.
    pub fn contains(&self, p: Point) -> (r: bool)
        ensures
            r == rect_contains(*self, p),
    {
        p.x >= self.left && p.x <= self.right && p.y >= self.top && p.y <= self.bottom
    }

    /// Moves the rectangle by `(dx, dy)`.
    pub fn translate(self, dx: i32, dy: i32) -> (r: Rect)
        requires
            self.in_range(),
            in_coord_range(dx as int),
            in_coord_range(dy as int),
        ensures
            r.left == self.left + dx,
            r.right == self.right + dx,
            r.top == self.top + dy,
            r.bottom == self.bottom + dy,
    {
        Rect {
            left: self.left + dx,
            top: self.top + dy,
            right: self.right + dx,
            bottom: self.bottom + dy,
        }
    }

    /// Shrinks the rectangle by `x_inset` on the left and right and by
    /// `y_inset` on the top and bottom; gives the zero rectangle where the
    /// edges would cross.
    pub fn inset(self, x_inset: i32, y_inset: i32) -> (r: Rect)
        requires
            self.in_range(),
            in_coord_range(x_inset as int),
            in_coord_range(y_inset as int),
        ensures
            ({
                let c = Rect {
                    left: (self.left + x_inset) as i32,
                    top: (self.top + y_inset) as i32,
                    right: (self.right - x_inset) as i32,
                    bottom: (self.bottom - y_inset) as i32,
                };
                r == if self.left + x_inset <= self.right - x_inset && self.top + y_inset
                    <= self.bottom - y_inset {
                    c
                } else {
                    zero_rect()
                }
            }),
    {
        let r = Rect {
            left: self.left + x_inset,
            top: self.top + y_inset,
            right: self.right - x_inset,
            bottom: self.bottom - y_inset,
        };
        if r.is_valid() {
            r
        } else {
            Rect::zero()
        }
    }
}

/// True when the interiors of `a` and `b` overlap.
pub fn intersects(a: &Rect, b: &Rect) -> (r: bool)
    ensures
        r == rects_intersect(*a, *b),
{
    a.left < b.right && b.left < a.right && a.top < b.bottom && b.top < a.bottom
}

fn max_i32(a: i32, b: i32) -> (r: i32)
    ensures
        r == if a >= b { a } else { b },
{
    if a >= b { a } else { b }
}

fn min_i32(a: i32, b: i32) -> (r: i32)
    ensures
        r == if a <= b { a } else { b },
{
    if a <= b { a } else { b }
}

/// The common part of `a` and `b`, when it has an area.
pub fn intersection(a: &Rect, b: &Rect) -> (r: Option<Rect>)
    ensures
        ({
            let c = Rect {
                left: if a.left >= b.left { a.left } else { b.left },
                top: if a.top >= b.top { a.top } else { b.top },
                right: if a.right <= b.right { a.right } else { b.right },
                bottom: if a.bottom <= b.bottom { a.bottom } else { b.bottom },
            };
            r == if c.left < c.right && c.top < c.bottom { Some(c) } else { None::<Rect> }
        }),
{
    let c = Rect {
        left: max_i32(a.left, b.left),
        top: max_i32(a.top, b.top),
        right: min_i32(a.right, b.right),
        bottom: min_i32(a.bottom, b.bottom),
    };
    if c.is_valid() && !c.is_empty() {
        Some(c)
    } else {
        None
    }
}

/// The smallest rectangle that holds both `a` and `b`.
pub fn union(a: &Rect, b: &Rect) -> (r: Rect)
    ensures
        r.left == if a.left <= b.left { a.left } else { b.left },
        r.top == if a.top <= b.top { a.top } else { b.top },
        r.right == if a.right >= b.right { a.right } else { b.right },
        r.bottom == if a.bottom >= b.bottom { a.bottom } else { b.bottom },
{
    Rect {
        left: min_i32(a.left, b.left),
        top: min_i32(a.top, b.top),
        right: max_i32(a.right, b.right),
        bottom: max_i32(a.bottom, b.bottom),
    }
}

} // verus!
