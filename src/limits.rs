//! Size negotiation: the limits and stretch an element reports.
use vstd::prelude::*;
use crate::geometry::{Axis, Point, point_on};

verus! {

/// The extent that stands for "unbounded".
pub const FULL_EXTENT: i32 = 500_000_000;

/// The admissible size range of an element.
#[derive(Debug, Clone, Copy, PartialEq, Eq, Structural)]
pub struct ViewLimits {
    pub min: Point,
    pub max: Point,
}

/// The lower limit along `axis`.
pub open spec fn min_on(l: ViewLimits, axis: Axis) -> int {
    point_on(l.min, axis)
}

/// The upper limit along `axis`.
pub open spec fn max_on(l: ViewLimits, axis: Axis) -> int {
    point_on(l.max, axis)
}

impl ViewLimits {
    /// Consistent limits: `0 <= min <= max <= FULL_EXTENT` on both axes.
    pub open spec fn wf(&self) -> bool {
        &&& 0 <= self.min.x <= self.max.x <= FULL_EXTENT
        &&& 0 <= self.min.y <= self.max.y <= FULL_EXTENT
    }

    pub fn new(min: Point, max: Point) -> (r: ViewLimits)
        ensures
            r.min == min,
            r.max == max,
    {
        ViewLimits { min, max }
    }

    /// Anything from nothing to unbounded.
    pub fn full() -> (r: ViewLimits)
        ensures
            r == full_limits(),
            r.wf(),
    {
        ViewLimits { min: Point { x: 0, y: 0 }, max: Point { x: FULL_EXTENT, y: FULL_EXTENT } }
    }

    /// Exactly `width` by `height`.
    pub fn fixed(width: i32, height: i32) -> (r: ViewLimits)
        ensures
            r.min == (Point { x: width, y: height }),
            r.max == (Point { x: width, y: height }),
    {
        ViewLimits { min: Point { x: width, y: height }, max: Point { x: width, y: height } }
    }

    /// At least `width` by `height`, unbounded above.
    pub fn min_size(width: i32, height: i32) -> (r: ViewLimits)
        ensures
            r.min == (Point { x: width, y: height }),
            r.max == (Point { x: FULL_EXTENT, y: FULL_EXTENT }),
    {
        ViewLimits { min: Point { x: width, y: height }, max: Point { x: FULL_EXTENT, y: FULL_EXTENT } }
    }

    /// The lower limit along `axis`.
    pub fn min_for(&self, axis: Axis) -> (r: i32)
        ensures
            r as int == min_on(*self, axis),
    {
        self.min.get(axis)
    }

    /// The upper limit along `axis`.
    pub fn max_for(&self, axis: Axis) -> (r: i32)
        ensures
            r as int == max_on(*self, axis),
    {
        self.max.get(axis)
    }
}

/// The limits of an element that takes any size.
pub open spec fn full_limits() -> ViewLimits {
    ViewLimits { min: Point { x: 0, y: 0 }, max: Point { x: FULL_EXTENT, y: FULL_EXTENT } }
}

impl Default for ViewLimits {
    fn default() -> (r: ViewLimits)
        ensures
            r == full_limits(),
    {
        ViewLimits::full()
    }
}

/// An element's relative claim on space beyond its minimum, per axis.
#[derive(Debug, Clone, Copy, PartialEq, Eq, Structural)]
pub struct ViewStretch {
    pub x: u32,
    pub y: u32,
}

/// The stretch weight along `axis`.
pub open spec fn stretch_on(s: ViewStretch, axis: Axis) -> int {
    match axis {
        Axis::X => s.x as int,
        Axis::Y => s.y as int,
    }
}

impl ViewStretch {
    pub fn new(x: u32, y: u32) -> (r: ViewStretch)
        ensures
            r.x == x,
            r.y == y,
    {
        ViewStretch { x, y }
    }

    /// The same weight on both axes.
    pub fn uniform(value: u32) -> (r: ViewStretch)
        ensures
            r.x == value,
            r.y == value,
    {
        ViewStretch { x: value, y: value }
    }

    /// The weight along `axis`.
    pub fn for_axis(&self, axis: Axis) -> (r: u32)
        ensures
            r as int == stretch_on(*self, axis),
    {
        match axis {
            Axis::X => self.x,
            Axis::Y => self.y,
        }
    }
}

impl Default for ViewStretch {
    /// An equal share of extra space on both axes.
    fn default() -> (r: ViewStretch)
        ensures
            r.x == 1 && r.y == 1,
    {
        ViewStretch { x: 1, y: 1 }
    }
}

/// Where a composite starts looking for a child to focus.
#[derive(Debug, Clone, Copy, PartialEq, Eq, Structural)]
pub enum FocusRequest {
    FromTop,
    FromBottom,
    RestorePrevious,
}

/// The phase of a tracked interaction.
#[derive(Debug, Clone, Copy, PartialEq, Eq, Structural)]
pub enum Tracking {
    Idle,
    Begin,
    While,
    End,
}

/// An element that takes any size and draws nothing.
#[derive(Debug, Clone, Copy, Default, PartialEq, Eq, Structural)]
pub struct Empty;

impl Empty {
    /// Any size is admissible.
    pub fn limits(&self) -> (r: ViewLimits)
        ensures
            r == full_limits(),
    {
        ViewLimits::full()
    }

    /// Takes an equal share of extra space.
    pub fn stretch(&self) -> (r: ViewStretch)
        ensures
            r.x == 1 && r.y == 1,
    {
        ViewStretch { x: 1, y: 1 }
    }
}

/// An empty element.
pub fn empty() -> (r: Empty)
    ensures
        r == Empty,
{
    Empty
}

/// The coordinate of `p` along `axis`, as stored.
pub open spec fn coord_on(p: Point, axis: Axis) -> i32 {
    match axis {
        Axis::X => p.x,
        Axis::Y => p.y,
    }
}

/// The point whose coordinate along `axis` is `along` and across it `across`.
pub open spec fn point_along(axis: Axis, along: i32, across: i32) -> Point {
    match axis {
        Axis::X => Point { x: along, y: across },
        Axis::Y => Point { x: across, y: along },
    }
}

/// The lower limits of `ls` along `axis`.
pub open spec fn axis_mins(ls: Seq<ViewLimits>, axis: Axis) -> Seq<i32> {
    Seq::new(ls.len(), |i: int| coord_on(ls[i].min, axis))
}

/// The upper limits of `ls` along `axis`.
pub open spec fn axis_maxs(ls: Seq<ViewLimits>, axis: Axis) -> Seq<i32> {
    Seq::new(ls.len(), |i: int| coord_on(ls[i].max, axis))
}

/// The stretch weights of `ss` along `axis`.
pub open spec fn axis_weights(ss: Seq<ViewStretch>, axis: Axis) -> Seq<u32> {
    Seq::new(ss.len(), |i: int| stretch_on(ss[i], axis) as u32)
}

/// Every limit in `ls` is consistent.
pub open spec fn all_wf(ls: Seq<ViewLimits>) -> bool {
    forall|i: int| 0 <= i < ls.len() ==> (#[trigger] ls[i]).wf()
}

/// Builds the point with `along` on `axis` and `across` on the other axis.
pub fn make_point(axis: Axis, along: i32, across: i32) -> (r: Point)
    ensures
        r == point_along(axis, along, across),
{
    match axis {
        Axis::X => Point { x: along, y: across },
        Axis::Y => Point { x: across, y: along },
    }
}

/// The lower limits along `axis`.
pub fn collect_mins(ls: &Vec<ViewLimits>, axis: Axis) -> (r: Vec<i32>)
    ensures
        r@ == axis_mins(ls@, axis),
{
    let mut out: Vec<i32> = Vec::new();
    let mut i: usize = 0;
    while i < ls.len()
        invariant
            i <= ls.len(),
            out@ == axis_mins(ls@, axis).take(i as int),
        decreases ls.len() - i,
    {
        out.push(ls[i].min.get(axis));
        i = i + 1;
        assert(out@ =~= axis_mins(ls@, axis).take(i as int));
    }
    assert(out@ =~= axis_mins(ls@, axis));
    out
}

/// The upper limits along `axis`.
pub fn collect_maxs(ls: &Vec<ViewLimits>, axis: Axis) -> (r: Vec<i32>)
    ensures
        r@ == axis_maxs(ls@, axis),
{
    let mut out: Vec<i32> = Vec::new();
    let mut i: usize = 0;
    while i < ls.len()
        invariant
            i <= ls.len(),
            out@ == axis_maxs(ls@, axis).take(i as int),
        decreases ls.len() - i,
    {
        out.push(ls[i].max.get(axis));
        i = i + 1;
        assert(out@ =~= axis_maxs(ls@, axis).take(i as int));
    }
    assert(out@ =~= axis_maxs(ls@, axis));
    out
}

/// The stretch weights along `axis`.
pub fn collect_weights(ss: &Vec<ViewStretch>, axis: Axis) -> (r: Vec<u32>)
    ensures
        r@ == axis_weights(ss@, axis),
{
    let mut out: Vec<u32> = Vec::new();
    let mut i: usize = 0;
    while i < ss.len()
        invariant
            i <= ss.len(),
            out@ == axis_weights(ss@, axis).take(i as int),
        decreases ss.len() - i,
    {
        out.push(ss[i].for_axis(axis));
        i = i + 1;
        assert(out@ =~= axis_weights(ss@, axis).take(i as int));
    }
    assert(out@ =~= axis_weights(ss@, axis));
    out
}

} // verus!
