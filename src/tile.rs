//! Linear layout: children stacked along one axis.
use vstd::prelude::*;
use crate::geometry::{Axis, other_axis, Point, Rect, zero_rect};
use crate::limits::{
    FULL_EXTENT, ViewLimits, ViewStretch, all_wf, axis_mins, axis_maxs, axis_weights,
    point_along, max_on, collect_mins, collect_maxs, collect_weights, make_point,
};
use crate::distribute::{
    sum_to, sum_all, valid_extents, distributed, distributed_to, distribute, spare,
    lemma_distributed_prefix, lemma_sum_to_bounds, lemma_distribute_conserves, weight_all,
};

verus! {

/// `v` capped at `FULL_EXTENT`.
pub open spec fn capped(v: int) -> int {
    if v > FULL_EXTENT { FULL_EXTENT as int } else { v }
}

/// The largest of the first `n` values of `s`, and 0 for none.
pub open spec fn max_to(s: Seq<i32>, n: int) -> int
    decreases n,
{
    if n <= 0 || n > s.len() {
        0
    } else if s[n - 1] as int > max_to(s, n - 1) {
        s[n - 1] as int
    } else {
        max_to(s, n - 1)
    }
}

/// The smallest of the first `n` values of `s`, and `FULL_EXTENT` for none.
pub open spec fn least_to(s: Seq<i32>, n: int) -> int
    decreases n,
{
    if n <= 0 || n > s.len() {
        FULL_EXTENT as int
    } else if (s[n - 1] as int) < least_to(s, n - 1) {
        s[n - 1] as int
    } else {
        least_to(s, n - 1)
    }
}

/// The limits of a tile along `axis` over children with limits `ls`: along
/// the axis the (capped) sums of the children's limits, across it the largest
/// minimum and the smallest maximum (raised to that minimum). No children
/// give zero size.
pub open spec fn tile_limits_of(ls: Seq<ViewLimits>, axis: Axis) -> ViewLimits {
    if ls.len() == 0 {
        ViewLimits { min: Point { x: 0, y: 0 }, max: Point { x: 0, y: 0 } }
    } else {
        let n = ls.len() as int;
        let along_min = capped(sum_all(axis_mins(ls, axis)));
        let along_max = capped(sum_all(axis_maxs(ls, axis)));
        let across_min = max_to(axis_mins(ls, other_axis(axis)), n);
        let least = least_to(axis_maxs(ls, other_axis(axis)), n);
        let across_max = if least > across_min { least } else { across_min };
        ViewLimits {
            min: point_along(axis, along_min as i32, across_min as i32),
            max: point_along(axis, along_max as i32, across_max as i32),
        }
    }
}

/// The largest of valid extents is a valid extent, at least each of them.
pub proof fn lemma_max_to_bounds(s: Seq<i32>, n: int)
    requires
        valid_extents(s),
        0 <= n <= s.len(),
    ensures
        0 <= max_to(s, n) <= FULL_EXTENT,
        forall|i: int| 0 <= i < n ==> s[i] <= max_to(s, n),
    decreases n,
{
    if n > 0 {
        lemma_max_to_bounds(s, n - 1);
    }
}

/// The smallest of valid extents is a valid extent.
pub proof fn lemma_least_to_bounds(s: Seq<i32>, n: int)
    requires
        valid_extents(s),
        0 <= n <= s.len(),
    ensures
        0 <= least_to(s, n) <= FULL_EXTENT,
    decreases n,
{
    if n > 0 {
        lemma_least_to_bounds(s, n - 1);
    }
}

/// Sums keep a pointwise order.
pub proof fn lemma_sums_ordered(lo: Seq<i32>, hi: Seq<i32>, n: int)
    requires
        lo.len() == hi.len(),
        0 <= n <= lo.len(),
        forall|i: int| 0 <= i < lo.len() ==> lo[i] <= hi[i],
    ensures
        sum_to(lo, n) <= sum_to(hi, n),
    decreases n,
{
    if n > 0 {
        lemma_sums_ordered(lo, hi, n - 1);
    }
}

/// The per-axis limits of consistent children are valid extents, minimums
/// below maximums.
pub proof fn lemma_axis_extents_valid(ls: Seq<ViewLimits>, axis: Axis)
    requires
        all_wf(ls),
    ensures
        valid_extents(axis_mins(ls, axis)),
        valid_extents(axis_maxs(ls, axis)),
        forall|i: int|
            0 <= i < ls.len() ==> axis_mins(ls, axis)[i] <= #[trigger] axis_maxs(ls, axis)[i],
{
    assert forall|i: int| 0 <= i < ls.len() implies axis_mins(ls, axis)[i] <= #[trigger] axis_maxs(
        ls,
        axis,
    )[i] by {
        assert(ls[i].wf());
    }
    assert forall|i: int| 0 <= i < ls.len() implies 0 <= #[trigger] axis_mins(ls, axis)[i]
        <= FULL_EXTENT by {
        assert(ls[i].wf());
    }
    assert forall|i: int| 0 <= i < ls.len() implies 0 <= #[trigger] axis_maxs(ls, axis)[i]
        <= FULL_EXTENT by {
        assert(ls[i].wf());
    }
}

/// A tile over consistent children reports consistent limits.
pub proof fn lemma_tile_limits_wf(ls: Seq<ViewLimits>, axis: Axis)
    requires
        all_wf(ls),
    ensures
        tile_limits_of(ls, axis).wf(),
{
    if ls.len() > 0 {
        let n = ls.len() as int;
        lemma_axis_extents_valid(ls, axis);
        lemma_axis_extents_valid(ls, other_axis(axis));
        lemma_sum_to_bounds(axis_mins(ls, axis), n);
        lemma_sums_ordered(axis_mins(ls, axis), axis_maxs(ls, axis), n);
        lemma_max_to_bounds(axis_mins(ls, other_axis(axis)), n);
        lemma_least_to_bounds(axis_maxs(ls, other_axis(axis)), n);
    }
}

pub(crate) fn capped_sum(s: &Vec<i32>) -> (r: i32)
    requires
        valid_extents(s@),
    ensures
        r == capped(sum_all(s@)),
{
    let mut acc: i32 = 0;
    let mut i: usize = 0;
    while i < s.len()
        invariant
            i <= s.len(),
            valid_extents(s@),
            acc == capped(sum_to(s@, i as int)),
        decreases s.len() - i,
    {
        proof {
            lemma_sum_to_bounds(s@, i as int);
        }
        let next = acc + s[i];
        acc = if next > FULL_EXTENT { FULL_EXTENT } else { next };
        i = i + 1;
    }
    acc
}

pub(crate) fn seq_max(s: &Vec<i32>) -> (r: i32)
    ensures
        r == max_to(s@, s.len() as int),
{
    let mut acc: i32 = 0;
    let mut i: usize = 0;
    while i < s.len()
        invariant
            i <= s.len(),
            acc == max_to(s@, i as int),
        decreases s.len() - i,
    {
        if s[i] > acc {
            acc = s[i];
        }
        i = i + 1;
    }
    acc
}

pub(crate) fn seq_least(s: &Vec<i32>) -> (r: i32)
    ensures
        r == least_to(s@, s.len() as int),
{
    let mut acc: i32 = FULL_EXTENT;
    let mut i: usize = 0;
    while i < s.len()
        invariant
            i <= s.len(),
            acc == least_to(s@, i as int),
        decreases s.len() - i,
    {
        if s[i] < acc {
            acc = s[i];
        }
        i = i + 1;
    }
    acc
}

/// The limits of a tile along `axis` whose children have limits `children`.
pub fn tile_limits(children: &Vec<ViewLimits>, axis: Axis) -> (r: ViewLimits)
    requires
        all_wf(children@),
    ensures
        r == tile_limits_of(children@, axis),
        r.wf(),
{
    proof {
        lemma_tile_limits_wf(children@, axis);
    }
    if children.len() == 0 {
        return ViewLimits { min: Point { x: 0, y: 0 }, max: Point { x: 0, y: 0 } };
    }
    proof {
        lemma_axis_extents_valid(children@, axis);
    }
    let across = axis.other();
    let along_min = capped_sum(&collect_mins(children, axis));
    let along_max = capped_sum(&collect_maxs(children, axis));
    let across_min = seq_max(&collect_mins(children, across));
    let least = seq_least(&collect_maxs(children, across));
    let across_max = if least > across_min { least } else { across_min };
    ViewLimits {
        min: make_point(axis, along_min, across_min),
        max: make_point(axis, along_max, across_max),
    }
}

/// The size a tile along `axis` gives child `i` out of `available`: its
/// distributed size, clamped to its own maximum.
pub open spec fn tile_size(
    ls: Seq<ViewLimits>,
    ss: Seq<ViewStretch>,
    axis: Axis,
    available: int,
    i: int,
) -> int {
    let d = distributed(axis_mins(ls, axis), axis_weights(ss, axis), available, i);
    if d < max_on(ls[i], axis) {
        d
    } else {
        max_on(ls[i], axis)
    }
}

/// Where child `k` starts: the sum of the sizes of the children before it.
pub open spec fn tile_offset(
    ls: Seq<ViewLimits>,
    ss: Seq<ViewStretch>,
    axis: Axis,
    available: int,
    k: int,
) -> int
    decreases k,
{
    if k <= 0 {
        0
    } else {
        tile_offset(ls, ss, axis, available, k - 1) + tile_size(ls, ss, axis, available, k - 1)
    }
}

/// The children's minimums along `axis` fit in the coordinate range together.
pub open spec fn fits_along(ls: Seq<ViewLimits>, axis: Axis) -> bool {
    sum_all(axis_mins(ls, axis)) <= FULL_EXTENT
}

proof fn lemma_tile_offset_bounds(
    ls: Seq<ViewLimits>,
    ss: Seq<ViewStretch>,
    axis: Axis,
    available: int,
    k: int,
)
    requires
        ls.len() == ss.len(),
        all_wf(ls),
        0 <= k <= ls.len(),
    ensures
        0 <= tile_offset(ls, ss, axis, available, k) <= distributed_to(
            axis_mins(ls, axis),
            axis_weights(ss, axis),
            available,
            k,
        ),
    decreases k,
{
    lemma_axis_extents_valid(ls, axis);
    lemma_distributed_prefix(axis_mins(ls, axis), axis_weights(ss, axis), available, k);
    if k > 0 {
        lemma_tile_offset_bounds(ls, ss, axis, available, k - 1);
        assert(ls[k - 1].wf());
    }
}

/// The offsets of the children of a tile along `axis` that has `available`
/// space: entry `k` is where child `k` starts, and the last entry is where
/// the last child ends.
pub fn tile_offsets(
    children: &Vec<ViewLimits>,
    stretches: &Vec<ViewStretch>,
    axis: Axis,
    available: i32,
) -> (r: Vec<i32>)
    requires
        children.len() == stretches.len(),
        all_wf(children@),
        fits_along(children@, axis),
        available <= 2 * FULL_EXTENT,
    ensures
        r.len() == children.len() + 1,
        forall|k: int|
            0 <= k <= children.len() ==> r[k] == tile_offset(
                children@,
                stretches@,
                axis,
                available as int,
                k,
            ),
        forall|k: int| 0 <= k <= children.len() ==> 0 <= #[trigger] r[k] <= 3 * FULL_EXTENT,
{
    let n = children.len();
    let ghost mins = axis_mins(children@, axis);
    let ghost weights = axis_weights(stretches@, axis);
    proof {
        lemma_axis_extents_valid(children@, axis);
    }
    let sizes = distribute(&collect_mins(children, axis), &collect_weights(stretches, axis), available);
    let ghost e = spare(mins, available as int);
    proof {
        lemma_distributed_prefix(mins, weights, available as int, n as int);
        crate::distribute::lemma_quota_mono(e, weights, 0, n as int);
        lemma_sum_to_bounds(mins, n as int);
    }
    let mut out: Vec<i32> = Vec::new();
    out.push(0);
    let mut pos: i32 = 0;
    let mut i: usize = 0;
    while i < n
        invariant
            i <= n,
            n == children.len(),
            n == stretches.len(),
            sizes.len() == n,
            all_wf(children@),
            mins == axis_mins(children@, axis),
            weights == axis_weights(stretches@, axis),
            sum_all(mins) <= FULL_EXTENT,
            0 <= e <= 2 * FULL_EXTENT,
            e == spare(mins, available as int),
            distributed_to(mins, weights, available as int, n as int) == sum_all(mins)
                + crate::distribute::quota(e, weights, n as int),
            crate::distribute::quota(e, weights, n as int) <= e,
            forall|m: int| 0 <= m < n ==> sizes[m] == distributed(mins, weights, available as int, m),
            out.len() == i + 1,
            pos == tile_offset(children@, stretches@, axis, available as int, i as int),
            forall|k: int|
                0 <= k <= i ==> out[k] == tile_offset(children@, stretches@, axis, available as int, k),
            forall|k: int| 0 <= k <= i ==> 0 <= #[trigger] out[k] <= 3 * FULL_EXTENT,
        decreases n - i,
    {
        proof {
            lemma_tile_offset_bounds(children@, stretches@, axis, available as int, i as int + 1);
            lemma_distributed_prefix(mins, weights, available as int, n as int);
            crate::distribute::lemma_quota_mono(e, weights, i as int + 1, n as int);
            lemma_distributed_monotone(mins, weights, available as int, i as int + 1, n as int);
        }
        let d = sizes[i];
        let hi = children[i].max_for(axis);
        let size = if d < hi { d } else { hi };
        pos = pos + size;
        out.push(pos);
        i = i + 1;
    }
    out
}

proof fn lemma_distributed_monotone(
    mins: Seq<i32>,
    w: Seq<u32>,
    available: int,
    j: int,
    k: int,
)
    requires
        mins.len() == w.len(),
        valid_extents(mins),
        0 <= j <= k <= mins.len(),
    ensures
        distributed_to(mins, w, available, j) <= distributed_to(mins, w, available, k),
    decreases k - j,
{
    lemma_distributed_prefix(mins, w, available, mins.len() as int);
    if j < k {
        lemma_distributed_monotone(mins, w, available, j, k - 1);
    }
}

proof fn lemma_tile_offset_unclamped(
    ls: Seq<ViewLimits>,
    ss: Seq<ViewStretch>,
    axis: Axis,
    available: int,
    k: int,
)
    requires
        ls.len() == ss.len(),
        0 <= k <= ls.len(),
        forall|i: int|
            0 <= i < ls.len() ==> distributed(axis_mins(ls, axis), axis_weights(ss, axis), available, i)
                <= #[trigger] max_on(ls[i], axis),
    ensures
        tile_offset(ls, ss, axis, available, k) == distributed_to(
            axis_mins(ls, axis),
            axis_weights(ss, axis),
            available,
            k,
        ),
    decreases k,
{
    if k > 0 {
        lemma_tile_offset_unclamped(ls, ss, axis, available, k - 1);
        assert(distributed(axis_mins(ls, axis), axis_weights(ss, axis), available, k - 1) <= max_on(
            ls[k - 1],
            axis,
        ));
    }
}

/// No child of a tile gets less than its own minimum along the axis.
pub proof fn lemma_tile_size_at_least_min(
    ls: Seq<ViewLimits>,
    ss: Seq<ViewStretch>,
    axis: Axis,
    available: int,
    i: int,
)
    requires
        ls.len() == ss.len(),
        all_wf(ls),
        0 <= i < ls.len(),
    ensures
        crate::limits::min_on(ls[i], axis) <= tile_size(ls, ss, axis, available, i),
{
    lemma_axis_extents_valid(ls, axis);
    lemma_distributed_prefix(axis_mins(ls, axis), axis_weights(ss, axis), available, 0);
    assert(ls[i].wf());
}

/// Tile conservation: where some child stretches along the axis, the space
/// covers the children's minimums and no child's maximum cuts its share
/// short, the children together fill exactly the available space, and each
/// gets at least its minimum.
pub proof fn lemma_tile_conservation(
    ls: Seq<ViewLimits>,
    ss: Seq<ViewStretch>,
    axis: Axis,
    available: int,
)
    requires
        ls.len() == ss.len(),
        all_wf(ls),
        weight_all(axis_weights(ss, axis)) > 0,
        available >= sum_all(axis_mins(ls, axis)),
        forall|i: int|
            0 <= i < ls.len() ==> #[trigger] max_on(ls[i], axis) >= crate::limits::min_on(ls[i], axis)
                + (available - sum_all(axis_mins(ls, axis))),
    ensures
        tile_offset(ls, ss, axis, available, ls.len() as int) == available,
        forall|i: int|
            0 <= i < ls.len() ==> crate::limits::min_on(ls[i], axis) <= #[trigger] tile_size(
                ls,
                ss,
                axis,
                available,
                i,
            ),
{
    let mins = axis_mins(ls, axis);
    let w = axis_weights(ss, axis);
    lemma_axis_extents_valid(ls, axis);
    lemma_distributed_prefix(mins, w, available, ls.len() as int);
    assert forall|i: int| 0 <= i < ls.len() implies distributed(mins, w, available, i)
        <= #[trigger] max_on(ls[i], axis) by {
        assert(max_on(ls[i], axis) >= crate::limits::min_on(ls[i], axis) + (available - sum_all(
            mins,
        )));
    }
    lemma_tile_offset_unclamped(ls, ss, axis, available, ls.len() as int);
    lemma_distribute_conserves(mins, w, available);
    assert forall|i: int| 0 <= i < ls.len() implies crate::limits::min_on(ls[i], axis)
        <= #[trigger] tile_size(ls, ss, axis, available, i) by {
        lemma_tile_size_at_least_min(ls, ss, axis, available, i);
    }
}

/// The extent of `b` along `axis`.
pub open spec fn extent_on(b: Rect, axis: Axis) -> int {
    match axis {
        Axis::X => b.right - b.left,
        Axis::Y => b.bottom - b.top,
    }
}

/// The rectangle a tile along `axis` with bounds `b` gives child `index`:
/// across the axis the tile's own extent, along it the child's span of the
/// layout. Indices out of range, and children whose minimums do not fit in
/// the coordinate range, get the zero rectangle.
pub open spec fn tile_child_bounds(
    ls: Seq<ViewLimits>,
    ss: Seq<ViewStretch>,
    axis: Axis,
    b: Rect,
    index: int,
) -> Rect {
    if 0 <= index < ls.len() && fits_along(ls, axis) {
        let avail = extent_on(b, axis);
        let lo = tile_offset(ls, ss, axis, avail, index);
        let hi = tile_offset(ls, ss, axis, avail, index + 1);
        match axis {
            Axis::X => Rect {
                left: (b.left + lo) as i32,
                top: b.top,
                right: (b.left + hi) as i32,
                bottom: b.bottom,
            },
            Axis::Y => Rect {
                left: b.left,
                top: (b.top + lo) as i32,
                right: b.right,
                bottom: (b.top + hi) as i32,
            },
        }
    } else {
        zero_rect()
    }
}

fn sum_fits(s: &Vec<i32>) -> (r: bool)
    requires
        valid_extents(s@),
    ensures
        r == (sum_all(s@) <= FULL_EXTENT),
{
    let mut acc: i32 = 0;
    let mut i: usize = 0;
    while i < s.len()
        invariant
            i <= s.len(),
            valid_extents(s@),
            acc == sum_to(s@, i as int),
            acc <= FULL_EXTENT,
        decreases s.len() - i,
    {
        proof {
            lemma_sum_to_bounds(s@, i as int);
        }
        acc = acc + s[i];
        if acc > FULL_EXTENT {
            proof {
                lemma_sum_to_bounds(s@, i as int + 1);
            }
            return false;
        }
        i = i + 1;
    }
    true
}

/// A linear tile: children stacked along one axis, with a cache of their
/// offsets for the last extent laid out.
pub struct Tile {
    axis: Axis,
    children: Vec<ViewLimits>,
    stretches: Vec<ViewStretch>,
    tiles: Vec<i32>,
    laid_out_for: i32,
}

impl Tile {
    pub closed spec fn axis_spec(&self) -> Axis {
        self.axis
    }

    /// The children's limits.
    pub closed spec fn limits_view(&self) -> Seq<ViewLimits> {
        self.children@
    }

    /// The children's stretch weights.
    pub closed spec fn stretch_view(&self) -> Seq<ViewStretch> {
        self.stretches@
    }

    /// One limit and one stretch per child, all limits consistent, and a
    /// cache that, when it has one entry per child plus one, holds the
    /// offsets for the extent it was laid out for.
    pub closed spec fn wf(&self) -> bool {
        &&& self.children.len() == self.stretches.len()
        &&& all_wf(self.children@)
        &&& (self.tiles.len() == 0 || self.tiles.len() == self.children.len() + 1)
        &&& self.tiles.len() == self.children.len() + 1 ==> {
            &&& fits_along(self.children@, self.axis)
            &&& self.laid_out_for <= 2 * FULL_EXTENT
            &&& forall|k: int|
                0 <= k <= self.children.len() ==> self.tiles[k] == tile_offset(
                    self.children@,
                    self.stretches@,
                    self.axis,
                    self.laid_out_for as int,
                    k,
                )
            &&& forall|k: int| 0 <= k <= self.children.len() ==> 0 <= #[trigger] self.tiles[k] <= 3 * FULL_EXTENT
        }
    }

    /// An empty tile along `axis`.
    pub fn new(axis: Axis) -> (r: Tile)
        ensures
            r.wf(),
            r.axis_spec() == axis,
            r.limits_view().len() == 0,
            r.stretch_view().len() == 0,
    {
        Tile { axis, children: Vec::new(), stretches: Vec::new(), tiles: Vec::new(), laid_out_for: 0 }
    }

    /// A tile along `axis` over children with the given limits and stretch.
    pub fn from_vec(axis: Axis, children: Vec<ViewLimits>, stretches: Vec<ViewStretch>) -> (r: Tile)
        requires
            children.len() == stretches.len(),
            all_wf(children@),
        ensures
            r.wf(),
            r.axis_spec() == axis,
            r.limits_view() == children@,
            r.stretch_view() == stretches@,
    {
        Tile { axis, children, stretches, tiles: Vec::new(), laid_out_for: 0 }
    }

    /// Adds a child at the end; the cached layout is dropped.
    pub fn push(&mut self, limits: ViewLimits, stretch: ViewStretch)
        requires
            old(self).wf(),
            limits.wf(),
        ensures
            final(self).wf(),
            final(self).axis_spec() == old(self).axis_spec(),
            final(self).limits_view() == old(self).limits_view().push(limits),
            final(self).stretch_view() == old(self).stretch_view().push(stretch),
    {
        self.children.push(limits);
        self.stretches.push(stretch);
        self.tiles = Vec::new();
        assert(all_wf(self.children@)) by {
            assert forall|i: int| 0 <= i < self.children.len() implies (#[trigger] self.children@[i]).wf() by {
                if i < self.children.len() - 1 {
                    assert(old(self).children@[i] == self.children@[i]);
                }
            }
        }
    }

    /// The number of children.
    pub fn len(&self) -> (r: usize)
        ensures
            r == self.limits_view().len(),
    {
        self.children.len()
    }

    /// True when the tile has no children.
    pub fn is_empty(&self) -> (r: bool)
        ensures
            r == (self.limits_view().len() == 0),
    {
        self.children.len() == 0
    }

    /// The cached offsets: empty until a layout has been made.
    pub fn cached_offsets(&self) -> (r: &Vec<i32>)
        requires
            self.wf(),
        ensures
            r.len() == 0 || r.len() == self.limits_view().len() + 1,
    {
        &self.tiles
    }

    /// The tile's limits over its children.
    pub fn limits(&self) -> (r: ViewLimits)
        requires
            self.wf(),
        ensures
            r == tile_limits_of(self.limits_view(), self.axis_spec()),
            r.wf(),
    {
        tile_limits(&self.children, self.axis)
    }

    /// A tile takes an equal share of extra space on both axes.
    pub fn stretch(&self) -> (r: ViewStretch)
        ensures
            r.x == 1 && r.y == 1,
    {
        ViewStretch { x: 1, y: 1 }
    }

    /// Where child `index` lies when the tile occupies `bounds`. The layout
    /// is computed on first use and kept until the extent along the axis or
    /// the children change.
    pub fn bounds_of(&mut self, bounds: Rect, index: usize) -> (r: Rect)
        requires
            old(self).wf(),
            bounds.in_range(),
        ensures
            final(self).wf(),
            final(self).axis_spec() == old(self).axis_spec(),
            final(self).limits_view() == old(self).limits_view(),
            final(self).stretch_view() == old(self).stretch_view(),
            r == tile_child_bounds(old(self).limits_view(), old(self).stretch_view(), old(self).axis_spec(), bounds, index as int),
    {
        let n = self.children.len();
        if index >= n {
            return Rect::zero();
        }
        proof {
            lemma_axis_extents_valid(self.children@, self.axis);
        }
        if !sum_fits(&collect_mins(&self.children, self.axis)) {
            return Rect::zero();
        }
        let available = bounds.extent(self.axis) as i32;
        if self.tiles.len() == 0 || self.laid_out_for != available {
            self.tiles = tile_offsets(&self.children, &self.stretches, self.axis, available);
            self.laid_out_for = available;
        }
        let lo = self.tiles[index];
        let hi = self.tiles[index + 1];
        match self.axis {
            Axis::X => Rect { left: bounds.left + lo, top: bounds.top, right: bounds.left + hi, bottom: bounds.bottom },
            Axis::Y => Rect { left: bounds.left, top: bounds.top + lo, right: bounds.right, bottom: bounds.top + hi },
        }
    }
}

impl Tile {
    /// The child under `p` when the tile occupies `bounds`: the first child
    /// whose rectangle (as `bounds_of` gives it) holds `p`; none when `p`
    /// lies outside the tile.
    pub fn hit(&mut self, bounds: Rect, p: Point) -> (r: Option<usize>)
        requires
            old(self).wf(),
            bounds.in_range(),
        ensures
            final(self).wf(),
            final(self).axis_spec() == old(self).axis_spec(),
            final(self).limits_view() == old(self).limits_view(),
            final(self).stretch_view() == old(self).stretch_view(),
            !crate::geometry::rect_contains(bounds, p) ==> r is None,
            crate::geometry::rect_contains(bounds, p) ==> match r {
                Some(i) => {
                    &&& i < old(self).limits_view().len()
                    &&& crate::geometry::rect_contains(
                        tile_child_bounds(old(self).limits_view(), old(self).stretch_view(), old(self).axis_spec(), bounds, i as int),
                        p,
                    )
                    &&& forall|j: int|
                        0 <= j < i ==> !crate::geometry::rect_contains(
                            #[trigger] tile_child_bounds(old(self).limits_view(), old(self).stretch_view(), old(self).axis_spec(), bounds, j),
                            p,
                        )
                },
                None => forall|j: int|
                    0 <= j < old(self).limits_view().len() ==> !crate::geometry::rect_contains(
                        #[trigger] tile_child_bounds(old(self).limits_view(), old(self).stretch_view(), old(self).axis_spec(), bounds, j),
                        p,
                    ),
            },
    {
        if !bounds.contains(p) {
            return None;
        }
        let ghost ls = self.limits_view();
        let ghost ss = self.stretch_view();
        let ghost ax = self.axis_spec();
        let n = self.children.len();
        let mut i: usize = 0;
        while i < n
            invariant
                i <= n,
                self.wf(),
                bounds.in_range(),
                crate::geometry::rect_contains(bounds, p),
                ls == old(self).limits_view(),
                ss == old(self).stretch_view(),
                ax == old(self).axis_spec(),
                n == ls.len(),
                self.limits_view() == ls,
                self.stretch_view() == ss,
                self.axis_spec() == ax,
                forall|j: int| 0 <= j < i ==> !crate::geometry::rect_contains(#[trigger] tile_child_bounds(ls, ss, ax, bounds, j), p),
            decreases n - i,
        {
            let b = self.bounds_of(bounds, i);
            if b.contains(p) {
                return Some(i);
            }
            i = i + 1;
        }
        None
    }
}

/// An empty vertical tile.
pub fn vtile() -> (r: Tile)
    ensures
        r.wf(),
        r.axis_spec() == Axis::Y,
        r.limits_view().len() == 0,
{
    Tile::new(Axis::Y)
}

/// An empty horizontal tile.
pub fn htile() -> (r: Tile)
    ensures
        r.wf(),
        r.axis_spec() == Axis::X,
        r.limits_view().len() == 0,
{
    Tile::new(Axis::X)
}

/// An empty tile reports zero-size limits, places no child (every index
/// gets the zero rectangle), and its layout holds only the closing offset 0.
pub proof fn lemma_empty_tile(ss: Seq<ViewStretch>, axis: Axis, b: Rect, index: int, available: int)
    ensures
        tile_limits_of(Seq::<ViewLimits>::empty(), axis) == (ViewLimits {
            min: Point { x: 0, y: 0 },
            max: Point { x: 0, y: 0 },
        }),
        tile_child_bounds(Seq::<ViewLimits>::empty(), ss, axis, b, index) == zero_rect(),
        tile_offset(Seq::<ViewLimits>::empty(), ss, axis, available, 0) == 0,
{
}

/// The rectangles a tile along `axis` with bounds `b` gives its children.
pub open spec fn tile_rects(ls: Seq<ViewLimits>, ss: Seq<ViewStretch>, axis: Axis, b: Rect) -> Seq<Rect> {
    Seq::new(ls.len(), |i: int| tile_child_bounds(ls, ss, axis, b, i))
}

/// The rectangles of all children of a tile along `axis` with bounds `b`.
pub fn tile_child_rects(ls: &Vec<ViewLimits>, ss: &Vec<ViewStretch>, axis: Axis, b: Rect) -> (r: Vec<Rect>)
    requires
        ls.len() == ss.len(),
        all_wf(ls@),
        b.in_range(),
    ensures
        r@ == tile_rects(ls@, ss@, axis, b),
{
    let n = ls.len();
    let mut out: Vec<Rect> = Vec::new();
    proof {
        lemma_axis_extents_valid(ls@, axis);
    }
    if !sum_fits(&collect_mins(ls, axis)) {
        let mut i: usize = 0;
        while i < n
            invariant
                i <= n,
                n == ls.len(),
                !fits_along(ls@, axis),
                out@ == tile_rects(ls@, ss@, axis, b).take(i as int),
            decreases n - i,
        {
            out.push(Rect::zero());
            i = i + 1;
            assert(out@ =~= tile_rects(ls@, ss@, axis, b).take(i as int));
        }
        assert(out@ =~= tile_rects(ls@, ss@, axis, b));
        return out;
    }
    let available = b.extent(axis) as i32;
    let offsets = tile_offsets(ls, ss, axis, available);
    let mut i: usize = 0;
    while i < n
        invariant
            i <= n,
            n == ls.len(),
            b.in_range(),
            fits_along(ls@, axis),
            available == extent_on(b, axis),
            offsets.len() == n + 1,
            forall|k: int| 0 <= k <= n ==> offsets[k] == tile_offset(ls@, ss@, axis, available as int, k),
            forall|k: int| 0 <= k <= n ==> 0 <= #[trigger] offsets[k] <= 3 * FULL_EXTENT,
            out@ == tile_rects(ls@, ss@, axis, b).take(i as int),
        decreases n - i,
    {
        let lo = offsets[i];
        let hi = offsets[i + 1];
        let r = match axis {
            Axis::X => Rect { left: b.left + lo, top: b.top, right: b.left + hi, bottom: b.bottom },
            Axis::Y => Rect { left: b.left, top: b.top + lo, right: b.right, bottom: b.top + hi },
        };
        out.push(r);
        i = i + 1;
        assert(out@ =~= tile_rects(ls@, ss@, axis, b).take(i as int));
    }
    assert(out@ =~= tile_rects(ls@, ss@, axis, b));
    out
}

} // verus!
