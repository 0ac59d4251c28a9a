//! Grid layout: children in row-major order, column widths and row heights
//! each shared out by the distribution rule.
use vstd::prelude::*;
use vstd::arithmetic::div_mod::{lemma_fundamental_div_mod_converse, lemma_div_is_ordered};
use crate::geometry::{Axis, Point, Rect, zero_rect, rect_contains};
use crate::limits::{
    FULL_EXTENT, ViewLimits, ViewStretch, all_wf, axis_mins, axis_weights, axis_maxs,
    collect_mins, collect_weights, collect_maxs,
};
use crate::distribute::{sum_to, sum_all, valid_extents, distributed, distributed_to, distribute, weight_all, lemma_distribute_conserves};

verus! {

/// The track child `i` falls in: its row (`by_row`) or its column.
pub open spec fn track_of(i: int, columns: int, by_row: bool) -> int {
    if by_row {
        i / columns
    } else {
        i % columns
    }
}

/// The number of rows (`by_row`) or columns for `n` children.
pub open spec fn track_count(n: int, columns: int, by_row: bool) -> int {
    if !by_row {
        columns
    } else if n == 0 {
        0
    } else {
        (n - 1) / columns + 1
    }
}

/// The axis a row (`by_row`) or column is measured along.
pub open spec fn track_axis(by_row: bool) -> Axis {
    if by_row {
        Axis::Y
    } else {
        Axis::X
    }
}

/// The largest of `vals[i]` over the first `k` children in track `t`, 0 for none.
pub open spec fn track_max(vals: Seq<i32>, columns: int, by_row: bool, t: int, k: int) -> int
    decreases k,
{
    if k <= 0 || k > vals.len() {
        0
    } else if track_of(k - 1, columns, by_row) == t && vals[k - 1] as int > track_max(
        vals,
        columns,
        by_row,
        t,
        k - 1,
    ) {
        vals[k - 1] as int
    } else {
        track_max(vals, columns, by_row, t, k - 1)
    }
}

/// The largest of `w[i]` over the first `k` children in track `t`, 0 for none.
pub open spec fn track_weight_max(w: Seq<u32>, columns: int, by_row: bool, t: int, k: int) -> int
    decreases k,
{
    if k <= 0 || k > w.len() {
        0
    } else if track_of(k - 1, columns, by_row) == t && w[k - 1] as int > track_weight_max(
        w,
        columns,
        by_row,
        t,
        k - 1,
    ) {
        w[k - 1] as int
    } else {
        track_weight_max(w, columns, by_row, t, k - 1)
    }
}

/// The minimum of each track: the largest minimum among its children.
pub open spec fn track_mins(ls: Seq<ViewLimits>, columns: int, by_row: bool) -> Seq<i32> {
    Seq::new(
        track_count(ls.len() as int, columns, by_row) as nat,
        |t: int| track_max(axis_mins(ls, track_axis(by_row)), columns, by_row, t, ls.len() as int) as i32,
    )
}

/// The maximum of each track: the largest maximum among its children.
pub open spec fn track_maxs(ls: Seq<ViewLimits>, columns: int, by_row: bool) -> Seq<i32> {
    Seq::new(
        track_count(ls.len() as int, columns, by_row) as nat,
        |t: int| track_max(axis_maxs(ls, track_axis(by_row)), columns, by_row, t, ls.len() as int) as i32,
    )
}

/// The stretch of each track: the largest stretch among its children.
pub open spec fn track_weights(ss: Seq<ViewStretch>, columns: int, by_row: bool) -> Seq<u32> {
    Seq::new(
        track_count(ss.len() as int, columns, by_row) as nat,
        |t: int| track_weight_max(axis_weights(ss, track_axis(by_row)), columns, by_row, t, ss.len() as int) as u32,
    )
}

/// The space left for the tracks once the gaps between them are taken out,
/// never negative.
pub open spec fn track_space(available: int, gap: int, count: int) -> int {
    let gaps = if count > 0 { gap * (count - 1) } else { 0 };
    if available - gaps > 0 {
        available - gaps
    } else {
        0
    }
}

/// The size of track `t` (a row if `by_row`, else a column) of a grid with
/// `columns` columns and the given gap between tracks, out of `available`.
pub open spec fn grid_track_size(
    ls: Seq<ViewLimits>,
    ss: Seq<ViewStretch>,
    columns: int,
    by_row: bool,
    gap: int,
    available: int,
    t: int,
) -> int {
    let count = track_count(ls.len() as int, columns, by_row);
    distributed(
        track_mins(ls, columns, by_row),
        track_weights(ss, columns, by_row),
        track_space(available, gap, count),
        t,
    )
}

/// The sizes of all rows (`by_row`) or columns.
pub open spec fn grid_track_sizes(
    ls: Seq<ViewLimits>,
    ss: Seq<ViewStretch>,
    columns: int,
    by_row: bool,
    gap: int,
    available: int,
) -> Seq<i32> {
    Seq::new(
        track_count(ls.len() as int, columns, by_row) as nat,
        |t: int| grid_track_size(ls, ss, columns, by_row, gap, available, t) as i32,
    )
}

proof fn lemma_track_max_bounds(vals: Seq<i32>, columns: int, by_row: bool, t: int, k: int)
    requires
        valid_extents(vals),
        0 <= k <= vals.len(),
    ensures
        0 <= track_max(vals, columns, by_row, t, k) <= FULL_EXTENT,
    decreases k,
{
    if k > 0 {
        lemma_track_max_bounds(vals, columns, by_row, t, k - 1);
    }
}

proof fn lemma_track_of_bounds(i: int, n: int, columns: int, by_row: bool)
    requires
        0 <= i < n,
        columns >= 1,
    ensures
        0 <= track_of(i, columns, by_row) < track_count(n, columns, by_row),
{
    if by_row {
        lemma_div_is_ordered(i, n - 1, columns);
        vstd::arithmetic::div_mod::lemma_div_pos_is_pos(i, columns);
    } else {
        vstd::arithmetic::div_mod::lemma_mod_bound(i, columns);
    }
}

fn zeros_i32(n: usize) -> (r: Vec<i32>)
    ensures
        r.len() == n,
        forall|i: int| 0 <= i < n ==> r[i] == 0,
{
    let mut v: Vec<i32> = Vec::new();
    let mut i: usize = 0;
    while i < n
        invariant
            i <= n,
            v.len() == i,
            forall|j: int| 0 <= j < i ==> v[j] == 0,
        decreases n - i,
    {
        v.push(0);
        i = i + 1;
    }
    v
}

fn zeros_u32(n: usize) -> (r: Vec<u32>)
    ensures
        r.len() == n,
        forall|i: int| 0 <= i < n ==> r[i] == 0,
{
    let mut v: Vec<u32> = Vec::new();
    let mut i: usize = 0;
    while i < n
        invariant
            i <= n,
            v.len() == i,
            forall|j: int| 0 <= j < i ==> v[j] == 0,
        decreases n - i,
    {
        v.push(0);
        i = i + 1;
    }
    v
}

/// The number of rows (`by_row`) or columns of a grid of `n` children.
pub fn grid_track_count(n: usize, columns: usize, by_row: bool) -> (r: usize)
    requires
        columns >= 1,
    ensures
        r == track_count(n as int, columns as int, by_row),
{
    if !by_row {
        columns
    } else if n == 0 {
        0
    } else {
        proof {
            vstd::arithmetic::div_mod::lemma_div_is_ordered_by_denominator(n as int - 1, 1, columns as int);
        }
        (n - 1) / columns + 1
    }
}

/// The per-track maxima of `vals` (with the children's track weights, when
/// `weights` is given), for `count` tracks.
fn track_maxima(vals: &Vec<i32>, columns: usize, by_row: bool, count: usize) -> (r: Vec<i32>)
    requires
        columns >= 1,
        count == track_count(vals.len() as int, columns as int, by_row),
    ensures
        r.len() == count,
        forall|t: int| 0 <= t < count ==> r[t] == track_max(vals@, columns as int, by_row, t, vals.len() as int),
{
    let n = vals.len();
    let mut out = zeros_i32(count);
    let mut row: usize = 0;
    let mut col: usize = 0;
    let mut i: usize = 0;
    while i < n
        invariant
            i <= n,
            n == vals.len(),
            columns >= 1,
            count == track_count(n as int, columns as int, by_row),
            col < columns,
            row * columns + col == i,
            out.len() == count,
            forall|t: int| 0 <= t < count ==> out[t] == track_max(vals@, columns as int, by_row, t, i as int),
        decreases n - i,
    {
        proof {
            lemma_fundamental_div_mod_converse(i as int, columns as int, row as int, col as int);
            lemma_track_of_bounds(i as int, n as int, columns as int, by_row);
        }
        let t = if by_row { row } else { col };
        if vals[i] > out[t] {
            out.set(t, vals[i]);
        }
        i = i + 1;
        if col + 1 == columns {
            col = 0;
            row = row + 1;
            assert(row * columns == (row - 1) * columns + columns) by (nonlinear_arith);
        } else {
            col = col + 1;
        }
    }
    out
}

fn track_weight_maxima(w: &Vec<u32>, columns: usize, by_row: bool, count: usize) -> (r: Vec<u32>)
    requires
        columns >= 1,
        count == track_count(w.len() as int, columns as int, by_row),
    ensures
        r.len() == count,
        forall|t: int| 0 <= t < count ==> r[t] == track_weight_max(w@, columns as int, by_row, t, w.len() as int),
{
    let n = w.len();
    let mut out = zeros_u32(count);
    let mut row: usize = 0;
    let mut col: usize = 0;
    let mut i: usize = 0;
    while i < n
        invariant
            i <= n,
            n == w.len(),
            columns >= 1,
            count == track_count(n as int, columns as int, by_row),
            col < columns,
            row * columns + col == i,
            out.len() == count,
            forall|t: int| 0 <= t < count ==> out[t] == track_weight_max(w@, columns as int, by_row, t, i as int),
        decreases n - i,
    {
        proof {
            lemma_fundamental_div_mod_converse(i as int, columns as int, row as int, col as int);
            lemma_track_of_bounds(i as int, n as int, columns as int, by_row);
        }
        let t = if by_row { row } else { col };
        if w[i] > out[t] {
            out.set(t, w[i]);
        }
        i = i + 1;
        if col + 1 == columns {
            col = 0;
            row = row + 1;
            assert(row * columns == (row - 1) * columns + columns) by (nonlinear_arith);
        } else {
            col = col + 1;
        }
    }
    out
}

/// The sizes of the rows (`by_row`) or columns of a grid with `columns`
/// columns, `gap` between tracks and `available` space along the tracks'
/// axis.
pub fn grid_tracks(
    children: &Vec<ViewLimits>,
    stretches: &Vec<ViewStretch>,
    columns: usize,
    by_row: bool,
    gap: i32,
    available: i32,
) -> (r: Vec<i32>)
    requires
        children.len() == stretches.len(),
        columns >= 1,
        all_wf(children@),
        0 <= gap <= FULL_EXTENT,
        available <= 2 * FULL_EXTENT,
    ensures
        r.len() == track_count(children.len() as int, columns as int, by_row),
        r@ == grid_track_sizes(children@, stretches@, columns as int, by_row, gap as int, available as int),
        forall|t: int|
            0 <= t < r.len() ==> r[t] == grid_track_size(
                children@,
                stretches@,
                columns as int,
                by_row,
                gap as int,
                available as int,
                t,
            ),
{
    let n = children.len();
    let axis = if by_row { Axis::Y } else { Axis::X };
    let count = grid_track_count(n, columns, by_row);
    let mins = collect_mins(children, axis);
    let weights = collect_weights(stretches, axis);
    let tmins = track_maxima(&mins, columns, by_row, count);
    let tweights = track_weight_maxima(&weights, columns, by_row, count);
    proof {
        crate::tile::lemma_axis_extents_valid(children@, axis);
        assert forall|t: int| 0 <= t < count implies 0 <= #[trigger] tmins[t] <= FULL_EXTENT by {
            lemma_track_max_bounds(mins@, columns as int, by_row, t, n as int);
        }
        assert(tmins@ =~= track_mins(children@, columns as int, by_row));
        assert(tweights@ =~= track_weights(stretches@, columns as int, by_row));
    }
    proof {
        if count > 0 {
            assert(0 <= gap * (count - 1) <= 0x2000_0000 * 0x1_0000_0000_0000_0000) by (nonlinear_arith)
                requires
                    0 <= gap <= 0x2000_0000,
                    1 <= count <= 0x1_0000_0000_0000_0000,
            ;
        }
    }
    let gaps: i128 = if count > 0 { gap as i128 * (count as i128 - 1) } else { 0 };
    let space: i32 = if available as i128 - gaps > 0 { (available as i128 - gaps) as i32 } else { 0 };
    let r = distribute(&tmins, &tweights, space);
    assert(r@ =~= grid_track_sizes(children@, stretches@, columns as int, by_row, gap as int, available as int));
    r
}

/// Row heights depend on the children's heights and vertical stretch alone:
/// grids whose children differ only in their widths get the same rows.
pub proof fn lemma_rows_ignore_widths(
    a: Seq<ViewLimits>,
    b: Seq<ViewLimits>,
    ss: Seq<ViewStretch>,
    columns: int,
    gap: int,
    available: int,
)
    requires
        a.len() == b.len(),
        forall|i: int| 0 <= i < a.len() ==> (#[trigger] a[i]).min.y == b[i].min.y,
    ensures
        forall|t: int|
            grid_track_size(a, ss, columns, true, gap, available, t) == #[trigger] grid_track_size(
                b,
                ss,
                columns,
                true,
                gap,
                available,
                t,
            ),
{
    assert(axis_mins(a, Axis::Y) =~= axis_mins(b, Axis::Y));
    assert(track_mins(a, columns, true) =~= track_mins(b, columns, true));
}

proof fn lemma_track_max_ordered(lo: Seq<i32>, hi: Seq<i32>, columns: int, by_row: bool, t: int, k: int)
    requires
        lo.len() == hi.len(),
        0 <= k <= lo.len(),
        forall|i: int| 0 <= i < lo.len() ==> lo[i] <= hi[i],
    ensures
        track_max(lo, columns, by_row, t, k) <= track_max(hi, columns, by_row, t, k),
    decreases k,
{
    if k > 0 {
        lemma_track_max_ordered(lo, hi, columns, by_row, t, k - 1);
    }
}

/// The grid's extent along a track axis: the capped sum of the tracks'
/// values plus the gaps between them.
pub open spec fn grid_span(sizes: Seq<i32>, gap: int) -> int {
    let gaps = if sizes.len() > 0 { gap * (sizes.len() - 1) } else { 0 };
    crate::tile::capped(crate::distribute::sum_all(sizes) + gaps)
}

/// The limits of a grid: on each axis the summed track minimums (and
/// maximums) plus the gaps, capped at `FULL_EXTENT`. No children give zero
/// size.
pub open spec fn grid_limits_of(ls: Seq<ViewLimits>, columns: int, h_gap: int, v_gap: int) -> ViewLimits {
    if ls.len() == 0 {
        ViewLimits { min: Point { x: 0, y: 0 }, max: Point { x: 0, y: 0 } }
    } else {
        ViewLimits {
            min: Point {
                x: grid_span(track_mins(ls, columns, false), h_gap) as i32,
                y: grid_span(track_mins(ls, columns, true), v_gap) as i32,
            },
            max: Point {
                x: grid_span(track_maxs(ls, columns, false), h_gap) as i32,
                y: grid_span(track_maxs(ls, columns, true), v_gap) as i32,
            },
        }
    }
}

proof fn lemma_track_extents(ls: Seq<ViewLimits>, columns: int, by_row: bool)
    requires
        all_wf(ls),
    ensures
        valid_extents(track_mins(ls, columns, by_row)),
        valid_extents(track_maxs(ls, columns, by_row)),
        forall|t: int|
            0 <= t < track_mins(ls, columns, by_row).len() ==> track_mins(ls, columns, by_row)[t]
                <= #[trigger] track_maxs(ls, columns, by_row)[t],
{
    let axis = track_axis(by_row);
    let n = ls.len() as int;
    crate::tile::lemma_axis_extents_valid(ls, axis);
    assert forall|t: int| 0 <= t < track_mins(ls, columns, by_row).len() implies 0 <= #[trigger] track_mins(
        ls,
        columns,
        by_row,
    )[t] <= FULL_EXTENT by {
        lemma_track_max_bounds(axis_mins(ls, axis), columns, by_row, t, n);
    }
    assert forall|t: int| 0 <= t < track_maxs(ls, columns, by_row).len() implies 0 <= #[trigger] track_maxs(
        ls,
        columns,
        by_row,
    )[t] <= FULL_EXTENT by {
        lemma_track_max_bounds(axis_maxs(ls, axis), columns, by_row, t, n);
    }
    assert forall|t: int| 0 <= t < track_mins(ls, columns, by_row).len() implies track_mins(ls, columns, by_row)[t]
        <= #[trigger] track_maxs(ls, columns, by_row)[t] by {
        lemma_track_max_ordered(axis_mins(ls, axis), axis_maxs(ls, axis), columns, by_row, t, n);
        lemma_track_max_bounds(axis_mins(ls, axis), columns, by_row, t, n);
        lemma_track_max_bounds(axis_maxs(ls, axis), columns, by_row, t, n);
    }
}

/// A grid over consistent children reports consistent limits.
pub proof fn lemma_grid_limits_wf(ls: Seq<ViewLimits>, columns: int, h_gap: int, v_gap: int)
    requires
        all_wf(ls),
        h_gap >= 0,
        v_gap >= 0,
    ensures
        grid_limits_of(ls, columns, h_gap, v_gap).wf(),
{
    if ls.len() > 0 {
        lemma_track_extents(ls, columns, false);
        lemma_track_extents(ls, columns, true);
        let a = track_mins(ls, columns, false);
        let b = track_maxs(ls, columns, false);
        let c = track_mins(ls, columns, true);
        let d = track_maxs(ls, columns, true);
        crate::tile::lemma_sums_ordered(a, b, a.len() as int);
        crate::tile::lemma_sums_ordered(c, d, c.len() as int);
        crate::distribute::lemma_sum_to_bounds(a, a.len() as int);
        crate::distribute::lemma_sum_to_bounds(c, c.len() as int);
        if a.len() > 0 {
            assert(h_gap * (a.len() - 1) >= 0) by (nonlinear_arith)
                requires
                    h_gap >= 0,
                    a.len() >= 1,
            ;
        }
        if c.len() > 0 {
            assert(v_gap * (c.len() - 1) >= 0) by (nonlinear_arith)
                requires
                    v_gap >= 0,
                    c.len() >= 1,
            ;
        }
    }
}

fn span_of(sizes: &Vec<i32>, gap: i32) -> (r: i32)
    requires
        valid_extents(sizes@),
        0 <= gap <= FULL_EXTENT,
    ensures
        r == grid_span(sizes@, gap as int),
{
    let total = crate::tile::capped_sum(sizes);
    let count = sizes.len();
    if count == 0 {
        return total;
    }
    proof {
        assert(0 <= gap * (count - 1) <= 0x2000_0000 * 0x1_0000_0000_0000_0000) by (nonlinear_arith)
            requires
                0 <= gap <= 0x2000_0000,
                1 <= count <= 0x1_0000_0000_0000_0000,
        ;
        crate::distribute::lemma_sum_to_bounds(sizes@, count as int);
    }
    let v: i128 = total as i128 + gap as i128 * (count as i128 - 1);
    if v > FULL_EXTENT as i128 {
        FULL_EXTENT
    } else {
        v as i32
    }
}

/// The limits of a grid with `columns` columns over children with limits
/// `children`.
pub fn grid_limits(children: &Vec<ViewLimits>, columns: usize, h_gap: i32, v_gap: i32) -> (r: ViewLimits)
    requires
        columns >= 1,
        all_wf(children@),
        0 <= h_gap <= FULL_EXTENT,
        0 <= v_gap <= FULL_EXTENT,
    ensures
        r == grid_limits_of(children@, columns as int, h_gap as int, v_gap as int),
        r.wf(),
{
    proof {
        lemma_grid_limits_wf(children@, columns as int, h_gap as int, v_gap as int);
    }
    let n = children.len();
    if n == 0 {
        return ViewLimits { min: Point { x: 0, y: 0 }, max: Point { x: 0, y: 0 } };
    }
    proof {
        lemma_track_extents(children@, columns as int, false);
        lemma_track_extents(children@, columns as int, true);
    }
    let cols = grid_track_count(n, columns, false);
    let rows = grid_track_count(n, columns, true);
    let col_mins = track_maxima(&collect_mins(children, Axis::X), columns, false, cols);
    let col_maxs = track_maxima(&collect_maxs(children, Axis::X), columns, false, cols);
    let row_mins = track_maxima(&collect_mins(children, Axis::Y), columns, true, rows);
    let row_maxs = track_maxima(&collect_maxs(children, Axis::Y), columns, true, rows);
    assert(col_mins@ =~= track_mins(children@, columns as int, false));
    assert(col_maxs@ =~= track_maxs(children@, columns as int, false));
    assert(row_mins@ =~= track_mins(children@, columns as int, true));
    assert(row_maxs@ =~= track_maxs(children@, columns as int, true));
    ViewLimits {
        min: Point { x: span_of(&col_mins, h_gap), y: span_of(&row_mins, v_gap) },
        max: Point { x: span_of(&col_maxs, h_gap), y: span_of(&row_maxs, v_gap) },
    }
}

/// The sum of the first `k` values of an `i32` sequence stays within
/// `k` times the `i32` range.
proof fn lemma_sum_to_range(s: Seq<i32>, k: int)
    requires
        0 <= k <= s.len(),
    ensures
        -k * 0x8000_0000 <= sum_to(s, k) <= k * 0x8000_0000,
    decreases k,
{
    if k > 0 {
        lemma_sum_to_range(s, k - 1);
    }
}

/// Where track `k` starts, relative to the grid's edge: the tracks before
/// it and one gap after each.
pub open spec fn track_start(sizes: Seq<i32>, gap: int, k: int) -> int {
    sum_to(sizes, k) + gap * k
}

/// True when `v` is an `i32`.
pub open spec fn fits_i32(v: int) -> bool {
    i32::MIN <= v <= i32::MAX
}

/// The cell of child `index` in a grid with bounds `b`, given its column
/// widths and row heights; the zero rectangle where the cell does not fit
/// in `i32` coordinates.
pub open spec fn grid_cell(
    widths: Seq<i32>,
    heights: Seq<i32>,
    columns: int,
    h_gap: int,
    v_gap: int,
    b: Rect,
    index: int,
) -> Rect {
    let col = index % columns;
    let row = index / columns;
    let left = b.left + track_start(widths, h_gap, col);
    let top = b.top + track_start(heights, v_gap, row);
    let right = left + widths[col];
    let bottom = top + heights[row];
    if fits_i32(left) && fits_i32(top) && fits_i32(right) && fits_i32(bottom) {
        Rect { left: left as i32, top: top as i32, right: right as i32, bottom: bottom as i32 }
    } else {
        zero_rect()
    }
}

fn track_start_of(sizes: &Vec<i32>, gap: i32, k: usize) -> (r: i128)
    requires
        k <= sizes.len(),
        0 <= gap <= FULL_EXTENT,
    ensures
        r == track_start(sizes@, gap as int, k as int),
        -0x1_0000_0000_0000_0000 * 0x8000_0000 <= r <= 0x1_0000_0000_0000_0000 * 0x1_0000_0000,
{
    let mut acc: i128 = 0;
    let mut j: usize = 0;
    while j < k
        invariant
            j <= k,
            k <= sizes.len(),
            acc == sum_to(sizes@, j as int),
        decreases k - j,
    {
        proof {
            lemma_sum_to_range(sizes@, j as int);
            assert(j * 0x8000_0000 <= 0x1_0000_0000_0000_0000 * 0x8000_0000) by (nonlinear_arith)
                requires
                    j <= 0x1_0000_0000_0000_0000,
            ;
        }
        acc = acc + sizes[j] as i128;
        j = j + 1;
    }
    proof {
        lemma_sum_to_range(sizes@, k as int);
        assert(k * 0x8000_0000 <= 0x1_0000_0000_0000_0000 * 0x8000_0000) by (nonlinear_arith)
            requires
                k <= 0x1_0000_0000_0000_0000,
        ;
        assert(0 <= gap * k <= 0x2000_0000 * 0x1_0000_0000_0000_0000) by (nonlinear_arith)
            requires
                0 <= gap <= 0x2000_0000,
                0 <= k <= 0x1_0000_0000_0000_0000,
        ;
    }
    acc + gap as i128 * k as i128
}

/// A grid: children in row-major order over a fixed number of columns, with
/// a cache of the column widths and row heights for the last size laid out.
pub struct Grid {
    columns: usize,
    children: Vec<ViewLimits>,
    stretches: Vec<ViewStretch>,
    h_gap: i32,
    v_gap: i32,
    col_widths: Vec<i32>,
    row_heights: Vec<i32>,
    laid_out_for: Option<(i32, i32)>,
}

/// The default gap between rows and between columns.
pub const DEFAULT_GRID_GAP: i32 = 4;

impl Grid {
    pub closed spec fn columns_spec(&self) -> int {
        self.columns as int
    }

    pub closed spec fn h_gap_spec(&self) -> int {
        self.h_gap as int
    }

    pub closed spec fn v_gap_spec(&self) -> int {
        self.v_gap as int
    }

    /// The children's limits.
    pub closed spec fn limits_view(&self) -> Seq<ViewLimits> {
        self.children@
    }

    /// The children's stretch weights.
    pub closed spec fn stretch_view(&self) -> Seq<ViewStretch> {
        self.stretches@
    }

    /// At least one column, gaps in range, one stretch per child, consistent
    /// limits, and a cache that holds the tracks for the size it names.
    pub closed spec fn wf(&self) -> bool {
        &&& self.columns >= 1
        &&& 0 <= self.h_gap <= FULL_EXTENT
        &&& 0 <= self.v_gap <= FULL_EXTENT
        &&& self.children.len() == self.stretches.len()
        &&& all_wf(self.children@)
        &&& self.laid_out_for matches Some((w, h)) ==> {
            &&& self.col_widths@ == grid_track_sizes(self.children@, self.stretches@, self.columns as int, false, self.h_gap as int, w as int)
            &&& self.row_heights@ == grid_track_sizes(self.children@, self.stretches@, self.columns as int, true, self.v_gap as int, h as int)
            &&& w <= 2 * FULL_EXTENT
            &&& h <= 2 * FULL_EXTENT
        }
    }

    /// An empty grid with `columns` columns (at least one) and the default gaps.
    pub fn new(columns: usize) -> (r: Grid)
        ensures
            r.wf(),
            r.columns_spec() == if columns >= 1 { columns as int } else { 1 },
            r.h_gap_spec() == DEFAULT_GRID_GAP,
            r.v_gap_spec() == DEFAULT_GRID_GAP,
            r.limits_view().len() == 0,
            r.stretch_view().len() == 0,
    {
        Grid {
            columns: if columns >= 1 { columns } else { 1 },
            children: Vec::new(),
            stretches: Vec::new(),
            h_gap: DEFAULT_GRID_GAP,
            v_gap: DEFAULT_GRID_GAP,
            col_widths: Vec::new(),
            row_heights: Vec::new(),
            laid_out_for: None,
        }
    }

    /// A grid with `columns` columns (at least one) over the given children.
    pub fn from_vec(columns: usize, children: Vec<ViewLimits>, stretches: Vec<ViewStretch>) -> (r: Grid)
        requires
            children.len() == stretches.len(),
            all_wf(children@),
        ensures
            r.wf(),
            r.columns_spec() == if columns >= 1 { columns as int } else { 1 },
            r.h_gap_spec() == DEFAULT_GRID_GAP,
            r.v_gap_spec() == DEFAULT_GRID_GAP,
            r.limits_view() == children@,
            r.stretch_view() == stretches@,
    {
        Grid {
            columns: if columns >= 1 { columns } else { 1 },
            children,
            stretches,
            h_gap: DEFAULT_GRID_GAP,
            v_gap: DEFAULT_GRID_GAP,
            col_widths: Vec::new(),
            row_heights: Vec::new(),
            laid_out_for: None,
        }
    }

    /// Sets the gap between columns.
    pub fn h_gap(self, gap: i32) -> (r: Grid)
        requires
            self.wf(),
            0 <= gap <= FULL_EXTENT,
        ensures
            r.wf(),
            r.h_gap_spec() == gap,
            r.v_gap_spec() == self.v_gap_spec(),
            r.columns_spec() == self.columns_spec(),
            r.limits_view() == self.limits_view(),
            r.stretch_view() == self.stretch_view(),
    {
        Grid { h_gap: gap, laid_out_for: None, ..self }
    }

    /// Sets the gap between rows.
    pub fn v_gap(self, gap: i32) -> (r: Grid)
        requires
            self.wf(),
            0 <= gap <= FULL_EXTENT,
        ensures
            r.wf(),
            r.v_gap_spec() == gap,
            r.h_gap_spec() == self.h_gap_spec(),
            r.columns_spec() == self.columns_spec(),
            r.limits_view() == self.limits_view(),
            r.stretch_view() == self.stretch_view(),
    {
        Grid { v_gap: gap, laid_out_for: None, ..self }
    }

    /// Sets both gaps.
    pub fn gap(self, gap: i32) -> (r: Grid)
        requires
            self.wf(),
            0 <= gap <= FULL_EXTENT,
        ensures
            r.wf(),
            r.h_gap_spec() == gap,
            r.v_gap_spec() == gap,
            r.columns_spec() == self.columns_spec(),
            r.limits_view() == self.limits_view(),
            r.stretch_view() == self.stretch_view(),
    {
        Grid { h_gap: gap, v_gap: gap, laid_out_for: None, ..self }
    }

    /// Adds a child at the end; the cached layout is dropped.
    pub fn push(&mut self, limits: ViewLimits, stretch: ViewStretch)
        requires
            old(self).wf(),
            limits.wf(),
        ensures
            final(self).wf(),
            final(self).columns_spec() == old(self).columns_spec(),
            final(self).h_gap_spec() == old(self).h_gap_spec(),
            final(self).v_gap_spec() == old(self).v_gap_spec(),
            final(self).limits_view() == old(self).limits_view().push(limits),
            final(self).stretch_view() == old(self).stretch_view().push(stretch),
    {
        self.children.push(limits);
        self.stretches.push(stretch);
        self.laid_out_for = None;
        assert(all_wf(self.children@)) by {
            assert forall|i: int| 0 <= i < self.children.len() implies (#[trigger] self.children@[i]).wf() by {
                if i < self.children.len() - 1 {
                    assert(old(self).children@[i] == self.children@[i]);
                }
            }
        }
    }

    /// The number of children.
    pub fn len(&self) -> (r: usize)
        ensures
            r == self.limits_view().len(),
    {
        self.children.len()
    }

    /// The grid's limits over its children.
    pub fn limits(&self) -> (r: ViewLimits)
        requires
            self.wf(),
        ensures
            r == grid_limits_of(self.limits_view(), self.columns_spec(), self.h_gap_spec(), self.v_gap_spec()),
            r.wf(),
    {
        grid_limits(&self.children, self.columns, self.h_gap, self.v_gap)
    }

    /// The greatest stretch among the children along each axis: the grid
    /// stretches where any child does.
    pub fn stretch(&self) -> (r: ViewStretch)
        ensures
            forall|i: int| 0 <= i < self.stretch_view().len() ==> r.x >= (#[trigger] self.stretch_view()[i]).x
                && r.y >= self.stretch_view()[i].y,
            self.stretch_view().len() == 0 ==> r.x == 0 && r.y == 0,
            self.stretch_view().len() > 0 ==> (exists|i: int| 0 <= i < self.stretch_view().len() && r.x == (#[trigger] self.stretch_view()[i]).x)
                && (exists|i: int| 0 <= i < self.stretch_view().len() && r.y == (#[trigger] self.stretch_view()[i]).y),
    {
        let mut x: u32 = 0;
        let mut y: u32 = 0;
        let mut i: usize = 0;
        while i < self.stretches.len()
            invariant
                i <= self.stretches.len(),
                forall|j: int| 0 <= j < i ==> x >= (#[trigger] self.stretches@[j]).x && y >= self.stretches@[j].y,
                i == 0 ==> x == 0 && y == 0,
                i > 0 ==> (exists|j: int| 0 <= j < i && x == (#[trigger] self.stretches@[j]).x)
                    && (exists|j: int| 0 <= j < i && y == (#[trigger] self.stretches@[j]).y),
            decreases self.stretches.len() - i,
        {
            let s = self.stretches[i];
            if i == 0 || s.x > x {
                x = s.x;
            }
            if i == 0 || s.y > y {
                y = s.y;
            }
            i = i + 1;
        }
        ViewStretch { x, y }
    }

    /// The rectangle of child `index` when the grid occupies `b`: its cell,
    /// laid out for the size of `b`; the zero rectangle out of range.
    pub open spec fn child_bounds(&self, b: Rect, index: int) -> Rect {
        if 0 <= index < self.limits_view().len() {
            grid_cell(
                grid_track_sizes(self.limits_view(), self.stretch_view(), self.columns_spec(), false, self.h_gap_spec(), b.right - b.left),
                grid_track_sizes(self.limits_view(), self.stretch_view(), self.columns_spec(), true, self.v_gap_spec(), b.bottom - b.top),
                self.columns_spec(),
                self.h_gap_spec(),
                self.v_gap_spec(),
                b,
                index,
            )
        } else {
            zero_rect()
        }
    }

    /// The child under `p` when the grid occupies `bounds`: the first child
    /// whose cell (as `bounds_of` gives it) holds `p`; none when `p` lies
    /// outside the grid.
    pub fn hit(&mut self, bounds: Rect, p: Point) -> (r: Option<usize>)
        requires
            old(self).wf(),
            bounds.in_range(),
        ensures
            final(self).wf(),
            final(self).limits_view() == old(self).limits_view(),
            final(self).stretch_view() == old(self).stretch_view(),
            final(self).columns_spec() == old(self).columns_spec(),
            final(self).h_gap_spec() == old(self).h_gap_spec(),
            final(self).v_gap_spec() == old(self).v_gap_spec(),
            !rect_contains(bounds, p) ==> r is None,
            rect_contains(bounds, p) ==> match r {
                Some(i) => {
                    &&& i < old(self).limits_view().len()
                    &&& rect_contains(old(self).child_bounds(bounds, i as int), p)
                    &&& forall|j: int| 0 <= j < i ==> !rect_contains(#[trigger] old(self).child_bounds(bounds, j), p)
                },
                None => forall|j: int|
                    0 <= j < old(self).limits_view().len() ==> !rect_contains(#[trigger] old(self).child_bounds(bounds, j), p),
            },
    {
        if !bounds.contains(p) {
            return None;
        }
        let ghost g0 = *self;
        let n = self.children.len();
        let mut i: usize = 0;
        while i < n
            invariant
                i <= n,
                self.wf(),
                bounds.in_range(),
                rect_contains(bounds, p),
                n == g0.limits_view().len(),
                g0 == *old(self),
                self.limits_view() == g0.limits_view(),
                self.stretch_view() == g0.stretch_view(),
                self.columns_spec() == g0.columns_spec(),
                self.h_gap_spec() == g0.h_gap_spec(),
                self.v_gap_spec() == g0.v_gap_spec(),
                forall|j: int| 0 <= j < i ==> !rect_contains(#[trigger] g0.child_bounds(bounds, j), p),
            decreases n - i,
        {
            let b = self.bounds_of(bounds, i);
            if b.contains(p) {
                return Some(i);
            }
            i = i + 1;
        }
        None
    }

    /// Where child `index` lies when the grid occupies `bounds`. The column
    /// widths and row heights are computed on first use and kept until the
    /// size or the children change.
    pub fn bounds_of(&mut self, bounds: Rect, index: usize) -> (r: Rect)
        requires
            old(self).wf(),
            bounds.in_range(),
        ensures
            final(self).wf(),
            final(self).limits_view() == old(self).limits_view(),
            final(self).stretch_view() == old(self).stretch_view(),
            final(self).columns_spec() == old(self).columns_spec(),
            final(self).h_gap_spec() == old(self).h_gap_spec(),
            final(self).v_gap_spec() == old(self).v_gap_spec(),
            r == old(self).child_bounds(bounds, index as int),
    {
        let n = self.children.len();
        if index >= n {
            return Rect::zero();
        }
        let w = (bounds.right as i64 - bounds.left as i64) as i32;
        let h = (bounds.bottom as i64 - bounds.top as i64) as i32;
        let stale = match self.laid_out_for {
            Some((cw, ch)) => cw != w || ch != h,
            None => true,
        };
        if stale {
            self.col_widths = grid_tracks(&self.children, &self.stretches, self.columns, false, self.h_gap, w);
            self.row_heights = grid_tracks(&self.children, &self.stretches, self.columns, true, self.v_gap, h);
            self.laid_out_for = Some((w, h));
        }
        cell_rect(&self.col_widths, &self.row_heights, self.columns, self.h_gap, self.v_gap, bounds, index, n)
    }
}

/// The cell of child `index` of `n` children, given the column widths and
/// row heights.
pub(crate) fn cell_rect(
    widths: &Vec<i32>,
    heights: &Vec<i32>,
    columns: usize,
    h_gap: i32,
    v_gap: i32,
    bounds: Rect,
    index: usize,
    n: usize,
) -> (r: Rect)
    requires
        columns >= 1,
        index < n,
        widths.len() == track_count(n as int, columns as int, false),
        heights.len() == track_count(n as int, columns as int, true),
        0 <= h_gap <= FULL_EXTENT,
        0 <= v_gap <= FULL_EXTENT,
    ensures
        r == grid_cell(widths@, heights@, columns as int, h_gap as int, v_gap as int, bounds, index as int),
{
    let col = index % columns;
    let row = index / columns;
    proof {
        lemma_track_of_bounds(index as int, n as int, columns as int, false);
        lemma_track_of_bounds(index as int, n as int, columns as int, true);
    }
    let x = bounds.left as i128 + track_start_of(widths, h_gap, col);
    let y = bounds.top as i128 + track_start_of(heights, v_gap, row);
    let right = x + widths[col] as i128;
    let bottom = y + heights[row] as i128;
    if x >= i32::MIN as i128 && x <= i32::MAX as i128 && y >= i32::MIN as i128 && y <= i32::MAX as i128
        && right >= i32::MIN as i128 && right <= i32::MAX as i128 && bottom >= i32::MIN as i128
        && bottom <= i32::MAX as i128 {
        Rect { left: x as i32, top: y as i32, right: right as i32, bottom: bottom as i32 }
    } else {
        Rect::zero()
    }
}

/// The cells of all children of a grid with bounds `b`.
pub open spec fn grid_rects(
    ls: Seq<ViewLimits>,
    ss: Seq<ViewStretch>,
    columns: int,
    h_gap: int,
    v_gap: int,
    b: Rect,
) -> Seq<Rect> {
    Seq::new(
        ls.len(),
        |i: int|
            grid_cell(
                grid_track_sizes(ls, ss, columns, false, h_gap, b.right - b.left),
                grid_track_sizes(ls, ss, columns, true, v_gap, b.bottom - b.top),
                columns,
                h_gap,
                v_gap,
                b,
                i,
            ),
    )
}

/// The cells of all children of a grid with `columns` columns and the given
/// gaps when it occupies `bounds`.
pub fn grid_child_rects(
    ls: &Vec<ViewLimits>,
    ss: &Vec<ViewStretch>,
    columns: usize,
    h_gap: i32,
    v_gap: i32,
    bounds: Rect,
) -> (r: Vec<Rect>)
    requires
        ls.len() == ss.len(),
        columns >= 1,
        all_wf(ls@),
        0 <= h_gap <= FULL_EXTENT,
        0 <= v_gap <= FULL_EXTENT,
        bounds.in_range(),
    ensures
        r@ == grid_rects(ls@, ss@, columns as int, h_gap as int, v_gap as int, bounds),
{
    let n = ls.len();
    let w = (bounds.right as i64 - bounds.left as i64) as i32;
    let h = (bounds.bottom as i64 - bounds.top as i64) as i32;
    let widths = grid_tracks(ls, ss, columns, false, h_gap, w);
    let heights = grid_tracks(ls, ss, columns, true, v_gap, h);
    let mut out: Vec<Rect> = Vec::new();
    let mut i: usize = 0;
    while i < n
        invariant
            i <= n,
            n == ls.len(),
            columns >= 1,
            0 <= h_gap <= FULL_EXTENT,
            0 <= v_gap <= FULL_EXTENT,
            w == bounds.right - bounds.left,
            h == bounds.bottom - bounds.top,
            widths@ == grid_track_sizes(ls@, ss@, columns as int, false, h_gap as int, w as int),
            heights@ == grid_track_sizes(ls@, ss@, columns as int, true, v_gap as int, h as int),
            widths.len() == track_count(n as int, columns as int, false),
            heights.len() == track_count(n as int, columns as int, true),
            out@ == grid_rects(ls@, ss@, columns as int, h_gap as int, v_gap as int, bounds).take(i as int),
        decreases n - i,
    {
        out.push(cell_rect(&widths, &heights, columns, h_gap, v_gap, bounds, i, n));
        i = i + 1;
        assert(out@ =~= grid_rects(ls@, ss@, columns as int, h_gap as int, v_gap as int, bounds).take(i as int));
    }
    assert(out@ =~= grid_rects(ls@, ss@, columns as int, h_gap as int, v_gap as int, bounds));
    out
}

/// An empty grid reports zero-size limits and lays out no rows.
pub proof fn lemma_empty_grid(ss: Seq<ViewStretch>, columns: int, h_gap: int, v_gap: int, available: int)
    ensures
        grid_limits_of(Seq::<ViewLimits>::empty(), columns, h_gap, v_gap) == (ViewLimits {
            min: Point { x: 0, y: 0 },
            max: Point { x: 0, y: 0 },
        }),
        grid_track_sizes(Seq::<ViewLimits>::empty(), ss, columns, true, v_gap, available).len() == 0,
{
}

/// Grid conservation: where some row (or column) stretches and the space
/// left after the gaps covers the tracks' minimums, the tracks together
/// fill exactly that space, and no track gets less than its minimum.
pub proof fn lemma_grid_conservation(
    ls: Seq<ViewLimits>,
    ss: Seq<ViewStretch>,
    columns: int,
    by_row: bool,
    gap: int,
    available: int,
)
    requires
        ls.len() == ss.len(),
        all_wf(ls),
        columns >= 1,
        weight_all(track_weights(ss, columns, by_row)) > 0,
        track_space(available, gap, track_count(ls.len() as int, columns, by_row)) >= sum_all(
            track_mins(ls, columns, by_row),
        ),
    ensures
        distributed_to(
            track_mins(ls, columns, by_row),
            track_weights(ss, columns, by_row),
            track_space(available, gap, track_count(ls.len() as int, columns, by_row)),
            track_count(ls.len() as int, columns, by_row),
        ) == track_space(available, gap, track_count(ls.len() as int, columns, by_row)),
        forall|t: int|
            0 <= t < track_count(ls.len() as int, columns, by_row) ==> track_mins(ls, columns, by_row)[t]
                <= #[trigger] grid_track_size(ls, ss, columns, by_row, gap, available, t),
{
    let count = track_count(ls.len() as int, columns, by_row);
    let space = track_space(available, gap, count);
    let m = track_mins(ls, columns, by_row);
    let w = track_weights(ss, columns, by_row);
    lemma_track_extents(ls, columns, by_row);
    lemma_distribute_conserves(m, w, space);
    assert forall|t: int| 0 <= t < count implies m[t] <= #[trigger] grid_track_size(
        ls,
        ss,
        columns,
        by_row,
        gap,
        available,
        t,
    ) by {
        assert(m[t] <= distributed(m, w, space, t));
    }
}

proof fn lemma_single_column_empty_row(vals: Seq<i32>, t: int, k: int)
    requires
        0 <= k <= t,
        k <= vals.len(),
    ensures
        track_max(vals, 1, true, t, k) == 0,
    decreases k,
{
    if k > 0 {
        lemma_single_column_empty_row(vals, t, k - 1);
        assert((k - 1) / 1 == k - 1);
    }
}

proof fn lemma_single_column_row(vals: Seq<i32>, t: int, k: int)
    requires
        valid_extents(vals),
        0 <= t < k <= vals.len(),
    ensures
        track_max(vals, 1, true, t, k) == vals[t],
    decreases k,
{
    assert((k - 1) / 1 == k - 1);
    if k - 1 == t {
        lemma_single_column_empty_row(vals, t, t);
    } else {
        lemma_single_column_row(vals, t, k - 1);
    }
}

/// With one column each row holds one child: row `t`'s minimum is child
/// `t`'s minimum height, so a one-column grid lays out like a vertical tile.
pub proof fn lemma_single_column_rows(ls: Seq<ViewLimits>, t: int)
    requires
        all_wf(ls),
        0 <= t < ls.len(),
    ensures
        track_count(ls.len() as int, 1, true) == ls.len(),
        track_mins(ls, 1, true)[t] == ls[t].min.y,
{
    crate::tile::lemma_axis_extents_valid(ls, Axis::Y);
    lemma_single_column_row(axis_mins(ls, Axis::Y), t, ls.len() as int);
    assert((ls.len() - 1) / 1 == ls.len() - 1);
}

/// Cells keep their rows when only widths change: for grids whose children
/// differ only in their widths, each cell has the same top and bottom edge
/// in both, wherever both cells fit in `i32` coordinates.
pub proof fn lemma_cells_keep_rows(
    a: Seq<ViewLimits>,
    b: Seq<ViewLimits>,
    ss: Seq<ViewStretch>,
    columns: int,
    h_gap: int,
    v_gap: int,
    bounds: Rect,
    index: int,
)
    requires
        a.len() == b.len(),
        columns >= 1,
        0 <= index < a.len(),
        forall|i: int| 0 <= i < a.len() ==> (#[trigger] a[i]).min.y == b[i].min.y,
    ensures
        ({
            let ha = grid_track_sizes(a, ss, columns, true, v_gap, bounds.bottom - bounds.top);
            let hb = grid_track_sizes(b, ss, columns, true, v_gap, bounds.bottom - bounds.top);
            let wa = grid_track_sizes(a, ss, columns, false, h_gap, bounds.right - bounds.left);
            let wb = grid_track_sizes(b, ss, columns, false, h_gap, bounds.right - bounds.left);
            let ca = grid_cell(wa, ha, columns, h_gap, v_gap, bounds, index);
            let cb = grid_cell(wb, hb, columns, h_gap, v_gap, bounds, index);
            ha == hb && (ca != zero_rect() && cb != zero_rect() ==> ca.top == cb.top && ca.bottom == cb.bottom)
        }),
{
    let avail = bounds.bottom - bounds.top;
    lemma_rows_ignore_widths(a, b, ss, columns, v_gap, avail);
    assert(grid_track_sizes(a, ss, columns, true, v_gap, avail) =~= grid_track_sizes(b, ss, columns, true, v_gap, avail));
}

} // verus!
