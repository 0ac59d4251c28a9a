//! Structural proxies: single-child wrappers that transform the limits their
//! subject reports upward and the bounds handed down to it.
use vstd::prelude::*;
use crate::geometry::{Point, Rect, zero_rect, in_coord_range};
use crate::limits::{FULL_EXTENT, ViewLimits, ViewStretch};
use crate::tile::capped;

verus! {

/// Space kept free on each side of a subject.
#[derive(Debug, Clone, Copy, PartialEq, Eq, Structural)]
pub struct Margin {
    pub left: i32,
    pub top: i32,
    pub right: i32,
    pub bottom: i32,
}

impl Margin {
    /// Every side lies in `0..=FULL_EXTENT`.
    pub open spec fn wf(&self) -> bool {
        &&& 0 <= self.left <= FULL_EXTENT
        &&& 0 <= self.top <= FULL_EXTENT
        &&& 0 <= self.right <= FULL_EXTENT
        &&& 0 <= self.bottom <= FULL_EXTENT
    }

    pub fn new(left: i32, top: i32, right: i32, bottom: i32) -> (r: Margin)
        ensures
            r == (Margin { left, top, right, bottom }),
    {
        Margin { left, top, right, bottom }
    }

    /// The same margin on every side.
    pub fn uniform(value: i32) -> (r: Margin)
        ensures
            r == (Margin { left: value, top: value, right: value, bottom: value }),
    {
        Margin { left: value, top: value, right: value, bottom: value }
    }

    /// `h` on the left and right, `v` on the top and bottom.
    pub fn symmetric(h: i32, v: i32) -> (r: Margin)
        ensures
            r == (Margin { left: h, top: v, right: h, bottom: v }),
    {
        Margin { left: h, top: v, right: h, bottom: v }
    }

    /// The total horizontal margin.
    pub fn width(&self) -> (r: i32)
        requires
            self.wf(),
        ensures
            r == self.left + self.right,
    {
        self.left + self.right
    }

    /// The total vertical margin.
    pub fn height(&self) -> (r: i32)
        requires
            self.wf(),
        ensures
            r == self.top + self.bottom,
    {
        self.top + self.bottom
    }
}

/// The limits a margin proxy reports: the subject's, grown by the margins on
/// each axis and capped at `FULL_EXTENT`.
pub open spec fn margin_limits_of(m: Margin, l: ViewLimits) -> ViewLimits {
    ViewLimits {
        min: Point {
            x: capped(l.min.x + m.left + m.right) as i32,
            y: capped(l.min.y + m.top + m.bottom) as i32,
        },
        max: Point {
            x: capped(l.max.x + m.left + m.right) as i32,
            y: capped(l.max.y + m.top + m.bottom) as i32,
        },
    }
}

/// The bounds a margin proxy hands its subject: its own, shrunk by the
/// margins; the zero rectangle where the edges would cross.
pub open spec fn margin_bounds_of(m: Margin, b: Rect) -> Rect {
    let left = b.left + m.left;
    let top = b.top + m.top;
    let right = b.right - m.right;
    let bottom = b.bottom - m.bottom;
    if left <= right && top <= bottom {
        Rect { left: left as i32, top: top as i32, right: right as i32, bottom: bottom as i32 }
    } else {
        zero_rect()
    }
}

fn cap_sum(a: i32, b: i32, c: i32) -> (r: i32)
    requires
        0 <= a <= FULL_EXTENT,
        0 <= b <= FULL_EXTENT,
        0 <= c <= FULL_EXTENT,
    ensures
        r == capped(a + b + c),
{
    let s = a as i64 + b as i64 + c as i64;
    if s > FULL_EXTENT as i64 {
        FULL_EXTENT
    } else {
        s as i32
    }
}

/// The limits of a margin proxy around a subject with limits `subject`.
pub fn margin_limits(m: &Margin, subject: ViewLimits) -> (r: ViewLimits)
    requires
        m.wf(),
        subject.wf(),
    ensures
        r == margin_limits_of(*m, subject),
        r.wf(),
{
    ViewLimits {
        min: Point {
            x: cap_sum(subject.min.x, m.left, m.right),
            y: cap_sum(subject.min.y, m.top, m.bottom),
        },
        max: Point {
            x: cap_sum(subject.max.x, m.left, m.right),
            y: cap_sum(subject.max.y, m.top, m.bottom),
        },
    }
}

/// The bounds a margin proxy with bounds `bounds` hands its subject. Drawing
/// and hit-testing both go by this rectangle.
pub fn margin_bounds(m: &Margin, bounds: Rect) -> (r: Rect)
    requires
        m.wf(),
        bounds.in_range(),
    ensures
        r == margin_bounds_of(*m, bounds),
{
    let left = bounds.left + m.left;
    let top = bounds.top + m.top;
    let right = bounds.right - m.right;
    let bottom = bounds.bottom - m.bottom;
    if left <= right && top <= bottom {
        Rect { left, top, right, bottom }
    } else {
        Rect::zero()
    }
}

/// True when `p` hits the subject of a margin proxy with bounds `bounds`:
/// it lies in the very rectangle the subject is drawn in.
pub fn margin_hit(m: &Margin, bounds: Rect, p: Point) -> (r: bool)
    requires
        m.wf(),
        bounds.in_range(),
    ensures
        r == crate::geometry::rect_contains(margin_bounds_of(*m, bounds), p),
{
    margin_bounds(m, bounds).contains(p)
}

/// A margin proxy adds the margins to its subject's limits on each axis,
/// as long as the result stays in range.
pub proof fn lemma_margin_adds(m: Margin, l: ViewLimits)
    requires
        m.wf(),
        l.wf(),
        l.max.x + m.left + m.right <= FULL_EXTENT,
        l.max.y + m.top + m.bottom <= FULL_EXTENT,
    ensures
        margin_limits_of(m, l).min.x == l.min.x + m.left + m.right,
        margin_limits_of(m, l).min.y == l.min.y + m.top + m.bottom,
        margin_limits_of(m, l).max.x == l.max.x + m.left + m.right,
        margin_limits_of(m, l).max.y == l.max.y + m.top + m.bottom,
{
}

/// A size in `0..=FULL_EXTENT`.
pub open spec fn valid_size(v: int) -> bool {
    0 <= v <= FULL_EXTENT
}

/// The limits of a fixed-size proxy: exactly `width` by `height`.
pub fn fixed_size_limits(width: i32, height: i32) -> (r: ViewLimits)
    requires
        valid_size(width as int),
        valid_size(height as int),
    ensures
        r.min == (Point { x: width, y: height }),
        r.max == (Point { x: width, y: height }),
        r.wf(),
{
    ViewLimits::fixed(width, height)
}

fn max_i32(a: i32, b: i32) -> (r: i32)
    ensures
        r == if a >= b { a } else { b },
{
    if a >= b { a } else { b }
}

fn min_i32(a: i32, b: i32) -> (r: i32)
    ensures
        r == if a <= b { a } else { b },
{
    if a <= b { a } else { b }
}

/// The limits of a minimum-size proxy: the subject's minimum raised to at
/// least `width` by `height`, the maximum raised with it where needed.
pub open spec fn min_size_limits_of(width: int, height: int, l: ViewLimits) -> ViewLimits {
    let nx = if l.min.x >= width { l.min.x as int } else { width };
    let ny = if l.min.y >= height { l.min.y as int } else { height };
    ViewLimits {
        min: Point { x: nx as i32, y: ny as i32 },
        max: Point {
            x: if l.max.x >= nx { l.max.x } else { nx as i32 },
            y: if l.max.y >= ny { l.max.y } else { ny as i32 },
        },
    }
}

/// The limits of a minimum-size proxy around a subject with limits `subject`.
pub fn min_size_limits(width: i32, height: i32, subject: ViewLimits) -> (r: ViewLimits)
    requires
        valid_size(width as int),
        valid_size(height as int),
        subject.wf(),
    ensures
        r == min_size_limits_of(width as int, height as int, subject),
        r.wf(),
{
    let nx = max_i32(subject.min.x, width);
    let ny = max_i32(subject.min.y, height);
    ViewLimits {
        min: Point { x: nx, y: ny },
        max: Point { x: max_i32(subject.max.x, nx), y: max_i32(subject.max.y, ny) },
    }
}

/// The limits of a maximum-size proxy: the subject's maximum lowered to at
/// most `width` by `height`, but never below its minimum.
pub open spec fn max_size_limits_of(width: int, height: int, l: ViewLimits) -> ViewLimits {
    let cx = if l.max.x <= width { l.max.x as int } else { width };
    let cy = if l.max.y <= height { l.max.y as int } else { height };
    ViewLimits {
        min: l.min,
        max: Point {
            x: if cx >= l.min.x { cx as i32 } else { l.min.x },
            y: if cy >= l.min.y { cy as i32 } else { l.min.y },
        },
    }
}

/// The limits of a maximum-size proxy around a subject with limits `subject`.
pub fn max_size_limits(width: i32, height: i32, subject: ViewLimits) -> (r: ViewLimits)
    requires
        valid_size(width as int),
        valid_size(height as int),
        subject.wf(),
    ensures
        r == max_size_limits_of(width as int, height as int, subject),
        r.wf(),
{
    let cx = min_i32(subject.max.x, width);
    let cy = min_i32(subject.max.y, height);
    ViewLimits {
        min: subject.min,
        max: Point { x: max_i32(cx, subject.min.x), y: max_i32(cy, subject.min.y) },
    }
}

/// The largest alignment fraction, in thousandths: all the way right or down.
pub const ALIGN_SCALE: u32 = 1000;

/// The limits of a horizontal-alignment proxy: the subject's, with the
/// maximum width unbounded so that the surrounding layout grants all space.
pub fn halign_limits(subject: ViewLimits) -> (r: ViewLimits)
    requires
        subject.wf(),
    ensures
        r.min == subject.min,
        r.max == (Point { x: FULL_EXTENT, y: subject.max.y }),
        r.wf(),
{
    ViewLimits { min: subject.min, max: Point { x: FULL_EXTENT, y: subject.max.y } }
}

/// The limits of a vertical-alignment proxy: the subject's, with the maximum
/// height unbounded.
pub fn valign_limits(subject: ViewLimits) -> (r: ViewLimits)
    requires
        subject.wf(),
    ensures
        r.min == subject.min,
        r.max == (Point { x: subject.max.x, y: FULL_EXTENT }),
        r.wf(),
{
    ViewLimits { min: subject.min, max: Point { x: subject.max.x, y: FULL_EXTENT } }
}

/// How much of `available` an aligned subject with limits `lo..=hi` takes:
/// its minimum, grown to the available space up to its maximum.
pub open spec fn aligned_extent(lo: int, hi: int, available: int) -> int {
    if available > lo {
        if available < hi { available } else { hi }
    } else {
        lo
    }
}

/// Where an aligned subject starts, relative to the proxy's edge: the free
/// space times the alignment fraction (in thousandths), rounded down.
pub open spec fn aligned_offset(extent: int, available: int, align: int) -> int {
    if available > extent {
        (available - extent) * align / ALIGN_SCALE as int
    } else {
        0
    }
}

/// The bounds a horizontal-alignment proxy with bounds `b` and alignment
/// `align` (thousandths) hands a subject with limits `l`.
pub open spec fn halign_bounds_of(align: int, l: ViewLimits, b: Rect) -> Rect {
    let avail = b.right - b.left;
    let w = aligned_extent(l.min.x as int, l.max.x as int, avail);
    let x = b.left + aligned_offset(w, avail, align);
    Rect { left: x as i32, top: b.top, right: (x + w) as i32, bottom: b.bottom }
}

/// The bounds a vertical-alignment proxy with bounds `b` and alignment
/// `align` (thousandths) hands a subject with limits `l`.
pub open spec fn valign_bounds_of(align: int, l: ViewLimits, b: Rect) -> Rect {
    let avail = b.bottom - b.top;
    let h = aligned_extent(l.min.y as int, l.max.y as int, avail);
    let y = b.top + aligned_offset(h, avail, align);
    Rect { left: b.left, top: y as i32, right: b.right, bottom: (y + h) as i32 }
}

fn aligned_span(lo: i32, hi: i32, start: i32, end: i32, align: u32) -> (r: (i32, i32))
    requires
        0 <= lo <= hi <= FULL_EXTENT,
        in_coord_range(start as int),
        in_coord_range(end as int),
        start <= end,
        align <= ALIGN_SCALE,
    ensures
        r.0 == start + aligned_offset(aligned_extent(lo as int, hi as int, end - start), end - start, align as int),
        r.1 == r.0 + aligned_extent(lo as int, hi as int, end - start),
{
    let avail: i64 = end as i64 - start as i64;
    let ext: i64 = if avail > lo as i64 {
        if avail < hi as i64 { avail } else { hi as i64 }
    } else {
        lo as i64
    };
    let mut off: i64 = 0;
    if avail > ext {
        assert(0 <= (avail - ext) * align <= 0x1_0000_0000 * 1000) by (nonlinear_arith)
            requires
                0 <= avail - ext <= 0x1_0000_0000,
                0 <= align <= 1000,
        ;
        assert((avail - ext) * align / 1000 <= avail - ext) by (nonlinear_arith)
            requires
                0 <= avail - ext,
                0 <= align <= 1000,
        ;
        off = (avail - ext) * align as i64 / ALIGN_SCALE as i64;
    }
    let first = start as i64 + off;
    (first as i32, (first + ext) as i32)
}

/// The bounds a horizontal-alignment proxy hands its subject.
pub fn halign_bounds(align: u32, subject: ViewLimits, bounds: Rect) -> (r: Rect)
    requires
        align <= ALIGN_SCALE,
        subject.wf(),
        bounds.in_range(),
        bounds.left <= bounds.right,
    ensures
        r == halign_bounds_of(align as int, subject, bounds),
{
    let (l, rt) = aligned_span(subject.min.x, subject.max.x, bounds.left, bounds.right, align);
    Rect { left: l, top: bounds.top, right: rt, bottom: bounds.bottom }
}

/// The bounds a vertical-alignment proxy hands its subject.
pub fn valign_bounds(align: u32, subject: ViewLimits, bounds: Rect) -> (r: Rect)
    requires
        align <= ALIGN_SCALE,
        subject.wf(),
        bounds.in_range(),
        bounds.top <= bounds.bottom,
    ensures
        r == valign_bounds_of(align as int, subject, bounds),
{
    let (t, b) = aligned_span(subject.min.y, subject.max.y, bounds.top, bounds.bottom, align);
    Rect { left: bounds.left, top: t, right: bounds.right, bottom: b }
}

/// A proxy's transformation.
#[derive(Debug, Clone, Copy, PartialEq, Eq, Structural)]
pub enum Proxy {
    /// Keeps space free around the subject.
    Margin(Margin),
    /// Makes the subject exactly this wide and high.
    FixedSize(i32, i32),
    /// Keeps the subject at least this wide and high.
    MinSize(i32, i32),
    /// Keeps the subject at most this wide and high.
    MaxSize(i32, i32),
    /// Replaces the subject's stretch.
    Stretch(ViewStretch),
    /// Places the subject horizontally (thousandths from the left).
    HAlign(u32),
    /// Places the subject vertically (thousandths from the top).
    VAlign(u32),
}

impl Proxy {
    /// The parameters are in range.
    pub open spec fn wf(&self) -> bool {
        match *self {
            Proxy::Margin(m) => m.wf(),
            Proxy::FixedSize(w, h) | Proxy::MinSize(w, h) | Proxy::MaxSize(w, h) => valid_size(w as int)
                && valid_size(h as int),
            Proxy::Stretch(_) => true,
            Proxy::HAlign(a) | Proxy::VAlign(a) => a <= ALIGN_SCALE,
        }
    }

    /// The limits the proxy reports for a subject with limits `l`.
    pub open spec fn limits_spec(&self, l: ViewLimits) -> ViewLimits {
        match *self {
            Proxy::Margin(m) => margin_limits_of(m, l),
            Proxy::FixedSize(w, h) => ViewLimits { min: Point { x: w, y: h }, max: Point { x: w, y: h } },
            Proxy::MinSize(w, h) => min_size_limits_of(w as int, h as int, l),
            Proxy::MaxSize(w, h) => max_size_limits_of(w as int, h as int, l),
            Proxy::Stretch(_) => l,
            Proxy::HAlign(_) => ViewLimits { min: l.min, max: Point { x: FULL_EXTENT, y: l.max.y } },
            Proxy::VAlign(_) => ViewLimits { min: l.min, max: Point { x: l.max.x, y: FULL_EXTENT } },
        }
    }

    /// The bounds the proxy hands a subject with limits `l` when it has `b`.
    pub open spec fn bounds_spec(&self, l: ViewLimits, b: Rect) -> Rect {
        match *self {
            Proxy::Margin(m) => margin_bounds_of(m, b),
            Proxy::HAlign(a) => halign_bounds_of(a as int, l, b),
            Proxy::VAlign(a) => valign_bounds_of(a as int, l, b),
            _ => b,
        }
    }

    /// The limits the proxy reports for a subject with limits `subject`.
    pub fn limits(&self, subject: ViewLimits) -> (r: ViewLimits)
        requires
            self.wf(),
            subject.wf(),
        ensures
            r == self.limits_spec(subject),
            r.wf(),
    {
        match *self {
            Proxy::Margin(m) => margin_limits(&m, subject),
            Proxy::FixedSize(w, h) => fixed_size_limits(w, h),
            Proxy::MinSize(w, h) => min_size_limits(w, h, subject),
            Proxy::MaxSize(w, h) => max_size_limits(w, h, subject),
            Proxy::Stretch(_) => subject,
            Proxy::HAlign(_) => halign_limits(subject),
            Proxy::VAlign(_) => valign_limits(subject),
        }
    }

    /// The stretch the proxy reports for a subject with stretch `subject`.
    pub fn stretch(&self, subject: ViewStretch) -> (r: ViewStretch)
        ensures
            r == match *self {
                Proxy::Stretch(s) => s,
                _ => subject,
            },
    {
        match *self {
            Proxy::Stretch(s) => s,
            _ => subject,
        }
    }

    /// The bounds the proxy hands a subject with limits `subject` when the
    /// proxy itself has `bounds`.
    pub fn subject_bounds(&self, subject: ViewLimits, bounds: Rect) -> (r: Rect)
        requires
            self.wf(),
            subject.wf(),
            bounds.in_range(),
            bounds.left <= bounds.right,
            bounds.top <= bounds.bottom,
        ensures
            r == self.bounds_spec(subject, bounds),
    {
        match *self {
            Proxy::Margin(m) => margin_bounds(&m, bounds),
            Proxy::HAlign(a) => halign_bounds(a, subject, bounds),
            Proxy::VAlign(a) => valign_bounds(a, subject, bounds),
            _ => bounds,
        }
    }
}

/// A proxy with parameters in range over a subject with consistent limits
/// reports consistent limits.
pub proof fn lemma_proxy_limits_wf(p: Proxy, l: ViewLimits)
    requires
        p.wf(),
        l.wf(),
    ensures
        p.limits_spec(l).wf(),
{
}

/// A margin proxy.
pub fn margin(m: Margin) -> (r: Proxy)
    ensures
        r == Proxy::Margin(m),
{
    Proxy::Margin(m)
}

/// A fixed-size proxy.
pub fn fixed_size(width: i32, height: i32) -> (r: Proxy)
    ensures
        r == Proxy::FixedSize(width, height),
{
    Proxy::FixedSize(width, height)
}

/// A minimum-size proxy.
pub fn min_size(width: i32, height: i32) -> (r: Proxy)
    ensures
        r == Proxy::MinSize(width, height),
{
    Proxy::MinSize(width, height)
}

/// A maximum-size proxy.
pub fn max_size(width: i32, height: i32) -> (r: Proxy)
    ensures
        r == Proxy::MaxSize(width, height),
{
    Proxy::MaxSize(width, height)
}

/// A stretch-override proxy.
pub fn stretch(x: u32, y: u32) -> (r: Proxy)
    ensures
        r == Proxy::Stretch(ViewStretch { x, y }),
{
    Proxy::Stretch(ViewStretch { x, y })
}

/// A proxy that takes no extra space.
pub fn no_stretch() -> (r: Proxy)
    ensures
        r == Proxy::Stretch(ViewStretch { x: 0, y: 0 }),
{
    Proxy::Stretch(ViewStretch { x: 0, y: 0 })
}

/// A horizontal-alignment proxy; the fraction is clamped to `ALIGN_SCALE`.
pub fn halign(align: u32) -> (r: Proxy)
    ensures
        r == Proxy::HAlign(if align <= ALIGN_SCALE { align } else { ALIGN_SCALE }),
{
    Proxy::HAlign(if align <= ALIGN_SCALE { align } else { ALIGN_SCALE })
}

/// A vertical-alignment proxy; the fraction is clamped to `ALIGN_SCALE`.
pub fn valign(align: u32) -> (r: Proxy)
    ensures
        r == Proxy::VAlign(if align <= ALIGN_SCALE { align } else { ALIGN_SCALE }),
{
    Proxy::VAlign(if align <= ALIGN_SCALE { align } else { ALIGN_SCALE })
}

} // verus!
