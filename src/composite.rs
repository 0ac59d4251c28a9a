//! Composite storage: an ordered collection of children with cached bounds,
//! z-order aware hit-testing and the focus-traversal protocol.
use vstd::prelude::*;
use crate::geometry::{Point, Rect, rect_contains, rects_intersect, intersects, zero_rect};
use crate::geometry::Axis;
use crate::input::CursorTracking;
use crate::limits::{FocusRequest, ViewLimits, ViewStretch, all_wf, axis_mins, axis_maxs, collect_mins, collect_maxs};
use crate::tile::{max_to, least_to, seq_max, seq_least, lemma_axis_extents_valid, lemma_max_to_bounds, lemma_least_to_bounds};

verus! {

/// What a composite knows of one child.
#[derive(Debug, Clone, Copy, PartialEq, Eq, Structural)]
pub struct Child {
    pub limits: ViewLimits,
    pub stretch: ViewStretch,
    /// The child currently accepts keyboard focus.
    pub wants_focus: bool,
    /// The child currently accepts clicks and drags.
    pub wants_control: bool,
}

impl Child {
    /// A child with the given limits and stretch that takes neither focus
    /// nor control.
    pub fn new(limits: ViewLimits, stretch: ViewStretch) -> (r: Child)
        ensures
            r == (Child { limits, stretch, wants_focus: false, wants_control: false }),
    {
        Child { limits, stretch, wants_focus: false, wants_control: false }
    }

    /// Sets whether the child accepts keyboard focus.
    pub fn focusable(self, on: bool) -> (r: Child)
        ensures
            r == (Child { wants_focus: on, ..self }),
    {
        Child { wants_focus: on, ..self }
    }

    /// Sets whether the child accepts clicks and drags.
    pub fn control(self, on: bool) -> (r: Child)
        ensures
            r == (Child { wants_control: on, ..self }),
    {
        Child { wants_control: on, ..self }
    }
}

/// Child `i` is visited before child `j` in a scan that runs from the last
/// child to the first when `reverse`, else from the first to the last.
pub open spec fn visited_before(i: int, j: int, reverse: bool) -> bool {
    if reverse {
        i > j
    } else {
        i < j
    }
}

/// `r` is what a hit-test of `p` over children with bounds `bs` (and
/// control flags `cs`) yields, scanning in `reverse` order or not: the first
/// child in scan order whose bounds hold `p`; with `control`, the first such
/// child that wants control, or where none does, the last child holding `p`.
/// `None` when no child holds `p`.
pub open spec fn hit_result(
    bs: Seq<Rect>,
    cs: Seq<bool>,
    p: Point,
    control: bool,
    reverse: bool,
    r: Option<usize>,
) -> bool {
    match r {
        None => forall|j: int| 0 <= j < bs.len() ==> !rect_contains(#[trigger] bs[j], p),
        Some(i) => {
            &&& 0 <= i < bs.len()
            &&& rect_contains(bs[i as int], p)
            &&& if !control {
                forall|j: int|
                    0 <= j < bs.len() && visited_before(j, i as int, reverse) ==> !rect_contains(
                        #[trigger] bs[j],
                        p,
                    )
            } else if exists|j: int| 0 <= j < bs.len() && rect_contains(#[trigger] bs[j], p) && cs[j] {
                &&& cs[i as int]
                &&& forall|j: int|
                    0 <= j < bs.len() && visited_before(j, i as int, reverse) ==> !(rect_contains(
                        #[trigger] bs[j],
                        p,
                    ) && cs[j])
            } else {
                forall|j: int|
                    0 <= j < bs.len() && visited_before(i as int, j, reverse) ==> !rect_contains(
                        #[trigger] bs[j],
                        p,
                    )
            }
        },
    }
}

/// Finds the child hit at `p`: children are scanned from the last to the
/// first when `reverse` (topmost first), else from the first.
pub fn hit_element(bounds: &Vec<Rect>, controls: &Vec<bool>, p: Point, control: bool, reverse: bool) -> (r: Option<usize>)
    requires
        bounds.len() == controls.len(),
    ensures
        hit_result(bounds@, controls@, p, control, reverse, r),
{
    let n = bounds.len();
    let mut found: Option<usize> = None;
    let mut k: usize = 0;
    while k < n
        invariant
            k <= n,
            n == bounds.len(),
            n == controls.len(),
            // every child visited so far that holds p neither ends a plain
            // scan nor wants control
            forall|j: int|
                0 <= j < n && (if reverse { j >= n - k } else { j < k }) && rect_contains(#[trigger] bounds@[j], p)
                    ==> control && !controls@[j],
            match found {
                None => forall|j: int|
                    0 <= j < n && (if reverse { j >= n - k } else { j < k }) ==> !rect_contains(#[trigger] bounds@[j], p),
                Some(i) => {
                    &&& 0 <= i < n
                    &&& (if reverse { i >= n - k } else { i < k })
                    &&& rect_contains(bounds@[i as int], p)
                    &&& forall|j: int|
                        0 <= j < n && (if reverse { j >= n - k } else { j < k }) && visited_before(i as int, j, reverse)
                            ==> !rect_contains(#[trigger] bounds@[j], p)
                },
            },
        decreases n - k,
    {
        let i = if reverse { n - 1 - k } else { k };
        if bounds[i].contains(p) {
            if !control || controls[i] {
                return Some(i);
            }
            found = Some(i);
        }
        k = k + 1;
    }
    found
}

/// Hit-testing in a layer: every child has the layer's bounds, and the
/// topmost child (the last) is tried first.
pub fn layer_hit(controls: &Vec<bool>, bounds: Rect, p: Point, control: bool) -> (r: Option<usize>)
    ensures
        hit_result(Seq::new(controls.len() as nat, |i: int| bounds), controls@, p, control, true, r),
{
    let mut bs: Vec<Rect> = Vec::new();
    let mut i: usize = 0;
    while i < controls.len()
        invariant
            i <= controls.len(),
            bs@ == Seq::new(i as nat, |j: int| bounds),
        decreases controls.len() - i,
    {
        bs.push(bounds);
        i = i + 1;
        assert(bs@ =~= Seq::new(i as nat, |j: int| bounds));
    }
    hit_element(&bs, controls, p, control, true)
}

/// Hit-test exclusivity in a layer: where all children share bounds that hold
/// `p`, the hit goes to the topmost child, the one with the highest index
/// (with `control`, provided that child wants control).
pub proof fn lemma_layer_hit_topmost(
    n: int,
    bounds: Rect,
    cs: Seq<bool>,
    p: Point,
    control: bool,
    r: Option<usize>,
)
    requires
        n >= 1,
        cs.len() == n,
        rect_contains(bounds, p),
        control ==> cs[n - 1],
        hit_result(Seq::new(n as nat, |i: int| bounds), cs, p, control, true, r),
    ensures
        r == Some((n - 1) as usize),
{
    let bs = Seq::new(n as nat, |i: int| bounds);
    assert(rect_contains(bs[n - 1], p));
    match r {
        None => {},
        Some(i) => {
            if (i as int) < n - 1 {
                assert(visited_before(n - 1, i as int, true));
                if control {
                    assert(rect_contains(bs[n - 1], p) && cs[n - 1]);
                }
            }
        },
    }
}

/// The limits of a layer: every child gets the layer's bounds, so on each
/// axis the layer needs the largest minimum and allows the smallest maximum
/// (raised to that minimum where they cross). No children allow any size.
pub open spec fn layer_limits_of(ls: Seq<ViewLimits>) -> ViewLimits {
    let n = ls.len() as int;
    let min_x = max_to(axis_mins(ls, Axis::X), n);
    let min_y = max_to(axis_mins(ls, Axis::Y), n);
    let max_x = least_to(axis_maxs(ls, Axis::X), n);
    let max_y = least_to(axis_maxs(ls, Axis::Y), n);
    ViewLimits {
        min: Point { x: min_x as i32, y: min_y as i32 },
        max: Point {
            x: (if max_x > min_x { max_x } else { min_x }) as i32,
            y: (if max_y > min_y { max_y } else { min_y }) as i32,
        },
    }
}

/// A layer over consistent children reports consistent limits.
pub proof fn lemma_layer_limits_wf(ls: Seq<ViewLimits>)
    requires
        all_wf(ls),
    ensures
        layer_limits_of(ls).wf(),
{
    let n = ls.len() as int;
    lemma_axis_extents_valid(ls, Axis::X);
    lemma_axis_extents_valid(ls, Axis::Y);
    lemma_max_to_bounds(axis_mins(ls, Axis::X), n);
    lemma_max_to_bounds(axis_mins(ls, Axis::Y), n);
    lemma_least_to_bounds(axis_maxs(ls, Axis::X), n);
    lemma_least_to_bounds(axis_maxs(ls, Axis::Y), n);
}

/// The limits of a layer whose children have limits `children`.
pub fn layer_limits(children: &Vec<ViewLimits>) -> (r: ViewLimits)
    requires
        all_wf(children@),
    ensures
        r == layer_limits_of(children@),
        r.wf(),
{
    proof {
        lemma_layer_limits_wf(children@);
    }
    let min_x = seq_max(&collect_mins(children, Axis::X));
    let min_y = seq_max(&collect_mins(children, Axis::Y));
    let max_x = seq_least(&collect_maxs(children, Axis::X));
    let max_y = seq_least(&collect_maxs(children, Axis::Y));
    ViewLimits {
        min: Point { x: min_x, y: min_y },
        max: Point {
            x: if max_x > min_x { max_x } else { min_x },
            y: if max_y > min_y { max_y } else { min_y },
        },
    }
}

/// The focus a composite takes on `req`, given which children want focus
/// and the index saved by the last `end_focus`.
pub open spec fn focus_after(
    wants: Seq<bool>,
    current: Option<usize>,
    saved: Option<usize>,
    req: FocusRequest,
) -> Option<usize> {
    match req {
        FocusRequest::FromTop => if exists|i: int| 0 <= i < wants.len() && #[trigger] wants[i] {
            Some(choose|i: usize| i < wants.len() && wants[i as int] && forall|j: int| 0 <= j < i ==> !#[trigger] wants[j])
        } else {
            current
        },
        FocusRequest::FromBottom => if exists|i: int| 0 <= i < wants.len() && #[trigger] wants[i] {
            Some(choose|i: usize| i < wants.len() && wants[i as int] && forall|j: int| i < j < wants.len() ==> !#[trigger] wants[j])
        } else {
            current
        },
        FocusRequest::RestorePrevious => match saved {
            Some(s) => if s < wants.len() && wants[s as int] {
                Some(s)
            } else {
                None
            },
            None => None,
        },
    }
}

/// The focus index, if any, names a child that wants focus.
pub open spec fn focus_valid(wants: Seq<bool>, focus: Option<usize>) -> bool {
    match focus {
        Some(i) => i < wants.len() && wants[i as int],
        None => true,
    }
}

/// The first child that wants focus, scanning from the first or (`from_bottom`)
/// from the last.
fn first_focusable(wants: &Vec<bool>, from_bottom: bool) -> (r: Option<usize>)
    ensures
        match r {
            Some(i) => {
                &&& i < wants.len()
                &&& wants@[i as int]
                &&& !from_bottom ==> forall|j: int| 0 <= j < i ==> !#[trigger] wants@[j]
                &&& from_bottom ==> forall|j: int| i < j < wants.len() ==> !#[trigger] wants@[j]
            },
            None => forall|j: int| 0 <= j < wants.len() ==> !#[trigger] wants@[j],
        },
{
    let n = wants.len();
    let mut k: usize = 0;
    while k < n
        invariant
            k <= n,
            n == wants.len(),
            forall|j: int| 0 <= j < n && (if from_bottom { j >= n - k } else { j < k }) ==> !#[trigger] wants@[j],
        decreases n - k,
    {
        let i = if from_bottom { n - 1 - k } else { k };
        if wants[i] {
            return Some(i);
        }
        k = k + 1;
    }
    None
}

/// An ordered collection of children with per-child cached bounds and the
/// focus sub-protocol.
pub struct Composite {
    children: Vec<Child>,
    cached_bounds: Vec<Rect>,
    focus_index: Option<usize>,
    saved_focus: Option<usize>,
    click_tracking: Option<usize>,
    cursor_tracking: Option<usize>,
    enabled: bool,
}

/// Where cursor-tracking events go: the child the cursor left, the child
/// it entered, and the child it still hovers over.
#[derive(Debug, Clone, Copy, PartialEq, Eq, Structural)]
pub struct CursorRoute {
    pub leave: Option<usize>,
    pub enter: Option<usize>,
    pub hover: Option<usize>,
}

/// The child followed next and the events to deliver, given the child
/// followed so far (`current`), the child now under the cursor and the composite's own status.
/// When the cursor leaves the composite the followed child is told so; when it
/// moves onto another child the old one gets `Leaving` and the new one
/// `Entering`; otherwise the followed child gets `Hovering`.
pub open spec fn cursor_route_of(
    current: Option<usize>,
    hit: Option<usize>,
    status: CursorTracking,
) -> (Option<usize>, CursorRoute) {
    if status == CursorTracking::Leaving {
        (None, CursorRoute { leave: current, enter: None, hover: None })
    } else if hit == current {
        (current, CursorRoute { leave: None, enter: None, hover: current })
    } else {
        (hit, CursorRoute { leave: current, enter: hit, hover: None })
    }
}

/// Routes one cursor event; see `cursor_route_of`.
pub fn cursor_route(current: Option<usize>, hit: Option<usize>, status: CursorTracking) -> (r: (
    Option<usize>,
    CursorRoute,
))
    ensures
        r == cursor_route_of(current, hit, status),
{
    if status == CursorTracking::Leaving {
        (None, CursorRoute { leave: current, enter: None, hover: None })
    } else if hit == current {
        (current, CursorRoute { leave: None, enter: None, hover: current })
    } else {
        (hit, CursorRoute { leave: current, enter: hit, hover: None })
    }
}

/// Whether each child wants focus.
pub open spec fn focus_flags(cs: Seq<Child>) -> Seq<bool> {
    Seq::new(cs.len(), |i: int| cs[i].wants_focus)
}

/// Whether each child wants control.
pub open spec fn control_flags(cs: Seq<Child>) -> Seq<bool> {
    Seq::new(cs.len(), |i: int| cs[i].wants_control)
}

/// The limits of the children.
pub open spec fn child_limits(cs: Seq<Child>) -> Seq<ViewLimits> {
    Seq::new(cs.len(), |i: int| cs[i].limits)
}

impl Composite {
    /// The children.
    pub closed spec fn view(&self) -> Seq<Child> {
        self.children@
    }

    /// The cached bounds of the children.
    pub closed spec fn bounds_view(&self) -> Seq<Rect> {
        self.cached_bounds@
    }

    pub closed spec fn focus_spec(&self) -> Option<usize> {
        self.focus_index
    }

    pub closed spec fn saved_spec(&self) -> Option<usize> {
        self.saved_focus
    }

    pub closed spec fn enabled_spec(&self) -> bool {
        self.enabled
    }

    /// The child that receives the rest of a click begun on it.
    pub closed spec fn click_spec(&self) -> Option<usize> {
        self.click_tracking
    }

    /// The child the cursor was last delivered to.
    pub closed spec fn cursor_spec(&self) -> Option<usize> {
        self.cursor_tracking
    }

    /// One cached rectangle per child, consistent limits, and a focus index
    /// that names a child wanting focus.
    pub closed spec fn wf(&self) -> bool {
        &&& self.cached_bounds.len() == self.children.len()
        &&& all_wf(child_limits(self.children@))
        &&& focus_valid(focus_flags(self.children@), self.focus_index)
    }

    /// An empty, enabled composite.
    pub fn new() -> (r: Composite)
        ensures
            r.wf(),
            r.view().len() == 0,
            r.focus_spec() == None::<usize>,
            r.saved_spec() == None::<usize>,
            r.enabled_spec(),
    {
        Composite {
            children: Vec::new(),
            cached_bounds: Vec::new(),
            focus_index: None,
            saved_focus: None,
            click_tracking: None,
            cursor_tracking: None,
            enabled: true,
        }
    }

    /// A composite over `children`, their bounds all zero.
    pub fn from_vec(children: Vec<Child>) -> (r: Composite)
        requires
            all_wf(child_limits(children@)),
        ensures
            r.wf(),
            r.view() == children@,
            r.bounds_view() == Seq::new(children.len() as nat, |i: int| zero_rect()),
            r.focus_spec() == None::<usize>,
            r.enabled_spec(),
    {
        let mut bs: Vec<Rect> = Vec::new();
        let mut i: usize = 0;
        while i < children.len()
            invariant
                i <= children.len(),
                bs@ == Seq::new(i as nat, |j: int| zero_rect()),
            decreases children.len() - i,
        {
            bs.push(Rect::zero());
            i = i + 1;
            assert(bs@ =~= Seq::new(i as nat, |j: int| zero_rect()));
        }
        Composite {
            children,
            cached_bounds: bs,
            focus_index: None,
            saved_focus: None,
            click_tracking: None,
            cursor_tracking: None,
            enabled: true,
        }
    }

    /// The number of children.
    pub fn len(&self) -> (r: usize)
        ensures
            r == self.view().len(),
    {
        self.children.len()
    }

    /// True when there are no children.
    pub fn is_empty(&self) -> (r: bool)
        ensures
            r == (self.view().len() == 0),
    {
        self.children.len() == 0
    }

    /// Child `index`, if there is one.
    pub fn at(&self, index: usize) -> (r: Option<Child>)
        ensures
            r == if index < self.view().len() { Some(self.view()[index as int]) } else { None::<Child> },
    {
        if index < self.children.len() {
            Some(self.children[index])
        } else {
            None
        }
    }

    /// Adds a child at the end, with zero bounds.
    pub fn push(&mut self, child: Child)
        requires
            old(self).wf(),
            child.limits.wf(),
        ensures
            final(self).wf(),
            final(self).view() == old(self).view().push(child),
            final(self).bounds_view() == old(self).bounds_view().push(zero_rect()),
            final(self).focus_spec() == old(self).focus_spec(),
            final(self).saved_spec() == old(self).saved_spec(),
            final(self).enabled_spec() == old(self).enabled_spec(),
    {
        self.children.push(child);
        self.cached_bounds.push(Rect::zero());
        assert(child_limits(self.children@) =~= child_limits(old(self).children@).push(child.limits));
        assert(focus_flags(self.children@) =~= focus_flags(old(self).children@).push(child.wants_focus));
    }

    /// Removes the last child; a focus index that named it is dropped.
    pub fn pop(&mut self) -> (r: Option<Child>)
        requires
            old(self).wf(),
        ensures
            final(self).wf(),
            old(self).view().len() == 0 ==> r == None::<Child> && final(self).view() == old(self).view(),
            old(self).view().len() > 0 ==> r == Some(old(self).view().last()) && final(self).view()
                == old(self).view().drop_last(),
            final(self).focus_spec() == match old(self).focus_spec() {
                Some(i) => if i + 1 < old(self).view().len() { Some(i) } else { None::<usize> },
                None => None::<usize>,
            },
    {
        if self.children.len() == 0 {
            return None;
        }
        self.cached_bounds.pop();
        let c = self.children.pop();
        if let Some(i) = self.focus_index {
            if i >= self.children.len() {
                self.focus_index = None;
            }
        }
        assert(child_limits(self.children@) =~= child_limits(old(self).children@).drop_last());
        assert(focus_flags(self.children@) =~= focus_flags(old(self).children@).drop_last());
        c
    }

    /// Removes every child and forgets the focus.
    pub fn clear(&mut self)
        ensures
            final(self).wf(),
            final(self).view().len() == 0,
            final(self).focus_spec() == None::<usize>,
            final(self).saved_spec() == None::<usize>,
            final(self).enabled_spec() == old(self).enabled_spec(),
    {
        self.children = Vec::new();
        self.cached_bounds = Vec::new();
        self.focus_index = None;
        self.saved_focus = None;
        assert(child_limits(self.children@) =~= Seq::<ViewLimits>::empty());
    }

    /// The index of the focused child.
    pub fn focus_index(&self) -> (r: Option<usize>)
        ensures
            r == self.focus_spec(),
    {
        self.focus_index
    }

    /// Focuses child `index` where it wants focus; any other request clears
    /// the focus.
    pub fn set_focus(&mut self, index: Option<usize>)
        requires
            old(self).wf(),
        ensures
            final(self).wf(),
            final(self).view() == old(self).view(),
            final(self).saved_spec() == old(self).saved_spec(),
            final(self).focus_spec() == if focus_valid(focus_flags(old(self).view()), index) {
                index
            } else {
                None::<usize>
            },
    {
        self.focus_index = match index {
            Some(i) => if i < self.children.len() && self.children[i].wants_focus {
                Some(i)
            } else {
                None
            },
            None => None,
        };
    }

    /// True when some child wants focus.
    pub fn wants_focus(&self) -> (r: bool)
        ensures
            r == exists|i: int| 0 <= i < self.view().len() && #[trigger] self.view()[i].wants_focus,
    {
        let mut i: usize = 0;
        while i < self.children.len()
            invariant
                i <= self.children.len(),
                forall|j: int| 0 <= j < i ==> !(#[trigger] self.children@[j]).wants_focus,
            decreases self.children.len() - i,
        {
            if self.children[i].wants_focus {
                assert(self.view()[i as int].wants_focus);
                return true;
            }
            i = i + 1;
        }
        false
    }

    /// True when some child wants control.
    pub fn wants_control(&self) -> (r: bool)
        ensures
            r == exists|i: int| 0 <= i < self.view().len() && #[trigger] self.view()[i].wants_control,
    {
        let mut i: usize = 0;
        while i < self.children.len()
            invariant
                i <= self.children.len(),
                forall|j: int| 0 <= j < i ==> !(#[trigger] self.children@[j]).wants_control,
            decreases self.children.len() - i,
        {
            if self.children[i].wants_control {
                assert(self.view()[i as int].wants_control);
                return true;
            }
            i = i + 1;
        }
        false
    }

    /// Sets the composite's own enabled state.
    pub fn enable(&mut self, state: bool)
        ensures
            final(self).enabled_spec() == state,
            final(self).view() == old(self).view(),
            final(self).bounds_view() == old(self).bounds_view(),
            final(self).focus_spec() == old(self).focus_spec(),
            final(self).saved_spec() == old(self).saved_spec(),
            old(self).wf() ==> final(self).wf(),
    {
        self.enabled = state;
    }

    /// The composite's own enabled state.
    pub fn is_enabled(&self) -> (r: bool)
        ensures
            r == self.enabled_spec(),
    {
        self.enabled
    }

    /// Takes focus: the first child (`FromTop`) or the last (`FromBottom`)
    /// that wants focus, or the index saved by the last `end_focus`
    /// (`RestorePrevious`) while that child still wants focus.
    pub fn begin_focus(&mut self, req: FocusRequest)
        requires
            old(self).wf(),
        ensures
            final(self).wf(),
            final(self).view() == old(self).view(),
            final(self).bounds_view() == old(self).bounds_view(),
            final(self).saved_spec() == old(self).saved_spec(),
            final(self).enabled_spec() == old(self).enabled_spec(),
            final(self).focus_spec() == focus_after(
                focus_flags(old(self).view()),
                old(self).focus_spec(),
                old(self).saved_spec(),
                req,
            ),
    {
        let ghost wants = focus_flags(self.children@);
        let mut flags: Vec<bool> = Vec::new();
        let mut i: usize = 0;
        while i < self.children.len()
            invariant
                i <= self.children.len(),
                wants == focus_flags(self.children@),
                flags@ == wants.take(i as int),
            decreases self.children.len() - i,
        {
            flags.push(self.children[i].wants_focus);
            i = i + 1;
            assert(flags@ =~= wants.take(i as int));
        }
        assert(flags@ =~= wants);
        match req {
            FocusRequest::FromTop => {
                let f = first_focusable(&flags, false);
                if let Some(i) = f {
                    self.focus_index = Some(i);
                    proof {
                        let c = choose|k: usize| k < wants.len() && wants[k as int] && forall|j: int| 0 <= j < k ==> !#[trigger] wants[j];
                        assert(wants[i as int]);
                        if c < i {
                            assert(!wants[c as int]);
                        } else if c > i {
                            assert(!wants[i as int]);
                        }
                    }
                }
            },
            FocusRequest::FromBottom => {
                let f = first_focusable(&flags, true);
                if let Some(i) = f {
                    self.focus_index = Some(i);
                    proof {
                        let c = choose|k: usize| k < wants.len() && wants[k as int] && forall|j: int| k < j < wants.len() ==> !#[trigger] wants[j];
                        assert(wants[i as int]);
                        if c < i {
                            assert(!wants[i as int]);
                        } else if c > i {
                            assert(!wants[c as int]);
                        }
                    }
                }
            },
            FocusRequest::RestorePrevious => {
                self.focus_index = match self.saved_focus {
                    Some(s) => if s < self.children.len() && self.children[s].wants_focus {
                        Some(s)
                    } else {
                        None
                    },
                    None => None,
                };
            },
        }
    }

    /// Gives up focus, saving the focused index for a later
    /// `RestorePrevious`. Always succeeds.
    pub fn end_focus(&mut self) -> (r: bool)
        requires
            old(self).wf(),
        ensures
            r,
            final(self).wf(),
            final(self).view() == old(self).view(),
            final(self).bounds_view() == old(self).bounds_view(),
            final(self).enabled_spec() == old(self).enabled_spec(),
            final(self).saved_spec() == old(self).focus_spec(),
            final(self).focus_spec() == None::<usize>,
    {
        self.saved_focus = self.focus_index;
        self.focus_index = None;
        true
    }

    /// The focused child, if any.
    pub fn focus(&self) -> (r: Option<Child>)
        requires
            self.wf(),
        ensures
            r == match self.focus_spec() {
                Some(i) => Some(self.view()[i as int]),
                None => None::<Child>,
            },
    {
        match self.focus_index {
            Some(i) => Some(self.children[i]),
            None => None,
        }
    }

    /// The cached bounds of child `index`; the zero rectangle out of range.
    pub fn bounds_of(&self, index: usize) -> (r: Rect)
        requires
            self.wf(),
        ensures
            r == if index < self.view().len() { self.bounds_view()[index as int] } else { zero_rect() },
    {
        if index < self.cached_bounds.len() {
            self.cached_bounds[index]
        } else {
            Rect::zero()
        }
    }

    /// Records where child `index` lies; out of range, nothing changes.
    pub fn set_bounds(&mut self, index: usize, bounds: Rect)
        requires
            old(self).wf(),
        ensures
            final(self).wf(),
            final(self).view() == old(self).view(),
            final(self).focus_spec() == old(self).focus_spec(),
            final(self).saved_spec() == old(self).saved_spec(),
            final(self).enabled_spec() == old(self).enabled_spec(),
            final(self).bounds_view() == if index < old(self).view().len() {
                old(self).bounds_view().update(index as int, bounds)
            } else {
                old(self).bounds_view()
            },
    {
        if index < self.cached_bounds.len() {
            self.cached_bounds.set(index, bounds);
        }
    }

    /// The child hit at `p`, by the cached bounds, scanning the children in
    /// index order, or from the last when `reverse`.
    pub fn hit_element(&self, p: Point, control: bool, reverse: bool) -> (r: Option<usize>)
        requires
            self.wf(),
        ensures
            hit_result(self.bounds_view(), control_flags(self.view()), p, control, reverse, r),
    {
        let mut flags: Vec<bool> = Vec::new();
        let mut i: usize = 0;
        while i < self.children.len()
            invariant
                i <= self.children.len(),
                flags@ == control_flags(self.children@).take(i as int),
            decreases self.children.len() - i,
        {
            flags.push(self.children[i].wants_control);
            i = i + 1;
            assert(flags@ =~= control_flags(self.children@).take(i as int));
        }
        assert(flags@ =~= control_flags(self.children@));
        hit_element(&self.cached_bounds, &flags, p, control, reverse)
    }

    /// Routes a mouse-button event at `p`: a press goes to the child hit
    /// there (preferring one that wants control) and starts tracking it; the
    /// release goes to that child and ends the tracking.
    pub fn click_route(&mut self, down: bool, p: Point) -> (r: Option<usize>)
        requires
            old(self).wf(),
        ensures
            final(self).wf(),
            final(self).view() == old(self).view(),
            final(self).bounds_view() == old(self).bounds_view(),
            final(self).focus_spec() == old(self).focus_spec(),
            final(self).saved_spec() == old(self).saved_spec(),
            final(self).cursor_spec() == old(self).cursor_spec(),
            down ==> hit_result(old(self).bounds_view(), control_flags(old(self).view()), p, true, false, r)
                && final(self).click_spec() == r,
            !down ==> r == old(self).click_spec() && final(self).click_spec() is None,
    {
        if down {
            let h = self.hit_element(p, true, false);
            self.click_tracking = h;
            h
        } else {
            let t = self.click_tracking;
            self.click_tracking = None;
            t
        }
    }

    /// The child a drag goes to: the one the current click began on.
    pub fn drag_route(&self) -> (r: Option<usize>)
        ensures
            r == self.click_spec(),
    {
        self.click_tracking
    }

    /// Routes a cursor event at `p`, tracking the child under the cursor.
    pub fn cursor(&mut self, p: Point, status: CursorTracking) -> (r: CursorRoute)
        requires
            old(self).wf(),
        ensures
            final(self).wf(),
            final(self).view() == old(self).view(),
            final(self).bounds_view() == old(self).bounds_view(),
            final(self).focus_spec() == old(self).focus_spec(),
            final(self).click_spec() == old(self).click_spec(),
            exists|h: Option<usize>|
                hit_result(old(self).bounds_view(), control_flags(old(self).view()), p, false, false, h)
                    && (final(self).cursor_spec(), r) == cursor_route_of(old(self).cursor_spec(), h, status),
    {
        let h = self.hit_element(p, false, false);
        let (next, route) = cursor_route(self.cursor_tracking, h, status);
        self.cursor_tracking = next;
        route
    }

    /// Forgets the click and cursor tracking.
    pub fn reset(&mut self)
        ensures
            final(self).click_spec() is None,
            final(self).cursor_spec() is None,
            final(self).view() == old(self).view(),
            final(self).bounds_view() == old(self).bounds_view(),
            final(self).focus_spec() == old(self).focus_spec(),
            final(self).saved_spec() == old(self).saved_spec(),
            final(self).enabled_spec() == old(self).enabled_spec(),
            old(self).wf() ==> final(self).wf(),
    {
        self.click_tracking = None;
        self.cursor_tracking = None;
    }

    /// The children whose cached bounds meet `view`, in the order they are
    /// visited: index order, or from the last when `reverse`.
    pub fn visible_children(&self, view: Rect, reverse: bool) -> (r: Vec<usize>)
        requires
            self.wf(),
        ensures
            r@ == visible_upto(self.bounds_view(), view, reverse, self.bounds_view().len() as int),
    {
        let n = self.cached_bounds.len();
        let mut out: Vec<usize> = Vec::new();
        let mut k: usize = 0;
        while k < n
            invariant
                k <= n,
                n == self.cached_bounds.len(),
                out@ == visible_upto(self.cached_bounds@, view, reverse, k as int),
            decreases n - k,
        {
            let i = if reverse { n - 1 - k } else { k };
            if intersects(&self.cached_bounds[i], &view) {
                out.push(i);
            }
            k = k + 1;
        }
        out
    }

    /// The limits of a stack of the children: the largest minimum and the
    /// largest maximum on each axis, zero for none.
    pub fn limits(&self) -> (r: ViewLimits)
        requires
            self.wf(),
        ensures
            r == stack_limits_of(child_limits(self.view())),
            r.wf(),
            forall|i: int|
                0 <= i < self.view().len() ==> r.min.x >= (#[trigger] self.view()[i]).limits.min.x
                    && r.min.y >= self.view()[i].limits.min.y && r.max.x >= self.view()[i].limits.max.x
                    && r.max.y >= self.view()[i].limits.max.y,
    {
        let ghost ls = child_limits(self.children@);
        let mut v: Vec<ViewLimits> = Vec::new();
        let mut i: usize = 0;
        while i < self.children.len()
            invariant
                i <= self.children.len(),
                ls == child_limits(self.children@),
                v@ == ls.take(i as int),
            decreases self.children.len() - i,
        {
            v.push(self.children[i].limits);
            i = i + 1;
            assert(v@ =~= ls.take(i as int));
        }
        assert(v@ =~= ls);
        proof {
            lemma_stack_limits(ls);
            assert forall|j: int| 0 <= j < self.view().len() implies (#[trigger] self.view()[j]).limits == ls[j] by {}
        }
        ViewLimits {
            min: Point { x: seq_max(&collect_mins(&v, Axis::X)), y: seq_max(&collect_mins(&v, Axis::Y)) },
            max: Point { x: seq_max(&collect_maxs(&v, Axis::X)), y: seq_max(&collect_maxs(&v, Axis::Y)) },
        }
    }
}

/// The children among the first `k` visited (in index order, or from the
/// last when `reverse`) whose rectangles in `bs` meet `view`, in visit order.
pub open spec fn visible_upto(bs: Seq<Rect>, view: Rect, reverse: bool, k: int) -> Seq<usize>
    decreases k,
{
    if k <= 0 || k > bs.len() {
        Seq::empty()
    } else {
        let i = if reverse { bs.len() - k } else { k - 1 };
        let before = visible_upto(bs, view, reverse, k - 1);
        if rects_intersect(bs[i], view) {
            before.push(i as usize)
        } else {
            before
        }
    }
}

/// The limits of a stack over children with limits `ls`: on each axis the
/// largest minimum and the largest maximum, zero for no children.
pub open spec fn stack_limits_of(ls: Seq<ViewLimits>) -> ViewLimits {
    let n = ls.len() as int;
    ViewLimits {
        min: Point {
            x: max_to(axis_mins(ls, Axis::X), n) as i32,
            y: max_to(axis_mins(ls, Axis::Y), n) as i32,
        },
        max: Point {
            x: max_to(axis_maxs(ls, Axis::X), n) as i32,
            y: max_to(axis_maxs(ls, Axis::Y), n) as i32,
        },
    }
}

proof fn lemma_max_to_ordered(lo: Seq<i32>, hi: Seq<i32>, n: int)
    requires
        lo.len() == hi.len(),
        0 <= n <= lo.len(),
        forall|i: int| 0 <= i < lo.len() ==> lo[i] <= hi[i],
    ensures
        max_to(lo, n) <= max_to(hi, n),
    decreases n,
{
    if n > 0 {
        lemma_max_to_ordered(lo, hi, n - 1);
    }
}

/// A stack over consistent children reports consistent limits, at least as
/// large as each child's.
pub proof fn lemma_stack_limits(ls: Seq<ViewLimits>)
    requires
        all_wf(ls),
    ensures
        stack_limits_of(ls).wf(),
        forall|i: int|
            0 <= i < ls.len() ==> stack_limits_of(ls).min.x >= (#[trigger] ls[i]).min.x
                && stack_limits_of(ls).min.y >= ls[i].min.y && stack_limits_of(ls).max.x >= ls[i].max.x
                && stack_limits_of(ls).max.y >= ls[i].max.y,
{
    let n = ls.len() as int;
    lemma_axis_extents_valid(ls, Axis::X);
    lemma_axis_extents_valid(ls, Axis::Y);
    lemma_max_to_bounds(axis_mins(ls, Axis::X), n);
    lemma_max_to_bounds(axis_mins(ls, Axis::Y), n);
    lemma_max_to_bounds(axis_maxs(ls, Axis::X), n);
    lemma_max_to_bounds(axis_maxs(ls, Axis::Y), n);
    lemma_max_to_ordered(axis_mins(ls, Axis::X), axis_maxs(ls, Axis::X), n);
    lemma_max_to_ordered(axis_mins(ls, Axis::Y), axis_maxs(ls, Axis::Y), n);
    assert forall|i: int| 0 <= i < ls.len() implies stack_limits_of(ls).min.x >= (#[trigger] ls[i]).min.x
        && stack_limits_of(ls).min.y >= ls[i].min.y && stack_limits_of(ls).max.x >= ls[i].max.x
        && stack_limits_of(ls).max.y >= ls[i].max.y by {
        assert(axis_mins(ls, Axis::X)[i] == ls[i].min.x);
        assert(axis_mins(ls, Axis::Y)[i] == ls[i].min.y);
        assert(axis_maxs(ls, Axis::X)[i] == ls[i].max.x);
        assert(axis_maxs(ls, Axis::Y)[i] == ls[i].max.y);
    }
}

/// Focus traversal is deterministic: `FromTop` lands on the first child that
/// wants focus, `FromBottom` on the last, and `end_focus` followed by
/// `RestorePrevious` returns to the child that had focus, while it still
/// wants focus.
pub proof fn lemma_focus_traversal(wants: Seq<bool>, current: Option<usize>, saved: Option<usize>, i: usize)
    requires
        i < wants.len(),
        wants[i as int],
    ensures
        (forall|j: int| 0 <= j < i ==> !#[trigger] wants[j]) ==> focus_after(wants, current, saved, FocusRequest::FromTop)
            == Some(i),
        (forall|j: int| i < j < wants.len() ==> !#[trigger] wants[j]) ==> focus_after(wants, current, saved, FocusRequest::FromBottom)
            == Some(i),
        focus_after(wants, None, Some(i), FocusRequest::RestorePrevious) == Some(i),
{
    if forall|j: int| 0 <= j < i ==> !#[trigger] wants[j] {
        assert(wants[i as int]);
        let c = choose|k: usize| k < wants.len() && wants[k as int] && forall|j: int| 0 <= j < k ==> !#[trigger] wants[j];
        if c < i {
            assert(!wants[c as int]);
        } else if c > i {
            assert(!wants[i as int]);
        }
    }
    if forall|j: int| i < j < wants.len() ==> !#[trigger] wants[j] {
        assert(wants[i as int]);
        let c = choose|k: usize| k < wants.len() && wants[k as int] && forall|j: int| k < j < wants.len() ==> !#[trigger] wants[j];
        if c < i {
            assert(!wants[i as int]);
        } else if c > i {
            assert(!wants[c as int]);
        }
    }
}

/// `end_focus` followed by `begin_focus(RestorePrevious)` returns to the
/// focus held before, as long as the children still want focus as they did.
pub proof fn lemma_end_then_restore(wants: Seq<bool>, focus: Option<usize>)
    requires
        focus_valid(wants, focus),
    ensures
        focus_after(wants, None, focus, FocusRequest::RestorePrevious) == focus,
{
}

/// A stack of children of which exactly one, the active one, is shown and
/// receives input; the others are neither drawn, hit nor focused.
pub struct Deck {
    children: Vec<Child>,
    active: usize,
}

impl Deck {
    /// The children.
    pub closed spec fn view(&self) -> Seq<Child> {
        self.children@
    }

    pub closed spec fn active_spec(&self) -> int {
        self.active as int
    }

    /// Consistent limits for every child.
    pub closed spec fn wf(&self) -> bool {
        all_wf(child_limits(self.children@))
    }

    /// A deck over `children`, showing the first.
    pub fn from_vec(children: Vec<Child>) -> (r: Deck)
        requires
            all_wf(child_limits(children@)),
        ensures
            r.wf(),
            r.view() == children@,
            r.active_spec() == 0,
    {
        Deck { children, active: 0 }
    }

    /// Shows child `index`; out of range, nothing changes.
    pub fn select(&mut self, index: usize)
        ensures
            old(self).wf() ==> final(self).wf(),
            final(self).view() == old(self).view(),
            final(self).active_spec() == if index < old(self).view().len() {
                index as int
            } else {
                old(self).active_spec()
            },
    {
        if index < self.children.len() {
            self.active = index;
        }
    }

    /// The index of the child shown.
    pub fn active(&self) -> (r: usize)
        ensures
            r == self.active_spec(),
    {
        self.active
    }

    /// The limits of the child shown; without one, any size.
    pub fn limits(&self) -> (r: ViewLimits)
        requires
            self.wf(),
        ensures
            r.wf(),
            r == if self.active_spec() < self.view().len() {
                self.view()[self.active_spec()].limits
            } else {
                crate::limits::full_limits()
            },
    {
        if self.active < self.children.len() {
            assert(child_limits(self.children@)[self.active as int] == self.children@[self.active as int].limits);
            self.children[self.active].limits
        } else {
            ViewLimits::full()
        }
    }

    /// The child hit at `p` when the deck occupies `bounds`: the child shown,
    /// where `p` lies in the bounds, and none other.
    pub fn hit(&self, bounds: Rect, p: Point) -> (r: Option<usize>)
        ensures
            r == if self.active_spec() < self.view().len() && rect_contains(bounds, p) {
                Some(self.active_spec() as usize)
            } else {
                None::<usize>
            },
    {
        if self.active < self.children.len() && bounds.contains(p) {
            Some(self.active)
        } else {
            None
        }
    }

    /// True when the child shown wants focus.
    pub fn wants_focus(&self) -> (r: bool)
        ensures
            r == (self.active_spec() < self.view().len() && self.view()[self.active_spec()].wants_focus),
    {
        self.active < self.children.len() && self.children[self.active].wants_focus
    }
}

} // verus!
