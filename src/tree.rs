//! Element trees: widgets nested in tiles, grids, layers, decks and proxies. Size
//! negotiation, hit-testing and focus traversal recurse through the tree.
use vstd::prelude::*;
use crate::composite::{Child, layer_limits_of, layer_limits};
use crate::geometry::{Axis, Point, Rect, rect_contains};
use crate::limits::{FULL_EXTENT, ViewLimits, ViewStretch, full_limits};
use crate::proxy::Proxy;
use crate::grid::{grid_limits_of, grid_limits, lemma_grid_limits_wf, grid_rects, grid_child_rects};
use crate::tile::{tile_limits_of, tile_limits, lemma_tile_limits_wf, tile_rects, tile_child_rects};

verus! {

/// A node of the UI tree. A composite owns its children; a proxy owns its
/// single subject.
pub enum Element {
    /// A widget, as the layout and dispatch core sees it.
    Leaf(Child),
    /// Children stacked along an axis.
    Tile(Axis, Vec<Element>),
    /// Children stacked on top of each other, all with the layer's bounds.
    Layer(Vec<Element>),
    /// Children in row-major order over the given number of columns, with
    /// the given gaps between columns and between rows.
    Grid(usize, i32, i32, Vec<Element>),
    /// Children of which only the one at the given index is active.
    Deck(usize, Vec<Element>),
    /// A subject wrapped by a structural proxy.
    Proxy(Proxy, Box<Element>),
}

/// The limits of each element of `s`.
pub open spec fn limits_all(s: Seq<Element>) -> Seq<ViewLimits>
    decreases s,
{
    if s.len() == 0 {
        Seq::empty()
    } else {
        limits_all(s.subrange(0, s.len() - 1)).push(limits_of(s[s.len() - 1]))
    }
}

/// The limits an element reports.
pub open spec fn limits_of(e: Element) -> ViewLimits
    decreases e,
{
    match e {
        Element::Leaf(c) => c.limits,
        Element::Tile(a, cs) => tile_limits_of(limits_all(cs@), a),
        Element::Layer(cs) => layer_limits_of(limits_all(cs@)),
        Element::Grid(n, hg, vg, cs) => grid_limits_of(limits_all(cs@), n as int, hg as int, vg as int),
        Element::Deck(k, cs) => if k < cs.len() {
            limits_of(cs@[k as int])
        } else {
            full_limits()
        },
        Element::Proxy(p, sub) => p.limits_spec(limits_of(*sub)),
    }
}

/// The largest stretch on each axis among `ss`, zero for none.
pub open spec fn stretch_max(ss: Seq<ViewStretch>) -> ViewStretch
    decreases ss.len(),
{
    if ss.len() == 0 {
        ViewStretch { x: 0, y: 0 }
    } else {
        let r = stretch_max(ss.drop_last());
        let l = ss.last();
        ViewStretch { x: if l.x > r.x { l.x } else { r.x }, y: if l.y > r.y { l.y } else { r.y } }
    }
}

/// The stretch an element reports: a widget's own, a proxy's override or
/// its subject's, the largest of its children's for a grid, and an equal
/// share for the other composites.
pub open spec fn stretch_of(e: Element) -> ViewStretch
    decreases e,
{
    match e {
        Element::Leaf(c) => c.stretch,
        Element::Grid(_, _, _, cs) => stretch_max(stretches_all(cs@)),
        Element::Proxy(p, sub) => match p {
            Proxy::Stretch(s) => s,
            _ => stretch_of(*sub),
        },
        _ => ViewStretch { x: 1, y: 1 },
    }
}

/// Every widget reports consistent limits and every proxy has parameters
/// in range.
pub open spec fn tree_wf(e: Element) -> bool
    decreases e,
{
    match e {
        Element::Leaf(c) => c.limits.wf(),
        Element::Tile(_, cs) => forall|i: int| 0 <= i < cs.len() ==> tree_wf(#[trigger] cs@[i]),
        Element::Layer(cs) => forall|i: int| 0 <= i < cs.len() ==> tree_wf(#[trigger] cs@[i]),
        Element::Grid(n, hg, vg, cs) => n >= 1 && 0 <= hg <= FULL_EXTENT && 0 <= vg <= FULL_EXTENT && forall|i: int|
            0 <= i < cs.len() ==> tree_wf(#[trigger] cs@[i]),
        Element::Deck(_, cs) => forall|i: int| 0 <= i < cs.len() ==> tree_wf(#[trigger] cs@[i]),
        Element::Proxy(p, sub) => p.wf() && tree_wf(*sub),
    }
}

/// `cs` are the children of the tile, layer or grid `parent`.
pub open spec fn children_of(parent: Element, cs: Vec<Element>) -> bool {
    match parent {
        Element::Tile(_, v) => v == cs,
        Element::Layer(v) => v == cs,
        Element::Grid(_, _, _, v) => v == cs,
        _ => false,
    }
}

/// `limits_all` lists the limits of the elements one for one.
pub proof fn lemma_limits_all(s: Seq<Element>)
    ensures
        limits_all(s).len() == s.len(),
        forall|i: int| 0 <= i < s.len() ==> (#[trigger] limits_all(s)[i]) == limits_of(s[i]),
    decreases s.len(),
{
    if s.len() > 0 {
        let t = s.subrange(0, s.len() - 1);
        lemma_limits_all(t);
        assert forall|i: int| 0 <= i < s.len() implies (#[trigger] limits_all(s)[i]) == limits_of(s[i]) by {
            if i < s.len() - 1 {
                assert(t[i] == s[i]);
            }
        }
    }
}

/// Limits consistency: every element of a well-formed tree reports
/// `min <= max` on both axes.
pub proof fn lemma_tree_limits_wf(e: Element)
    requires
        tree_wf(e),
    ensures
        limits_of(e).wf(),
    decreases e,
{
    match e {
        Element::Leaf(c) => {},
        Element::Tile(a, cs) => {
            let ls = limits_all(cs@);
            lemma_limits_all(cs@);
            assert forall|i: int| 0 <= i < ls.len() implies (#[trigger] ls[i]).wf() by {
                lemma_tree_limits_wf(cs@[i]);
            }
            lemma_tile_limits_wf(ls, a);
        },
        Element::Layer(cs) => {
            let ls = limits_all(cs@);
            lemma_limits_all(cs@);
            assert forall|i: int| 0 <= i < ls.len() implies (#[trigger] ls[i]).wf() by {
                lemma_tree_limits_wf(cs@[i]);
            }
            crate::composite::lemma_layer_limits_wf(ls);
        },
        Element::Grid(n, hg, vg, cs) => {
            let ls = limits_all(cs@);
            lemma_limits_all(cs@);
            assert forall|i: int| 0 <= i < ls.len() implies (#[trigger] ls[i]).wf() by {
                lemma_tree_limits_wf(cs@[i]);
            }
            lemma_grid_limits_wf(ls, n as int, hg as int, vg as int);
        },
        Element::Deck(k, cs) => {
            if k < cs.len() {
                lemma_tree_limits_wf(cs@[k as int]);
            }
        },
        Element::Proxy(p, sub) => {
            lemma_tree_limits_wf(*sub);
            crate::proxy::lemma_proxy_limits_wf(p, limits_of(*sub));
        },
    }
}

impl Element {
    /// The limits the element reports.
    pub fn limits(&self) -> (r: ViewLimits)
        requires
            tree_wf(*self),
        ensures
            r == limits_of(*self),
            r.wf(),
        decreases self,
    {
        proof {
            lemma_tree_limits_wf(*self);
        }
        match self {
            Element::Leaf(c) => c.limits,
            Element::Tile(a, cs) => {
                let ls = Element::limits_of_children(self, cs);
                tile_limits(&ls, *a)
            },
            Element::Layer(cs) => {
                let ls = Element::limits_of_children(self, cs);
                layer_limits(&ls)
            },
            Element::Grid(n, hg, vg, cs) => {
                let ls = Element::limits_of_children(self, cs);
                grid_limits(&ls, *n, *hg, *vg)
            },
            Element::Deck(k, cs) => {
                if *k < cs.len() {
                    assert(tree_wf(cs@[*k as int]));
                    cs[*k].limits()
                } else {
                    ViewLimits::full()
                }
            },
            Element::Proxy(p, sub) => {
                let l = sub.limits();
                p.limits(l)
            },
        }
    }

    fn limits_of_children(parent: &Element, cs: &Vec<Element>) -> (r: Vec<ViewLimits>)
        requires
            tree_wf(*parent),
            children_of(*parent, *cs),
        ensures
            r@ == limits_all(cs@),
            crate::limits::all_wf(r@),
        decreases parent, 0nat,
    {
        proof {
            lemma_limits_all(cs@);
        }
        let mut ls: Vec<ViewLimits> = Vec::new();
        let mut i: usize = 0;
        while i < cs.len()
            invariant
                i <= cs.len(),
                tree_wf(*parent),
                children_of(*parent, *cs),
                ls.len() == i,
                forall|j: int| 0 <= j < i ==> ls@[j] == limits_of(cs@[j]) && (#[trigger] ls@[j]).wf(),
            decreases cs.len() - i,
        {
            assert(tree_wf(cs@[i as int]));
            proof {
                assert(decreases_to!(*parent => *cs));
                assert(decreases_to!(*cs => cs@));
                assert(decreases_to!(cs@ => cs@[i as int]));
            }
            let l = cs[i].limits();
            ls.push(l);
            i = i + 1;
        }
        assert(ls@ =~= limits_all(cs@));
        ls
    }

    /// The stretch the element reports.
    pub fn stretch(&self) -> (r: ViewStretch)
        ensures
            r == stretch_of(*self),
        decreases self, 1nat,
    {
        match self {
            Element::Leaf(c) => c.stretch,
            Element::Grid(_, _, _, cs) => {
                let ss = Element::stretches_of_children(self, cs);
                let mut x: u32 = 0;
                let mut y: u32 = 0;
                let mut i: usize = 0;
                while i < ss.len()
                    invariant
                        i <= ss.len(),
                        (ViewStretch { x, y }) == stretch_max(ss@.take(i as int)),
                    decreases ss.len() - i,
                {
                    assert(ss@.take(i as int + 1).drop_last() =~= ss@.take(i as int));
                    if ss[i].x > x {
                        x = ss[i].x;
                    }
                    if ss[i].y > y {
                        y = ss[i].y;
                    }
                    i = i + 1;
                }
                assert(ss@.take(ss.len() as int) =~= ss@);
                ViewStretch { x, y }
            },
            Element::Proxy(p, sub) => match p {
                Proxy::Stretch(s) => *s,
                _ => sub.stretch(),
            },
            _ => ViewStretch { x: 1, y: 1 },
        }
    }
}

/// The stretch of each element of `s`.
pub open spec fn stretches_all(s: Seq<Element>) -> Seq<ViewStretch>
    decreases s,
{
    if s.len() == 0 {
        Seq::empty()
    } else {
        stretches_all(s.subrange(0, s.len() - 1)).push(stretch_of(s[s.len() - 1]))
    }
}

/// `stretches_all` lists the stretches of the elements one for one.
pub proof fn lemma_stretches_all(s: Seq<Element>)
    ensures
        stretches_all(s).len() == s.len(),
        forall|i: int| 0 <= i < s.len() ==> (#[trigger] stretches_all(s)[i]) == stretch_of(s[i]),
    decreases s.len(),
{
    if s.len() > 0 {
        let t = s.subrange(0, s.len() - 1);
        lemma_stretches_all(t);
        assert forall|i: int| 0 <= i < s.len() implies (#[trigger] stretches_all(s)[i]) == stretch_of(s[i]) by {
            if i < s.len() - 1 {
                assert(t[i] == s[i]);
            }
        }
    }
}

/// Bounds an element can be hit-tested in: ordered edges in the coordinate
/// range.
pub open spec fn usable(b: Rect) -> bool {
    b.in_range() && b.left <= b.right && b.top <= b.bottom
}

/// `n` copies of `b`: the bounds a layer hands its children.
pub open spec fn same_rects(n: nat, b: Rect) -> Seq<Rect> {
    Seq::new(n, |i: int| b)
}

/// The hit among the children `cs` with rectangles `rects`, scanning from
/// position `k` on, in index order or (`reverse`) from the last child: the
/// first child whose rectangle holds `p` and which is hit itself, with its
/// index put in front of the path found in it.
pub open spec fn hit_scan(cs: Seq<Element>, rects: Seq<Rect>, p: Point, k: int, reverse: bool) -> Option<Seq<usize>>
    decreases cs, cs.len() - k,
{
    if k < 0 || k >= cs.len() || rects.len() != cs.len() {
        None
    } else {
        let i = if reverse { cs.len() - 1 - k } else { k };
        if rect_contains(rects[i], p) && hit_path_of(cs[i], rects[i], p) is Some {
            Some(seq![i as usize] + hit_path_of(cs[i], rects[i], p)->Some_0)
        } else {
            hit_scan(cs, rects, p, k + 1, reverse)
        }
    }
}

/// The widget hit at `p` when `e` occupies `b`, as the path of child
/// indices leading to it (proxies add no index). Only points inside the
/// element's bounds hit; a tile or grid tries its children in index order, a layer
/// from the topmost, a deck only its active child.
pub open spec fn hit_path_of(e: Element, b: Rect, p: Point) -> Option<Seq<usize>>
    decreases e, 0int,
{
    if !usable(b) || !rect_contains(b, p) {
        None
    } else {
        match e {
            Element::Leaf(_) => Some(Seq::empty()),
            Element::Tile(a, cs) => hit_scan(cs@, tile_rects(limits_all(cs@), stretches_all(cs@), a, b), p, 0, false),
            Element::Layer(cs) => hit_scan(cs@, same_rects(cs.len() as nat, b), p, 0, true),
            Element::Grid(n, hg, vg, cs) => hit_scan(
                cs@,
                grid_rects(limits_all(cs@), stretches_all(cs@), n as int, hg as int, vg as int, b),
                p,
                0,
                false,
            ),
            Element::Deck(k, cs) => if k < cs.len() {
                match hit_path_of(cs@[k as int], b, p) {
                    Some(q) => Some(seq![k] + q),
                    None => None,
                }
            } else {
                None
            },
            Element::Proxy(pr, sub) => hit_path_of(*sub, pr.bounds_spec(limits_of(*sub), b), p),
        }
    }
}

/// Hit-test exclusivity for layers: where stacked widgets all hold `p`, the
/// hit goes to the topmost one, the child with the highest index.
pub proof fn lemma_layer_tree_topmost(cs: Vec<Element>, b: Rect, p: Point)
    requires
        cs.len() >= 1,
        usable(b),
        rect_contains(b, p),
        forall|i: int| 0 <= i < cs.len() ==> (#[trigger] cs@[i]) is Leaf,
    ensures
        hit_path_of(Element::Layer(cs), b, p) == Some(seq![(cs.len() - 1) as usize]),
{
    let top = cs.len() - 1;
    let rects = same_rects(cs.len() as nat, b);
    assert(cs@[top as int] is Leaf);
    assert(hit_path_of(cs@[top as int], b, p) == Some(Seq::<usize>::empty()));
    assert(rects[top as int] == b);
    assert(seq![top as usize] + Seq::<usize>::empty() =~= seq![top as usize]);
    assert(hit_scan(cs@, rects, p, 0, true) == Some(seq![top as usize]));
    assert(hit_path_of(Element::Layer(cs), b, p) == hit_scan(cs@, rects, p, 0, true));
}

impl Element {
    fn stretches_of_children(parent: &Element, cs: &Vec<Element>) -> (r: Vec<ViewStretch>)
        requires
            children_of(*parent, *cs),
        ensures
            r@ == stretches_all(cs@),
        decreases parent, 0nat,
    {
        proof {
            lemma_stretches_all(cs@);
        }
        let mut ss: Vec<ViewStretch> = Vec::new();
        let mut i: usize = 0;
        while i < cs.len()
            invariant
                i <= cs.len(),
                children_of(*parent, *cs),
                ss.len() == i,
                forall|j: int| 0 <= j < i ==> #[trigger] ss@[j] == stretch_of(cs@[j]),
            decreases cs.len() - i,
        {
            proof {
                assert(decreases_to!(*parent => *cs));
                assert(decreases_to!(*cs => cs@));
                assert(decreases_to!(cs@ => cs@[i as int]));
            }
            ss.push(cs[i].stretch());
            i = i + 1;
        }
        assert(ss@ =~= stretches_all(cs@));
        ss
    }

    /// The widget hit at `p` when the element occupies `bounds`, as the path
    /// of child indices leading to it.
    pub fn hit_path(&self, bounds: Rect, p: Point) -> (r: Option<Vec<usize>>)
        requires
            tree_wf(*self),
        ensures
            match r {
                Some(v) => hit_path_of(*self, bounds, p) == Some(v@),
                None => hit_path_of(*self, bounds, p) is None,
            },
        decreases self, 1nat,
    {
        if !(bounds.is_in_range() && bounds.left <= bounds.right && bounds.top <= bounds.bottom) || !bounds.contains(p) {
            return None;
        }
        match self {
            Element::Leaf(_) => Some(Vec::new()),
            Element::Tile(a, cs) => {
                let ls = Element::limits_of_children(self, cs);
                let ss = Element::stretches_of_children(self, cs);
                proof {
                    lemma_limits_all(cs@);
                    lemma_stretches_all(cs@);
                }
                let rects = tile_child_rects(&ls, &ss, *a, bounds);
                Element::scan(self, cs, &rects, p, false)
            },
            Element::Grid(n, hg, vg, cs) => {
                let ls = Element::limits_of_children(self, cs);
                let ss = Element::stretches_of_children(self, cs);
                proof {
                    lemma_limits_all(cs@);
                    lemma_stretches_all(cs@);
                }
                let rects = grid_child_rects(&ls, &ss, *n, *hg, *vg, bounds);
                Element::scan(self, cs, &rects, p, false)
            },
            Element::Layer(cs) => {
                let mut rects: Vec<Rect> = Vec::new();
                let mut i: usize = 0;
                while i < cs.len()
                    invariant
                        i <= cs.len(),
                        rects@ == same_rects(i as nat, bounds),
                    decreases cs.len() - i,
                {
                    rects.push(bounds);
                    i = i + 1;
                    assert(rects@ =~= same_rects(i as nat, bounds));
                }
                Element::scan(self, cs, &rects, p, true)
            },
            Element::Deck(k, cs) => {
                if *k < cs.len() {
                    assert(tree_wf(cs@[*k as int]));
                    proof {
                        assert(decreases_to!(*self => *cs));
                        assert(decreases_to!(*cs => cs@));
                        assert(decreases_to!(cs@ => cs@[*k as int]));
                    }
                    match cs[*k].hit_path(bounds, p) {
                        Some(q) => {
                            let mut v: Vec<usize> = vec![*k];
                            let mut q = q;
                            v.append(&mut q);
                            Some(v)
                        },
                        None => None,
                    }
                } else {
                    None
                }
            },
            Element::Proxy(pr, sub) => {
                proof {
                    lemma_tree_limits_wf(**sub);
                }
                let l = sub.limits();
                let sb = pr.subject_bounds(l, bounds);
                sub.hit_path(sb, p)
            },
        }
    }

    fn scan(parent: &Element, cs: &Vec<Element>, rects: &Vec<Rect>, p: Point, reverse: bool) -> (r: Option<Vec<usize>>)
        requires
            tree_wf(*parent),
            children_of(*parent, *cs),
            rects.len() == cs.len(),
        ensures
            match r {
                Some(v) => hit_scan(cs@, rects@, p, 0, reverse) == Some(v@),
                None => hit_scan(cs@, rects@, p, 0, reverse) is None,
            },
        decreases parent, 0nat,
    {
        let n = cs.len();
        let mut k: usize = 0;
        while k < n
            invariant
                k <= n,
                n == cs.len(),
                rects.len() == n,
                tree_wf(*parent),
                children_of(*parent, *cs),
                hit_scan(cs@, rects@, p, 0, reverse) == hit_scan(cs@, rects@, p, k as int, reverse),
            decreases n - k,
        {
            let i = if reverse { n - 1 - k } else { k };
            assert(tree_wf(cs@[i as int]));
            proof {
                assert(decreases_to!(*parent => *cs));
                assert(decreases_to!(*cs => cs@));
                assert(decreases_to!(cs@ => cs@[i as int]));
            }
            if rects[i].contains(p) {
                match cs[i].hit_path(rects[i], p) {
                    Some(q) => {
                        let mut v: Vec<usize> = vec![i];
                        let mut q = q;
                        v.append(&mut q);
                        assert(v@ =~= seq![i] + hit_path_of(cs@[i as int], rects@[i as int], p)->Some_0);
                        return Some(v);
                    },
                    None => {},
                }
            }
            k = k + 1;
        }
        None
    }
}

/// The focus target among the children `cs`, scanning from position `k`
/// on, from the first child or (`from_bottom`) from the last: the first
/// child that holds a widget wanting focus, with its index put in front of
/// the path found in it.
pub open spec fn focus_scan(cs: Seq<Element>, from_bottom: bool, k: int) -> Option<Seq<usize>>
    decreases cs, cs.len() - k,
{
    if k < 0 || k >= cs.len() {
        None
    } else {
        let i = if from_bottom { cs.len() - 1 - k } else { k };
        if focus_path_of(cs[i], from_bottom) is Some {
            Some(seq![i as usize] + focus_path_of(cs[i], from_bottom)->Some_0)
        } else {
            focus_scan(cs, from_bottom, k + 1)
        }
    }
}

/// The widget that takes focus when `e` is entered from the top (or, with
/// `from_bottom`, from the bottom), as the path of child indices leading to
/// it: the first widget in tree order (or the last) that wants focus. A
/// deck offers only its active child.
pub open spec fn focus_path_of(e: Element, from_bottom: bool) -> Option<Seq<usize>>
    decreases e, 0int,
{
    match e {
        Element::Leaf(c) => if c.wants_focus {
            Some(Seq::empty())
        } else {
            None
        },
        Element::Tile(_, cs) => focus_scan(cs@, from_bottom, 0),
        Element::Layer(cs) => focus_scan(cs@, from_bottom, 0),
        Element::Grid(_, _, _, cs) => focus_scan(cs@, from_bottom, 0),
        Element::Deck(k, cs) => if k < cs.len() {
            match focus_path_of(cs@[k as int], from_bottom) {
                Some(q) => Some(seq![k] + q),
                None => None,
            }
        } else {
            None
        },
        Element::Proxy(_, sub) => focus_path_of(*sub, from_bottom),
    }
}

impl Element {
    /// The widget that takes focus when the element is entered from the top
    /// (or from the bottom), as the path of child indices leading to it.
    pub fn focus_path(&self, from_bottom: bool) -> (r: Option<Vec<usize>>)
        ensures
            match r {
                Some(v) => focus_path_of(*self, from_bottom) == Some(v@),
                None => focus_path_of(*self, from_bottom) is None,
            },
        decreases self, 1nat,
    {
        match self {
            Element::Leaf(c) => if c.wants_focus {
                Some(Vec::new())
            } else {
                None
            },
            Element::Tile(_, cs) => Element::focus_in(self, cs, from_bottom),
            Element::Layer(cs) => Element::focus_in(self, cs, from_bottom),
            Element::Grid(_, _, _, cs) => Element::focus_in(self, cs, from_bottom),
            Element::Deck(k, cs) => {
                if *k < cs.len() {
                    proof {
                        assert(decreases_to!(*self => *cs));
                        assert(decreases_to!(*cs => cs@));
                        assert(decreases_to!(cs@ => cs@[*k as int]));
                    }
                    match cs[*k].focus_path(from_bottom) {
                        Some(q) => {
                            let mut v: Vec<usize> = vec![*k];
                            let mut q = q;
                            v.append(&mut q);
                            Some(v)
                        },
                        None => None,
                    }
                } else {
                    None
                }
            },
            Element::Proxy(_, sub) => sub.focus_path(from_bottom),
        }
    }

    fn focus_in(parent: &Element, cs: &Vec<Element>, from_bottom: bool) -> (r: Option<Vec<usize>>)
        requires
            children_of(*parent, *cs),
        ensures
            match r {
                Some(v) => focus_scan(cs@, from_bottom, 0) == Some(v@),
                None => focus_scan(cs@, from_bottom, 0) is None,
            },
        decreases parent, 0nat,
    {
        let n = cs.len();
        let mut k: usize = 0;
        while k < n
            invariant
                k <= n,
                n == cs.len(),
                children_of(*parent, *cs),
                focus_scan(cs@, from_bottom, 0) == focus_scan(cs@, from_bottom, k as int),
            decreases n - k,
        {
            let i = if from_bottom { n - 1 - k } else { k };
            proof {
                assert(decreases_to!(*parent => *cs));
                assert(decreases_to!(*cs => cs@));
                assert(decreases_to!(cs@ => cs@[i as int]));
            }
            match cs[i].focus_path(from_bottom) {
                Some(q) => {
                    let mut v: Vec<usize> = vec![i];
                    let mut q = q;
                    v.append(&mut q);
                    assert(v@ =~= seq![i] + focus_path_of(cs@[i as int], from_bottom)->Some_0);
                    return Some(v);
                },
                None => {},
            }
            k = k + 1;
        }
        None
    }
}

/// The child index visited at scan position `k` among `n` children.
pub open spec fn scan_index(n: int, from_bottom: bool, k: int) -> int {
    if from_bottom {
        n - 1 - k
    } else {
        k
    }
}

/// A widget that wants focus.
pub open spec fn focusable_leaf(e: Element) -> bool {
    e matches Element::Leaf(c) && c.wants_focus
}

proof fn lemma_focus_scan_leaves(cs: Seq<Element>, from_bottom: bool, k: int, m: int)
    requires
        forall|j: int| 0 <= j < cs.len() ==> (#[trigger] cs[j]) is Leaf,
        0 <= k <= m < cs.len(),
        focusable_leaf(cs[scan_index(cs.len() as int, from_bottom, m)]),
        forall|j: int|
            k <= j < m ==> !focusable_leaf(#[trigger] cs[scan_index(cs.len() as int, from_bottom, j)]),
    ensures
        focus_scan(cs, from_bottom, k) == Some(seq![scan_index(cs.len() as int, from_bottom, m) as usize]),
    decreases m - k,
{
    let n = cs.len() as int;
    let i = scan_index(n, from_bottom, k);
    assert(cs[i] is Leaf);
    if k == m {
        assert(focus_path_of(cs[i], from_bottom) == Some(Seq::<usize>::empty()));
        assert(seq![i as usize] + Seq::<usize>::empty() =~= seq![i as usize]);
    } else {
        assert(!focusable_leaf(cs[i]));
        assert(focus_path_of(cs[i], from_bottom) is None);
        lemma_focus_scan_leaves(cs, from_bottom, k + 1, m);
    }
}

/// Focus traversal is deterministic: entering a tile or layer of widgets
/// from the top focuses the first widget that wants focus, and from the
/// bottom the last.
pub proof fn lemma_focus_first_and_last(e: Element, first: int, last: int)
    requires
        e is Tile || e is Layer,
        forall|j: int| 0 <= j < kids(e).len() ==> (#[trigger] kids(e)[j]) is Leaf,
        0 <= first < kids(e).len(),
        0 <= last < kids(e).len(),
        focusable_leaf(kids(e)[first]),
        focusable_leaf(kids(e)[last]),
        forall|j: int| 0 <= j < first ==> !focusable_leaf(#[trigger] kids(e)[j]),
        forall|j: int| last < j < kids(e).len() ==> !focusable_leaf(#[trigger] kids(e)[j]),
    ensures
        focus_path_of(e, false) == Some(seq![first as usize]),
        focus_path_of(e, true) == Some(seq![last as usize]),
{
    let cs = kids(e);
    let n = cs.len() as int;
    assert forall|j: int| 0 <= j < first implies !focusable_leaf(#[trigger] cs[scan_index(n, false, j)]) by {
        assert(scan_index(n, false, j) == j);
    }
    lemma_focus_scan_leaves(cs, false, 0, first);
    let m = n - 1 - last;
    assert(scan_index(n, true, m) == last);
    assert forall|j: int| 0 <= j < m implies !focusable_leaf(#[trigger] cs[scan_index(n, true, j)]) by {
        assert(last < scan_index(n, true, j) < n);
    }
    lemma_focus_scan_leaves(cs, true, 0, m);
}

/// The children of a tile, layer, grid or deck; none for widgets and proxies.
pub open spec fn kids(e: Element) -> Seq<Element> {
    match e {
        Element::Tile(_, cs) => cs@,
        Element::Layer(cs) => cs@,
        Element::Grid(_, _, _, cs) => cs@,
        Element::Deck(_, cs) => cs@,
        _ => Seq::empty(),
    }
}

} // verus!
