use mkgraphic::composite::Child;
use mkgraphic::geometry::{Axis, Point, Rect};
use mkgraphic::limits::{ViewLimits, ViewStretch};
use mkgraphic::proxy::{margin, Margin};
use mkgraphic::tree::Element;

fn leaf(w: i32, h: i32, stretch: u32) -> Element {
    Element::Leaf(Child::new(ViewLimits::min_size(w, h), ViewStretch::new(stretch, stretch)))
}

#[test]
fn tree_limits_compose() {
    let label = Element::Leaf(Child::new(ViewLimits::fixed(40, 12), ViewStretch::new(0, 0)));
    let padded = Element::Proxy(margin(Margin::uniform(10)), Box::new(label));
    assert_eq!(padded.limits(), ViewLimits::fixed(60, 32));
    let column = Element::Tile(Axis::Y, vec![padded, leaf(10, 20, 1)]);
    let l = column.limits();
    assert_eq!(l.min, Point::new(60, 52));
    assert!(l.min.x <= l.max.x && l.min.y <= l.max.y);
    assert_eq!(column.stretch(), ViewStretch::new(1, 1));
}

#[test]
fn tree_hit_paths() {
    let column = Element::Tile(Axis::Y, vec![leaf(0, 20, 1), leaf(0, 30, 0)]);
    let bounds = Rect::new(0, 0, 50, 100);
    assert_eq!(column.hit_path(bounds, Point::new(5, 10)), Some(vec![0]));
    assert_eq!(column.hit_path(bounds, Point::new(5, 90)), Some(vec![1]));
    assert_eq!(column.hit_path(bounds, Point::new(60, 90)), None);

    let layer = Element::Layer(vec![leaf(0, 0, 1), leaf(0, 0, 1), leaf(0, 0, 1)]);
    assert_eq!(layer.hit_path(bounds, Point::new(25, 25)), Some(vec![2]));

    let framed = Element::Proxy(margin(Margin::uniform(10)), Box::new(leaf(0, 0, 1)));
    assert_eq!(framed.hit_path(bounds, Point::new(5, 5)), None);
    assert_eq!(framed.hit_path(bounds, Point::new(15, 15)), Some(vec![]));

    let deck = Element::Deck(1, vec![leaf(0, 0, 1), column]);
    assert_eq!(deck.hit_path(bounds, Point::new(5, 90)), Some(vec![1, 1]));
}

#[test]
fn tree_focus_paths() {
    let f = |on: bool| Element::Leaf(Child::new(ViewLimits::full(), ViewStretch::default()).focusable(on));
    let column = Element::Tile(Axis::Y, vec![f(false), f(true), f(false), f(true), f(false)]);
    assert_eq!(column.focus_path(false), Some(vec![1]));
    assert_eq!(column.focus_path(true), Some(vec![3]));
    let nested = Element::Layer(vec![f(false), Element::Proxy(margin(Margin::uniform(2)), Box::new(column))]);
    assert_eq!(nested.focus_path(false), Some(vec![1, 1]));
    let none = Element::Tile(Axis::X, vec![f(false), f(false)]);
    assert_eq!(none.focus_path(false), None);
    let deck = Element::Deck(0, vec![f(false), f(true)]);
    assert_eq!(deck.focus_path(false), None);
}

#[test]
fn tree_grids() {
    let cell = |stretch: u32| Element::Leaf(Child::new(ViewLimits::min_size(50, 10), ViewStretch::new(stretch, 0)));
    let grid = Element::Grid(2, 4, 4, vec![cell(1), cell(1), cell(3), cell(1)]);
    let l = grid.limits();
    assert_eq!(l.min, Point::new(104, 24));
    assert_eq!(grid.stretch(), ViewStretch::new(3, 0));
    let bounds = Rect::new(0, 0, 200, 100);
    assert_eq!(grid.hit_path(bounds, Point::new(150, 20)), Some(vec![3]));
    assert_eq!(grid.hit_path(bounds, Point::new(100, 5)), Some(vec![0]));
    // column widths 122 and 74: the gap runs from 122 to 126
    assert_eq!(grid.hit_path(bounds, Point::new(124, 5)), None);
    let f = |on: bool| Element::Leaf(Child::new(ViewLimits::full(), ViewStretch::default()).focusable(on));
    let focus_grid = Element::Grid(2, 0, 0, vec![f(false), f(true), f(true), f(false)]);
    assert_eq!(focus_grid.focus_path(false), Some(vec![1]));
    assert_eq!(focus_grid.focus_path(true), Some(vec![2]));
}
