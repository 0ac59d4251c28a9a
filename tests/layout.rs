use mkgraphic::distribute::distribute;
use mkgraphic::geometry::{Axis, Point, Rect};
use mkgraphic::grid::{grid_limits, grid_tracks, Grid};
use mkgraphic::limits::{ViewLimits, ViewStretch, FULL_EXTENT};
use mkgraphic::proxy::{
    halign, margin, margin_bounds, margin_hit, margin_limits, max_size, min_size, valign, Margin, Proxy,
};
use mkgraphic::tile::{htile, tile_limits, tile_offsets, vtile, Tile};

fn height_min(h: i32) -> ViewLimits {
    ViewLimits::min_size(0, h)
}

#[test]
fn vertical_tile_scenario() {
    let children = vec![height_min(20), height_min(30)];
    let stretches = vec![ViewStretch::new(1, 1), ViewStretch::new(0, 0)];
    let offsets = tile_offsets(&children, &stretches, Axis::Y, 100);
    assert_eq!(offsets, vec![0, 70, 100]);
    assert_eq!(offsets[2] - offsets[0], 100);

    let mut tile = Tile::from_vec(Axis::Y, children, stretches);
    let bounds = Rect::new(0, 0, 50, 100);
    assert_eq!(tile.bounds_of(bounds, 0), Rect::new(0, 0, 50, 70));
    assert_eq!(tile.bounds_of(bounds, 1), Rect::new(0, 70, 50, 100));
    assert_eq!(tile.bounds_of(bounds, 2), Rect::zero());
}

#[test]
fn tile_conserves_available_space() {
    let children = vec![height_min(10), height_min(20), height_min(30)];
    let stretches = vec![ViewStretch::new(0, 1), ViewStretch::new(0, 2), ViewStretch::new(0, 3)];
    let offsets = tile_offsets(&children, &stretches, Axis::Y, 120);
    assert_eq!(offsets, vec![0, 20, 60, 120]);
    // shares that do not divide evenly still add up to the spare space
    let sizes = distribute(&vec![0, 0, 0], &vec![1, 1, 1], 10);
    assert_eq!(sizes, vec![3, 3, 4]);
    assert_eq!(sizes.iter().sum::<i32>(), 10);
}

#[test]
fn tile_clamps_to_child_maximum() {
    let children = vec![ViewLimits::new(Point::new(0, 10), Point::new(0, 15)), height_min(10)];
    let stretches = vec![ViewStretch::new(1, 1), ViewStretch::new(1, 1)];
    let offsets = tile_offsets(&children, &stretches, Axis::Y, 100);
    // the first child stops at its maximum; the slack is not handed on
    assert_eq!(offsets, vec![0, 15, 65]);
}

#[test]
fn tile_without_stretch_keeps_minimums() {
    let children = vec![height_min(10), height_min(20)];
    let stretches = vec![ViewStretch::new(0, 0), ViewStretch::new(0, 0)];
    assert_eq!(tile_offsets(&children, &stretches, Axis::Y, 100), vec![0, 10, 30]);
}

#[test]
fn empty_tile_and_grid_are_degenerate() {
    let zero = ViewLimits::fixed(0, 0);
    let tile = vtile();
    assert_eq!(tile.limits(), zero);
    assert_eq!(htile().limits(), zero);
    let mut tile = vtile();
    assert_eq!(tile.bounds_of(Rect::new(0, 0, 100, 100), 0), Rect::zero());
    assert_eq!(tile_offsets(&vec![], &vec![], Axis::X, 100), vec![0]);
    let grid = Grid::new(3);
    assert_eq!(grid.limits(), zero);
    assert_eq!(grid_tracks(&vec![], &vec![], 3, true, 4, 100), Vec::<i32>::new());
}

#[test]
fn tile_limits_are_consistent() {
    let children = vec![
        ViewLimits::new(Point::new(10, 20), Point::new(50, 40)),
        ViewLimits::new(Point::new(30, 5), Point::new(20_000, 5)),
    ];
    let l = tile_limits(&children, Axis::Y);
    assert_eq!(l.min, Point::new(30, 25));
    assert_eq!(l.max, Point::new(50, 45));
    assert!(l.min.x <= l.max.x && l.min.y <= l.max.y);
    let h = tile_limits(&children, Axis::X);
    assert_eq!(h.min, Point::new(40, 20));
    // the smallest maximum height (5) is raised to the largest minimum (20)
    assert_eq!(h.max, Point::new(20_050, 20));
    let full = tile_limits(&vec![ViewLimits::full(), ViewLimits::full()], Axis::X);
    assert_eq!(full.max.x, FULL_EXTENT);
}

#[test]
fn grid_scenario_two_columns() {
    let children = vec![ViewLimits::min_size(50, 10); 4];
    let stretches = vec![ViewStretch::new(1, 1); 4];
    assert_eq!(grid_tracks(&children, &stretches, 2, false, 4, 200), vec![98, 98]);
    let mut grid = Grid::from_vec(2, children, stretches);
    let bounds = Rect::new(0, 0, 200, 100);
    assert_eq!(grid.bounds_of(bounds, 0), Rect::new(0, 0, 98, 48));
    assert_eq!(grid.bounds_of(bounds, 3), Rect::new(102, 52, 200, 100));
    assert_eq!(grid.bounds_of(bounds, 4), Rect::zero());
}

#[test]
fn grid_rows_ignore_column_widths() {
    let stretches = vec![ViewStretch::new(1, 1); 4];
    let a = vec![ViewLimits::min_size(50, 10), ViewLimits::min_size(50, 30), ViewLimits::min_size(50, 20), ViewLimits::min_size(50, 10)];
    let mut b = a.clone();
    b[1] = ViewLimits::min_size(90, 30);
    b[3] = ViewLimits::min_size(120, 10);
    let rows_a = grid_tracks(&a, &stretches, 2, true, 4, 100);
    let rows_b = grid_tracks(&b, &stretches, 2, true, 4, 100);
    assert_eq!(rows_a, rows_b);
    assert_eq!(rows_a, vec![53, 43]);
    assert_ne!(grid_tracks(&a, &stretches, 2, false, 4, 300), grid_tracks(&b, &stretches, 2, false, 4, 300));
}

#[test]
fn grid_limits_sum_tracks_and_gaps() {
    let children = vec![ViewLimits::fixed(50, 10), ViewLimits::fixed(30, 20), ViewLimits::fixed(40, 5)];
    let l = grid_limits(&children, 2, 4, 6);
    assert_eq!(l.min, Point::new(84, 31));
    assert_eq!(l.max, Point::new(84, 31));
}

#[test]
fn margin_adds_twice_the_margin() {
    let label = ViewLimits::fixed(40, 12);
    let l = margin_limits(&Margin::uniform(10), label);
    assert_eq!(l.min, Point::new(60, 32));
    assert_eq!(l.max, Point::new(60, 32));
    let through_proxy = margin(Margin::uniform(10)).limits(label);
    assert_eq!(through_proxy, l);
}

#[test]
fn margin_bounds_and_hits_agree() {
    let m = Margin::new(10, 5, 10, 5);
    let b = Rect::new(0, 0, 100, 50);
    assert_eq!(margin_bounds(&m, b), Rect::new(10, 5, 90, 45));
    assert!(margin_hit(&m, b, Point::new(10, 5)));
    assert!(!margin_hit(&m, b, Point::new(5, 5)));
    assert_eq!(margin_bounds(&Margin::uniform(60), b), Rect::zero());
}

#[test]
fn size_proxies() {
    let subject = ViewLimits::new(Point::new(10, 10), Point::new(100, 100));
    assert_eq!(Proxy::FixedSize(30, 40).limits(subject), ViewLimits::fixed(30, 40));
    let m = min_size(50, 5).limits(subject);
    assert_eq!(m.min, Point::new(50, 10));
    assert_eq!(m.max, Point::new(100, 100));
    let x = max_size(60, 5).limits(subject);
    assert_eq!(x.min, Point::new(10, 10));
    assert_eq!(x.max, Point::new(60, 10));
}

#[test]
fn alignment_proxies() {
    let subject = ViewLimits::fixed(20, 10);
    let h = halign(500);
    assert_eq!(h.limits(subject).max, Point::new(FULL_EXTENT, 10));
    assert_eq!(h.subject_bounds(subject, Rect::new(0, 0, 100, 10)), Rect::new(40, 0, 60, 10));
    assert_eq!(halign(1000).subject_bounds(subject, Rect::new(0, 0, 100, 10)), Rect::new(80, 0, 100, 10));
    assert_eq!(halign(5000), Proxy::HAlign(1000));
    let v = valign(0);
    assert_eq!(v.limits(subject).max, Point::new(20, FULL_EXTENT));
    assert_eq!(v.subject_bounds(subject, Rect::new(0, 0, 30, 90)), Rect::new(0, 0, 30, 10));
}

#[test]
fn tile_hit_uses_child_bounds() {
    let children = vec![height_min(20), height_min(30)];
    let stretches = vec![ViewStretch::new(1, 1), ViewStretch::new(0, 0)];
    let mut tile = Tile::from_vec(Axis::Y, children, stretches);
    let bounds = Rect::new(0, 0, 50, 100);
    assert_eq!(tile.hit(bounds, Point::new(10, 10)), Some(0));
    assert_eq!(tile.hit(bounds, Point::new(10, 80)), Some(1));
    assert_eq!(tile.hit(bounds, Point::new(60, 80)), None);
    assert_eq!(tile.stretch(), ViewStretch::new(1, 1));
    tile.push(height_min(5), ViewStretch::new(0, 0));
    assert_eq!(tile.len(), 3);
    assert_eq!(tile.bounds_of(bounds, 2), Rect::new(0, 95, 50, 100));
}

#[test]
fn grid_stretch_is_greatest() {
    let mut grid = Grid::new(0).gap(2);
    grid.push(ViewLimits::fixed(10, 10), ViewStretch::new(0, 3));
    grid.push(ViewLimits::fixed(10, 10), ViewStretch::new(2, 1));
    assert_eq!(grid.stretch(), ViewStretch::new(2, 3));
    assert_eq!(grid.len(), 2);
    // one column at least: the two children sit in two rows
    assert_eq!(grid.limits(), ViewLimits::fixed(10, 22));
}

#[test]
fn grid_hit_uses_cells() {
    let children = vec![ViewLimits::min_size(50, 10); 4];
    let stretches = vec![ViewStretch::new(1, 1); 4];
    let mut grid = Grid::from_vec(2, children, stretches);
    let bounds = Rect::new(0, 0, 200, 100);
    assert_eq!(grid.hit(bounds, Point::new(10, 10)), Some(0));
    assert_eq!(grid.hit(bounds, Point::new(150, 10)), Some(1));
    assert_eq!(grid.hit(bounds, Point::new(150, 90)), Some(3));
    // the gap between the columns belongs to no cell
    assert_eq!(grid.hit(bounds, Point::new(100, 10)), None);
    assert_eq!(grid.hit(bounds, Point::new(250, 10)), None);
}

#[test]
fn single_column_grid_fills_height() {
    let children = vec![ViewLimits::min_size(10, 20), ViewLimits::min_size(10, 30)];
    let stretches = vec![ViewStretch::new(1, 1), ViewStretch::new(0, 0)];
    let rows = grid_tracks(&children, &stretches, 1, true, 0, 100);
    assert_eq!(rows, vec![70, 30]);
    assert_eq!(rows.iter().sum::<i32>(), 100);
}
