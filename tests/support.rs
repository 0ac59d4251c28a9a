use mkgraphic::font::{Font, FontStretch, FontStyle, FontWeight};
use mkgraphic::geometry::{intersection, intersects, union, Axis, Extent, Point, Rect};
use mkgraphic::list::ListItem;
use mkgraphic::payload::{Payload, TEXT_HTML, TEXT_PLAIN, TEXT_URI_LIST};

#[test]
fn test_font_creation() {
    let font = Font::new("Helvetica").bold().italic();
    assert_eq!(font.family(), "Helvetica");
    assert_eq!(font.weight(), FontWeight::Bold);
    assert_eq!(font.style(), FontStyle::Italic);
}

#[test]
fn test_font_weight_values() {
    assert_eq!(FontWeight::Regular.value(), 400);
    assert_eq!(FontWeight::Bold.value(), 700);
}

#[test]
fn font_defaults_and_builders() {
    let font = Font::default();
    assert_eq!(font.family(), "sans-serif");
    assert_eq!(font.weight(), FontWeight::Regular);
    assert_eq!(font.style(), FontStyle::Normal);
    assert_eq!(font.stretch(), FontStretch::Normal);
    assert_eq!(Font::serif().family(), "serif");
    assert_eq!(Font::monospace().with_stretch(FontStretch::Condensed).stretch(), FontStretch::Condensed);
    assert_eq!(FontWeight::Thin.value(), 100);
    assert_eq!(FontWeight::Black.value(), 900);
}

#[test]
fn test_payload() {
    let mut payload = Payload::new();
    payload.insert(TEXT_PLAIN, "Hello, World!");
    payload.insert(TEXT_URI_LIST, "file:///path/to/file.txt");

    assert!(payload.contains(TEXT_PLAIN));
    assert_eq!(payload.get(TEXT_PLAIN), Some(&"Hello, World!".to_string()));
    assert_eq!(payload.len(), 2);
}

#[test]
fn payload_replaces_equal_keys_and_keeps_order() {
    let mut payload = Payload::new();
    assert!(payload.is_empty());
    payload.insert(TEXT_PLAIN, "one");
    payload.insert(TEXT_HTML, "<b>two</b>");
    payload.insert(TEXT_PLAIN, "three");
    assert_eq!(payload.len(), 2);
    assert_eq!(payload.get(TEXT_PLAIN), Some(&"three".to_string()));
    assert_eq!(payload.mime_types(), vec![TEXT_PLAIN.to_string(), TEXT_HTML.to_string()]);
    assert!(!payload.contains(TEXT_URI_LIST));
    assert_eq!(payload.get(TEXT_URI_LIST), None);
    payload.clear();
    assert!(payload.is_empty());
}

#[test]
fn list_items() {
    let a = ListItem::new("Apple");
    assert_eq!(a.label, "Apple");
    assert_eq!(a.data, None);
    let b = ListItem::with_data("Pear", "p-1");
    assert_eq!(b.data, Some("p-1".to_string()));
}

#[test]
fn test_extent() {
    let e = Extent::new(100, 50);
    assert_eq!(e.width(), 100);
    assert_eq!(e.height(), 50);
    assert_eq!(e.area(), 5000);
}

#[test]
fn test_rect_basic() {
    let r = Rect::new(10, 20, 110, 70);
    assert_eq!(r.width(), 100);
    assert_eq!(r.height(), 50);
    assert_eq!(r.area(), 5000);
}

#[test]
fn test_rect_contains() {
    let r = Rect::new(0, 0, 100, 100);
    assert!(r.contains(Point::new(50, 50)));
    assert!(r.contains(Point::new(0, 0)));
    assert!(r.contains(Point::new(100, 100)));
    assert!(!r.contains(Point::new(-1, 50)));
    assert!(!r.contains(Point::new(101, 50)));
}

#[test]
fn test_intersection() {
    let a = Rect::new(0, 0, 100, 100);
    let b = Rect::new(50, 50, 150, 150);
    let c = intersection(&a, &b).unwrap();
    assert_eq!(c, Rect::new(50, 50, 100, 100));
}

#[test]
fn test_no_intersection() {
    let a = Rect::new(0, 0, 100, 100);
    let b = Rect::new(200, 200, 300, 300);
    assert!(intersection(&a, &b).is_none());
}

#[test]
fn rect_helpers() {
    let a = Rect::new(0, 0, 100, 100);
    let b = Rect::new(50, 50, 150, 150);
    assert!(intersects(&a, &b));
    assert_eq!(union(&a, &b), Rect::new(0, 0, 150, 150));
    assert_eq!(a.inset(10, 20), Rect::new(10, 20, 90, 80));
    assert_eq!(a.inset(60, 0), Rect::zero());
    assert_eq!(a.translate(5, -5), Rect::new(5, -5, 105, 95));
    assert_eq!(a.extent(Axis::Y), 100);
    assert!(Rect::zero().is_empty());
    assert_eq!(Axis::X.other(), Axis::Y);
    assert_eq!(Point::new(3, 4).get(Axis::Y), 4);
}
