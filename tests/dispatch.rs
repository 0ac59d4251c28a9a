use mkgraphic::composite::{hit_element, layer_hit, layer_limits, Child, Composite, Deck};
use mkgraphic::context::Context;
use mkgraphic::geometry::{Point, Rect};
use mkgraphic::input::{CursorTracking, MouseButtonKind};
use mkgraphic::limits::{empty, FocusRequest, ViewLimits, ViewStretch};
use mkgraphic::macos_keys;
use mkgraphic::menu::{MenuItem, MenuModifiers, MenuShortcut, NativeMenu, NativeMenuBar, NativeMenuItem};
use mkgraphic::widgets::{ButtonState, Pressable};
use mkgraphic::windows_keys;
use mkgraphic::input::KeyCode;

fn child(focus: bool) -> Child {
    Child::new(ViewLimits::full(), ViewStretch::default()).focusable(focus)
}

#[test]
fn layer_hit_goes_to_topmost() {
    let b = Rect::new(0, 0, 100, 100);
    assert_eq!(layer_hit(&vec![false, false, false], b, Point::new(50, 50), false), Some(2));
    assert_eq!(layer_hit(&vec![false, false, false], b, Point::new(150, 50), false), None);

    let mut c = Composite::from_vec(vec![child(false), child(false), child(false)]);
    for i in 0..3 {
        c.set_bounds(i, b);
    }
    assert_eq!(c.hit_element(Point::new(50, 50), false, true), Some(2));
    assert_eq!(c.hit_element(Point::new(50, 50), false, false), Some(0));
}

#[test]
fn hit_with_control_prefers_controls() {
    let bs = vec![Rect::new(0, 0, 10, 10), Rect::new(0, 0, 10, 10), Rect::new(20, 20, 30, 30)];
    assert_eq!(hit_element(&bs, &vec![false, true, false], Point::new(5, 5), true, false), Some(1));
    assert_eq!(hit_element(&bs, &vec![false, false, false], Point::new(5, 5), true, false), Some(1));
    assert_eq!(hit_element(&bs, &vec![false, false, false], Point::new(5, 5), false, false), Some(0));
}

#[test]
fn focus_traversal() {
    let mut c = Composite::from_vec(vec![child(false), child(true), child(false), child(true), child(false)]);
    assert!(c.wants_focus());
    c.begin_focus(FocusRequest::FromTop);
    assert_eq!(c.focus_index(), Some(1));
    assert!(c.end_focus());
    assert_eq!(c.focus_index(), None);
    c.begin_focus(FocusRequest::FromBottom);
    assert_eq!(c.focus_index(), Some(3));
    assert!(c.end_focus());
    c.begin_focus(FocusRequest::RestorePrevious);
    assert_eq!(c.focus_index(), Some(3));
}

#[test]
fn composite_storage() {
    let mut c = Composite::new();
    assert!(c.is_empty());
    c.push(Child::new(ViewLimits::fixed(10, 20), ViewStretch::new(0, 0)).control(true));
    c.push(Child::new(ViewLimits::fixed(30, 5), ViewStretch::new(0, 0)));
    assert_eq!(c.len(), 2);
    assert!(c.wants_control());
    assert!(!c.wants_focus());
    assert_eq!(c.limits(), ViewLimits::fixed(30, 20));
    assert_eq!(c.bounds_of(7), Rect::zero());
    c.set_focus(Some(0));
    assert_eq!(c.focus_index(), None);
    assert!(c.pop().is_some());
    c.clear();
    assert!(c.is_empty());
    assert_eq!(empty().limits(), ViewLimits::full());
}

#[test]
fn button_press_release_inside_fires_once() {
    let mut b = Pressable::new();
    assert_eq!(b.state(), ButtonState::Normal);
    let down = b.click(true, MouseButtonKind::Left, true);
    assert!(down.handled && !down.fire);
    assert_eq!(b.state(), ButtonState::Pressed);
    let up = b.click(false, MouseButtonKind::Left, true);
    assert!(up.handled && up.fire);
    assert_eq!(b.state(), ButtonState::Hover);
    let again = b.click(false, MouseButtonKind::Left, true);
    assert!(!again.fire);
}

#[test]
fn button_release_outside_does_not_fire() {
    let mut b = Pressable::new();
    b.click(true, MouseButtonKind::Left, true);
    assert!(b.cursor(CursorTracking::Leaving));
    assert_eq!(b.state(), ButtonState::Pressed);
    let up = b.click(false, MouseButtonKind::Left, false);
    assert!(!up.fire);
    assert_eq!(b.state(), ButtonState::Normal);
}

#[test]
fn button_hover_and_disable() {
    let mut b = Pressable::new();
    b.cursor(CursorTracking::Entering);
    assert_eq!(b.state(), ButtonState::Hover);
    b.cursor(CursorTracking::Leaving);
    assert_eq!(b.state(), ButtonState::Normal);
    b.enable(false);
    assert_eq!(b.state(), ButtonState::Disabled);
    assert!(!b.click(true, MouseButtonKind::Left, true).handled);
    b.enable(true);
    assert_eq!(b.state(), ButtonState::Normal);
    assert!(!b.click(true, MouseButtonKind::Right, true).handled);
}

#[test]
fn shortcut_text() {
    assert_eq!(MenuShortcut::cmd('q').display_string(), "Cmd+Q");
    assert_eq!(MenuShortcut::cmd_shift('s').display_string(), "Shift+Cmd+S");
    let all = MenuModifiers::control().with_option().with_shift().with_command();
    assert_eq!(MenuShortcut::with_modifiers('1', all).display_string(), "Ctrl+Opt+Shift+Cmd+1");
    assert_eq!(MenuShortcut::with_modifiers('x', MenuModifiers::none()).display_string(), "X");
}

#[test]
fn menu_items() {
    let item = MenuItem::new("Open").shortcut("Cmd+O").checked(true).on_select(7);
    assert_eq!(item.label(), "Open");
    assert!(item.is_checked() && item.is_enabled());
    assert_eq!(item.action(), Some(7));
    assert!(!item.is_separator());
    assert!(MenuItem::separator().is_separator());

    let sep = NativeMenuItem::separator();
    assert!(sep.is_separator());
    let with_sub = NativeMenuItem::new("").submenu(vec![NativeMenuItem::new("a")]);
    assert!(!with_sub.is_separator());

    let file = NativeMenuBar::standard_file_menu();
    assert_eq!(file.title, "File");
    assert_eq!(file.items.len(), 7);
    assert_eq!(file.items[4].label, "Save As...");
    let menu = NativeMenu::new("Edit").add_item(NativeMenuItem::new("Copy").shortcut_cmd('c')).add_separator();
    assert_eq!(menu.items.len(), 2);
    let bar = NativeMenuBar::new().app_name("Demo").add_menu(menu).include_edit_menu(false);
    assert_eq!(bar.app_name, Some("Demo".to_string()));
    assert!(!bar.include_edit_menu && bar.include_app_menu);
}

#[test]
fn key_translation() {
    assert_eq!(macos_keys::translate_key(0x00), KeyCode::A);
    assert_eq!(macos_keys::translate_key(0x7E), KeyCode::Up);
    assert_eq!(macos_keys::translate_key(0xFF), KeyCode::Unknown);
    assert_eq!(macos_keys::translate_flags((1 << 17) | (1 << 20)), 1 | 8);
    assert_eq!(windows_keys::translate_key(0x41), KeyCode::A);
    assert_eq!(windows_keys::translate_key(0x0D), KeyCode::Enter);
    assert_eq!(windows_keys::translate_key(0x07), KeyCode::Unknown);
}

#[test]
fn layer_limits_and_deck() {
    let ls = vec![
        ViewLimits::new(Point::new(10, 5), Point::new(100, 50)),
        ViewLimits::new(Point::new(20, 2), Point::new(15, 80)),
    ];
    let l = layer_limits(&ls);
    assert_eq!(l.min, Point::new(20, 5));
    assert_eq!(l.max, Point::new(20, 50));
    assert_eq!(layer_limits(&vec![]), ViewLimits::full());

    let mut deck = Deck::from_vec(vec![child(false), child(true)]);
    let b = Rect::new(0, 0, 10, 10);
    assert_eq!(deck.hit(b, Point::new(5, 5)), Some(0));
    assert!(!deck.wants_focus());
    deck.select(1);
    assert_eq!(deck.active(), 1);
    assert!(deck.wants_focus());
    deck.select(9);
    assert_eq!(deck.active(), 1);
    assert_eq!(deck.hit(b, Point::new(50, 5)), None);
    assert_eq!(deck.limits(), ViewLimits::full());

    let ctx = Context::new(b);
    let inner = ctx.with_bounds(Rect::new(1, 1, 5, 5)).narrowed(false);
    assert_eq!(inner.bounds, Rect::new(1, 1, 5, 5));
    assert!(!inner.enabled);
    assert!(!inner.narrowed(true).enabled);
}

#[test]
fn cursor_and_click_routing() {
    let mut c = Composite::from_vec(vec![child(false).control(true), child(false)]);
    c.set_bounds(0, Rect::new(0, 0, 10, 10));
    c.set_bounds(1, Rect::new(20, 0, 30, 10));
    let r = c.cursor(Point::new(5, 5), CursorTracking::Entering);
    assert_eq!((r.leave, r.enter, r.hover), (None, Some(0), None));
    let r = c.cursor(Point::new(6, 5), CursorTracking::Hovering);
    assert_eq!((r.leave, r.enter, r.hover), (None, None, Some(0)));
    let r = c.cursor(Point::new(25, 5), CursorTracking::Hovering);
    assert_eq!((r.leave, r.enter, r.hover), (Some(0), Some(1), None));
    let r = c.cursor(Point::new(25, 5), CursorTracking::Leaving);
    assert_eq!((r.leave, r.enter, r.hover), (Some(1), None, None));

    assert_eq!(c.click_route(true, Point::new(5, 5)), Some(0));
    assert_eq!(c.drag_route(), Some(0));
    assert_eq!(c.click_route(false, Point::new(25, 5)), Some(0));
    assert_eq!(c.drag_route(), None);
    assert_eq!(c.click_route(true, Point::new(50, 50)), None);
    c.reset();
    assert_eq!(c.drag_route(), None);
}

#[test]
fn stack_limits_and_visible_children() {
    let mut c = Composite::from_vec(vec![
        Child::new(ViewLimits::new(Point::new(10, 5), Point::new(40, 50)), ViewStretch::default()),
        Child::new(ViewLimits::new(Point::new(20, 2), Point::new(30, 80)), ViewStretch::default()),
    ]);
    assert_eq!(c.limits(), ViewLimits::new(Point::new(20, 5), Point::new(40, 80)));
    c.set_bounds(0, Rect::new(0, 0, 10, 10));
    c.set_bounds(1, Rect::new(20, 0, 30, 10));
    assert_eq!(c.visible_children(Rect::new(0, 0, 100, 100), false), vec![0, 1]);
    assert_eq!(c.visible_children(Rect::new(0, 0, 100, 100), true), vec![1, 0]);
    assert_eq!(c.visible_children(Rect::new(15, 0, 100, 100), false), vec![1]);
    assert!(NativeMenuBar::standard_file_menu().items[2].is_separator());
    assert!(NativeMenuBar::standard_file_menu().items[5].is_separator());
}
