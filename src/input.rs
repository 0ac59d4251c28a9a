//! Normalized input events, as the host hands them to the element tree.
use vstd::prelude::*;
use crate::geometry::Point;

verus! {

/// Which mouse button.
#[derive(Debug, Clone, Copy, PartialEq, Eq, Hash, Structural)]
pub enum MouseButtonKind {
    Left,
    Middle,
    Right,
}

/// Whether a mouse button went down or up.
#[derive(Debug, Clone, Copy, PartialEq, Eq, Structural)]
pub enum MouseButtonState {
    Pressed,
    Released,
}

/// A mouse-button event.
#[derive(Debug, Clone, Copy, PartialEq, Eq, Structural)]
pub struct MouseButton {
    pub down: bool,
    pub click_count: i32,
    pub button: MouseButtonKind,
    pub modifiers: i32,
    pub pos: Point,
}

impl MouseButton {
    /// A single click with no modifiers.
    pub fn new(down: bool, button: MouseButtonKind, pos: Point) -> (r: MouseButton)
        ensures
            r == (MouseButton { down, click_count: 1, button, modifiers: 0, pos }),
    {
        MouseButton { down, click_count: 1, button, modifiers: 0, pos }
    }
}

/// Keys, independent of the platform's key codes.
#[derive(Debug, Clone, Copy, PartialEq, Eq, Hash, Structural)]
pub enum KeyCode {
    A, B, C, D, E, F, G, H, I, J, K, L, M,
    N, O, P, Q, R, S, T, U, V, W, X, Y, Z,
    Key0, Key1, Key2, Key3, Key4,
    Key5, Key6, Key7, Key8, Key9,
    F1, F2, F3, F4, F5, F6, F7, F8, F9, F10, F11, F12,
    Up, Down, Left, Right,
    Home, End, PageUp, PageDown,
    Backspace, Delete, Insert,
    Enter, Tab, Escape,
    Space,
    Shift, Control, Alt, Super,
    LeftShift, RightShift,
    LeftControl, RightControl,
    LeftAlt, RightAlt,
    LeftSuper, RightSuper,
    CapsLock, NumLock, ScrollLock,
    PrintScreen, Pause,
    Menu,
    Unknown,
}

/// What happened to a key.
#[derive(Debug, Clone, Copy, PartialEq, Eq, Structural)]
pub enum KeyAction {
    Press,
    Release,
    Repeat,
}

/// A key event.
#[derive(Debug, Clone, Copy, PartialEq, Eq, Structural)]
pub struct KeyInfo {
    pub key: KeyCode,
    pub action: KeyAction,
    pub modifiers: i32,
}

/// A text-input event.
#[derive(Debug, Clone, Copy, PartialEq, Eq, Structural)]
pub struct TextInfo {
    pub codepoint: char,
    pub modifiers: i32,
}

/// Cursor tracking relative to an element.
#[derive(Debug, Clone, Copy, PartialEq, Eq, Structural)]
pub enum CursorTracking {
    Entering,
    Hovering,
    Leaving,
}

/// Mouse cursor shapes.
#[derive(Debug, Clone, Copy, PartialEq, Eq, Default, Structural)]
pub enum CursorType {
    #[default]
    Arrow,
    IBeam,
    CrossHair,
    Hand,
    HResize,
    VResize,
}

/// Modifier bit: shift.
pub const MOD_SHIFT: i32 = 1;
/// Modifier bit: control.
pub const MOD_CONTROL: i32 = 2;
/// Modifier bit: alt / option.
pub const MOD_ALT: i32 = 4;
/// Modifier bit: super / command.
pub const MOD_SUPER: i32 = 8;
/// Modifier bit: caps lock.
pub const MOD_CAPS_LOCK: i32 = 16;
/// Modifier bit: num lock.
pub const MOD_NUM_LOCK: i32 = 32;

} // verus!
