//! Window configuration shared by the platform hosts.
use vstd::prelude::*;

verus! {

/// Where a window opens; `(-1, -1)` asks for the screen's center.
#[derive(Debug, Clone, Copy, PartialEq, Eq, Structural)]
pub struct WindowPosition {
    pub x: i32,
    pub y: i32,
}

impl WindowPosition {
    pub fn new(x: i32, y: i32) -> (r: WindowPosition)
        ensures
            r == (WindowPosition { x, y }),
    {
        WindowPosition { x, y }
    }

    /// The centered position.
    pub fn center() -> (r: WindowPosition)
        ensures
            r.x == -1 && r.y == -1,
    {
        WindowPosition { x: -1, y: -1 }
    }

    /// True for the centered position.
    pub fn is_centered(&self) -> (r: bool)
        ensures
            r == (self.x == -1 && self.y == -1),
    {
        self.x == -1 && self.y == -1
    }
}

impl Default for WindowPosition {
    fn default() -> (r: WindowPosition)
        ensures
            r.x == -1 && r.y == -1,
    {
        WindowPosition::center()
    }
}

/// Window decorations and behaviour.
#[derive(Debug, Clone, Copy, PartialEq, Eq, Structural)]
pub struct WindowStyle {
    pub closable: bool,
    pub miniaturizable: bool,
    pub resizable: bool,
    pub borderless: bool,
}

impl WindowStyle {
    /// No border, and neither closable, miniaturizable nor resizable.
    pub fn borderless() -> (r: WindowStyle)
        ensures
            r == (WindowStyle { closable: false, miniaturizable: false, resizable: false, borderless: true }),
    {
        WindowStyle { closable: false, miniaturizable: false, resizable: false, borderless: true }
    }
}

impl Default for WindowStyle {
    /// A closable, miniaturizable, resizable window with a border.
    fn default() -> (r: WindowStyle)
        ensures
            r == (WindowStyle { closable: true, miniaturizable: true, resizable: true, borderless: false }),
    {
        WindowStyle { closable: true, miniaturizable: true, resizable: true, borderless: false }
    }
}

/// What can go wrong when a platform host starts.
#[derive(Debug)]
pub enum PlatformError {
    WindowCreation(String),
    Initialization(String),
    Other(String),
}

impl PlatformError {
    /// The message shown for the error.
    pub fn message(&self) -> (r: String)
        ensures
            r@ == match self {
                PlatformError::WindowCreation(s) => "Failed to create window: "@ + s@,
                PlatformError::Initialization(s) => "Failed to initialize application: "@ + s@,
                PlatformError::Other(s) => "Platform error: "@ + s@,
            },
    {
        match self {
            PlatformError::WindowCreation(s) => {
                let mut m = "Failed to create window: ".to_owned();
                m.append(s.as_str());
                m
            },
            PlatformError::Initialization(s) => {
                let mut m = "Failed to initialize application: ".to_owned();
                m.append(s.as_str());
                m
            },
            PlatformError::Other(s) => {
                let mut m = "Platform error: ".to_owned();
                m.append(s.as_str());
                m
            },
        }
    }
}

/// The Windows application handle; it holds no state of its own.
#[derive(Debug, Clone, Copy, PartialEq, Eq, Structural)]
pub struct WindowsApp {}

impl WindowsApp {
    /// A new application; creation always succeeds.
    pub fn new() -> (r: Option<WindowsApp>)
        ensures
            r is Some,
    {
        Some(WindowsApp {})
    }
}

} // verus!
