//! The interaction state shared by pointer-driven widgets, and the small
//! enumerations that configure concrete widgets.
use vstd::prelude::*;
use crate::input::{CursorTracking, MouseButtonKind};

verus! {

/// The canonical interaction state of a pressable widget.
#[derive(Debug, Clone, Copy, PartialEq, Eq, Default, Structural)]
pub enum ButtonState {
    #[default]
    Normal,
    Hover,
    Pressed,
    Disabled,
}

/// The state after a mouse-button event, and whether the widget's action
/// fires. Disabled widgets and buttons other than the left ignore the event.
/// A press enters `Pressed`; a release fires the action only when it ends a
/// press inside the widget, and leaves `Hover` inside, `Normal` outside.
pub open spec fn click_next(
    state: ButtonState,
    enabled: bool,
    down: bool,
    button: MouseButtonKind,
    inside: bool,
) -> (ButtonState, bool) {
    if !enabled || button != MouseButtonKind::Left {
        (state, false)
    } else if down {
        (ButtonState::Pressed, false)
    } else {
        (
            if inside { ButtonState::Hover } else { ButtonState::Normal },
            state == ButtonState::Pressed && inside,
        )
    }
}

/// The state after cursor tracking: entering or hovering shows `Hover`,
/// leaving returns to `Normal`; a press in progress is kept.
pub open spec fn cursor_next(state: ButtonState, enabled: bool, status: CursorTracking) -> ButtonState {
    if !enabled || state == ButtonState::Pressed {
        state
    } else {
        match status {
            CursorTracking::Leaving => ButtonState::Normal,
            _ => ButtonState::Hover,
        }
    }
}

/// What a widget reports for a mouse-button event.
#[derive(Debug, Clone, Copy, PartialEq, Eq, Structural)]
pub struct ClickOutcome {
    /// The widget consumed the event.
    pub handled: bool,
    /// The widget's action (its callback) is to run now, once.
    pub fire: bool,
}

/// The interaction state machine of a pressable widget. The widget's owner
/// runs the action callback when a click reports `fire`, after the state has
/// been updated.
#[derive(Debug, Clone, Copy, PartialEq, Eq, Structural)]
pub struct Pressable {
    pub state: ButtonState,
    pub enabled: bool,
}

impl Pressable {
    /// `Disabled` exactly when not enabled.
    pub open spec fn wf(&self) -> bool {
        (self.state == ButtonState::Disabled) == !self.enabled
    }

    /// An enabled widget at rest.
    pub fn new() -> (r: Pressable)
        ensures
            r.wf(),
            r.state == ButtonState::Normal,
            r.enabled,
    {
        Pressable { state: ButtonState::Normal, enabled: true }
    }

    /// The current state.
    pub fn state(&self) -> (r: ButtonState)
        ensures
            r == self.state,
    {
        self.state
    }

    /// Handles a mouse-button event; `inside` tells whether its position lies
    /// in the widget's bounds.
    pub fn click(&mut self, down: bool, button: MouseButtonKind, inside: bool) -> (r: ClickOutcome)
        requires
            old(self).wf(),
        ensures
            final(self).wf(),
            final(self).enabled == old(self).enabled,
            (final(self).state, r.fire) == click_next(old(self).state, old(self).enabled, down, button, inside),
            r.handled == (old(self).enabled && button == MouseButtonKind::Left),
    {
        if !self.enabled || button != MouseButtonKind::Left {
            return ClickOutcome { handled: false, fire: false };
        }
        if down {
            self.state = ButtonState::Pressed;
            ClickOutcome { handled: true, fire: false }
        } else {
            let fire = self.state == ButtonState::Pressed && inside;
            self.state = if inside { ButtonState::Hover } else { ButtonState::Normal };
            ClickOutcome { handled: true, fire }
        }
    }

    /// Handles cursor tracking. Returns whether the event was consumed.
    pub fn cursor(&mut self, status: CursorTracking) -> (r: bool)
        requires
            old(self).wf(),
        ensures
            final(self).wf(),
            final(self).enabled == old(self).enabled,
            final(self).state == cursor_next(old(self).state, old(self).enabled, status),
            r == old(self).enabled,
    {
        if !self.enabled || self.state == ButtonState::Pressed {
            return self.enabled;
        }
        self.state = match status {
            CursorTracking::Leaving => ButtonState::Normal,
            _ => ButtonState::Hover,
        };
        true
    }

    /// Enables or disables the widget: disabling enters `Disabled`, enabling
    /// a disabled widget returns it to `Normal`.
    pub fn enable(&mut self, on: bool)
        requires
            old(self).wf(),
        ensures
            final(self).wf(),
            final(self).enabled == on,
            final(self).state == if !on {
                ButtonState::Disabled
            } else if old(self).state == ButtonState::Disabled {
                ButtonState::Normal
            } else {
                old(self).state
            },
    {
        self.enabled = on;
        if !on {
            self.state = ButtonState::Disabled;
        } else if self.state == ButtonState::Disabled {
            self.state = ButtonState::Normal;
        }
    }

    /// Whether the widget is enabled.
    pub fn is_enabled(&self) -> (r: bool)
        ensures
            r == self.enabled,
    {
        self.enabled
    }
}

/// Press then release inside goes `Normal -> Pressed -> Hover` and fires the
/// action exactly once; press then release after the pointer has left goes
/// back to `Normal` and does not fire.
pub proof fn lemma_press_release(inside: bool)
    ensures
        click_next(ButtonState::Normal, true, true, MouseButtonKind::Left, true) == (ButtonState::Pressed, false),
        click_next(ButtonState::Pressed, true, false, MouseButtonKind::Left, inside) == if inside {
            (ButtonState::Hover, true)
        } else {
            (ButtonState::Normal, false)
        },
{
}

/// A release that does not end a press never fires.
pub proof fn lemma_release_without_press(state: ButtonState, enabled: bool, button: MouseButtonKind, inside: bool)
    requires
        state != ButtonState::Pressed,
    ensures
        !click_next(state, enabled, false, button, inside).1,
{
}

/// Interaction state of a checkbox.
#[derive(Debug, Clone, Copy, PartialEq, Eq, Default, Structural)]
pub enum CheckboxState {
    #[default]
    Normal,
    Hover,
    Pressed,
    Disabled,
}

/// Interaction state of a dial.
#[derive(Debug, Clone, Copy, PartialEq, Eq, Default, Structural)]
pub enum DialState {
    #[default]
    Normal,
    Hover,
    Dragging,
    Disabled,
}

/// How many items of a list can be selected.
#[derive(Debug, Clone, Copy, PartialEq, Eq, Default, Structural)]
pub enum SelectionMode {
    #[default]
    Single,
    Multiple,
    NoSelection,
}

/// How a progress indicator is drawn.
#[derive(Debug, Clone, Copy, PartialEq, Eq, Default, Structural)]
pub enum ProgressStyle {
    #[default]
    Linear,
    Circular,
}

/// When scroll bars show.
#[derive(Debug, Clone, Copy, PartialEq, Eq, Default, Structural)]
pub enum ScrollbarVisibility {
    #[default]
    Auto,
    Always,
    Never,
}

/// Interaction state of a slider.
#[derive(Debug, Clone, Copy, PartialEq, Eq, Default, Structural)]
pub enum SliderState {
    #[default]
    Normal,
    Hover,
    Dragging,
    Disabled,
}

/// Direction of a slider.
#[derive(Debug, Clone, Copy, PartialEq, Eq, Default, Structural)]
pub enum SliderOrientation {
    #[default]
    Horizontal,
    Vertical,
}

/// Interaction state of a switch.
#[derive(Debug, Clone, Copy, PartialEq, Eq, Default, Structural)]
pub enum SwitchState {
    #[default]
    Normal,
    Hover,
    Pressed,
    Disabled,
}

/// Where the tab bar sits.
#[derive(Debug, Clone, Copy, PartialEq, Eq, Default, Structural)]
pub enum TabPosition {
    #[default]
    Top,
    Bottom,
    Left,
    Right,
}

/// Interaction state of a text box.
#[derive(Debug, Clone, Copy, PartialEq, Eq, Default, Structural)]
pub enum TextBoxState {
    #[default]
    Idle,
    Hover,
    Focused,
    Disabled,
}

/// Direction of a thumbwheel.
#[derive(Debug, Clone, Copy, PartialEq, Eq, Default, Structural)]
pub enum ThumbwheelOrientation {
    #[default]
    Horizontal,
    Vertical,
}

/// Interaction state of a thumbwheel.
#[derive(Debug, Clone, Copy, PartialEq, Eq, Default, Structural)]
pub enum ThumbwheelState {
    #[default]
    Normal,
    Hover,
    Dragging,
    Disabled,
}

} // verus!
