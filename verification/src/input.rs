//! What the platform reports each frame.

use vstd::prelude::*;

verus! {

/// A key of the keyboard. The game reads two of them; every other key
/// carries the platform's code.
#[derive(Clone, Copy, Debug, PartialEq, Eq, Structural)]
pub enum Key {
    Escape,
    F3,
    Other(i32),
}

/// A button of the mouse.
#[derive(Clone, Copy, Debug, PartialEq, Eq, Structural)]
pub enum MouseButton {
    Left,
    Middle,
    Right,
    Other,
}

/// One discrete event of a frame.
#[derive(Clone, Copy, Debug, PartialEq, Eq, Structural)]
pub enum InputEvent {
    /// The window was asked to close.
    Quit,
    /// A key went down.
    KeyDown { key: Key },
    /// A mouse button went down at the given place.
    MouseButtonDown { button: MouseButton, x: i32, y: i32 },
    /// Anything else, which the game does not read.
    Other,
}

impl InputEvent {
    /// Whether this event is the left mouse button going down.
    pub open spec fn is_left_click(self) -> bool {
        match self {
            InputEvent::MouseButtonDown { button, .. } => button == MouseButton::Left,
            _ => false,
        }
    }

    /// Whether this event asks the game to stop: a quit request or Escape.
    pub open spec fn is_quit(self) -> bool {
        match self {
            InputEvent::Quit => true,
            InputEvent::KeyDown { key } => key == Key::Escape,
            _ => false,
        }
    }

    /// Whether this event toggles the debug overlay.
    pub open spec fn is_debug_toggle(self) -> bool {
        match self {
            InputEvent::KeyDown { key } => key == Key::F3,
            _ => false,
        }
    }

    /// Whether this event is the left mouse button going down.
    pub fn left_click(&self) -> (r: bool)
        ensures
            r == self.is_left_click(),
    {
        match self {
            InputEvent::MouseButtonDown { button, .. } => match button {
                MouseButton::Left => true,
                _ => false,
            },
            _ => false,
        }
    }

    /// Whether this event asks the game to stop.
    pub fn quit(&self) -> (r: bool)
        ensures
            r == self.is_quit(),
    {
        match self {
            InputEvent::Quit => true,
            InputEvent::KeyDown { key } => match key {
                Key::Escape => true,
                _ => false,
            },
            _ => false,
        }
    }

    /// Whether this event toggles the debug overlay.
    pub fn debug_toggle(&self) -> (r: bool)
        ensures
            r == self.is_debug_toggle(),
    {
        match self {
            InputEvent::KeyDown { key } => match key {
                Key::F3 => true,
                _ => false,
            },
            _ => false,
        }
    }
}

/// Whether a frame's events hold a left click.
pub open spec fn has_left_click(events: Seq<InputEvent>) -> bool {
    exists|i: int| 0 <= i < events.len() && (#[trigger] events[i]).is_left_click()
}

/// Scans a frame's events for a left click.
pub fn any_left_click(events: &Vec<InputEvent>) -> (r: bool)
    ensures
        r == has_left_click(events@),
{
    let mut i: usize = 0;
    while i < events.len()
        invariant
            i <= events.len(),
            forall|j: int| 0 <= j < i ==> !(#[trigger] events@[j]).is_left_click(),
        decreases events.len() - i,
    {
        if events[i].left_click() {
            return true;
        }
        i += 1;
    }
    false
}

} // verus!
