//! The terminal input the application reacts to, as plain values, and the
//! rate at which it is polled.

use vstd::prelude::*;

verus! {

/// The key of a key press.
#[derive(PartialEq, Eq, Structural, Clone, Copy, Debug)]
pub enum KeyCode {
    Char(char),
    Enter,
    Esc,
    Backspace,
    Up,
    Down,
    Left,
    Right,
    Home,
    End,
    PageUp,
    PageDown,
    Insert,
    /// Any key the screens do not react to.
    Other,
}

/// A key press with the modifiers that the screens look at.
#[derive(PartialEq, Eq, Structural, Clone, Copy, Debug)]
pub struct KeyInput {
    pub code: KeyCode,
    pub ctrl: bool,
    pub shift: bool,
}

/// What a mouse event does to the scrollable panes.
#[derive(PartialEq, Eq, Structural, Clone, Copy, Debug)]
pub enum MouseScroll {
    Up,
    Down,
    /// Any other mouse event.
    Other,
}

/// Polls for terminal events at a fixed tick rate.
pub struct EventHandler {
    /// The longest wait for the next event, in milliseconds.
    pub tick_rate_ms: u64,
}

impl EventHandler {
    /// A handler that polls every `tick_rate_ms` milliseconds.
    pub fn new(tick_rate_ms: u64) -> (r: Self)
        ensures
            r.tick_rate_ms == tick_rate_ms,
    {
        EventHandler { tick_rate_ms }
    }
}

} // verus!
