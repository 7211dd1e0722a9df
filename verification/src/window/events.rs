//! The events a window reports, and the modes it can be shown in.

use vstd::prelude::*;

use super::keycode::KeyCode;

verus! {

/// Type of keyboard event
#[derive(Debug, Clone, Copy, PartialEq, Eq, Structural)]
pub enum KeyboardEvent {
    /// Key pressed
    Pressed,
    /// Key held
    Repeated,
    /// Key released
    Released,
}

/// Type of mouse event
#[derive(Debug, Clone, Copy, PartialEq, Eq, Structural)]
pub enum MouseEvent {
    /// Mouse moved
    Move,
    /// Left mouse button pressed
    LeftButtonDown,
    /// Left mouse button released
    LeftButtonUp,
    /// Right mouse button pressed
    RightButtonDown,
    /// Right mouse button released
    RightButtonUp,
    /// Middle mouse button pressed
    MiddleButtonDown,
    /// Middle mouse button released
    MiddleButtonUp,
}

/// Window event
#[derive(Debug, Clone, Copy, PartialEq, Eq, Structural)]
pub enum WindowEvent {
    /// Keyboard input event
    KeyboardInput(KeyCode, KeyboardEvent),
    /// Mouse input event
    MouseInput(MouseEvent, i16, i16),
    /// Window closed
    Closed,
    /// Window resized
    Resized(u16, u16),
    /// Window moved
    Moved(i16, i16),
    /// Window focused/unfocused
    Focused(bool),
}

/// Window mode
#[derive(Debug, Clone, Copy, PartialEq, Eq, Structural)]
pub enum WindowMode {
    /// Regular window
    Windowed,
    /// Fullscreen (exclusive mode)
    Fullscreen,
    /// Fullscreen borderless window
    FullscreenWindowed,
}

} // verus!
