//! Window-system events, reduced to what the viewer reads from them.

use vstd::prelude::*;

verus! {

/// Whether a key went down or came up.
#[derive(Clone, Copy, PartialEq, Eq, Structural, Debug)]
pub enum ElementState {
    Pressed,
    Released,
}

/// The keys the viewer tells apart; every other key is `Other`.
#[derive(Clone, Copy, PartialEq, Eq, Structural, Debug)]
pub enum VirtualKeyCode {
    Space,
    LShift,
    W,
    A,
    S,
    D,
    Up,
    Left,
    Down,
    Right,
    Escape,
    Other,
}

/// One keyboard transition.  `virtual_keycode` is `None` where the window
/// system could not name the key.
#[derive(Clone, Copy, PartialEq, Eq, Debug)]
pub struct KeyboardInput {
    pub state: ElementState,
    pub virtual_keycode: Option<VirtualKeyCode>,
}

/// A size in physical pixels.
#[derive(Clone, Copy, PartialEq, Eq, Structural, Debug)]
pub struct PhysicalSize {
    pub width: u32,
    pub height: u32,
}

/// An event addressed to a window.
#[derive(Clone, Copy, PartialEq, Eq, Debug)]
pub enum WindowEvent {
    /// The user asked to close the window.
    CloseRequested,
    /// A key went down or came up.
    KeyboardInput { input: KeyboardInput },
    /// The window now has this inner size.
    Resized(PhysicalSize),
    /// The scale factor changed; the window system proposes this inner size.
    ScaleFactorChanged { new_inner_size: PhysicalSize },
    /// The window moved; `inner_size` is its inner size at that moment.
    Moved { inner_size: PhysicalSize },
    /// Anything else.
    Other,
}

/// An event as the event loop delivers it.
#[derive(Clone, Copy, PartialEq, Eq, Debug)]
pub enum Event {
    /// The window has to be drawn again.
    RedrawRequested,
    /// All pending events have been delivered.
    MainEventsCleared,
    /// A window event; `own_window` tells whether it is addressed to the
    /// viewer's window.
    WindowEvent { event: WindowEvent, own_window: bool },
    /// Anything else.
    Other,
}

} // verus!
