//! Event and command vocabulary shared with the transport.

use vstd::prelude::*;
use crate::screen::WindowId;

verus! {

/// The two pointer buttons the core grabs on the root window.
#[derive(Clone, Copy, PartialEq, Eq, Structural, Debug)]
pub enum MouseButton {
    LeftClick,
    RightClick,
}

/// A key event as the transport reports it: the modifier mask held and the
/// key symbol pressed.
#[derive(Clone, Copy, PartialEq, Eq, Structural, Debug)]
pub struct KeyEvent {
    pub mask: u32,
    pub key: u32,
}

/// The narrow mutation interface a keybind may invoke on the state machine.
#[derive(Clone, Copy, PartialEq, Eq, Structural, Debug)]
pub enum KeyAction {
    /// Re-assert input focus on the current workspace's focused window.
    FocusCurrent,
    /// Request a graceful shutdown: the running flag is cleared and the
    /// event loop stops at its next iteration boundary.
    Shutdown,
}

/// One entry of the static keybind table: scanned in declared order, first
/// `(mask, key)` match wins.
#[derive(Clone, Copy, PartialEq, Eq, Structural, Debug)]
pub struct KeyBind {
    pub mask: u32,
    pub key: u32,
    pub action: KeyAction,
}

/// An inbound event, as the transport delivers it.
///
/// Pointer positions are sampled by the caller with the transport's pointer
/// query at the moment the event is taken off the wire, and handed in with
/// the event; the display-server protocol reports them as 16-bit signed
/// coordinates.
#[derive(Clone, Copy, PartialEq, Eq, Structural, Debug)]
pub enum Event {
    /// A window asks to be mapped (shown and managed).
    MapRequest { window: WindowId },
    /// A window was unmapped at the server.
    UnmapNotify { window: WindowId },
    /// A window was destroyed at the server.
    DestroyNotify { window: WindowId },
    /// The pointer entered a window (pointer-follows-focus).
    EnterNotify { window: WindowId },
    /// The pointer moved during an active grab.
    MotionNotify { pointer_x: i16, pointer_y: i16 },
    /// A grabbed key was pressed over the given window.
    KeyPress { key: KeyEvent, window: WindowId },
    /// A grabbed pointer button went down over the given window.
    ButtonPress { button: MouseButton, window: WindowId, pointer_x: i16, pointer_y: i16 },
    /// A pointer button was released.
    ButtonRelease { button: MouseButton },
}

/// A transport command the core asks the surrounding program to issue.
/// Commands come out in order and are executed before the next event is
/// fetched.
#[derive(Clone, Copy, PartialEq, Eq, Structural, Debug)]
pub enum Command {
    /// Register the root window for window-management event delivery.
    ChangeRootAttributes,
    /// Grab one configured key on the root window.
    GrabKey { mask: u32, key: u32 },
    /// Grab one pointer button, combined with the configured modifier, on
    /// the root window.
    GrabButton { button: MouseButton },
    /// Create the default core cursor.
    CreateCursor,
    /// Set the default cursor on the root window.
    SetCursor,
    /// Fetch the root geometry from the server into the screen cache.
    UpdateGeometry,
    /// Claim the pointer exclusively.
    GrabPointer,
    /// Release the pointer claim.
    UngrabPointer,
    /// Set transport-level input focus to a window.
    SetInputFocus { window: WindowId },
    /// Focus a managed window: restack, highlight and give it input focus.
    FocusWindow { window: WindowId },
    /// Map and arrange a newly managed window.
    PlaceWindow { window: WindowId },
    /// Move a window by a pointer delta.
    MoveWindow { window: WindowId, dx: i32, dy: i32 },
    /// Resize a window by a pointer delta.
    ResizeWindow { window: WindowId, dx: i32, dy: i32 },
}

} // verus!
