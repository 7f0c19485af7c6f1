//! Interaction core of a minimal tiling window manager.
//!
//! The library holds the parts of the window manager that decide: the
//! screen-geometry cache, the workspace container, keybind dispatch, and the
//! interaction state machine that turns each inbound display-server event
//! into a state change plus a list of transport commands. The display-server
//! transport itself (connecting, blocking for events, issuing requests) is
//! left to the surrounding program, which feeds events in and carries the
//! returned commands out.

pub mod desktop;
pub mod event;
pub mod laws;
pub mod screen;
pub mod wm;
