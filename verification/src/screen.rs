//! Geometry cache for one physical display root.

use vstd::prelude::*;

verus! {

/// Identifier of a window owned by the display server. The core never
/// allocates or frees one; it only records them.
pub type WindowId = u32;

/// Cached geometry of one display root: signed origin and extents, all zero
/// until the first geometry fetch, plus the screen index and the root-window
/// identifier that routes every screen-scoped transport call.
pub struct Screen {
    pub x: i32,
    pub y: i32,
    pub width: i32,
    pub height: i32,
    pub idx: i32,
    pub root_id: WindowId,
}

impl Screen {
    /// A fresh cache for the given screen index and root window: geometry all
    /// zero until `set` is called with the server-reported values.
    pub fn new(screen_idx: i32, root_id: WindowId) -> (s: Screen)
        ensures
            s.x == 0,
            s.y == 0,
            s.width == 0,
            s.height == 0,
            s.idx == screen_idx,
            s.root_id == root_id,
    {
        Screen { x: 0, y: 0, width: 0, height: 0, idx: screen_idx, root_id }
    }

    /// Overwrites all four geometry fields unconditionally; the caller (the
    /// transport's geometry query) is trusted, so nothing is validated.
    pub fn set(&mut self, x: i32, y: i32, width: i32, height: i32)
        ensures
            final(self).x == x,
            final(self).y == y,
            final(self).width == width,
            final(self).height == height,
            final(self).idx == old(self).idx,
            final(self).root_id == old(self).root_id,
    {
        self.x = x;
        self.y = y;
        self.width = width;
        self.height = height;
    }

    /// The identifier used to route screen-scoped transport calls.
    pub fn id(&self) -> (r: WindowId)
        ensures
            r == self.root_id,
    {
        self.root_id
    }
}

} // verus!
