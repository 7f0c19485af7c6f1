//! The interaction state machine: consumes transport events, mutates the
//! screen/workspace state, and issues transport commands.

use vstd::prelude::*;
use crate::desktop::{Desktop, DesktopView, WorkspaceView, lemma_find_from_props,
    lemma_locate_from_props};
use crate::event::{Command, Event, KeyAction, KeyBind, MouseButton};
use crate::screen::{Screen, WindowId};

verus! {

/// Mouse-interaction mode. `Ground` is the rest state: no pointer grab is
/// held and motion events carry no meaning. `Move` and `Resize` are the
/// active-interaction states: the pointer is grabbed exclusively and motion
/// deltas are applied to the focused window.
#[derive(Clone, Copy, PartialEq, Eq, Structural, Debug)]
pub enum MouseMode {
    Ground,
    Move,
    Resize,
}

/// Mathematical model of the whole state machine.
#[verifier::ext_equal]
pub struct WmView {
    pub screen: Screen,
    pub desktop: DesktopView,
    pub keybinds: Seq<KeyBind>,
    pub mode: MouseMode,
    pub last_x: int,
    pub last_y: int,
    pub running: bool,
}

/// Index of the first keybind entry whose `(mask, key)` matches, scanning
/// in declared order from position `i`.
pub open spec fn first_match(binds: Seq<KeyBind>, mask: u32, key: u32, i: int) -> Option<int>
    decreases binds.len() - i,
{
    if i < 0 || i >= binds.len() {
        None
    } else if binds[i].mask == mask && binds[i].key == key {
        Some(i)
    } else {
        first_match(binds, mask, key, i + 1)
    }
}

/// What `first_match` returns: the first matching entry at or after `i`, or
/// nothing when no entry from `i` on matches.
pub proof fn lemma_first_match_props(binds: Seq<KeyBind>, mask: u32, key: u32, i: int)
    requires
        0 <= i <= binds.len(),
    ensures
        first_match(binds, mask, key, i) matches Some(j) ==> i <= j < binds.len()
            && binds[j].mask == mask && binds[j].key == key
            && (forall|k: int| i <= k < j ==> !(binds[k].mask == mask && binds[k].key == key)),
        first_match(binds, mask, key, i) is None
            ==> (forall|k: int| i <= k < binds.len()
                ==> !(binds[k].mask == mask && binds[k].key == key)),
    decreases binds.len() - i,
{
    if i < binds.len() && !(binds[i].mask == mask && binds[i].key == key) {
        lemma_first_match_props(binds, mask, key, i + 1);
    }
}

impl WmView {
    /// The state machine is well-formed when its container is.
    pub open spec fn wf(self) -> bool {
        self.desktop.wf()
    }

    /// Whether `window` is the current workspace's focused window.
    pub open spec fn is_cur_focused(self, window: WindowId) -> bool {
        self.desktop.cur().windows.len() > 0 && self.desktop.cur().focused_window() == window
    }

    /// The one unrecoverable event: a motion report while resting in
    /// `Ground` with windows on the current workspace. The transport must
    /// not deliver motion without an active grab, so this is a protocol
    /// contract breach, not a recoverable condition.
    pub open spec fn motion_fault(self, e: Event) -> bool {
        &&& e is MotionNotify
        &&& self.desktop.cur().windows.len() > 0
        &&& self.mode is Ground
    }

    /// The same state with another container.
    pub open spec fn with_desktop(self, d: DesktopView) -> WmView {
        WmView {
            screen: self.screen,
            desktop: d,
            keybinds: self.keybinds,
            mode: self.mode,
            last_x: self.last_x,
            last_y: self.last_y,
            running: self.running,
        }
    }

    /// The same state with another mouse mode.
    pub open spec fn with_mode(self, m: MouseMode) -> WmView {
        WmView {
            screen: self.screen,
            desktop: self.desktop,
            keybinds: self.keybinds,
            mode: m,
            last_x: self.last_x,
            last_y: self.last_y,
            running: self.running,
        }
    }

    /// The same state with another last pointer position.
    pub open spec fn with_last(self, x: int, y: int) -> WmView {
        WmView {
            screen: self.screen,
            desktop: self.desktop,
            keybinds: self.keybinds,
            mode: self.mode,
            last_x: x,
            last_y: y,
            running: self.running,
        }
    }

    /// The same state with another running flag.
    pub open spec fn with_running(self, b: bool) -> WmView {
        WmView {
            screen: self.screen,
            desktop: self.desktop,
            keybinds: self.keybinds,
            mode: self.mode,
            last_x: self.last_x,
            last_y: self.last_y,
            running: b,
        }
    }

    /// The state after refocusing `window` in the current workspace, when
    /// it is not focused there already.
    pub open spec fn after_refocus(self, window: WindowId) -> WmView {
        if self.is_cur_focused(window) {
            self
        } else {
            self.with_desktop(self.desktop.focus_window(self.desktop.current, window))
        }
    }

    /// One transition of the interaction state machine: the state after
    /// consuming `e`.
    pub open spec fn step(self, e: Event) -> WmView {
        match e {
            Event::MapRequest { window } => match self.desktop.locate(window) {
                Some(p) => if p.0 == self.desktop.current {
                    self.with_desktop(self.desktop.focus_window(p.0, window))
                } else {
                    self
                },
                None => self.with_desktop(self.desktop.add_window(window)),
            },
            Event::UnmapNotify { window } => match self.desktop.locate(window) {
                Some(p) => self.with_desktop(self.desktop.del_window(p.0, p.1)),
                None => self,
            },
            Event::DestroyNotify { window } => match self.desktop.locate(window) {
                Some(p) => self.with_desktop(self.desktop.del_window(p.0, p.1)),
                None => self,
            },
            Event::EnterNotify { .. } => self,
            Event::MotionNotify { pointer_x, pointer_y } => {
                if self.desktop.cur().windows.len() == 0 || self.mode is Ground {
                    self
                } else {
                    self.with_last(pointer_x as int, pointer_y as int)
                }
            },
            Event::KeyPress { key, window } => match first_match(self.keybinds, key.mask, key.key, 0) {
                None => self,
                Some(b) => {
                    let s1 = self.after_refocus(window);
                    match self.keybinds[b].action {
                        KeyAction::FocusCurrent => s1,
                        KeyAction::Shutdown => s1.with_running(false),
                    }
                },
            },
            Event::ButtonPress { button, window, pointer_x, pointer_y } => {
                if self.desktop.cur().windows.len() == 0 {
                    self
                } else {
                    let s2 = self.with_last(pointer_x as int, pointer_y as int).after_refocus(window);
                    match button {
                        MouseButton::LeftClick => s2.with_mode(MouseMode::Move),
                        MouseButton::RightClick => s2.with_mode(MouseMode::Resize),
                    }
                }
            },
            Event::ButtonRelease { .. } => self.with_mode(MouseMode::Ground),
        }
    }

    /// One transition's output: the transport commands issued while
    /// consuming `e`, in order.
    pub open spec fn step_commands(self, e: Event) -> Seq<Command> {
        match e {
            Event::MapRequest { window } => match self.desktop.locate(window) {
                Some(p) => if p.0 == self.desktop.current {
                    seq![Command::FocusWindow { window }]
                } else {
                    Seq::empty()
                },
                None => seq![Command::PlaceWindow { window }],
            },
            Event::UnmapNotify { .. } => Seq::empty(),
            Event::DestroyNotify { .. } => Seq::empty(),
            Event::EnterNotify { window } => seq![Command::SetInputFocus { window }],
            Event::MotionNotify { pointer_x, pointer_y } => {
                if self.desktop.cur().windows.len() == 0 {
                    Seq::empty()
                } else {
                    let dx = (pointer_x as int - self.last_x) as i32;
                    let dy = (pointer_y as int - self.last_y) as i32;
                    let target = self.desktop.cur().focused_window();
                    match self.mode {
                        MouseMode::Ground => Seq::empty(),
                        MouseMode::Move => seq![Command::MoveWindow { window: target, dx, dy }],
                        MouseMode::Resize => seq![Command::ResizeWindow { window: target, dx, dy }],
                    }
                }
            },
            Event::KeyPress { key, window } => match first_match(self.keybinds, key.mask, key.key, 0) {
                None => Seq::empty(),
                Some(b) => {
                    let foc: Seq<Command> = if self.is_cur_focused(window) {
                        Seq::empty()
                    } else {
                        seq![Command::FocusWindow { window }]
                    };
                    let s1 = self.after_refocus(window);
                    let act: Seq<Command> = match self.keybinds[b].action {
                        KeyAction::FocusCurrent => if s1.desktop.cur().windows.len() > 0 {
                            seq![Command::SetInputFocus { window: s1.desktop.cur().focused_window() }]
                        } else {
                            Seq::empty()
                        },
                        KeyAction::Shutdown => Seq::empty(),
                    };
                    foc + act
                },
            },
            Event::ButtonPress { window, .. } => {
                if self.desktop.cur().windows.len() == 0 {
                    Seq::empty()
                } else {
                    seq![Command::GrabPointer] + (if self.is_cur_focused(window) {
                        Seq::empty()
                    } else {
                        seq![Command::FocusWindow { window }]
                    })
                }
            },
            Event::ButtonRelease { .. } => seq![Command::UngrabPointer],
        }
    }
}

/// The registration-time key grabs, one per keybind entry, in table order.
pub open spec fn grab_key_commands(binds: Seq<KeyBind>) -> Seq<Command> {
    binds.map_values(|b: KeyBind| Command::GrabKey { mask: b.mask, key: b.key })
}

/// The one-time start-up sequence the surrounding program must issue:
/// register for window-management events, grab every configured key, grab
/// the two pointer buttons, install the default cursor, and fetch the
/// initial geometry.
pub open spec fn registration_plan(binds: Seq<KeyBind>) -> Seq<Command> {
    seq![Command::ChangeRootAttributes] + grab_key_commands(binds) + seq![
        Command::GrabButton { button: MouseButton::LeftClick },
        Command::GrabButton { button: MouseButton::RightClick },
        Command::CreateCursor,
        Command::SetCursor,
        Command::UpdateGeometry,
    ]
}

/// The interaction state machine.
pub struct WM {
    /// Geometry cache of the managed display root.
    pub screen: Screen,
    /// All managed windows, grouped into workspaces.
    pub desktop: Desktop,
    keybinds: Vec<KeyBind>,
    mouse_mode: MouseMode,
    last_mouse_x: i16,
    last_mouse_y: i16,
    running: bool,
}

impl View for WM {
    type V = WmView;

    closed spec fn view(&self) -> WmView {
        WmView {
            screen: self.screen,
            desktop: self.desktop@,
            keybinds: self.keybinds@,
            mode: self.mouse_mode,
            last_x: self.last_mouse_x as int,
            last_y: self.last_mouse_y as int,
            running: self.running,
        }
    }
}

impl WM {
    /// The one-time registration step: builds the initial state (rest mode,
    /// running, pointer at the origin, empty workspaces, geometry zeroed
    /// until fetched) for the given screen index and root window, and
    /// returns the start-up commands the transport must issue before the
    /// event loop starts.
    pub fn register(screen_idx: i32, root_id: WindowId, keybinds: Vec<KeyBind>, num_workspaces: usize)
        -> (r: (WM, Vec<Command>))
        requires
            num_workspaces >= 1,
        ensures
            r.0@.wf(),
            r.0@.screen == (Screen { x: 0, y: 0, width: 0, height: 0, idx: screen_idx, root_id }),
            r.0@.desktop.current == 0,
            r.0@.desktop.workspaces.len() == num_workspaces,
            forall|w: int| 0 <= w < num_workspaces
                ==> #[trigger] r.0@.desktop.workspaces[w]
                    == (WorkspaceView { windows: Seq::empty(), focused: 0 }),
            r.0@.keybinds == keybinds@,
            r.0@.mode is Ground,
            r.0@.last_x == 0,
            r.0@.last_y == 0,
            r.0@.running,
            r.1@ == registration_plan(keybinds@),
    {
        let screen = Screen::new(screen_idx, root_id);
        let desktop = Desktop::new(num_workspaces);
        let mut cmds: Vec<Command> = Vec::new();
        cmds.push(Command::ChangeRootAttributes);
        let n = keybinds.len();
        let mut i: usize = 0;
        while i < n
            invariant
                0 <= i <= n,
                n == keybinds@.len(),
                cmds@ == seq![Command::ChangeRootAttributes]
                    + grab_key_commands(keybinds@.take(i as int)),
            decreases n - i,
        {
            let b = keybinds[i];
            cmds.push(Command::GrabKey { mask: b.mask, key: b.key });
            proof {
                assert(keybinds@.take(i + 1 as int).drop_last() =~= keybinds@.take(i as int));
                assert(cmds@ =~= seq![Command::ChangeRootAttributes]
                    + grab_key_commands(keybinds@.take(i + 1 as int)));
            }
            i = i + 1;
        }
        proof {
            assert(keybinds@.take(n as int) =~= keybinds@);
        }
        cmds.push(Command::GrabButton { button: MouseButton::LeftClick });
        cmds.push(Command::GrabButton { button: MouseButton::RightClick });
        cmds.push(Command::CreateCursor);
        cmds.push(Command::SetCursor);
        cmds.push(Command::UpdateGeometry);
        proof {
            assert(cmds@ =~= registration_plan(keybinds@));
        }
        let wm = WM {
            screen,
            desktop,
            keybinds,
            mouse_mode: MouseMode::Ground,
            last_mouse_x: 0,
            last_mouse_y: 0,
            running: true,
        };
        (wm, cmds)
    }

    /// Current mouse-interaction mode.
    pub fn mode(&self) -> (r: MouseMode)
        ensures
            r == self@.mode,
    {
        self.mouse_mode
    }

    /// Whether the event loop should keep going.
    pub fn is_running(&self) -> (r: bool)
        ensures
            r == self@.running,
    {
        self.running
    }

    /// The last pointer position recorded during an active interaction.
    pub fn last_pointer(&self) -> (r: (i16, i16))
        ensures
            r.0 as int == self@.last_x,
            r.1 as int == self@.last_y,
    {
        (self.last_mouse_x, self.last_mouse_y)
    }

    /// Whether delivering `e` in the present state would breach the
    /// transport contract (motion without an active grab). The event loop
    /// checks this before handing an event in, and aborts on a breach.
    pub fn is_fatal(&self, e: &Event) -> (r: bool)
        requires
            self@.wf(),
        ensures
            r == self@.motion_fault(*e),
    {
        match e {
            Event::MotionNotify { .. } => {
                !self.desktop.current_is_empty() && matches!(self.mouse_mode, MouseMode::Ground)
            },
            _ => false,
        }
    }

    /// Request a graceful shutdown: the loop observes the cleared flag at
    /// its next iteration boundary.
    pub fn kill(&mut self)
        ensures
            final(self)@ == old(self)@.with_running(false),
    {
        self.running = false;
        proof {
            assert(self@ =~~= old(self)@.with_running(false));
        }
    }

    /// Consume one transport event: mutate the state as `step` says and
    /// return exactly the transport commands `step_commands` says, in
    /// order.
    pub fn handle_event(&mut self, e: Event) -> (cmds: Vec<Command>)
        requires
            old(self)@.wf(),
            !old(self)@.motion_fault(e),
        ensures
            final(self)@ == old(self)@.step(e),
            cmds@ == old(self)@.step_commands(e),
            final(self)@.wf(),
    {
        let mut cmds: Vec<Command> = Vec::new();
        match e {
            Event::MapRequest { window } => {
                match self.desktop.locate(window) {
                    Some((w, _i)) => {
                        proof {
                            lemma_locate_from_props(self@.desktop.workspaces, window, 0);
                        }
                        if w == self.desktop.current_index() {
                            self.desktop.window_focus(w, window);
                            cmds.push(Command::FocusWindow { window });
                        }
                    },
                    None => {
                        self.desktop.window_add(window);
                        cmds.push(Command::PlaceWindow { window });
                    },
                }
                proof {
                    assert(self@ =~~= old(self)@.step(e));
                    assert(cmds@ =~~= old(self)@.step_commands(e));
                }
            },
            Event::UnmapNotify { window } => {
                self.remove_window(window);
                proof {
                    assert(self@ =~~= old(self)@.step(e));
                    assert(cmds@ =~~= old(self)@.step_commands(e));
                }
            },
            Event::DestroyNotify { window } => {
                self.remove_window(window);
                proof {
                    assert(self@ =~~= old(self)@.step(e));
                    assert(cmds@ =~~= old(self)@.step_commands(e));
                }
            },
            Event::EnterNotify { window } => {
                cmds.push(Command::SetInputFocus { window });
                proof {
                    assert(self@ =~~= old(self)@.step(e));
                    assert(cmds@ =~~= old(self)@.step_commands(e));
                }
            },
            Event::MotionNotify { pointer_x, pointer_y } => {
                if !self.desktop.current_is_empty() {
                    let dx: i32 = pointer_x as i32 - self.last_mouse_x as i32;
                    let dy: i32 = pointer_y as i32 - self.last_mouse_y as i32;
                    self.last_mouse_x = pointer_x;
                    self.last_mouse_y = pointer_y;
                    let target = self.desktop.focused_id();
                    match self.mouse_mode {
                        MouseMode::Move => {
                            cmds.push(Command::MoveWindow { window: target, dx, dy });
                        },
                        MouseMode::Resize => {
                            cmds.push(Command::ResizeWindow { window: target, dx, dy });
                        },
                        MouseMode::Ground => {
                            proof {
                                assert(false);
                            }
                        },
                    }
                }
                proof {
                    assert(self@ =~~= old(self)@.step(e));
                    assert(cmds@ =~~= old(self)@.step_commands(e));
                }
            },
            Event::KeyPress { key, window } => {
                match keybind_lookup(&self.keybinds, key.mask, key.key) {
                    None => {},
                    Some(b) => {
                        proof {
                            lemma_first_match_props(self@.keybinds, key.mask, key.key, 0);
                        }
                        let kb = self.keybinds[b];
                        if !self.desktop.is_focused(window) {
                            let w = self.desktop.current_index();
                            self.desktop.window_focus(w, window);
                            cmds.push(Command::FocusWindow { window });
                        }
                        match kb.action {
                            KeyAction::FocusCurrent => {
                                if !self.desktop.current_is_empty() {
                                    let f = self.desktop.focused_id();
                                    cmds.push(Command::SetInputFocus { window: f });
                                }
                            },
                            KeyAction::Shutdown => {
                                self.running = false;
                            },
                        }
                    },
                }
                proof {
                    assert(self@ =~~= old(self)@.step(e));
                    assert(cmds@ =~~= old(self)@.step_commands(e));
                }
            },
            Event::ButtonPress { button, window, pointer_x, pointer_y } => {
                if !self.desktop.current_is_empty() {
                    cmds.push(Command::GrabPointer);
                    self.last_mouse_x = pointer_x;
                    self.last_mouse_y = pointer_y;
                    if !self.desktop.is_focused(window) {
                        let w = self.desktop.current_index();
                        self.desktop.window_focus(w, window);
                        cmds.push(Command::FocusWindow { window });
                    }
                    match button {
                        MouseButton::LeftClick => {
                            self.mouse_mode = MouseMode::Move;
                        },
                        MouseButton::RightClick => {
                            self.mouse_mode = MouseMode::Resize;
                        },
                    }
                }
                proof {
                    assert(self@ =~~= old(self)@.step(e));
                    assert(cmds@ =~~= old(self)@.step_commands(e));
                }
            },
            Event::ButtonRelease { button: _ } => {
                cmds.push(Command::UngrabPointer);
                self.mouse_mode = MouseMode::Ground;
                proof {
                    assert(self@ =~~= old(self)@.step(e));
                    assert(cmds@ =~~= old(self)@.step_commands(e));
                }
            },
        }
        cmds
    }

    /// Forget a window the server reports gone, if any workspace manages
    /// it.
    fn remove_window(&mut self, window: WindowId)
        requires
            old(self)@.wf(),
        ensures
            final(self)@ == (match old(self)@.desktop.locate(window) {
                Some(p) => old(self)@.with_desktop(old(self)@.desktop.del_window(p.0, p.1)),
                None => old(self)@,
            }),
            final(self)@.wf(),
    {
        match self.desktop.locate(window) {
            Some((w, i)) => {
                proof {
                    lemma_locate_from_props(self@.desktop.workspaces, window, 0);
                    lemma_find_from_props(self@.desktop.workspaces[w as int].windows, window, 0);
                }
                self.desktop.window_del(w, i);
                proof {
                    assert(self@ =~~= old(self)@.with_desktop(
                        old(self)@.desktop.del_window(w as int, i as int)));
                }
            },
            None => {},
        }
    }
}

/// Index of the first keybind entry matching `(mask, key)`, scanning the
/// table in declared order.
pub fn keybind_lookup(binds: &Vec<KeyBind>, mask: u32, key: u32) -> (r: Option<usize>)
    ensures
        r matches Some(j) ==> first_match(binds@, mask, key, 0) == Some(j as int),
        r is None ==> first_match(binds@, mask, key, 0) is None,
{
    let n = binds.len();
    let mut j: usize = 0;
    while j < n
        invariant
            0 <= j <= n,
            n == binds@.len(),
            first_match(binds@, mask, key, 0) == first_match(binds@, mask, key, j as int),
        decreases n - j,
    {
        if binds[j].mask == mask && binds[j].key == key {
            return Some(j);
        }
        j = j + 1;
    }
    None
}

} // verus!
