//! Workspace container: the set of managed windows, grouped into
//! workspaces, with one current workspace and one focused window per
//! workspace.

use vstd::prelude::*;
use crate::screen::WindowId;

verus! {

/// Mathematical model of one workspace: the window identifiers it manages,
/// in stacking order, and the index of the focused one (meaningful only
/// while the workspace is non-empty).
#[verifier::ext_equal]
pub struct WorkspaceView {
    pub windows: Seq<WindowId>,
    pub focused: int,
}

/// Mathematical model of the whole container.
#[verifier::ext_equal]
pub struct DesktopView {
    pub workspaces: Seq<WorkspaceView>,
    pub current: int,
}

/// Index of the first occurrence of `win` in `ws` at or after position `i`.
pub open spec fn find_from(ws: Seq<WindowId>, win: WindowId, i: int) -> Option<int>
    decreases ws.len() - i,
{
    if i < 0 || i >= ws.len() {
        None
    } else if ws[i] == win {
        Some(i)
    } else {
        find_from(ws, win, i + 1)
    }
}

/// First (workspace, index) entry holding `win`, scanning workspaces in
/// order from position `w`.
pub open spec fn locate_from(wss: Seq<WorkspaceView>, win: WindowId, w: int) -> Option<(int, int)>
    decreases wss.len() - w,
{
    if w < 0 || w >= wss.len() {
        None
    } else {
        match find_from(wss[w].windows, win, 0) {
            Some(i) => Some((w, i)),
            None => locate_from(wss, win, w + 1),
        }
    }
}

/// What `find_from` returns: the first match at or after `i`, or nothing
/// when no position from `i` on holds `win`.
pub proof fn lemma_find_from_props(ws: Seq<WindowId>, win: WindowId, i: int)
    requires
        0 <= i <= ws.len(),
    ensures
        find_from(ws, win, i) matches Some(j) ==> i <= j < ws.len() && ws[j] == win
            && (forall|k: int| i <= k < j ==> ws[k] != win),
        find_from(ws, win, i) is None ==> (forall|k: int| i <= k < ws.len() ==> ws[k] != win),
    decreases ws.len() - i,
{
    if i < ws.len() && ws[i] != win {
        lemma_find_from_props(ws, win, i + 1);
    }
}

/// What `locate_from` returns: the first matching entry in workspace scan
/// order, or nothing when no workspace from `w` on holds `win`.
pub proof fn lemma_locate_from_props(wss: Seq<WorkspaceView>, win: WindowId, w: int)
    requires
        0 <= w <= wss.len(),
    ensures
        locate_from(wss, win, w) matches Some(p) ==> w <= p.0 < wss.len()
            && find_from(wss[p.0].windows, win, 0) == Some(p.1)
            && (forall|v: int| w <= v < p.0 ==> !wss[v].windows.contains(win)),
        locate_from(wss, win, w) is None
            ==> (forall|v: int| w <= v < wss.len() ==> !wss[v].windows.contains(win)),
    decreases wss.len() - w,
{
    if w < wss.len() {
        lemma_find_from_props(wss[w].windows, win, 0);
        if find_from(wss[w].windows, win, 0) is None {
            assert(forall|k: int| 0 <= k < wss[w].windows.len() ==> wss[w].windows[k] != win);
            assert(!wss[w].windows.contains(win));
            lemma_locate_from_props(wss, win, w + 1);
        } else {
            let j = find_from(wss[w].windows, win, 0)->Some_0;
            assert(wss[w].windows[j] == win);
        }
    }
}

impl WorkspaceView {
    /// The focused index points at a window whenever there is one.
    pub open spec fn wf(self) -> bool {
        self.windows.len() > 0 ==> 0 <= self.focused < self.windows.len()
    }

    /// The identifier of the focused window (meaningful only when
    /// non-empty).
    pub open spec fn focused_window(self) -> WindowId
        recommends
            self.windows.len() > 0,
            self.wf(),
    {
        self.windows[self.focused]
    }
}

impl DesktopView {
    /// At least one workspace, a valid current index, every workspace
    /// well-formed.
    pub open spec fn wf(self) -> bool {
        &&& self.workspaces.len() > 0
        &&& 0 <= self.current < self.workspaces.len()
        &&& forall|w: int| 0 <= w < self.workspaces.len() ==> #[trigger] self.workspaces[w].wf()
    }

    /// The current (active) workspace.
    pub open spec fn cur(self) -> WorkspaceView {
        self.workspaces[self.current]
    }

    /// The first (workspace, index) entry holding `win`, if any.
    pub open spec fn locate(self, win: WindowId) -> Option<(int, int)> {
        locate_from(self.workspaces, win, 0)
    }

    /// Whether some workspace manages `win`.
    pub open spec fn owns(self, win: WindowId) -> bool {
        exists|w: int| 0 <= w < self.workspaces.len()
            && #[trigger] self.workspaces[w].windows.contains(win)
    }

    /// The container after appending `win` to the current workspace and
    /// focusing it.
    pub open spec fn add_window(self, win: WindowId) -> DesktopView {
        let ws = self.cur();
        let nws = WorkspaceView {
            windows: ws.windows.push(win),
            focused: ws.windows.len() as int,
        };
        DesktopView { workspaces: self.workspaces.update(self.current, nws), current: self.current }
    }

    /// The container after removing entry `i` of workspace `w`; the
    /// workspace's focus is pulled back over the gap, or reset to the
    /// bottom of the stack when the focused entry itself goes.
    pub open spec fn del_window(self, w: int, i: int) -> DesktopView {
        let ws = self.workspaces[w];
        let nf = if ws.focused > i {
            ws.focused - 1
        } else if ws.focused == i {
            0
        } else {
            ws.focused
        };
        let nws = WorkspaceView { windows: ws.windows.remove(i), focused: nf };
        DesktopView { workspaces: self.workspaces.update(w, nws), current: self.current }
    }

    /// The container after focusing `win` within workspace `w`; a window
    /// the workspace does not manage leaves it unchanged.
    pub open spec fn focus_window(self, w: int, win: WindowId) -> DesktopView {
        match find_from(self.workspaces[w].windows, win, 0) {
            Some(i) => {
                let nws = WorkspaceView { windows: self.workspaces[w].windows, focused: i };
                DesktopView { workspaces: self.workspaces.update(w, nws), current: self.current }
            },
            None => self,
        }
    }

    /// The container after switching the current workspace.
    pub open spec fn with_current(self, w: int) -> DesktopView {
        DesktopView { workspaces: self.workspaces, current: w }
    }
}

/// One workspace: a stack of managed window identifiers and the index of
/// the focused one.
pub struct Workspace {
    windows: Vec<WindowId>,
    focused: usize,
}

impl View for Workspace {
    type V = WorkspaceView;

    closed spec fn view(&self) -> WorkspaceView {
        WorkspaceView { windows: self.windows@, focused: self.focused as int }
    }
}

impl Workspace {
    /// An empty workspace.
    pub fn new() -> (w: Workspace)
        ensures
            w@ == (WorkspaceView { windows: Seq::empty(), focused: 0 }),
    {
        let w = Workspace { windows: Vec::new(), focused: 0 };
        proof {
            assert(w@ =~~= WorkspaceView { windows: Seq::empty(), focused: 0 });
        }
        w
    }

    /// Index of the first entry holding `win`, if any.
    pub fn find_index(&self, win: WindowId) -> (r: Option<usize>)
        ensures
            r matches Some(j) ==> find_from(self@.windows, win, 0) == Some(j as int),
            r is None ==> find_from(self@.windows, win, 0) is None,
    {
        let n = self.windows.len();
        let mut j: usize = 0;
        while j < n
            invariant
                0 <= j <= n,
                n == self@.windows.len(),
                find_from(self@.windows, win, 0) == find_from(self@.windows, win, j as int),
            decreases n - j,
        {
            if self.windows[j] == win {
                return Some(j);
            }
            j = j + 1;
        }
        None
    }
}

/// The container of all managed windows: a fixed set of workspaces, one of
/// them current.
pub struct Desktop {
    workspaces: Vec<Workspace>,
    current: usize,
}

impl View for Desktop {
    type V = DesktopView;

    closed spec fn view(&self) -> DesktopView {
        DesktopView {
            workspaces: self.workspaces@.map_values(|w: Workspace| w@),
            current: self.current as int,
        }
    }
}

impl Desktop {
    /// A container of `num_workspaces` empty workspaces, the first one
    /// current.
    pub fn new(num_workspaces: usize) -> (d: Desktop)
        requires
            num_workspaces >= 1,
        ensures
            d@.wf(),
            d@.workspaces.len() == num_workspaces,
            d@.current == 0,
            forall|w: int| 0 <= w < num_workspaces
                ==> #[trigger] d@.workspaces[w] == (WorkspaceView { windows: Seq::empty(), focused: 0 }),
    {
        let mut v: Vec<Workspace> = Vec::new();
        let mut w: usize = 0;
        while w < num_workspaces
            invariant
                0 <= w <= num_workspaces,
                v@.len() == w,
                forall|k: int| 0 <= k < w
                    ==> (#[trigger] v@[k])@ == (WorkspaceView { windows: Seq::empty(), focused: 0 }),
            decreases num_workspaces - w,
        {
            v.push(Workspace::new());
            w = w + 1;
        }
        Desktop { workspaces: v, current: 0 }
    }

    /// How many workspaces the container was created with.
    pub fn workspace_count(&self) -> (r: usize)
        ensures
            r == self@.workspaces.len(),
    {
        self.workspaces.len()
    }

    /// Index of the current workspace.
    pub fn current_index(&self) -> (r: usize)
        ensures
            r == self@.current,
    {
        self.current
    }

    /// How many windows workspace `w` manages.
    pub fn window_count(&self, w: usize) -> (r: usize)
        requires
            w < self@.workspaces.len(),
        ensures
            r == self@.workspaces[w as int].windows.len(),
    {
        proof {
            assert(self.workspaces@[w as int]@ == self@.workspaces[w as int]);
        }
        self.workspaces[w].windows.len()
    }

    /// The window at entry `i` of workspace `w`.
    pub fn window_at(&self, w: usize, i: usize) -> (r: WindowId)
        requires
            w < self@.workspaces.len(),
            i < self@.workspaces[w as int].windows.len(),
        ensures
            r == self@.workspaces[w as int].windows[i as int],
    {
        proof {
            assert(self.workspaces@[w as int]@ == self@.workspaces[w as int]);
        }
        self.workspaces[w].windows[i]
    }

    /// The focused entry of workspace `w` (meaningful only while the
    /// workspace is non-empty).
    pub fn focused_index(&self, w: usize) -> (r: usize)
        requires
            w < self@.workspaces.len(),
        ensures
            r as int == self@.workspaces[w as int].focused,
    {
        proof {
            assert(self.workspaces@[w as int]@ == self@.workspaces[w as int]);
        }
        self.workspaces[w].focused
    }

    /// Switch the current workspace.
    pub fn set_current(&mut self, w: usize)
        requires
            w < old(self)@.workspaces.len(),
        ensures
            final(self)@ == old(self)@.with_current(w as int),
    {
        self.current = w;
        proof {
            assert(self@ =~~= old(self)@.with_current(w as int));
        }
    }

    /// Whether the current workspace manages no window.
    pub fn current_is_empty(&self) -> (r: bool)
        requires
            self@.wf(),
        ensures
            r == (self@.cur().windows.len() == 0),
    {
        let ws = &self.workspaces[self.current];
        ws.windows.len() == 0
    }

    /// Identifier of the current workspace's focused window.
    pub fn focused_id(&self) -> (r: WindowId)
        requires
            self@.wf(),
            self@.cur().windows.len() > 0,
        ensures
            r == self@.cur().focused_window(),
    {
        let ws = &self.workspaces[self.current];
        proof {
            assert(ws@ == self@.cur());
            assert(self@.cur().wf());
        }
        ws.windows[ws.focused]
    }

    /// Whether `win` is the current workspace's focused window.
    pub fn is_focused(&self, win: WindowId) -> (r: bool)
        requires
            self@.wf(),
        ensures
            r == (self@.cur().windows.len() > 0 && self@.cur().focused_window() == win),
    {
        let ws = &self.workspaces[self.current];
        proof {
            assert(ws@ == self@.cur());
            assert(self@.cur().wf());
        }
        if ws.windows.len() == 0 {
            false
        } else {
            ws.windows[ws.focused] == win
        }
    }

    /// The first (workspace, index) entry holding `win`, if any workspace
    /// manages it.
    pub fn locate(&self, win: WindowId) -> (r: Option<(usize, usize)>)
        ensures
            r matches Some(p) ==> self@.locate(win) == Some((p.0 as int, p.1 as int)),
            r is None ==> self@.locate(win) is None,
    {
        let n = self.workspaces.len();
        let mut w: usize = 0;
        while w < n
            invariant
                0 <= w <= n,
                n == self@.workspaces.len(),
                locate_from(self@.workspaces, win, 0) == locate_from(self@.workspaces, win, w as int),
            decreases n - w,
        {
            let found = self.workspaces[w].find_index(win);
            proof {
                assert(self@.workspaces[w as int] == self.workspaces@.map_values(|x: Workspace| x@)[w as int]);
            }
            match found {
                Some(i) => {
                    return Some((w, i));
                },
                None => {},
            }
            w = w + 1;
        }
        None
    }

    /// Append `win` to the current workspace and focus it.
    pub fn window_add(&mut self, win: WindowId)
        requires
            old(self)@.wf(),
        ensures
            final(self)@ == old(self)@.add_window(win),
            final(self)@.wf(),
    {
        let w = self.current;
        let mut ws = self.workspaces.remove(w);
        ws.windows.push(win);
        ws.focused = ws.windows.len() - 1;
        self.workspaces.insert(w, ws);
        proof {
            let tgt = old(self)@.add_window(win);
            assert(self@.workspaces.len() == tgt.workspaces.len());
            assert forall|k: int| 0 <= k < self@.workspaces.len()
                implies self@.workspaces[k] == tgt.workspaces[k] by {
                if k != w {
                    assert(self.workspaces@[k] == old(self).workspaces@[k]);
                }
            }
            assert(self@ =~~= tgt);
        }
    }

    /// Remove entry `i` of workspace `w`.
    pub fn window_del(&mut self, w: usize, i: usize)
        requires
            old(self)@.wf(),
            w < old(self)@.workspaces.len(),
            i < old(self)@.workspaces[w as int].windows.len(),
        ensures
            final(self)@ == old(self)@.del_window(w as int, i as int),
            final(self)@.wf(),
    {
        let mut ws = self.workspaces.remove(w);
        proof {
            assert(ws@ == old(self)@.workspaces[w as int]);
        }
        ws.windows.remove(i);
        if ws.focused > i {
            ws.focused = ws.focused - 1;
        } else if ws.focused == i {
            ws.focused = 0;
        }
        self.workspaces.insert(w, ws);
        proof {
            let tgt = old(self)@.del_window(w as int, i as int);
            assert(self@.workspaces.len() == tgt.workspaces.len());
            assert forall|k: int| 0 <= k < self@.workspaces.len()
                implies self@.workspaces[k] == tgt.workspaces[k] by {
                if k != w {
                    assert(self.workspaces@[k] == old(self).workspaces@[k]);
                }
            }
            assert(self@ =~~= tgt);
            assert forall|k: int| 0 <= k < self@.workspaces.len()
                implies #[trigger] self@.workspaces[k].wf() by {
                assert(old(self)@.workspaces[k].wf());
            }
        }
    }

    /// Focus `win` within workspace `w`, if that workspace manages it;
    /// otherwise leave the container unchanged.
    pub fn window_focus(&mut self, w: usize, win: WindowId)
        requires
            old(self)@.wf(),
            w < old(self)@.workspaces.len(),
        ensures
            final(self)@ == old(self)@.focus_window(w as int, win),
            final(self)@.wf(),
    {
        let found = self.workspaces[w].find_index(win);
        proof {
            assert(self@.workspaces[w as int] == self.workspaces@.map_values(|x: Workspace| x@)[w as int]);
        }
        match found {
            Some(i) => {
                let mut ws = self.workspaces.remove(w);
                ws.focused = i;
                self.workspaces.insert(w, ws);
                proof {
                    lemma_find_from_props(old(self)@.workspaces[w as int].windows, win, 0);
                    let tgt = old(self)@.focus_window(w as int, win);
                    assert(self@.workspaces.len() == tgt.workspaces.len());
                    assert forall|k: int| 0 <= k < self@.workspaces.len()
                        implies self@.workspaces[k] == tgt.workspaces[k] by {
                        if k != w {
                            assert(self.workspaces@[k] == old(self).workspaces@[k]);
                        }
                    }
                    assert(self@ =~~= tgt);
                }
            },
            None => {
                proof {
                    assert(self@ =~~= old(self)@.focus_window(w as int, win));
                }
            },
        }
    }
}

} // verus!
