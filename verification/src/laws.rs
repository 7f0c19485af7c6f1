//! The interaction guarantees of the state machine, stated and proved over
//! the transition model in `wm`.

use vstd::prelude::*;
use crate::desktop::{lemma_find_from_props, lemma_locate_from_props};
use crate::event::{Command, Event, KeyBind, MouseButton};
use crate::screen::WindowId;
use crate::wm::{first_match, WmView};

verus! {

/// Whether the pointer is exclusively grabbed after the transport executes
/// `cmds` in order, starting from grab state `held`.
pub open spec fn grab_held_after(held: bool, cmds: Seq<Command>) -> bool
    decreases cmds.len(),
{
    if cmds.len() == 0 {
        held
    } else {
        let h = if cmds[0] is GrabPointer {
            true
        } else if cmds[0] is UngrabPointer {
            false
        } else {
            held
        };
        grab_held_after(h, cmds.drop_first())
    }
}

/// Commands that neither grab nor release the pointer leave the grab state
/// alone.
pub proof fn lemma_grab_held_no_grab(held: bool, cmds: Seq<Command>)
    requires
        forall|i: int| 0 <= i < cmds.len()
            ==> !((#[trigger] cmds[i]) is GrabPointer) && !(cmds[i] is UngrabPointer),
    ensures
        grab_held_after(held, cmds) == held,
    decreases cmds.len(),
{
    if cmds.len() > 0 {
        lemma_grab_held_no_grab(held, cmds.drop_first());
    }
}

/// The grab state after a concatenation is the grab state of the second
/// part, started from the grab state the first part leaves.
pub proof fn lemma_grab_held_concat(held: bool, a: Seq<Command>, b: Seq<Command>)
    ensures
        grab_held_after(held, a + b) == grab_held_after(grab_held_after(held, a), b),
    decreases a.len(),
{
    if a.len() == 0 {
        assert(a + b =~= b);
    } else {
        assert((a + b).drop_first() =~= a.drop_first() + b);
        let h = if a[0] is GrabPointer {
            true
        } else if a[0] is UngrabPointer {
            false
        } else {
            held
        };
        lemma_grab_held_concat(h, a.drop_first(), b);
    }
}

/// One transition keeps the grab in lock-step with the mode: after any
/// event, the pointer is held exclusively exactly when the machine is out
/// of `Ground`, provided it was so before.
pub proof fn lemma_grab_tracks_mode(s: WmView, e: Event)
    ensures
        grab_held_after(!(s.mode is Ground), s.step_commands(e))
            == !(s.step(e).mode is Ground),
{
    let held = !(s.mode is Ground);
    let cmds = s.step_commands(e);
    match e {
        Event::MapRequest { window } => {
            lemma_grab_held_no_grab(held, cmds);
        },
        Event::UnmapNotify { .. } => {
            lemma_grab_held_no_grab(held, cmds);
        },
        Event::DestroyNotify { .. } => {
            lemma_grab_held_no_grab(held, cmds);
        },
        Event::EnterNotify { .. } => {
            lemma_grab_held_no_grab(held, cmds);
        },
        Event::MotionNotify { .. } => {
            lemma_grab_held_no_grab(held, cmds);
        },
        Event::KeyPress { .. } => {
            lemma_grab_held_no_grab(held, cmds);
        },
        Event::ButtonPress { window, .. } => {
            if s.desktop.cur().windows.len() == 0 {
                lemma_grab_held_no_grab(held, cmds);
            } else {
                let rest: Seq<Command> = if s.is_cur_focused(window) {
                    Seq::empty()
                } else {
                    seq![Command::FocusWindow { window }]
                };
                assert(cmds[0] is GrabPointer);
                assert(cmds.drop_first() =~= rest);
                lemma_grab_held_no_grab(true, rest);
            }
        },
        Event::ButtonRelease { .. } => {
            assert(cmds.drop_first() =~= Seq::<Command>::empty());
            lemma_grab_held_no_grab(false, cmds.drop_first());
        },
    }
}

/// The state after consuming a whole sequence of events, in order.
pub open spec fn run_events(s: WmView, es: Seq<Event>) -> WmView
    decreases es.len(),
{
    if es.len() == 0 {
        s
    } else {
        run_events(s.step(es[0]), es.drop_first())
    }
}

/// Every transport command issued while consuming a whole sequence of
/// events, in order.
pub open spec fn run_commands(s: WmView, es: Seq<Event>) -> Seq<Command>
    decreases es.len(),
{
    if es.len() == 0 {
        Seq::empty()
    } else {
        s.step_commands(es[0]) + run_commands(s.step(es[0]), es.drop_first())
    }
}

/// Over any sequence of events — button pairs in particular — the pointer
/// grab is held if and only if the machine is not in `Ground`: every grab
/// acquired on a button press is released by the next button release, and
/// no other event touches the grab.
pub proof fn lemma_grab_iff_active(s: WmView, es: Seq<Event>)
    ensures
        grab_held_after(!(s.mode is Ground), run_commands(s, es))
            == !(run_events(s, es).mode is Ground),
    decreases es.len(),
{
    if es.len() == 0 {
        lemma_grab_held_no_grab(!(s.mode is Ground), Seq::empty());
    } else {
        lemma_grab_tracks_mode(s, es[0]);
        lemma_grab_held_concat(
            !(s.mode is Ground),
            s.step_commands(es[0]),
            run_commands(s.step(es[0]), es.drop_first()),
        );
        lemma_grab_iff_active(s.step(es[0]), es.drop_first());
    }
}

/// The fatal path exists only for a motion event arriving in `Ground`:
/// no active-mode state and no other event kind can reach it.
pub proof fn lemma_motion_fault_only_ground(s: WmView, e: Event)
    ensures
        s.motion_fault(e) ==> s.mode is Ground && e is MotionNotify,
        !(s.mode is Ground) ==> !s.motion_fault(e),
{
}

/// After a button release the machine rests in `Ground`, regardless of the
/// prior mode and of which button was released.
pub proof fn lemma_release_grounds(s: WmView, button: MouseButton)
    ensures
        s.step(Event::ButtonRelease { button }).mode is Ground,
{
}

/// A map request for a window already tracked in the active workspace
/// produces one focus command and inserts nothing; for a window tracked in
/// an inactive workspace it does nothing visible at all.
pub proof fn lemma_map_request_tracked(s: WmView, window: WindowId, p: (int, int))
    requires
        s.wf(),
        s.desktop.locate(window) == Some(p),
    ensures
        p.0 == s.desktop.current
            ==> s.step_commands(Event::MapRequest { window })
                == seq![Command::FocusWindow { window }],
        p.0 == s.desktop.current ==> ({
            let d2 = s.step(Event::MapRequest { window }).desktop;
            &&& d2.workspaces.len() == s.desktop.workspaces.len()
            &&& forall|w: int| 0 <= w < d2.workspaces.len()
                ==> (#[trigger] d2.workspaces[w]).windows == s.desktop.workspaces[w].windows
            &&& d2.current == s.desktop.current
        }),
        p.0 != s.desktop.current ==> (s.step(Event::MapRequest { window }) == s
            && s.step_commands(Event::MapRequest { window }) == Seq::<Command>::empty()),
{
    lemma_locate_from_props(s.desktop.workspaces, window, 0);
    lemma_find_from_props(s.desktop.workspaces[p.0].windows, window, 0);
}

/// An unmap or destroy notification for a tracked window removes exactly
/// the located (workspace, index) entry — which holds that window — and
/// leaves every other workspace and the current-workspace choice unchanged.
pub proof fn lemma_remove_exact(s: WmView, window: WindowId, p: (int, int), e: Event)
    requires
        s.wf(),
        (e == Event::UnmapNotify { window } || e == Event::DestroyNotify { window }),
        s.desktop.locate(window) == Some(p),
    ensures
        s.desktop.workspaces[p.0].windows[p.1] == window,
        s.step(e).desktop.workspaces.len() == s.desktop.workspaces.len(),
        s.step(e).desktop.workspaces[p.0].windows
            == s.desktop.workspaces[p.0].windows.remove(p.1),
        forall|w: int| 0 <= w < s.desktop.workspaces.len() && w != p.0
            ==> s.step(e).desktop.workspaces[w] == s.desktop.workspaces[w],
        s.step(e).desktop.current == s.desktop.current,
        s.step_commands(e) == (Seq::<Command>::empty()),
{
    lemma_locate_from_props(s.desktop.workspaces, window, 0);
    lemma_find_from_props(s.desktop.workspaces[p.0].windows, window, 0);
}

/// Keybind dispatch takes the first table entry whose `(mask, key)`
/// matches, even when a later entry would match as well.
pub proof fn lemma_dispatch_first_match(binds: Seq<KeyBind>, mask: u32, key: u32, i: int)
    requires
        0 <= i < binds.len(),
        binds[i].mask == mask && binds[i].key == key,
        forall|k: int| 0 <= k < i ==> !(binds[k].mask == mask && binds[k].key == key),
    ensures
        first_match(binds, mask, key, 0) == Some(i),
{
    lemma_first_match_prefix(binds, mask, key, 0, i);
}

/// Scanning from any point with no match before `i` lands on `i`.
proof fn lemma_first_match_prefix(binds: Seq<KeyBind>, mask: u32, key: u32, j: int, i: int)
    requires
        0 <= j <= i < binds.len(),
        binds[i].mask == mask && binds[i].key == key,
        forall|k: int| j <= k < i ==> !(binds[k].mask == mask && binds[k].key == key),
    ensures
        first_match(binds, mask, key, j) == Some(i),
    decreases i - j,
{
    if j < i {
        lemma_first_match_prefix(binds, mask, key, j + 1, i);
    }
}

} // verus!
