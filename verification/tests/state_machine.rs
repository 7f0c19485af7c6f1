use wmcore::event::{Command, Event, KeyAction, KeyBind, KeyEvent, MouseButton};
use wmcore::wm::{MouseMode, WM};

fn fresh(workspaces: usize) -> WM {
    let (wm, _) = WM::register(0, 1, Vec::new(), workspaces);
    wm
}

fn fresh_with_binds(binds: Vec<KeyBind>) -> WM {
    let (wm, _) = WM::register(0, 1, binds, 1);
    wm
}

#[test]
fn map_request_untracked_places_and_focuses() {
    let mut wm = fresh(1);
    let cmds = wm.handle_event(Event::MapRequest { window: 5 });
    assert_eq!(cmds, vec![Command::PlaceWindow { window: 5 }]);
    assert_eq!(wm.desktop.window_count(0), 1);
    assert_eq!(wm.desktop.window_at(0, 0), 5);
    assert_eq!(wm.desktop.focused_index(0), 0);
}

#[test]
fn map_request_tracked_active_refocuses_without_duplicate() {
    let mut wm = fresh(1);
    wm.handle_event(Event::MapRequest { window: 5 });
    wm.handle_event(Event::MapRequest { window: 6 });
    assert_eq!(wm.desktop.focused_index(0), 1);
    let cmds = wm.handle_event(Event::MapRequest { window: 5 });
    assert_eq!(cmds, vec![Command::FocusWindow { window: 5 }]);
    assert_eq!(wm.desktop.window_count(0), 2);
    assert_eq!(wm.desktop.focused_index(0), 0);
}

#[test]
fn map_request_tracked_inactive_is_invisible() {
    let mut wm = fresh(2);
    wm.handle_event(Event::MapRequest { window: 5 });
    wm.desktop.set_current(1);
    let cmds = wm.handle_event(Event::MapRequest { window: 5 });
    assert!(cmds.is_empty());
    assert_eq!(wm.desktop.window_count(0), 1);
    assert_eq!(wm.desktop.window_count(1), 0);
    assert_eq!(wm.desktop.current_index(), 1);
}

#[test]
fn unmap_removes_exactly_the_tracked_entry() {
    let mut wm = fresh(2);
    wm.handle_event(Event::MapRequest { window: 5 });
    wm.handle_event(Event::MapRequest { window: 6 });
    wm.desktop.set_current(1);
    wm.handle_event(Event::MapRequest { window: 7 });
    wm.desktop.set_current(0);
    let cmds = wm.handle_event(Event::UnmapNotify { window: 5 });
    assert!(cmds.is_empty());
    assert_eq!(wm.desktop.window_count(0), 1);
    assert_eq!(wm.desktop.window_at(0, 0), 6);
    assert_eq!(wm.desktop.window_count(1), 1);
    assert_eq!(wm.desktop.window_at(1, 0), 7);
}

#[test]
fn destroy_removes_like_unmap() {
    let mut wm = fresh(1);
    wm.handle_event(Event::MapRequest { window: 5 });
    wm.handle_event(Event::MapRequest { window: 6 });
    let cmds = wm.handle_event(Event::DestroyNotify { window: 6 });
    assert!(cmds.is_empty());
    assert_eq!(wm.desktop.window_count(0), 1);
    assert_eq!(wm.desktop.window_at(0, 0), 5);
}

#[test]
fn unmap_untracked_is_ignored() {
    let mut wm = fresh(1);
    wm.handle_event(Event::MapRequest { window: 5 });
    let cmds = wm.handle_event(Event::UnmapNotify { window: 42 });
    assert!(cmds.is_empty());
    assert_eq!(wm.desktop.window_count(0), 1);
}

#[test]
fn enter_notify_routes_input_focus() {
    let mut wm = fresh(1);
    let cmds = wm.handle_event(Event::EnterNotify { window: 9 });
    assert_eq!(cmds, vec![Command::SetInputFocus { window: 9 }]);
}

#[test]
fn button_press_enters_move_with_grab_and_snapshot() {
    let mut wm = fresh(1);
    wm.handle_event(Event::MapRequest { window: 10 });
    let cmds = wm.handle_event(Event::ButtonPress {
        button: MouseButton::LeftClick,
        window: 10,
        pointer_x: 5,
        pointer_y: 7,
    });
    assert_eq!(cmds, vec![Command::GrabPointer]);
    assert!(matches!(wm.mode(), MouseMode::Move));
    assert_eq!(wm.last_pointer(), (5, 7));
}

#[test]
fn button_press_refocuses_clicked_window() {
    let mut wm = fresh(1);
    wm.handle_event(Event::MapRequest { window: 10 });
    wm.handle_event(Event::MapRequest { window: 11 });
    let cmds = wm.handle_event(Event::ButtonPress {
        button: MouseButton::RightClick,
        window: 10,
        pointer_x: 1,
        pointer_y: 2,
    });
    assert_eq!(cmds, vec![Command::GrabPointer, Command::FocusWindow { window: 10 }]);
    assert!(matches!(wm.mode(), MouseMode::Resize));
    assert_eq!(wm.desktop.focused_index(0), 0);
}

#[test]
fn button_press_on_empty_workspace_is_ignored() {
    let mut wm = fresh(1);
    let cmds = wm.handle_event(Event::ButtonPress {
        button: MouseButton::LeftClick,
        window: 10,
        pointer_x: 5,
        pointer_y: 7,
    });
    assert!(cmds.is_empty());
    assert!(matches!(wm.mode(), MouseMode::Ground));
}

#[test]
fn button_release_always_grounds_and_ungrabs() {
    let mut wm = fresh(1);
    wm.handle_event(Event::MapRequest { window: 10 });
    wm.handle_event(Event::ButtonPress {
        button: MouseButton::RightClick,
        window: 10,
        pointer_x: 0,
        pointer_y: 0,
    });
    assert!(matches!(wm.mode(), MouseMode::Resize));
    // A release of the other button still grounds the machine.
    let cmds = wm.handle_event(Event::ButtonRelease { button: MouseButton::LeftClick });
    assert_eq!(cmds, vec![Command::UngrabPointer]);
    assert!(matches!(wm.mode(), MouseMode::Ground));
    // A release in the rest state keeps it there.
    let cmds = wm.handle_event(Event::ButtonRelease { button: MouseButton::RightClick });
    assert_eq!(cmds, vec![Command::UngrabPointer]);
    assert!(matches!(wm.mode(), MouseMode::Ground));
}

#[test]
fn grab_follows_mode_over_press_release_pairs() {
    let mut wm = fresh(1);
    wm.handle_event(Event::MapRequest { window: 10 });
    for _ in 0..3 {
        let cmds = wm.handle_event(Event::ButtonPress {
            button: MouseButton::LeftClick,
            window: 10,
            pointer_x: 0,
            pointer_y: 0,
        });
        assert_eq!(cmds, vec![Command::GrabPointer]);
        assert!(!matches!(wm.mode(), MouseMode::Ground));
        let cmds = wm.handle_event(Event::ButtonRelease { button: MouseButton::LeftClick });
        assert_eq!(cmds, vec![Command::UngrabPointer]);
        assert!(matches!(wm.mode(), MouseMode::Ground));
    }
}

#[test]
fn motion_in_move_applies_pointer_deltas() {
    let mut wm = fresh(1);
    wm.handle_event(Event::MapRequest { window: 10 });
    wm.handle_event(Event::ButtonPress {
        button: MouseButton::LeftClick,
        window: 10,
        pointer_x: 10,
        pointer_y: 10,
    });
    let cmds = wm.handle_event(Event::MotionNotify { pointer_x: 10, pointer_y: 10 });
    assert_eq!(cmds, vec![Command::MoveWindow { window: 10, dx: 0, dy: 0 }]);
    let cmds = wm.handle_event(Event::MotionNotify { pointer_x: 13, pointer_y: 15 });
    assert_eq!(cmds, vec![Command::MoveWindow { window: 10, dx: 3, dy: 5 }]);
    assert_eq!(wm.last_pointer(), (13, 15));
}

#[test]
fn motion_in_resize_applies_resize_deltas() {
    let mut wm = fresh(1);
    wm.handle_event(Event::MapRequest { window: 10 });
    wm.handle_event(Event::ButtonPress {
        button: MouseButton::RightClick,
        window: 10,
        pointer_x: 100,
        pointer_y: 50,
    });
    let cmds = wm.handle_event(Event::MotionNotify { pointer_x: 90, pointer_y: 55 });
    assert_eq!(cmds, vec![Command::ResizeWindow { window: 10, dx: -10, dy: 5 }]);
    assert_eq!(wm.last_pointer(), (90, 55));
}

#[test]
fn motion_on_empty_workspace_is_ignored() {
    let mut wm = fresh(1);
    assert!(!wm.is_fatal(&Event::MotionNotify { pointer_x: 3, pointer_y: 4 }));
    let cmds = wm.handle_event(Event::MotionNotify { pointer_x: 3, pointer_y: 4 });
    assert!(cmds.is_empty());
    assert_eq!(wm.last_pointer(), (0, 0));
}

#[test]
fn motion_in_ground_with_windows_is_fatal() {
    let mut wm = fresh(1);
    wm.handle_event(Event::MapRequest { window: 10 });
    let motion = Event::MotionNotify { pointer_x: 1, pointer_y: 1 };
    assert!(wm.is_fatal(&motion));
    assert!(!wm.is_fatal(&Event::ButtonRelease { button: MouseButton::LeftClick }));
    wm.handle_event(Event::ButtonPress {
        button: MouseButton::LeftClick,
        window: 10,
        pointer_x: 0,
        pointer_y: 0,
    });
    assert!(!wm.is_fatal(&motion));
}

#[test]
fn keypress_first_matching_entry_wins() {
    let mut wm = fresh_with_binds(vec![
        KeyBind { mask: 4, key: 1, action: KeyAction::FocusCurrent },
        KeyBind { mask: 4, key: 1, action: KeyAction::Shutdown },
    ]);
    wm.handle_event(Event::MapRequest { window: 10 });
    let cmds = wm.handle_event(Event::KeyPress {
        key: KeyEvent { mask: 4, key: 1 },
        window: 10,
    });
    // The first entry (FocusCurrent) ran; the later Shutdown entry did not.
    assert_eq!(cmds, vec![Command::SetInputFocus { window: 10 }]);
    assert!(wm.is_running());
}

#[test]
fn keypress_shutdown_clears_running() {
    let mut wm = fresh_with_binds(vec![
        KeyBind { mask: 4, key: 2, action: KeyAction::Shutdown },
    ]);
    let cmds = wm.handle_event(Event::KeyPress {
        key: KeyEvent { mask: 4, key: 2 },
        window: 3,
    });
    // The key target is not the focused window, so a refocus is asked for
    // before the bound action runs; Shutdown itself issues nothing.
    assert_eq!(cmds, vec![Command::FocusWindow { window: 3 }]);
    assert!(!wm.is_running());
}

#[test]
fn keypress_without_match_is_ignored() {
    let mut wm = fresh_with_binds(vec![
        KeyBind { mask: 4, key: 2, action: KeyAction::Shutdown },
    ]);
    let cmds = wm.handle_event(Event::KeyPress {
        key: KeyEvent { mask: 8, key: 2 },
        window: 3,
    });
    assert!(cmds.is_empty());
    assert!(wm.is_running());
}

#[test]
fn keypress_refocuses_unfocused_target_first() {
    let mut wm = fresh_with_binds(vec![
        KeyBind { mask: 4, key: 1, action: KeyAction::FocusCurrent },
    ]);
    wm.handle_event(Event::MapRequest { window: 10 });
    wm.handle_event(Event::MapRequest { window: 11 });
    let cmds = wm.handle_event(Event::KeyPress {
        key: KeyEvent { mask: 4, key: 1 },
        window: 10,
    });
    assert_eq!(
        cmds,
        vec![Command::FocusWindow { window: 10 }, Command::SetInputFocus { window: 10 }]
    );
    assert_eq!(wm.desktop.focused_index(0), 0);
}
