use wmcore::event::{Command, KeyAction, KeyBind, MouseButton};
use wmcore::screen::Screen;
use wmcore::wm::{MouseMode, WM};

#[test]
fn screen_starts_zero_and_set_overwrites() {
    let mut s = Screen::new(1, 7);
    assert_eq!(s.x, 0);
    assert_eq!(s.y, 0);
    assert_eq!(s.width, 0);
    assert_eq!(s.height, 0);
    assert_eq!(s.idx, 1);
    assert_eq!(s.id(), 7);
    s.set(5, -3, 800, 600);
    assert_eq!(s.x, 5);
    assert_eq!(s.y, -3);
    assert_eq!(s.width, 800);
    assert_eq!(s.height, 600);
    assert_eq!(s.id(), 7);
}

#[test]
fn registration_emits_full_plan_in_order() {
    let binds = vec![
        KeyBind { mask: 64, key: 0x71, action: KeyAction::Shutdown },
        KeyBind { mask: 64, key: 0x66, action: KeyAction::FocusCurrent },
    ];
    let (wm, cmds) = WM::register(0, 99, binds, 1);
    assert_eq!(
        cmds,
        vec![
            Command::ChangeRootAttributes,
            Command::GrabKey { mask: 64, key: 0x71 },
            Command::GrabKey { mask: 64, key: 0x66 },
            Command::GrabButton { button: MouseButton::LeftClick },
            Command::GrabButton { button: MouseButton::RightClick },
            Command::CreateCursor,
            Command::SetCursor,
            Command::UpdateGeometry,
        ]
    );
    assert_eq!(wm.screen.id(), 99);
    assert!(matches!(wm.mode(), MouseMode::Ground));
    assert!(wm.is_running());
    assert_eq!(wm.last_pointer(), (0, 0));
}

#[test]
fn registration_on_single_root_seeds_server_geometry() {
    // Single-root display, screen index 0: the geometry fetch that executes
    // the plan's final command fills the cache with the server-reported
    // root geometry.
    let (mut wm, cmds) = WM::register(0, 42, Vec::new(), 1);
    assert_eq!(wm.screen.x, 0);
    assert_eq!(wm.screen.y, 0);
    assert_eq!(wm.screen.width, 0);
    assert_eq!(wm.screen.height, 0);
    assert_eq!(*cmds.last().unwrap(), Command::UpdateGeometry);
    wm.screen.set(0, 0, 1920, 1080);
    assert_eq!(wm.screen.x, 0);
    assert_eq!(wm.screen.y, 0);
    assert_eq!(wm.screen.width, 1920);
    assert_eq!(wm.screen.height, 1080);
    assert_eq!(wm.screen.idx, 0);
}

#[test]
fn kill_clears_running() {
    let (mut wm, _) = WM::register(0, 1, Vec::new(), 1);
    assert!(wm.is_running());
    wm.kill();
    assert!(!wm.is_running());
}
