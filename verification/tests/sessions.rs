use yakuza_freecam::session::{CameraAction, FreecamSession, INITIAL_POS};

#[test]
fn new_session_is_idle() {
    let s = FreecamSession::new();
    assert!(!s.active && !s.capture_mouse && !s.restart_mouse && !s.pause_world);
    assert_eq!((s.latest_x, s.latest_y), (0, 0));
}

#[test]
fn keyboard_toggle_captures_mouse() {
    let mut s = FreecamSession::new();
    assert_eq!(s.toggle_camera(false), CameraAction::Deattach);
    assert!(s.active && s.capture_mouse);
    assert_eq!(s.toggle_camera(false), CameraAction::Attach);
    assert!(!s.active && !s.capture_mouse);
}

#[test]
fn controller_toggle_leaves_mouse() {
    let mut s = FreecamSession::new();
    assert_eq!(s.toggle_camera(true), CameraAction::Deattach);
    assert!(s.active && !s.capture_mouse);
    let before = s;
    s.toggle_camera(true);
    s.toggle_camera(true);
    assert_eq!(s, before);
}

#[test]
fn mouse_toggle_only_while_active() {
    let mut s = FreecamSession::new();
    assert!(!s.toggle_mouse());
    assert!(!s.capture_mouse);
    s.toggle_camera(false);
    assert!(s.toggle_mouse());
    assert!(!s.capture_mouse);
    assert!(s.toggle_mouse());
    assert!(s.capture_mouse);
}

#[test]
fn cursor_recentred_every_other_poll() {
    let mut s = FreecamSession::new();
    s.toggle_camera(false);
    assert!(!s.recenter_cursor());
    assert_eq!(s.mouse_moved(510, 490), (510, 490));
    assert!(s.restart_mouse);
    assert!(s.recenter_cursor());
    assert_eq!((s.latest_x, s.latest_y), (INITIAL_POS, INITIAL_POS));
    assert!(!s.restart_mouse);
    assert_eq!(s.mouse_moved(503, 498), (3, -2));
}

#[test]
fn no_recentre_without_capture() {
    let mut s = FreecamSession::new();
    s.mouse_moved(10, 10);
    assert!(s.restart_mouse);
    assert!(!s.recenter_cursor());
    assert_eq!((s.latest_x, s.latest_y), (10, 10));
}

#[test]
fn pause_world_toggles() {
    let mut s = FreecamSession::new();
    assert!(s.toggle_pause_world());
    assert!(!s.toggle_pause_world());
    assert!(!s.pause_world);
}
