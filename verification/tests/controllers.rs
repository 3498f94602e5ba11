use yakuza_freecam::controller::{decode_controller, ControllerCommand};
use yakuza_freecam::gamepad::{dead_zone, Gamepad};
use yakuza_freecam::internal::{controller_actions, DEADZONE};

fn pad(buttons: u16) -> Gamepad {
    Gamepad {
        buttons,
        left_trigger: 0,
        right_trigger: 0,
        thumb_lx: 0,
        thumb_ly: 0,
        thumb_rx: 0,
        thumb_ry: 0,
    }
}

#[test]
fn dead_zone_filters_small_values() {
    assert_eq!(dead_zone(0, 2000), 0);
    assert_eq!(dead_zone(1999, 2000), 0);
    assert_eq!(dead_zone(-1999, 2000), 0);
    assert_eq!(dead_zone(2000, 2000), 2000);
    assert_eq!(dead_zone(-2000, 2000), -2000);
    assert_eq!(dead_zone(i16::MIN, 2000), i16::MIN);
    assert_eq!(dead_zone(i16::MAX, 10000), i16::MAX);
}

#[test]
fn dead_zone_twice_is_once() {
    for v in [-32768i16, -5000, -10, 0, 10, 1999, 2000, 32767] {
        assert_eq!(dead_zone(dead_zone(v, 2000), 2000), dead_zone(v, 2000));
    }
}

#[test]
fn activation_needs_both_buttons() {
    assert!(controller_actions(&pad(0x280)).toggle_camera);
    assert!(controller_actions(&pad(0xFFFF)).toggle_camera);
    assert!(!controller_actions(&pad(0x200)).toggle_camera);
    assert!(!controller_actions(&pad(0x80)).toggle_camera);
}

#[test]
fn engine_speed_and_fov_buttons() {
    let a = controller_actions(&pad(0x4));
    assert!(a.engine_slower && !a.engine_faster);
    let b = controller_actions(&pad(0x8));
    assert!(!b.engine_slower && b.engine_faster);
    let mut gp = pad(0);
    gp.left_trigger = 151;
    gp.right_trigger = 150;
    let c = controller_actions(&gp);
    assert!(c.fov_narrower && !c.fov_wider);
    assert!(controller_actions(&pad(0x5000)).detach_tool);
    assert!(!controller_actions(&pad(0x1000)).detach_tool);
}

#[test]
fn sticks_pass_through_dead_zone() {
    let mut gp = pad(0);
    gp.thumb_lx = 1500;
    gp.thumb_ly = -3000;
    gp.thumb_rx = DEADZONE;
    gp.thumb_ry = -1;
    let a = controller_actions(&gp);
    assert_eq!((a.move_x, a.move_y, a.look_x, a.look_y), (0, -3000, 2000, 0));
}

#[test]
fn decode_controller_steps() {
    assert_eq!(
        decode_controller(0),
        ControllerCommand { fov_step: 0, vertical: 0, speed: 0, dir_speed: 0, rotation: 0 }
    );
    assert_eq!(decode_controller(0x20).fov_step, 1);
    assert_eq!(decode_controller(0x10).fov_step, -1);
    assert_eq!(decode_controller(0x30).fov_step, 0);
    assert_eq!(decode_controller(0x1).vertical, -2);
    assert_eq!(decode_controller(0x8).vertical, 2);
    assert_eq!(decode_controller(0x9).vertical, 0);
    assert_eq!(decode_controller(0x1000).speed, 1);
    assert_eq!(decode_controller(0x2000).speed, -1);
    assert_eq!(decode_controller(0x3000).speed, 0);
    assert_eq!(decode_controller(0x4000).dir_speed, -1);
    assert_eq!(decode_controller(0x8000).dir_speed, 1);
    assert_eq!(decode_controller(0xC000).dir_speed, 0);
    assert_eq!(decode_controller(0x40).rotation, 1);
    assert_eq!(decode_controller(0x80).rotation, -1);
    assert_eq!(decode_controller(0xC0).rotation, 2);
}

#[test]
fn decode_controller_ignores_other_bits() {
    let c = decode_controller(0xFFFF_0000_0000_0000 | 0x20 | 0x8 | 0x1000);
    assert_eq!(c, ControllerCommand { fov_step: 1, vertical: 2, speed: 1, dir_speed: 0, rotation: 0 });
}
