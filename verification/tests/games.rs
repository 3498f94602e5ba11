use yakuza_freecam::gamepad::Gamepad;
use yakuza_freecam::{kiwami, kiwami2, likeadragon, yakuza0, yakuza6};

fn pad(buttons: u16) -> Gamepad {
    Gamepad {
        buttons,
        left_trigger: 200,
        right_trigger: 100,
        thumb_lx: -12000,
        thumb_ly: 9999,
        thumb_rx: 10000,
        thumb_ry: -10001,
    }
}

#[test]
fn kiwami2_activation_combo() {
    assert!(kiwami2::detect_activation_by_controller(0x11));
    assert!(kiwami2::detect_activation_by_controller(0xFF));
    assert!(!kiwami2::detect_activation_by_controller(0x10));
    assert!(!kiwami2::detect_activation_by_controller(0x01));
}

#[test]
fn yakuza0_activation_combos() {
    assert!(yakuza0::detect_activation_by_controller(0x11, yakuza0::ACTIVATION_COMBO));
    assert!(yakuza0::detect_activation_by_controller(0x14, yakuza0::PAUSE_COMBO));
    assert!(!yakuza0::detect_activation_by_controller(0x11, yakuza0::PAUSE_COMBO));
    assert!(yakuza0::detect_activation_by_controller(123, 0));
}

#[test]
fn kiwami2_patches_have_equal_lengths() {
    let table = kiwami2::camera_injections();
    assert_eq!(table.len(), 6);
    let entries: Vec<usize> = table.iter().map(|i| i.entry_point).collect();
    assert_eq!(entries, vec![0xB78D87, 0x1BA285B, 0xDF6F86, 0x8B2E8C, 0x1B71453, 0x1F0CB72]);
    for inj in &table {
        assert_eq!(inj.f_orig.len(), inj.f_rep.len());
    }
    assert_eq!(table[0].f_rep, vec![0x90; 6]);
    assert_eq!(table[4].f_rep, vec![0xC6, 0x04, 0x0B, 0x00]);
    assert_eq!(table[5].f_orig.len(), 24);
}

#[test]
fn yakuza0_and_kiwami_patches() {
    let y0 = yakuza0::camera_injections();
    assert_eq!(y0.len(), 1);
    assert_eq!(y0[0].entry_point, 0x187616);
    assert_eq!(y0[0].f_rep, vec![0x90; 8]);
    let p = yakuza0::pause_cinematic_injection();
    assert_eq!(p.entry_point, 0xB720DE);
    assert_eq!(p.f_rep, vec![0xB1, 0x01, 0x90, 0x90, 0x90, 0x90, 0x90]);
    let k = kiwami::camera_injections();
    assert_eq!(k[0].f_orig, vec![0xF3, 0x0F, 0x11, 0x89, 0xAC, 0x00, 0x00, 0x00]);
    let kp = kiwami::pause_cinematic_injection();
    assert_eq!(kp.entry_point, 0x7BB8C);
    assert_eq!(kp.f_orig, vec![0x41, 0x8A, 0x8D, 0xD1, 0x00, 0x00, 0x00]);
}

#[test]
fn pause_pulse() {
    assert!(kiwami2::trigger_pause_writes(0).is_empty());
    let w = kiwami2::trigger_pause_writes(0x1234);
    assert_eq!(w.len(), 2);
    assert_eq!((w[0].address, w[0].absolute, w[0].bytes.clone()), (0x1234, true, vec![1]));
    assert_eq!((w[1].address, w[1].absolute, w[1].bytes.clone()), (0x1234, true, vec![0]));
}

#[test]
fn ui_backup_hides_and_restores() {
    let mut backup = kiwami2::UiBackup::new();
    assert!(backup.needs_capture());
    let hide_before = backup.writes(true);
    assert_eq!(hide_before.len(), 5);
    backup.capture([7, 8, 9, 10, 11]);
    assert!(!backup.needs_capture());
    let hide = backup.writes(true);
    let restore = backup.writes(false);
    let offsets = kiwami2::UiBackup::offsets();
    assert_eq!(offsets, vec![0x291D1DC, 0x291D1D0, 0x291D1EC, 0x291D1E8, 0x291D1E4]);
    for i in 0..5 {
        assert_eq!(hide[i].address, offsets[i]);
        assert!(!hide[i].absolute);
        assert_eq!(hide[i].bytes, vec![0xFF; 4]);
        assert_eq!(restore[i].address, offsets[i]);
        assert_eq!(restore[i].bytes, vec![7 + i as u8, 0, 0, 0]);
    }
}

#[test]
fn ui_backup_recaptures_while_first_is_zero() {
    let mut backup = kiwami2::UiBackup::new();
    backup.capture([0, 5, 5, 5, 5]);
    assert!(backup.needs_capture());
}

#[test]
fn intercept_blocks_all_but_pause() {
    let gp = pad(0xFFFF);
    assert_eq!(likeadragon::intercept_gamepad(0, gp), gp);
    assert_eq!(likeadragon::intercept_gamepad(2, gp), gp);
    let seen = likeadragon::intercept_gamepad(1, gp);
    assert_eq!(seen, Gamepad { buttons: 0x10, left_trigger: 0, right_trigger: 0, thumb_lx: 0, thumb_ly: 0, thumb_rx: 0, thumb_ry: 0 });
    assert_eq!(likeadragon::intercept_gamepad(1, seen), seen);
    assert_eq!(likeadragon::intercept_gamepad(1, pad(0x0F)).buttons, 0);
}

#[test]
fn likeadragon_addresses() {
    assert_eq!(likeadragon::ui_displacement_address(0x1000), 0x1013);
    assert_eq!(likeadragon::ui_element_addresses(0x1000, 0x20), vec![0x1037, 0x103B, 0x105B]);
    assert_eq!(
        likeadragon::steam_ui_element_addresses(0x140000000),
        vec![0x142829C88, 0x142829C8C, 0x142829CAC]
    );
    assert_eq!(likeadragon::timestop_instruction(0x10), 0x1B);
    assert_eq!(likeadragon::controller_call_displacement_address(0x100), 0x109);
    assert_eq!(likeadragon::controller_function(0x100, 0x50), 0x15D);
    assert_eq!(likeadragon::controller_function(0x1000, 0xFFFF_FFF0), 0xFFD);
    assert_eq!(likeadragon::controller_function(0x7FFF_FFF3, 0x8000_0000), 0);
}

#[test]
fn likeadragon_switch() {
    let mut s = likeadragon::CameraSwitch::new();
    assert_eq!(s.hook_flag(), 0);
    assert_eq!(s.game_camera(0x5000), None);
    assert_eq!(s.toggle(), likeadragon::SwitchAction::InjectPatches);
    assert_eq!(s.hook_flag(), 1);
    assert_eq!(s.game_camera(0), None);
    assert_eq!(s.game_camera(0x5000), Some(0x5080));
    assert_eq!(s.toggle(), likeadragon::SwitchAction::RemovePatches);
    assert!(!s.active);
}

#[test]
fn yakuza6_keys_and_presses() {
    assert_eq!(yakuza6::Keys::A.code(), 0x41);
    assert_eq!(yakuza6::Keys::L.code(), 0x4C);
    assert_eq!(yakuza6::Keys::P.code(), 0x50);
    assert_eq!(yakuza6::Keys::Z.code(), 0x5A);
    assert!(yakuza6::key_pressed(i16::MIN));
    assert!(yakuza6::key_pressed(-1));
    assert!(!yakuza6::key_pressed(0));
    assert!(!yakuza6::key_pressed(1));
    assert!(!yakuza6::key_pressed(i16::MAX));
    assert_eq!(yakuza6::get_version(Some("1"), Some("2")), "1.2");
}

#[test]
fn yakuza6_pad_actions() {
    let a = yakuza6::pad_actions(&pad(0x2000));
    assert!(a.toggle_camera);
    let mut gp = pad(0x2000);
    gp.left_trigger = 150;
    assert!(!yakuza6::pad_actions(&gp).toggle_camera);
    let b = yakuza6::pad_actions(&pad(0x300));
    assert!(b.rotate_up && b.rotate_down && b.reset_rotation);
    let c = yakuza6::pad_actions(&pad(0x200));
    assert!(c.rotate_up && !c.rotate_down && !c.reset_rotation);
    let d = yakuza6::pad_actions(&pad(0x3000 | 0x1 | 0x8));
    assert!(d.accelerate && d.decelerate && d.fov_narrower && !d.fov_wider && d.multiplier_up);
    let e = yakuza6::pad_actions(&pad(0x4000));
    assert!(!e.decelerate && !e.accelerate);
    assert!(yakuza6::pad_actions(&pad(0x2000)).decelerate);
    assert_eq!((d.move_x, d.move_y, d.look_x, d.look_y), (-12000, 0, 10000, -10001));
}

#[test]
fn dolly_indices_clamp_or_wrap() {
    assert_eq!(yakuza6::dolly_index(-1, 4, false), 0);
    assert_eq!(yakuza6::dolly_index(-1, 4, true), 3);
    assert_eq!(yakuza6::dolly_index(1, 4, false), 1);
    assert_eq!(yakuza6::dolly_index(3, 4, false), 3);
    assert_eq!(yakuza6::dolly_index(5, 4, false), 3);
    assert_eq!(yakuza6::dolly_index(3, 4, true), 3);
    assert_eq!(yakuza6::dolly_index(4, 4, true), 0);
    assert_eq!(yakuza6::dolly_index(5, 4, true), 1);
    assert_eq!(yakuza6::dolly_index(0, 1, true), 0);
}

#[test]
fn dolly_segment_indices() {
    assert_eq!(yakuza6::dolly_segment(0, 3, false), (0, 0, 1, 2));
    assert_eq!(yakuza6::dolly_segment(1, 3, false), (0, 1, 2, 2));
    assert_eq!(yakuza6::dolly_segment(2, 3, true), (1, 2, 0, 1));
    for p in 0..10 {
        let (a, b, c, d) = yakuza6::dolly_segment(p, 3, true);
        assert!(a < 3 && b < 3 && c < 3 && d < 3);
    }
}

fn apply(
    mem: &mut std::collections::HashMap<(bool, usize), u8>,
    writes: &[yakuza_freecam::common::MemoryWrite],
) {
    for w in writes {
        for (i, b) in w.bytes.iter().enumerate() {
            mem.insert((w.absolute, w.address + i), *b);
        }
    }
}

#[test]
fn ui_hide_then_restore_gives_memory_back() {
    let mut mem = std::collections::HashMap::new();
    let offsets = kiwami2::UiBackup::offsets();
    let values = [0x11223344u32, 5, 6, 7, 0xA0B0C0D0];
    for (i, off) in offsets.iter().enumerate() {
        for (j, b) in values[i].to_le_bytes().iter().enumerate() {
            mem.insert((false, off + j), *b);
        }
    }
    let before = mem.clone();
    let mut backup = kiwami2::UiBackup::new();
    backup.capture(values);
    apply(&mut mem, &backup.writes(true));
    assert_ne!(mem, before);
    apply(&mut mem, &backup.writes(false));
    assert_eq!(mem, before);
}

#[test]
fn pause_cinematic_toggle_gives_memory_back() {
    let inj = yakuza0::pause_cinematic_injection();
    let mut mem = std::collections::HashMap::new();
    for (i, b) in inj.f_orig.iter().enumerate() {
        mem.insert((false, inj.entry_point + i), *b);
    }
    let before = mem.clone();
    apply(&mut mem, &[yakuza_freecam::common::patch_write(&inj, true)]);
    assert_eq!(mem[&(false, 0xB720DE)], 0xB1);
    apply(&mut mem, &[yakuza_freecam::common::patch_write(&inj, false)]);
    assert_eq!(mem, before);
}

#[test]
fn likeadragon_switch_forgets_camera_when_off() {
    let mut s = likeadragon::CameraSwitch::new();
    let mut camera_struct: usize = 0x4000;
    assert_eq!(s.switch(&mut camera_struct), likeadragon::SwitchAction::InjectPatches);
    assert!(s.active);
    assert_eq!(camera_struct, 0x4000);
    assert_eq!(s.game_camera(camera_struct), Some(0x4080));
    assert_eq!(s.switch(&mut camera_struct), likeadragon::SwitchAction::RemovePatches);
    assert!(!s.active);
    assert_eq!(camera_struct, 0);
    assert_eq!(s.hook_flag(), 0);
    assert_eq!(s.game_camera(camera_struct), None);
}

#[test]
fn yakuza6_activation_by_either_trigger() {
    let mut gp = pad(0x2000);
    gp.left_trigger = 0;
    gp.right_trigger = 255;
    assert!(yakuza6::pad_actions(&gp).toggle_camera);
    gp.right_trigger = 151;
    assert!(yakuza6::pad_actions(&gp).toggle_camera);
    gp.right_trigger = 150;
    assert!(!yakuza6::pad_actions(&gp).toggle_camera);
    gp.right_trigger = 255;
    gp.buttons = 0;
    assert!(!yakuza6::pad_actions(&gp).toggle_camera);
}

fn no_keys() -> yakuza6::KeyboardState {
    yakuza6::KeyboardState {
        f2: false,
        f3: false,
        f4: false,
        f5: false,
        f6: false,
        w: false,
        a: false,
        s: false,
        d: false,
        q: false,
        e: false,
        o: false,
        p: false,
        up: false,
        down: false,
        left: false,
        right: false,
        page_up: false,
        page_down: false,
        left_shift: false,
        tab: false,
    }
}

#[test]
fn yakuza6_keyboard_idle() {
    let k = yakuza6::keyboard_actions(&no_keys());
    assert_eq!(k.change_active, None);
    assert_eq!((k.forward, k.sideways, k.look_vertical, k.look_horizontal), (0, 0, 0, 0));
    assert_eq!(k.dolly, yakuza6::DollyDuration::ResetStep);
    assert!(!k.lower && !k.raise && !k.accelerate && !k.decelerate);
}

#[test]
fn yakuza6_keyboard_pairs_and_priorities() {
    let mut keys = no_keys();
    keys.f2 = true;
    assert_eq!(yakuza6::keyboard_actions(&keys).change_active, Some(true));
    keys.f3 = true;
    let k = yakuza6::keyboard_actions(&keys);
    assert_eq!(k.change_active, Some(false));
    assert!(k.multiplier_down);
    keys.w = true;
    keys.s = true;
    keys.a = true;
    keys.left = true;
    keys.down = true;
    keys.p = true;
    keys.o = true;
    keys.q = true;
    keys.e = true;
    let k = yakuza6::keyboard_actions(&keys);
    assert_eq!((k.forward, k.sideways, k.look_vertical, k.look_horizontal), (-1, 1, -1, 1));
    assert_eq!(k.dolly, yakuza6::DollyDuration::Longer);
    assert!(k.lower && k.raise);
    keys.p = false;
    assert_eq!(yakuza6::keyboard_actions(&keys).dolly, yakuza6::DollyDuration::Shorter);
}

fn path_keys(add: bool, clear: bool, play: bool, play_loop: bool) -> yakuza6::PathKeys {
    yakuza6::PathKeys { add, clear, play, play_loop }
}

#[test]
fn yakuza6_path_needs_two_points() {
    let a = yakuza6::path_actions(1, false, path_keys(false, false, true, true));
    assert!(!a.play && !a.play_loop);
    assert_eq!(a.len, 1);
    let b = yakuza6::path_actions(1, false, path_keys(true, false, true, false));
    assert!(b.add && b.play && !b.play_loop);
    assert_eq!(b.len, 2);
    let c = yakuza6::path_actions(5, false, path_keys(true, true, true, true));
    assert!(c.clear && !c.play);
    assert_eq!(c.len, 0);
}

#[test]
fn yakuza6_path_dropped_when_far() {
    let a = yakuza6::path_actions(3, true, path_keys(false, false, true, false));
    assert!(a.drop_far && !a.play);
    assert_eq!(a.len, 0);
    let b = yakuza6::path_actions(0, true, path_keys(true, false, false, false));
    assert!(!b.drop_far);
    assert_eq!(b.len, 1);
}

#[test]
fn string_list_reads_until_ending() {
    use_string_list();
}

fn use_string_list() {
    let memory: Vec<u8> = vec![b'a', b'b', 0, b'c', 0, 0, 0x55];
    let mut reader = yakuza_freecam::string_list::StringListReader::new(0, 2, vec![0x00, 0x55]);
    loop {
        let at = reader.address;
        let read = vec![memory[at], memory[at + 1]];
        if reader.step(&read) {
            break;
        }
    }
    assert_eq!(reader.entries, vec![(2, b"ab".to_vec()), (3, b"c".to_vec())]);
    assert_eq!(reader.index, 4);
    assert_eq!(reader.address, 5);
    assert!(reader.current.is_empty());
}
