use vstd::prelude::*;
use crate::gamepad::{Gamepad, dead_zone, spec_dead_zone};

verus! {

/// Stick values closer to the centre than this are ignored.
pub const DEADZONE: i16 = 2000;

/// What the controller asks of the camera in one poll, before the analog
/// values are scaled into camera units.
#[derive(Clone, Copy, Debug, PartialEq, Eq, Structural)]
pub struct ControllerActions {
    /// R1 and R3 held together: switch the free camera on or off.
    pub toggle_camera: bool,
    /// D-pad left: slow the engine down.
    pub engine_slower: bool,
    /// D-pad right: speed the engine up.
    pub engine_faster: bool,
    /// Left trigger pressed past half-way: narrow the field of view.
    pub fov_narrower: bool,
    /// Right trigger pressed past half-way: widen the field of view.
    pub fov_wider: bool,
    /// Left stick, outside the dead zone.
    pub move_x: i16,
    pub move_y: i16,
    /// Right stick, outside the dead zone.
    pub look_x: i16,
    pub look_y: i16,
    /// A and X held together: leave the tool.
    pub detach_tool: bool,
}

/// The actions that a controller state stands for.
pub open spec fn spec_controller_actions(gp: Gamepad) -> ControllerActions {
    ControllerActions {
        toggle_camera: (gp.buttons & (0x200u16 | 0x80u16)) == (0x200u16 | 0x80u16),
        engine_slower: (gp.buttons & 0x4) == 0x4,
        engine_faster: (gp.buttons & 0x8) == 0x8,
        fov_narrower: gp.left_trigger > 150,
        fov_wider: gp.right_trigger > 150,
        move_x: spec_dead_zone(gp.thumb_lx, DEADZONE),
        move_y: spec_dead_zone(gp.thumb_ly, DEADZONE),
        look_x: spec_dead_zone(gp.thumb_rx, DEADZONE),
        look_y: spec_dead_zone(gp.thumb_ry, DEADZONE),
        detach_tool: (gp.buttons & (0x1000u16 | 0x4000u16)) == (0x1000u16 | 0x4000u16),
    }
}

/// Decode one controller poll into camera actions.
pub fn controller_actions(gp: &Gamepad) -> (actions: ControllerActions)
    ensures
        actions == spec_controller_actions(*gp),
{
    ControllerActions {
        toggle_camera: (gp.buttons & (0x200u16 | 0x80u16)) == (0x200u16 | 0x80u16),
        engine_slower: (gp.buttons & 0x4) == 0x4,
        engine_faster: (gp.buttons & 0x8) == 0x8,
        fov_narrower: gp.left_trigger > 150,
        fov_wider: gp.right_trigger > 150,
        move_x: dead_zone(gp.thumb_lx, DEADZONE),
        move_y: dead_zone(gp.thumb_ly, DEADZONE),
        look_x: dead_zone(gp.thumb_rx, DEADZONE),
        look_y: dead_zone(gp.thumb_ry, DEADZONE),
        detach_tool: (gp.buttons & (0x1000u16 | 0x4000u16)) == (0x1000u16 | 0x4000u16),
    }
}

/// The combinations need every one of their buttons: the camera switches
/// only while both R1 (0x200) and R3 (0x80) are held, and the tool is left
/// only while both A (0x1000) and X (0x4000) are held. A stick value counts
/// only outside the dead zone, and then unchanged.
pub proof fn lemma_controller_combinations(gp: Gamepad)
    ensures
        spec_controller_actions(gp).toggle_camera == ((gp.buttons & 0x200) != 0 && (gp.buttons
            & 0x80) != 0),
        spec_controller_actions(gp).detach_tool == ((gp.buttons & 0x1000) != 0 && (gp.buttons
            & 0x4000) != 0),
        -2000 < gp.thumb_lx < 2000 ==> spec_controller_actions(gp).move_x == 0,
        (gp.thumb_lx <= -2000 || gp.thumb_lx >= 2000) ==> spec_controller_actions(gp).move_x
            == gp.thumb_lx,
        -2000 < gp.thumb_ly < 2000 ==> spec_controller_actions(gp).move_y == 0,
        (gp.thumb_ly <= -2000 || gp.thumb_ly >= 2000) ==> spec_controller_actions(gp).move_y
            == gp.thumb_ly,
        -2000 < gp.thumb_rx < 2000 ==> spec_controller_actions(gp).look_x == 0,
        (gp.thumb_rx <= -2000 || gp.thumb_rx >= 2000) ==> spec_controller_actions(gp).look_x
            == gp.thumb_rx,
        -2000 < gp.thumb_ry < 2000 ==> spec_controller_actions(gp).look_y == 0,
        (gp.thumb_ry <= -2000 || gp.thumb_ry >= 2000) ==> spec_controller_actions(gp).look_y
            == gp.thumb_ry,
{
    let b = gp.buttons;
    assert(((b & (0x200u16 | 0x80u16)) == (0x200u16 | 0x80u16)) == ((b & 0x200u16) != 0 && (b
        & 0x80u16) != 0)) by (bit_vector);
    assert(((b & (0x1000u16 | 0x4000u16)) == (0x1000u16 | 0x4000u16)) == ((b & 0x1000u16) != 0
        && (b & 0x4000u16) != 0)) by (bit_vector);
}

} // verus!
