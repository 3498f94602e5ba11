use vstd::prelude::*;
use crate::gamepad::Gamepad;

verus! {

/// The start/pause button of the controller.
pub const PAUSE_BUTTON: u16 = 0x10;

/// What the game sees of the controller: everything while the free camera is
/// off (flag 0); only the pause button while it is on (flag 1), so that the
/// game can still be paused; everything for any other flag value.
pub open spec fn spec_intercept_gamepad(camera_active: u8, gp: Gamepad) -> Gamepad {
    if camera_active == 1 {
        Gamepad {
            buttons: gp.buttons & 0x10,
            left_trigger: 0,
            right_trigger: 0,
            thumb_lx: 0,
            thumb_ly: 0,
            thumb_rx: 0,
            thumb_ry: 0,
        }
    } else {
        gp
    }
}

/// Filter the controller state that the game reads while the free camera
/// holds the controller.
pub fn intercept_gamepad(camera_active: u8, gp: Gamepad) -> (seen: Gamepad)
    ensures
        seen == spec_intercept_gamepad(camera_active, gp),
{
    if camera_active == 0 {
        return gp;
    }
    let buttons = gp.buttons & 0x10;
    let mut gamepad = Gamepad::zeroed();
    gamepad.buttons = buttons;
    if camera_active == 1 {
        gamepad
    } else {
        gp
    }
}

/// Filtering twice is filtering once, and while the camera is on nothing but
/// the pause button reaches the game.
pub proof fn lemma_intercept_idempotent(camera_active: u8, gp: Gamepad)
    ensures
        spec_intercept_gamepad(camera_active, spec_intercept_gamepad(camera_active, gp))
            == spec_intercept_gamepad(camera_active, gp),
        camera_active == 1 ==> spec_intercept_gamepad(camera_active, gp).buttons & !0x10u16
            == 0,
{
    let b = gp.buttons;
    assert((b & 0x10u16) & 0x10u16 == b & 0x10u16) by (bit_vector);
    assert((b & 0x10u16) & !0x10u16 == 0) by (bit_vector);
}

/// Offset, from the hit of the UI pattern, of the instruction that loads
/// the static UI values.
pub const UI_INSTRUCTION_OFFSET: usize = 0x11;

/// Where the 32-bit displacement of the UI instruction lies, given the hit
/// of the UI pattern.
pub fn ui_displacement_address(hit: usize) -> (addr: usize)
    requires
        hit + 0x13 <= usize::MAX,
    ensures
        addr == hit + 0x13,
{
    let ptr = hit + 0x11;
    ptr + 0x2
}

/// The address of the static UI values: the instruction's next address
/// (`hit + 0x11 + 6`) plus its displacement.
pub open spec fn ui_values_base(hit: usize, displacement: u32) -> int {
    hit + 0x11 + 6 + displacement
}

/// The three static UI values that the tool overwrites while the camera is
/// on: at the base and at 4 and 0x24 past it.
pub fn ui_element_addresses(hit: usize, displacement: u32) -> (addrs: Vec<usize>)
    requires
        ui_values_base(hit, displacement) + 0x24 <= usize::MAX,
    ensures
        addrs@ == seq![
            ui_values_base(hit, displacement) as usize,
            (ui_values_base(hit, displacement) + 0x4) as usize,
            (ui_values_base(hit, displacement) + 0x24) as usize,
        ],
{
    let ptr = hit + 0x11;
    let rip = ptr + 0x6;
    let base = rip + (displacement as usize);
    let addrs: Vec<usize> = vec![base, base + 0x4, base + 0x24];
    assert(addrs@ =~= seq![
        ui_values_base(hit, displacement) as usize,
        (ui_values_base(hit, displacement) + 0x4) as usize,
        (ui_values_base(hit, displacement) + 0x24) as usize,
    ]);
    addrs
}

/// The static UI values of the Steam build, at fixed offsets from the
/// module's base.
pub fn steam_ui_element_addresses(module_base: usize) -> (addrs: Vec<usize>)
    requires
        module_base + 0x2829CAC <= usize::MAX,
    ensures
        addrs@ == seq![
            (module_base + 0x2829C88) as usize,
            (module_base + 0x2829C8C) as usize,
            (module_base + 0x2829CAC) as usize,
        ],
{
    let addrs: Vec<usize> = vec![module_base + 0x2829C88, module_base + 0x2829C8C, module_base + 0x2829CAC];
    assert(addrs@ =~= seq![
        (module_base + 0x2829C88) as usize,
        (module_base + 0x2829C8C) as usize,
        (module_base + 0x2829CAC) as usize,
    ]);
    addrs
}

/// The instruction that stores the engine's time scale, 0xB past the hit of
/// the time-stop pattern; its 32-bit displacement lies 4 bytes further.
pub fn timestop_instruction(hit: usize) -> (addr: usize)
    requires
        hit + 0xB <= usize::MAX,
    ensures
        addr == hit + 0xB,
{
    hit + 0xB
}

/// The function that the game calls to read the controller. A `call`
/// instruction (opcode `E8` and a signed 32-bit displacement, 5 bytes in all)
/// sits 8 bytes past the hooked entry point; its target is the address of the
/// next instruction, `entry_point + 8 + 5`, plus the displacement taken as signed.
pub open spec fn spec_controller_function(entry_point: usize, displacement: u32) -> int {
    entry_point + 0xD + (displacement as i32)
}

/// Where the displacement of the controller call lies: just past its opcode.
pub fn controller_call_displacement_address(entry_point: usize) -> (addr: usize)
    requires
        entry_point + 0x9 <= usize::MAX,
    ensures
        addr == entry_point + 0x9,
{
    let rip = entry_point + 0x8;
    rip + 0x1
}

/// The address of the game's controller function: the target of the call,
/// given the 32-bit displacement as read from the game's code.
pub fn controller_function(entry_point: usize, displacement: u32) -> (addr: usize)
    requires
        0 <= spec_controller_function(entry_point, displacement) <= usize::MAX,
    ensures
        addr == spec_controller_function(entry_point, displacement),
{
    let signed: i32 = displacement as i32;
    let target: i128 = (entry_point as i128) + 0xD + (signed as i128);
    target as usize
}

/// The value of the hooks' flag for a camera that is on or off.
pub open spec fn spec_hook_flag(active: bool) -> u8 {
    if active {
        1
    } else {
        0
    }
}

/// What the tool does when the free camera is switched.
#[derive(Clone, Copy, Debug, PartialEq, Eq, Structural)]
pub enum SwitchAction {
    /// Apply the code patches.
    InjectPatches,
    /// Put the UI values and the code back, and forget the camera structure,
    /// which can move from one scene to the next.
    RemovePatches,
}

/// Whether the free camera of the injected library is on.
#[derive(Clone, Copy, Debug, PartialEq, Eq, Structural)]
pub struct CameraSwitch {
    pub active: bool,
}

impl CameraSwitch {
    /// The camera starts off.
    pub fn new() -> (s: CameraSwitch)
        ensures
            !s.active,
    {
        CameraSwitch { active: false }
    }

    /// Switch the camera. Returns what to do to the game.
    pub fn toggle(&mut self) -> (action: SwitchAction)
        ensures
            final(self).active == !old(self).active,
            action == if final(self).active {
                SwitchAction::InjectPatches
            } else {
                SwitchAction::RemovePatches
            },
    {
        self.active = !self.active;
        if self.active {
            SwitchAction::InjectPatches
        } else {
            SwitchAction::RemovePatches
        }
    }

    /// The value of the flag that the game hooks read: 1 while on, 0 while off.
    pub fn hook_flag(&self) -> (flag: u8)
        ensures
            flag == spec_hook_flag(self.active),
    {
        if self.active {
            1
        } else {
            0
        }
    }

    /// The game's camera, 0x80 into the structure that the hook captured;
    /// none while the camera is off or the structure is unknown (0).
    pub fn game_camera(&self, camera_struct: usize) -> (camera: Option<usize>)
        requires
            camera_struct + 0x80 <= usize::MAX,
        ensures
            camera == spec_game_camera(self.active, camera_struct),
            self.active && camera_struct != 0 ==> camera is Some && camera->0 - camera_struct
                == 0x80,
            !self.active || camera_struct == 0 ==> camera is None,
    {
        if camera_struct == 0 || !self.active {
            None
        } else {
            Some(camera_struct + 0x80)
        }
    }

    /// A request to switch the camera: the switch flips, and when the camera
    /// goes off the camera structure is forgotten (set to 0), since it can
    /// move from one scene to the next. Returns what to do to the game.
    pub fn switch(&mut self, camera_struct: &mut usize) -> (action: SwitchAction)
        ensures
            (final(self).active, *final(camera_struct)) == spec_switch(
                old(self).active,
                *old(camera_struct),
            ),
            action == spec_switch_action(old(self).active),
    {
        let action = self.toggle();
        if !self.active {
            *camera_struct = 0;
        }
        action
    }
}

/// The game's camera while the switch is `active` and the hook captured
/// `camera_struct`: 0x80 into the structure, or none.
pub open spec fn spec_game_camera(active: bool, camera_struct: usize) -> Option<usize> {
    if camera_struct == 0 || !active {
        None
    } else {
        Some((camera_struct + 0x80) as usize)
    }
}

/// The switch and the camera structure after a request to switch.
pub open spec fn spec_switch(active: bool, camera_struct: usize) -> (bool, usize) {
    if active {
        (false, 0)
    } else {
        (true, camera_struct)
    }
}

/// What to do to the game when switching from `active`.
pub open spec fn spec_switch_action(active: bool) -> SwitchAction {
    if active {
        SwitchAction::RemovePatches
    } else {
        SwitchAction::InjectPatches
    }
}

/// One request to switch the camera: the switch flips; the hooks' flag then
/// reads 1 exactly when the camera is on; switching off removes the patches
/// and leaves no game camera to drive, whatever the hook had captured;
/// switching on applies the patches; and a game camera is driven only while
/// the switch is on and the hook has captured a structure.
pub proof fn lemma_switch_step(active: bool, camera_struct: usize)
    ensures
        spec_switch(active, camera_struct).0 == !active,
        spec_hook_flag(spec_switch(active, camera_struct).0) == (if !active {
            1u8
        } else {
            0u8
        }),
        active ==> spec_switch_action(active) == SwitchAction::RemovePatches
            && spec_game_camera(
            spec_switch(active, camera_struct).0,
            spec_switch(active, camera_struct).1,
        ) is None,
        !active ==> spec_switch_action(active) == SwitchAction::InjectPatches
            && spec_switch(active, camera_struct).1 == camera_struct,
        forall|a: bool, c: usize| #[trigger] spec_game_camera(a, c) is Some ==> a && c != 0,
{
}

/// While the switch is off the game reads the controller unchanged; while it
/// is on the game reads nothing but the pause button.
pub proof fn lemma_switch_controls_input(active: bool, gp: Gamepad)
    ensures
        !active ==> spec_intercept_gamepad(spec_hook_flag(active), gp) == gp,
        active ==> spec_intercept_gamepad(spec_hook_flag(active), gp) == (Gamepad {
            buttons: gp.buttons & 0x10u16,
            left_trigger: 0,
            right_trigger: 0,
            thumb_lx: 0,
            thumb_ly: 0,
            thumb_rx: 0,
            thumb_ry: 0,
        }),
{
}

/// The game's camera lies 0x80 bytes past the captured structure while the
/// switch is on and a structure is known, and is unknown otherwise.
pub proof fn lemma_game_camera_offset(active: bool, camera_struct: usize)
    requires
        camera_struct + 0x80 <= usize::MAX,
    ensures
        active && camera_struct != 0 ==> spec_game_camera(active, camera_struct) is Some
            && spec_game_camera(active, camera_struct)->0 - camera_struct == 0x80,
        !active || camera_struct == 0 ==> spec_game_camera(active, camera_struct) is None,
{
}

/// The controller function is reached from the end of the 5-byte call that
/// sits 8 bytes past the entry point, by the displacement read as a signed
/// 32-bit number: forward for displacements below 2^31, backward by
/// 2^32 minus the displacement otherwise.
pub proof fn lemma_controller_function_target(entry_point: usize, displacement: u32)
    ensures
        displacement < 0x8000_0000 ==> spec_controller_function(entry_point, displacement)
            == entry_point + 8 + 5 + displacement,
        displacement >= 0x8000_0000 ==> spec_controller_function(entry_point, displacement)
            == entry_point + 8 + 5 - (0x1_0000_0000 - displacement),
{
    if displacement < 0x8000_0000 {
        assert((displacement as i32) as int == displacement as int) by (bit_vector)
            requires
                displacement < 0x8000_0000u32,
        ;
    } else {
        assert((displacement as i32) as int == displacement as int - 0x1_0000_0000) by (
        bit_vector)
            requires
                displacement >= 0x8000_0000u32,
        ;
    }
}

/// The static UI values: the first lies at the hit of the pattern plus
/// 0x17 (the instruction at 0x11 past the hit is 6 bytes long) plus the
/// instruction's displacement; the others 4 and 0x24 bytes past it.
pub proof fn lemma_ui_values_layout(hit: usize, displacement: u32)
    ensures
        ui_values_base(hit, displacement) == hit + 0x17 + displacement,
{
}

} // verus!
