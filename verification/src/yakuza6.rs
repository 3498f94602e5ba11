use vstd::prelude::*;
use crate::gamepad::{Gamepad, dead_zone, spec_dead_zone};
use crate::common::{key_pair, spec_key_pair};

pub use crate::common::get_version;

verus! {

/// Letter keys, which are not among the virtual keys of the Windows API.
#[derive(Clone, Copy, Debug, PartialEq, Eq)]
pub enum Keys {
    A,
    B,
    C,
    D,
    E,
    F,
    G,
    H,
    I,
    J,
    K,
    L,
    M,
    N,
    O,
    P,
    Q,
    R,
    S,
    T,
    U,
    V,
    W,
    X,
    Y,
    Z,
}

/// The virtual-key code of a letter key: its ASCII capital letter.
pub open spec fn key_code(key: Keys) -> i32 {
    match key {
        Keys::A => 0x41,
        Keys::B => 0x42,
        Keys::C => 0x43,
        Keys::D => 0x44,
        Keys::E => 0x45,
        Keys::F => 0x46,
        Keys::G => 0x47,
        Keys::H => 0x48,
        Keys::I => 0x49,
        Keys::J => 0x4A,
        Keys::K => 0x4B,
        Keys::L => 0x4C,
        Keys::M => 0x4D,
        Keys::N => 0x4E,
        Keys::O => 0x4F,
        Keys::P => 0x50,
        Keys::Q => 0x51,
        Keys::R => 0x52,
        Keys::S => 0x53,
        Keys::T => 0x54,
        Keys::U => 0x55,
        Keys::V => 0x56,
        Keys::W => 0x57,
        Keys::X => 0x58,
        Keys::Y => 0x59,
        Keys::Z => 0x5A,
    }
}

impl Keys {
    /// The virtual-key code of the key.
    pub fn code(&self) -> (c: i32)
        ensures
            c == key_code(*self),
    {
        match self {
            Keys::A => 0x41,
            Keys::B => 0x42,
            Keys::C => 0x43,
            Keys::D => 0x44,
            Keys::E => 0x45,
            Keys::F => 0x46,
            Keys::G => 0x47,
            Keys::H => 0x48,
            Keys::I => 0x49,
            Keys::J => 0x4A,
            Keys::K => 0x4B,
            Keys::L => 0x4C,
            Keys::M => 0x4D,
            Keys::N => 0x4E,
            Keys::O => 0x4F,
            Keys::P => 0x50,
            Keys::Q => 0x51,
            Keys::R => 0x52,
            Keys::S => 0x53,
            Keys::T => 0x54,
            Keys::U => 0x55,
            Keys::V => 0x56,
            Keys::W => 0x57,
            Keys::X => 0x58,
            Keys::Y => 0x59,
            Keys::Z => 0x5A,
        }
    }
}

/// A key is down when the most significant bit of its asynchronous state
/// is set, that is when the state, read as a signed 16-bit value, is negative.
pub fn key_pressed(async_key_state: i16) -> (pressed: bool)
    ensures
        pressed == (async_key_state < 0),
{
    let bits: u32 = async_key_state as u32;
    let pressed = bits & 0x8000 != 0;
    assert((async_key_state as u32) & 0x8000u32 != 0u32 <==> async_key_state < 0) by (bit_vector);
    pressed
}

/// Stick values closer to the centre than this are ignored.
pub const DEADZONE: i16 = 10000;

/// What the controller asks of the camera in one poll.
#[derive(Clone, Copy, Debug, PartialEq, Eq, Structural)]
pub struct PadActions {
    /// Either trigger past half-way and B: switch the free camera.
    pub toggle_camera: bool,
    /// D-pad left / right: lower / raise the speed multiplier.
    pub multiplier_down: bool,
    pub multiplier_up: bool,
    /// Right / left shoulder: rotate one way / the other; both together
    /// reset the rotation.
    pub rotate_up: bool,
    pub rotate_down: bool,
    pub reset_rotation: bool,
    /// D-pad up / down: narrow / widen the field of view.
    pub fov_narrower: bool,
    pub fov_wider: bool,
    /// A: move eight times faster; B: five times slower.
    pub accelerate: bool,
    pub decelerate: bool,
    /// Left stick, outside the dead zone.
    pub move_x: i16,
    pub move_y: i16,
    /// Right stick, outside the dead zone.
    pub look_x: i16,
    pub look_y: i16,
}

/// The actions that a controller state stands for.
pub open spec fn spec_pad_actions(gp: Gamepad) -> PadActions {
    PadActions {
        toggle_camera: (gp.left_trigger > 150 || gp.right_trigger > 150) && (gp.buttons & 0x2000)
            == 0x2000,
        multiplier_down: (gp.buttons & 0x4) != 0,
        multiplier_up: (gp.buttons & 0x8) != 0,
        rotate_up: (gp.buttons & 0x200) != 0,
        rotate_down: (gp.buttons & 0x100) != 0,
        reset_rotation: (gp.buttons & (0x200u16 | 0x100u16)) == (0x200u16 | 0x100u16),
        fov_narrower: (gp.buttons & 0x1) != 0,
        fov_wider: (gp.buttons & 0x2) != 0,
        accelerate: (gp.buttons & 0x1000) != 0,
        decelerate: (gp.buttons & 0x2000) != 0,
        move_x: spec_dead_zone(gp.thumb_lx, DEADZONE),
        move_y: spec_dead_zone(gp.thumb_ly, DEADZONE),
        look_x: spec_dead_zone(gp.thumb_rx, DEADZONE),
        look_y: spec_dead_zone(gp.thumb_ry, DEADZONE),
    }
}

/// Decode one controller poll into camera actions.
pub fn pad_actions(gp: &Gamepad) -> (actions: PadActions)
    ensures
        actions == spec_pad_actions(*gp),
{
    PadActions {
        toggle_camera: (gp.left_trigger > 150 || gp.right_trigger > 150) && ((gp.buttons & 0x2000)
            == 0x2000),
        multiplier_down: (gp.buttons & 0x4) != 0,
        multiplier_up: (gp.buttons & 0x8) != 0,
        rotate_up: (gp.buttons & 0x200) != 0,
        rotate_down: (gp.buttons & 0x100) != 0,
        reset_rotation: (gp.buttons & (0x200u16 | 0x100u16)) == (0x200u16 | 0x100u16),
        fov_narrower: (gp.buttons & 0x1) != 0,
        fov_wider: (gp.buttons & 0x2) != 0,
        accelerate: gp.buttons & 0x1000 != 0,
        decelerate: gp.buttons & 0x2000 != 0,
        move_x: dead_zone(gp.thumb_lx, DEADZONE),
        move_y: dead_zone(gp.thumb_ly, DEADZONE),
        look_x: dead_zone(gp.thumb_rx, DEADZONE),
        look_y: dead_zone(gp.thumb_ry, DEADZONE),
    }
}

/// The rotation is reset exactly when both shoulder buttons are held.
pub proof fn lemma_reset_needs_both(gp: Gamepad)
    ensures
        spec_pad_actions(gp).reset_rotation == (spec_pad_actions(gp).rotate_up
            && spec_pad_actions(gp).rotate_down),
{
    let b = gp.buttons;
    assert(((b & (0x200u16 | 0x100u16)) == (0x200u16 | 0x100u16)) == ((b & 0x200u16) != 0
        && (b & 0x100u16) != 0)) by (bit_vector);
}

/// The snapshot of a camera path that a point of the path stands for: a
/// point before the first is the last snapshot when the path loops and the
/// first otherwise; a point at or past the last one wraps around when the
/// path loops and is the last snapshot otherwise.
pub open spec fn spec_dolly_index(var: int, len: int, loop_it: bool) -> int {
    if var < 0 {
        if loop_it {
            len - 1
        } else {
            0
        }
    } else if var >= len - 1 {
        if loop_it {
            var % len
        } else {
            len - 1
        }
    } else {
        var
    }
}

/// The snapshot that the point `var` of a path of `len` snapshots stands for.
pub fn dolly_index(var: i32, len: usize, loop_it: bool) -> (index: i32)
    requires
        1 <= len <= i32::MAX,
    ensures
        index == spec_dolly_index(var as int, len as int, loop_it),
        0 <= index < len,
{
    let last = (len - 1) as i32;
    if var < 0 {
        if loop_it {
            last
        } else {
            0
        }
    } else if var >= last {
        if loop_it {
            var % (len as i32)
        } else {
            last
        }
    } else {
        var
    }
}

/// The four snapshots around the segment `p` of a path, as the spline
/// through them needs: points `p - 1`, `p`, `p + 1` and `p + 2`.
pub fn dolly_segment(p: i32, len: usize, loop_it: bool) -> (indices: (usize, usize, usize, usize))
    requires
        1 <= len <= i32::MAX,
        i32::MIN < p < i32::MAX - 1,
    ensures
        indices.0 == spec_dolly_index(p - 1, len as int, loop_it),
        indices.1 == spec_dolly_index(p as int, len as int, loop_it),
        indices.2 == spec_dolly_index(p + 1, len as int, loop_it),
        indices.3 == spec_dolly_index(p + 2, len as int, loop_it),
        indices.0 < len && indices.1 < len && indices.2 < len && indices.3 < len,
{
    let p0 = dolly_index(p - 1, len, loop_it) as usize;
    let p1 = dolly_index(p, len, loop_it) as usize;
    let p2 = dolly_index(p + 1, len, loop_it) as usize;
    let p3 = dolly_index(p + 2, len, loop_it) as usize;
    (p0, p1, p2, p3)
}

/// Every point of a path stands for one of its snapshots.
pub proof fn lemma_dolly_index_in_range(var: int, len: int, loop_it: bool)
    requires
        len >= 1,
    ensures
        0 <= spec_dolly_index(var, len, loop_it) < len,
{
}

/// The keys that the tool reads on one poll: down or not.
#[derive(Clone, Copy, Debug, PartialEq, Eq, Structural)]
pub struct KeyboardState {
    pub f2: bool,
    pub f3: bool,
    pub f4: bool,
    pub f5: bool,
    pub f6: bool,
    pub w: bool,
    pub a: bool,
    pub s: bool,
    pub d: bool,
    pub q: bool,
    pub e: bool,
    pub o: bool,
    pub p: bool,
    pub up: bool,
    pub down: bool,
    pub left: bool,
    pub right: bool,
    pub page_up: bool,
    pub page_down: bool,
    pub left_shift: bool,
    pub tab: bool,
}

/// What to do with the duration of a camera path.
#[derive(Clone, Copy, Debug, PartialEq, Eq, Structural)]
pub enum DollyDuration {
    /// P: longer, by a step that grows while the key is held.
    Longer,
    /// O: shorter, by a step that grows while the key is held.
    Shorter,
    /// Neither: the step goes back to its first size.
    ResetStep,
}

/// What the keyboard asks of the camera on one poll. All but `change_active`
/// only count while the camera is on.
#[derive(Clone, Copy, Debug, PartialEq, Eq, Structural)]
pub struct KeyboardActions {
    /// F2 switches the camera (on request), F3 cancels a request; `None`
    /// leaves the request as it is.
    pub change_active: Option<bool>,
    /// W / S: forward (+1) or back (-1); S wins when both are down.
    pub forward: i8,
    /// A / D: left (+1) or right (-1).
    pub sideways: i8,
    /// Up / down arrow: look up (+1) or down (-1).
    pub look_vertical: i8,
    /// Left / right arrow: look left (+1) or right (-1).
    pub look_horizontal: i8,
    /// Q lowers the camera, E raises it; both apply when both are down.
    pub lower: bool,
    pub raise: bool,
    /// Page down and page up rotate one way and the other.
    pub rotate_up: bool,
    pub rotate_down: bool,
    /// F5 narrows the field of view, F6 widens it.
    pub fov_narrower: bool,
    pub fov_wider: bool,
    /// F3 lowers the speed multiplier, F4 raises it.
    pub multiplier_down: bool,
    pub multiplier_up: bool,
    pub dolly: DollyDuration,
    /// Left shift: move eight times faster; tab: five times slower.
    pub accelerate: bool,
    pub decelerate: bool,
}

/// The actions that a keyboard state stands for.
pub open spec fn spec_keyboard_actions(k: KeyboardState) -> KeyboardActions {
    KeyboardActions {
        change_active: if k.f3 {
            Some(false)
        } else if k.f2 {
            Some(true)
        } else {
            None
        },
        forward: spec_key_pair(k.w, k.s),
        sideways: spec_key_pair(k.a, k.d),
        look_vertical: spec_key_pair(k.up, k.down),
        look_horizontal: spec_key_pair(k.left, k.right),
        lower: k.q,
        raise: k.e,
        rotate_up: k.page_down,
        rotate_down: k.page_up,
        fov_narrower: k.f5,
        fov_wider: k.f6,
        multiplier_down: k.f3,
        multiplier_up: k.f4,
        dolly: if k.p {
            DollyDuration::Longer
        } else if k.o {
            DollyDuration::Shorter
        } else {
            DollyDuration::ResetStep
        },
        accelerate: k.left_shift,
        decelerate: k.tab,
    }
}

/// Decode the keyboard of one poll into camera actions.
pub fn keyboard_actions(k: &KeyboardState) -> (actions: KeyboardActions)
    ensures
        actions == spec_keyboard_actions(*k),
{
    let mut change_active: Option<bool> = None;
    if k.f2 {
        change_active = Some(true);
    }
    if k.f3 {
        change_active = Some(false);
    }
    let dolly = if k.p {
        DollyDuration::Longer
    } else if k.o {
        DollyDuration::Shorter
    } else {
        DollyDuration::ResetStep
    };
    KeyboardActions {
        change_active,
        forward: key_pair(k.w, k.s),
        sideways: key_pair(k.a, k.d),
        look_vertical: key_pair(k.up, k.down),
        look_horizontal: key_pair(k.left, k.right),
        lower: k.q,
        raise: k.e,
        rotate_up: k.page_down,
        rotate_down: k.page_up,
        fov_narrower: k.f5,
        fov_wider: k.f6,
        multiplier_down: k.f3,
        multiplier_up: k.f4,
        dolly,
        accelerate: k.left_shift,
        decelerate: k.tab,
    }
}

/// The keys of the camera path on one poll.
#[derive(Clone, Copy, Debug, PartialEq, Eq, Structural)]
pub struct PathKeys {
    /// F9: add the camera's snapshot as a point.
    pub add: bool,
    /// F11: forget every point.
    pub clear: bool,
    /// P: play the path once.
    pub play: bool,
    /// L: play the path in a loop.
    pub play_loop: bool,
}

/// What to do with the camera path on one poll, in this order.
#[derive(Clone, Copy, Debug, PartialEq, Eq, Structural)]
pub struct PathActions {
    /// The camera went too far from the first point: forget the points.
    pub drop_far: bool,
    pub add: bool,
    pub clear: bool,
    pub play: bool,
    pub play_loop: bool,
    /// How many points the path has afterwards.
    pub len: usize,
}

/// The path actions for a path of `len` points whose first point is
/// `too_far` from the camera: the points are dropped when there are some and
/// the camera is too far; then a point is added, then all are cleared, as
/// asked; a path is played only when it has at least two points.
pub open spec fn spec_path_actions(len: usize, too_far: bool, keys: PathKeys) -> PathActions {
    let drop_far = len > 0 && too_far;
    let l0: int = if drop_far { 0 } else { len as int };
    let l1: int = if keys.add { l0 + 1 } else { l0 };
    let l2: int = if keys.clear { 0 } else { l1 };
    PathActions {
        drop_far,
        add: keys.add,
        clear: keys.clear,
        play: keys.play && l2 > 1,
        play_loop: keys.play_loop && l2 > 1,
        len: l2 as usize,
    }
}

/// Decide what happens to the camera path on one poll.
pub fn path_actions(len: usize, too_far: bool, keys: PathKeys) -> (actions: PathActions)
    requires
        len < usize::MAX,
    ensures
        actions == spec_path_actions(len, too_far, keys),
        actions.play == (keys.play && actions.len >= 2),
        actions.play_loop == (keys.play_loop && actions.len >= 2),
{
    let drop_far = len > 0 && too_far;
    let mut n = len;
    if drop_far {
        n = 0;
    }
    if keys.add {
        n = n + 1;
    }
    if keys.clear {
        n = 0;
    }
    PathActions {
        drop_far,
        add: keys.add,
        clear: keys.clear,
        play: keys.play && n > 1,
        play_loop: keys.play_loop && n > 1,
        len: n,
    }
}

/// Each pair of keys moves the camera one way for its first key and the
/// other way for its second, which wins when both are down: W forward (+1)
/// and S back (-1), A left and D right, up and down arrows, left and right
/// arrows. F3 cancels a switch request even with F2 down; F2 alone asks
/// for one. P lengthens the path's duration even with O down; O alone
/// shortens it; neither resets the step.
pub proof fn lemma_keyboard_directions(k: KeyboardState)
    ensures
        k.w && !k.s ==> spec_keyboard_actions(k).forward == 1,
        k.s ==> spec_keyboard_actions(k).forward == -1,
        !k.w && !k.s ==> spec_keyboard_actions(k).forward == 0,
        k.a && !k.d ==> spec_keyboard_actions(k).sideways == 1,
        k.d ==> spec_keyboard_actions(k).sideways == -1,
        !k.a && !k.d ==> spec_keyboard_actions(k).sideways == 0,
        k.up && !k.down ==> spec_keyboard_actions(k).look_vertical == 1,
        k.down ==> spec_keyboard_actions(k).look_vertical == -1,
        !k.up && !k.down ==> spec_keyboard_actions(k).look_vertical == 0,
        k.left && !k.right ==> spec_keyboard_actions(k).look_horizontal == 1,
        k.right ==> spec_keyboard_actions(k).look_horizontal == -1,
        !k.left && !k.right ==> spec_keyboard_actions(k).look_horizontal == 0,
        k.f3 ==> spec_keyboard_actions(k).change_active == Some(false),
        k.f2 && !k.f3 ==> spec_keyboard_actions(k).change_active == Some(true),
        !k.f2 && !k.f3 ==> spec_keyboard_actions(k).change_active is None,
        spec_keyboard_actions(k).lower == k.q && spec_keyboard_actions(k).raise == k.e,
        spec_keyboard_actions(k).rotate_up == k.page_down && spec_keyboard_actions(k).rotate_down
            == k.page_up,
        spec_keyboard_actions(k).fov_narrower == k.f5 && spec_keyboard_actions(k).fov_wider
            == k.f6,
        spec_keyboard_actions(k).multiplier_down == k.f3 && spec_keyboard_actions(
            k,
        ).multiplier_up == k.f4,
        spec_keyboard_actions(k).accelerate == k.left_shift && spec_keyboard_actions(
            k,
        ).decelerate == k.tab,
        k.p ==> spec_keyboard_actions(k).dolly == DollyDuration::Longer,
        !k.p && k.o ==> spec_keyboard_actions(k).dolly == DollyDuration::Shorter,
        !k.p && !k.o ==> spec_keyboard_actions(k).dolly == DollyDuration::ResetStep,
{
}

/// A poll of the camera path: the points are dropped exactly when there are
/// some and the first is too far; afterwards the path has no points when it
/// was cleared, one more than it kept when a point was added, and the points
/// it kept otherwise; it plays, once or in a loop, exactly when its key is
/// down and at least two points are left.
pub proof fn lemma_path_step(len: usize, too_far: bool, keys: PathKeys)
    requires
        len < usize::MAX,
    ensures
        spec_path_actions(len, too_far, keys).drop_far == (len > 0 && too_far),
        keys.clear ==> spec_path_actions(len, too_far, keys).len == 0,
        !keys.clear && keys.add && !(len > 0 && too_far) ==> spec_path_actions(
            len,
            too_far,
            keys,
        ).len == len + 1,
        !keys.clear && keys.add && len > 0 && too_far ==> spec_path_actions(
            len,
            too_far,
            keys,
        ).len == 1,
        !keys.clear && !keys.add && !(len > 0 && too_far) ==> spec_path_actions(
            len,
            too_far,
            keys,
        ).len == len,
        !keys.clear && !keys.add && len > 0 && too_far ==> spec_path_actions(
            len,
            too_far,
            keys,
        ).len == 0,
        spec_path_actions(len, too_far, keys).add == keys.add,
        spec_path_actions(len, too_far, keys).clear == keys.clear,
        spec_path_actions(len, too_far, keys).play == (keys.play && spec_path_actions(
            len,
            too_far,
            keys,
        ).len >= 2),
        spec_path_actions(len, too_far, keys).play_loop == (keys.play_loop && spec_path_actions(
            len,
            too_far,
            keys,
        ).len >= 2),
{
}

/// A path that loops wraps a point around its length (a point before the
/// first is the last snapshot); a path that does not loop clamps the point
/// to its first and last snapshots.
pub proof fn lemma_dolly_index_wraps_or_clamps(var: int, len: int, loop_it: bool)
    requires
        len >= 1,
    ensures
        loop_it && var >= 0 ==> spec_dolly_index(var, len, loop_it) == var % len,
        loop_it && var < 0 ==> spec_dolly_index(var, len, loop_it) == len - 1,
        !loop_it && var <= 0 ==> spec_dolly_index(var, len, loop_it) == 0,
        !loop_it && 0 <= var < len ==> spec_dolly_index(var, len, loop_it) == var,
        !loop_it && var >= len ==> spec_dolly_index(var, len, loop_it) == len - 1,
{
    if loop_it && 0 <= var < len - 1 {
        vstd::arithmetic::div_mod::lemma_small_mod(var as nat, len as nat);
    }
}

/// The controller: either trigger past half-way together with B switches
/// the camera; A speeds the movement up and B slows it down; the rotation is
/// reset exactly when both shoulder buttons are held. A stick value counts
/// only outside the dead zone, and then unchanged.
pub proof fn lemma_pad_buttons(gp: Gamepad)
    ensures
        spec_pad_actions(gp).toggle_camera == ((gp.left_trigger > 150 || gp.right_trigger > 150)
            && (gp.buttons & 0x2000) != 0),
        spec_pad_actions(gp).accelerate == ((gp.buttons & 0x1000) != 0),
        spec_pad_actions(gp).decelerate == ((gp.buttons & 0x2000) != 0),
        spec_pad_actions(gp).reset_rotation == ((gp.buttons & 0x200) != 0 && (gp.buttons & 0x100)
            != 0),
        -10000 < gp.thumb_lx < 10000 ==> spec_pad_actions(gp).move_x == 0,
        (gp.thumb_lx <= -10000 || gp.thumb_lx >= 10000) ==> spec_pad_actions(gp).move_x
            == gp.thumb_lx,
        -10000 < gp.thumb_ly < 10000 ==> spec_pad_actions(gp).move_y == 0,
        (gp.thumb_ly <= -10000 || gp.thumb_ly >= 10000) ==> spec_pad_actions(gp).move_y
            == gp.thumb_ly,
        -10000 < gp.thumb_rx < 10000 ==> spec_pad_actions(gp).look_x == 0,
        (gp.thumb_rx <= -10000 || gp.thumb_rx >= 10000) ==> spec_pad_actions(gp).look_x
            == gp.thumb_rx,
        -10000 < gp.thumb_ry < 10000 ==> spec_pad_actions(gp).look_y == 0,
        (gp.thumb_ry <= -10000 || gp.thumb_ry >= 10000) ==> spec_pad_actions(gp).look_y
            == gp.thumb_ry,
{
    let b = gp.buttons;
    assert(((b & 0x2000u16) == 0x2000u16) == ((b & 0x2000u16) != 0)) by (bit_vector);
    lemma_reset_needs_both(gp);
}

/// Each letter key's code is the ASCII code of its capital letter.
pub proof fn lemma_key_codes()
    ensures
        key_code(Keys::A) == 'A' as i32,
        key_code(Keys::B) == 'B' as i32,
        key_code(Keys::C) == 'C' as i32,
        key_code(Keys::D) == 'D' as i32,
        key_code(Keys::E) == 'E' as i32,
        key_code(Keys::F) == 'F' as i32,
        key_code(Keys::G) == 'G' as i32,
        key_code(Keys::H) == 'H' as i32,
        key_code(Keys::I) == 'I' as i32,
        key_code(Keys::J) == 'J' as i32,
        key_code(Keys::K) == 'K' as i32,
        key_code(Keys::L) == 'L' as i32,
        key_code(Keys::M) == 'M' as i32,
        key_code(Keys::N) == 'N' as i32,
        key_code(Keys::O) == 'O' as i32,
        key_code(Keys::P) == 'P' as i32,
        key_code(Keys::Q) == 'Q' as i32,
        key_code(Keys::R) == 'R' as i32,
        key_code(Keys::S) == 'S' as i32,
        key_code(Keys::T) == 'T' as i32,
        key_code(Keys::U) == 'U' as i32,
        key_code(Keys::V) == 'V' as i32,
        key_code(Keys::W) == 'W' as i32,
        key_code(Keys::X) == 'X' as i32,
        key_code(Keys::Y) == 'Y' as i32,
        key_code(Keys::Z) == 'Z' as i32,
{
}

} // verus!
