use vstd::prelude::*;

verus! {

/// What the controller bits captured by the game hook ask of the camera in
/// one frame. Each field is a step: positive, negative, or 0 for none.
#[derive(Clone, Copy, Debug, PartialEq, Eq, Structural)]
pub struct ControllerCommand {
    /// Field of view: +1 one step wider, -1 one step narrower (the triggers).
    pub fov_step: i8,
    /// Vertical movement: +2 up, -2 down (the face buttons).
    pub vertical: i8,
    /// Movement speed: +1 faster, -1 slower (d-pad up and down).
    pub speed: i8,
    /// Right stick sensitivity: +1 more, -1 less (d-pad right and left).
    pub dir_speed: i8,
    /// Rotation: +1 one way, -1 the other, 2 back to none (the shoulder buttons).
    pub rotation: i8,
}

/// The command that a controller word stands for.
pub open spec fn spec_decode_controller(state: u64) -> ControllerCommand {
    ControllerCommand {
        fov_step: if state & 0x30 == 0x20 {
            1
        } else if state & 0x30 == 0x10 {
            -1i8
        } else {
            0
        },
        vertical: if state & 0x9 == 0x1 {
            -2i8
        } else if state & 0x9 == 0x8 {
            2
        } else {
            0
        },
        speed: if state & 0x3000 == 0x1000 {
            1
        } else if state & 0x3000 == 0x2000 {
            -1i8
        } else {
            0
        },
        dir_speed: if state & 0xC000 == 0x4000 {
            -1i8
        } else if state & 0xC000 == 0x8000 {
            1
        } else {
            0
        },
        rotation: if state & 0xC0 == 0x40 {
            1
        } else if state & 0xC0 == 0x80 {
            -1i8
        } else if state & 0xC0 == 0xC0 {
            2
        } else {
            0
        },
    }
}

/// Decode the controller word that the game hook captured into camera steps.
pub fn decode_controller(state: u64) -> (command: ControllerCommand)
    ensures
        command == spec_decode_controller(state),
{
    let fov_step: i8 = match state & 0x30 {
        0x20 => 1,
        0x10 => -1,
        _ => 0,
    };
    let vertical: i8 = match state & 0x9 {
        0x01 => -2,
        0x08 => 2,
        _ => 0,
    };
    let speed: i8 = match state & 0x3000 {
        0x1000 => 1,
        0x2000 => -1,
        _ => 0,
    };
    let dir_speed: i8 = match state & 0xC000 {
        0x4000 => -1,
        0x8000 => 1,
        _ => 0,
    };
    let rotation: i8 = match state & 0xC0 {
        0x40 => 1,
        0x80 => -1,
        0xC0 => 2,
        _ => 0,
    };
    ControllerCommand { fov_step, vertical, speed, dir_speed, rotation }
}

/// True when every bit of `activation` is set in the controller word.
pub open spec fn spec_combo_held(value: u64, activation: u64) -> bool {
    value & activation == activation
}

/// Each step is read from its own pair of bits, and a pair with both bits
/// set is no step, except for the rotation, which both of its bits reset:
/// the field of view widens with bit 0x20 alone and narrows with 0x10
/// alone; the camera goes up with 0x8 alone and down with 0x1 alone; the
/// speed rises with 0x1000 alone and falls with 0x2000 alone; the stick
/// sensitivity rises with 0x8000 alone and falls with 0x4000 alone; the
/// rotation turns one way with 0x40 alone, the other with 0x80 alone.
pub proof fn lemma_decode_controller_bits(state: u64)
    ensures
        spec_decode_controller(state).fov_step == 1 <==> (state & 0x20 != 0 && state & 0x10 == 0),
        spec_decode_controller(state).fov_step == -1 <==> (state & 0x10 != 0 && state & 0x20
            == 0),
        spec_decode_controller(state).vertical == 2 <==> (state & 0x8 != 0 && state & 0x1 == 0),
        spec_decode_controller(state).vertical == -2 <==> (state & 0x1 != 0 && state & 0x8 == 0),
        spec_decode_controller(state).speed == 1 <==> (state & 0x1000 != 0 && state & 0x2000
            == 0),
        spec_decode_controller(state).speed == -1 <==> (state & 0x2000 != 0 && state & 0x1000
            == 0),
        spec_decode_controller(state).dir_speed == 1 <==> (state & 0x8000 != 0 && state & 0x4000
            == 0),
        spec_decode_controller(state).dir_speed == -1 <==> (state & 0x4000 != 0 && state & 0x8000
            == 0),
        spec_decode_controller(state).rotation == 1 <==> (state & 0x40 != 0 && state & 0x80 == 0),
        spec_decode_controller(state).rotation == -1 <==> (state & 0x80 != 0 && state & 0x40
            == 0),
        spec_decode_controller(state).rotation == 2 <==> (state & 0x80 != 0 && state & 0x40
            != 0),
{
    let s = state;
    assert((s & 0x30 == 0x20) == (s & 0x20 != 0 && s & 0x10 == 0)) by (bit_vector);
    assert((s & 0x30 == 0x10) == (s & 0x10 != 0 && s & 0x20 == 0)) by (bit_vector);
    assert((s & 0x9 == 0x8) == (s & 0x8 != 0 && s & 0x1 == 0)) by (bit_vector);
    assert((s & 0x9 == 0x1) == (s & 0x1 != 0 && s & 0x8 == 0)) by (bit_vector);
    assert((s & 0x3000 == 0x1000) == (s & 0x1000 != 0 && s & 0x2000 == 0)) by (bit_vector);
    assert((s & 0x3000 == 0x2000) == (s & 0x2000 != 0 && s & 0x1000 == 0)) by (bit_vector);
    assert((s & 0xC000 == 0x8000) == (s & 0x8000 != 0 && s & 0x4000 == 0)) by (bit_vector);
    assert((s & 0xC000 == 0x4000) == (s & 0x4000 != 0 && s & 0x8000 == 0)) by (bit_vector);
    assert((s & 0xC0 == 0x40) == (s & 0x40 != 0 && s & 0x80 == 0)) by (bit_vector);
    assert((s & 0xC0 == 0x80) == (s & 0x80 != 0 && s & 0x40 == 0)) by (bit_vector);
    assert((s & 0xC0 == 0xC0) == (s & 0x80 != 0 && s & 0x40 != 0)) by (bit_vector);
}

/// The activation combinations of the games: L2 + cross (0x11) needs both
/// bit 0x1 and bit 0x10; L2 + square (0x14) needs both bit 0x4 and bit 0x10.
pub proof fn lemma_combo_bits(value: u64)
    ensures
        spec_combo_held(value, 0x11) == (value & 0x1 != 0 && value & 0x10 != 0),
        spec_combo_held(value, 0x14) == (value & 0x4 != 0 && value & 0x10 != 0),
{
    let v = value;
    assert((v & 0x11 == 0x11) == (v & 0x1 != 0 && v & 0x10 != 0)) by (bit_vector);
    assert((v & 0x14 == 0x14) == (v & 0x4 != 0 && v & 0x10 != 0)) by (bit_vector);
}

} // verus!
