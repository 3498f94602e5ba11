use vstd::prelude::*;

verus! {

/// The state of a game controller as the XInput API reports it: the button
/// bits, the two analog triggers and the two thumb sticks.
#[derive(Clone, Copy, Debug, PartialEq, Eq, Structural)]
pub struct Gamepad {
    pub buttons: u16,
    pub left_trigger: u8,
    pub right_trigger: u8,
    pub thumb_lx: i16,
    pub thumb_ly: i16,
    pub thumb_rx: i16,
    pub thumb_ry: i16,
}

impl Gamepad {
    /// A controller at rest: no button pressed, triggers released, sticks centred.
    pub fn zeroed() -> (gp: Gamepad)
        ensures
            gp == (Gamepad {
                buttons: 0,
                left_trigger: 0,
                right_trigger: 0,
                thumb_lx: 0,
                thumb_ly: 0,
                thumb_rx: 0,
                thumb_ry: 0,
            }),
    {
        Gamepad {
            buttons: 0,
            left_trigger: 0,
            right_trigger: 0,
            thumb_lx: 0,
            thumb_ly: 0,
            thumb_rx: 0,
            thumb_ry: 0,
        }
    }
}

/// A stick value inside the dead zone counts as zero.
pub open spec fn spec_dead_zone(value: i16, deadzone: i16) -> i16 {
    if value < deadzone && value > -deadzone {
        0
    } else {
        value
    }
}

/// Filter a stick value: anything strictly between `-deadzone` and
/// `deadzone` reads as 0, anything else passes unchanged.
pub fn dead_zone(value: i16, deadzone: i16) -> (filtered: i16)
    requires
        deadzone >= 0,
    ensures
        filtered == spec_dead_zone(value, deadzone),
{
    if value < deadzone && value > -deadzone {
        0
    } else {
        value
    }
}

/// A filtered stick value is 0 or the value itself, and filtering twice
/// changes nothing.
pub proof fn lemma_dead_zone_idempotent(value: i16, deadzone: i16)
    requires
        deadzone >= 0,
    ensures
        spec_dead_zone(value, deadzone) == 0 || spec_dead_zone(value, deadzone) == value,
        spec_dead_zone(spec_dead_zone(value, deadzone), deadzone) == spec_dead_zone(
            value,
            deadzone,
        ),
{
}

/// A stick value strictly between `-deadzone` and `deadzone` reads as 0;
/// any other value passes unchanged.
pub proof fn lemma_dead_zone_bounds(value: i16, deadzone: i16)
    requires
        deadzone >= 0,
    ensures
        -deadzone < value < deadzone ==> spec_dead_zone(value, deadzone) == 0,
        value <= -deadzone || value >= deadzone ==> spec_dead_zone(value, deadzone) == value,
{
}

} // verus!
