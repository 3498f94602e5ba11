use vstd::prelude::*;

verus! {

/// Where the mouse cursor is put back to while the camera follows the mouse,
/// so that it can be moved without end.
pub const INITIAL_POS: i32 = 500;

/// What the tool does to the game when the camera is switched.
#[derive(Clone, Copy, Debug, PartialEq, Eq, Structural)]
pub enum CameraAction {
    /// Take the camera from the game: raise the hook's flag, apply the patches.
    Deattach,
    /// Give the camera back to the game: lower the flag, restore the patches.
    Attach,
}

/// The state of the free camera tool between two polls of its main loop.
#[derive(Clone, Copy, Debug, PartialEq, Eq, Structural)]
pub struct FreecamSession {
    /// The free camera is on.
    pub active: bool,
    /// The mouse steers the camera.
    pub capture_mouse: bool,
    /// The cursor is to be put back to the centre on the next poll.
    pub restart_mouse: bool,
    /// The cursor position seen on the last poll.
    pub latest_x: i32,
    pub latest_y: i32,
    /// The cinematics of the world are paused.
    pub pause_world: bool,
}

/// The session after the camera is switched; a switch by the controller
/// leaves the mouse as it was, one by the keyboard makes the mouse follow
/// the camera's new state.
pub open spec fn spec_toggle_camera(s: FreecamSession, by_controller: bool) -> FreecamSession {
    FreecamSession {
        active: !s.active,
        capture_mouse: if by_controller {
            s.capture_mouse
        } else {
            !s.active
        },
        ..s
    }
}

/// The action that switching from `s` calls for.
pub open spec fn spec_toggle_action(s: FreecamSession) -> CameraAction {
    if s.active {
        CameraAction::Attach
    } else {
        CameraAction::Deattach
    }
}

impl FreecamSession {
    /// A session before anything happened: camera off, mouse free.
    pub fn new() -> (s: FreecamSession)
        ensures
            s == (FreecamSession {
                active: false,
                capture_mouse: false,
                restart_mouse: false,
                latest_x: 0,
                latest_y: 0,
                pause_world: false,
            }),
    {
        FreecamSession {
            active: false,
            capture_mouse: false,
            restart_mouse: false,
            latest_x: 0,
            latest_y: 0,
            pause_world: false,
        }
    }

    /// Start of a poll. When the mouse steers the camera and the cursor is due
    /// to be put back, the cursor goes to the centre, the poll starts over,
    /// and `true` is returned; otherwise nothing changes.
    pub fn recenter_cursor(&mut self) -> (recentered: bool)
        ensures
            recentered == (old(self).capture_mouse && old(self).restart_mouse),
            recentered ==> *final(self) == (FreecamSession {
                restart_mouse: false,
                latest_x: INITIAL_POS,
                latest_y: INITIAL_POS,
                ..*old(self)
            }),
            !recentered ==> *final(self) == *old(self),
    {
        if self.capture_mouse && self.restart_mouse {
            self.restart_mouse = false;
            self.latest_x = INITIAL_POS;
            self.latest_y = INITIAL_POS;
            true
        } else {
            false
        }
    }

    /// The cursor was seen at `(x, y)`: returns how far it moved since the
    /// last poll, remembers the position and flips the re-centring turn.
    pub fn mouse_moved(&mut self, x: i32, y: i32) -> (delta: (i32, i32))
        requires
            i32::MIN <= x - old(self).latest_x <= i32::MAX,
            i32::MIN <= y - old(self).latest_y <= i32::MAX,
        ensures
            delta == ((x - old(self).latest_x) as i32, (y - old(self).latest_y) as i32),
            *final(self) == (FreecamSession {
                latest_x: x,
                latest_y: y,
                restart_mouse: !old(self).restart_mouse,
                ..*old(self)
            }),
    {
        let delta = (x - self.latest_x, y - self.latest_y);
        self.latest_x = x;
        self.latest_y = y;
        self.restart_mouse = !self.restart_mouse;
        delta
    }

    /// Switch the free camera on or off, by the controller's combination
    /// (`by_controller`) or by a key. Returns what to do to the game.
    pub fn toggle_camera(&mut self, by_controller: bool) -> (action: CameraAction)
        ensures
            *final(self) == spec_toggle_camera(*old(self), by_controller),
            action == spec_toggle_action(*old(self)),
    {
        self.active = !self.active;
        if !by_controller {
            self.capture_mouse = self.active;
        }
        if self.active {
            CameraAction::Deattach
        } else {
            CameraAction::Attach
        }
    }

    /// Free the mouse from the camera or take it back; only while the camera
    /// is on. Returns whether anything changed.
    pub fn toggle_mouse(&mut self) -> (toggled: bool)
        ensures
            toggled == old(self).active,
            toggled ==> *final(self) == (FreecamSession {
                capture_mouse: !old(self).capture_mouse,
                ..*old(self)
            }),
            !toggled ==> *final(self) == *old(self),
    {
        if self.active {
            self.capture_mouse = !self.capture_mouse;
            true
        } else {
            false
        }
    }

    /// Pause the cinematics of the world or let them run again. Returns
    /// whether they are now paused.
    pub fn toggle_pause_world(&mut self) -> (paused: bool)
        ensures
            paused == !old(self).pause_world,
            *final(self) == (FreecamSession { pause_world: paused, ..*old(self) }),
    {
        self.pause_world = !self.pause_world;
        self.pause_world
    }
}

/// Switching the camera twice returns it to where it was, and the two
/// switches call for opposite actions; after a switch by a key the mouse
/// steers exactly when the camera is on.
pub proof fn lemma_toggle_twice(s: FreecamSession, by_controller: bool)
    ensures
        spec_toggle_camera(spec_toggle_camera(s, by_controller), by_controller).active == s.active,
        spec_toggle_action(spec_toggle_camera(s, by_controller)) != spec_toggle_action(s),
        by_controller ==> spec_toggle_camera(spec_toggle_camera(s, true), true) == s,
        spec_toggle_camera(s, false).capture_mouse == spec_toggle_camera(s, false).active,
        s.capture_mouse == s.active ==> spec_toggle_camera(spec_toggle_camera(s, false), false)
            == s,
{
}

/// Switching the camera turns it on when it was off and off when it was on,
/// and asks to take the camera from the game exactly when it turns on. A
/// key makes the mouse steer exactly when the camera is now on; the
/// controller leaves the mouse as it was. Nothing else changes.
pub proof fn lemma_toggle_camera_effect(s: FreecamSession, by_controller: bool)
    ensures
        spec_toggle_camera(s, by_controller).active != s.active,
        (spec_toggle_action(s) == CameraAction::Deattach) == !s.active,
        !by_controller ==> spec_toggle_camera(s, by_controller).capture_mouse == !s.active,
        by_controller ==> spec_toggle_camera(s, by_controller).capture_mouse == s.capture_mouse,
        spec_toggle_camera(s, by_controller).restart_mouse == s.restart_mouse,
        spec_toggle_camera(s, by_controller).latest_x == s.latest_x,
        spec_toggle_camera(s, by_controller).latest_y == s.latest_y,
        spec_toggle_camera(s, by_controller).pause_world == s.pause_world,
{
}

} // verus!
