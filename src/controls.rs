use vstd::prelude::*;

verus! {

/// The keys that steer the camera; every other key is `Other`.
#[derive(Debug, Clone, Copy, PartialEq, Eq, Structural)]
pub enum ControlKey {
    W,
    A,
    S,
    D,
    Up,
    Down,
    Left,
    Right,
    Space,
    LShift,
    Q,
    E,
    Other,
}

/// Which camera motions are held down.
#[derive(Debug, Clone, Copy, PartialEq, Eq, Structural)]
pub struct CameraControls {
    pub move_up: bool,
    pub move_down: bool,
    pub move_left: bool,
    pub move_right: bool,
    pub zoom_in: bool,
    pub zoom_out: bool,
    pub rotate_cw: bool,
    pub rotate_ccw: bool,
}

impl CameraControls {
    /// No motion held.
    pub fn new() -> (r: CameraControls)
        ensures
            !r.move_up && !r.move_down && !r.move_left && !r.move_right,
            !r.zoom_in && !r.zoom_out && !r.rotate_cw && !r.rotate_ccw,
    {
        CameraControls {
            move_up: false,
            move_down: false,
            move_left: false,
            move_right: false,
            zoom_in: false,
            zoom_out: false,
            rotate_cw: false,
            rotate_ccw: false,
        }
    }

    /// Records that `key` went down (`pressed`) or up. W or Up moves up, A or Left
    /// left, S or Down down, D or Right right; Space zooms in, left Shift zooms out; Q
    /// rotates clockwise and E counter-clockwise. Returns whether the key steers the
    /// camera.
    pub fn process_key(&mut self, key: ControlKey, pressed: bool) -> (r: bool)
        ensures
            r == (key != ControlKey::Other),
            final(self).move_up == if key == ControlKey::W || key == ControlKey::Up {
                pressed
            } else {
                old(self).move_up
            },
            final(self).move_left == if key == ControlKey::A || key == ControlKey::Left {
                pressed
            } else {
                old(self).move_left
            },
            final(self).move_down == if key == ControlKey::S || key == ControlKey::Down {
                pressed
            } else {
                old(self).move_down
            },
            final(self).move_right == if key == ControlKey::D || key == ControlKey::Right {
                pressed
            } else {
                old(self).move_right
            },
            final(self).zoom_in == if key == ControlKey::Space {
                pressed
            } else {
                old(self).zoom_in
            },
            final(self).zoom_out == if key == ControlKey::LShift {
                pressed
            } else {
                old(self).zoom_out
            },
            final(self).rotate_cw == if key == ControlKey::Q {
                pressed
            } else {
                old(self).rotate_cw
            },
            final(self).rotate_ccw == if key == ControlKey::E {
                pressed
            } else {
                old(self).rotate_ccw
            },
    {
        match key {
            ControlKey::W | ControlKey::Up => {
                self.move_up = pressed;
                true
            },
            ControlKey::A | ControlKey::Left => {
                self.move_left = pressed;
                true
            },
            ControlKey::S | ControlKey::Down => {
                self.move_down = pressed;
                true
            },
            ControlKey::D | ControlKey::Right => {
                self.move_right = pressed;
                true
            },
            ControlKey::Space => {
                self.zoom_in = pressed;
                true
            },
            ControlKey::LShift => {
                self.zoom_out = pressed;
                true
            },
            ControlKey::Q => {
                self.rotate_cw = pressed;
                true
            },
            ControlKey::E => {
                self.rotate_ccw = pressed;
                true
            },
            ControlKey::Other => false,
        }
    }
}

} // verus!
