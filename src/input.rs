use vstd::prelude::*;

verus! {

/// The keys that steer the camera or end the program.
#[derive(Clone, Copy, Debug, PartialEq, Eq, Structural)]
pub enum Key {
    W,
    A,
    S,
    D,
    Space,
    LControl,
    Escape,
    Other,
}

/// What the event loop does after a key event.
#[derive(Clone, Copy, Debug, PartialEq, Eq, Structural)]
pub enum KeyResponse {
    Continue,
    Exit,
}

/// The camera-local movement axes that the held keys ask for, each in
/// {-1, 0, 1}: x to the right, y up, z forward.
#[derive(Clone, Copy, Debug, PartialEq, Eq, Structural)]
pub struct MovementState {
    pub x: i8,
    pub y: i8,
    pub z: i8,
}

pub open spec fn unit_axis(v: i8) -> bool {
    -1 <= v <= 1
}

/// The axis value a key sets: `held` while pressed, 0 once released.
pub open spec fn axis_value(pressed: bool, held: i8) -> i8 {
    if pressed {
        held
    } else {
        0
    }
}

impl MovementState {
    pub open spec fn wf(self) -> bool {
        unit_axis(self.x) && unit_axis(self.y) && unit_axis(self.z)
    }

    /// The state after a key event: W and S drive z to 1 and -1, D and A
    /// drive x to 1 and -1, Space and left Control drive y to 1 and -1; a
    /// release sets that axis back to 0.
    pub open spec fn after_key(self, key: Key, pressed: bool) -> MovementState {
        match key {
            Key::W => MovementState { z: axis_value(pressed, 1i8), ..self },
            Key::S => MovementState { z: axis_value(pressed, -1i8), ..self },
            Key::D => MovementState { x: axis_value(pressed, 1i8), ..self },
            Key::A => MovementState { x: axis_value(pressed, -1i8), ..self },
            Key::Space => MovementState { y: axis_value(pressed, 1i8), ..self },
            Key::LControl => MovementState { y: axis_value(pressed, -1i8), ..self },
            _ => self,
        }
    }

    /// No key held.
    pub fn new() -> (r: MovementState)
        ensures
            r == (MovementState { x: 0, y: 0, z: 0 }),
    {
        MovementState { x: 0, y: 0, z: 0 }
    }

    /// True when some axis is asked for.
    pub fn is_moving(&self) -> (r: bool)
        ensures
            r == (self.x != 0 || self.y != 0 || self.z != 0),
    {
        self.x != 0 || self.y != 0 || self.z != 0
    }

    /// Takes a key press or release; Escape ends the program.
    pub fn on_key(&mut self, key: Key, pressed: bool) -> (r: KeyResponse)
        requires
            old(self).wf(),
        ensures
            *final(self) == old(self).after_key(key, pressed),
            final(self).wf(),
            r == (if key == Key::Escape {
                KeyResponse::Exit
            } else {
                KeyResponse::Continue
            }),
    {
        let v: i8 = if pressed {
            1
        } else {
            0
        };
        match key {
            Key::W => self.z = v,
            Key::S => self.z = -v,
            Key::D => self.x = v,
            Key::A => self.x = -v,
            Key::Space => self.y = v,
            Key::LControl => self.y = -v,
            _ => {},
        }
        if key == Key::Escape {
            KeyResponse::Exit
        } else {
            KeyResponse::Continue
        }
    }
}

} // verus!
