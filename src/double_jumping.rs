use vstd::prelude::*;

use crate::moving_object::MovingObject;
use crate::player::{PlayerInput, JUMP_SPEED};

verus! {

/// A one-shot permission for a jump in mid-air.
#[derive(Clone, Copy, Debug, PartialEq, Eq, Structural)]
pub struct DoubleJumping {
    pub available: bool,
}

impl DoubleJumping {
    /// The permission after a `double_jump` attempt, and whether a jump was made.
    pub open spec fn consumed(self) -> (DoubleJumping, bool) {
        (DoubleJumping { available: false }, self.available)
    }

    pub fn new() -> (r: DoubleJumping)
        ensures
            !r.available,
    {
        DoubleJumping { available: false }
    }

    /// Arms the permission.
    pub fn enable(&mut self)
        ensures
            final(self).available,
    {
        self.available = true;
    }

    /// Follows the object's ground contact: leaving the ground arms the
    /// permission, standing on the ground disarms it.
    pub fn update(&mut self, mv: &MovingObject, pi: &PlayerInput)
        ensures
            final(self).available == if mv.on_ground {
                false
            } else if mv.was_on_ground {
                true
            } else {
                old(self).available
            },
    {
        if mv.was_on_ground && !mv.on_ground {
            self.available = true;
        }
        if mv.on_ground {
            self.available = false;
        }
    }

    /// If armed, gives the object the jump speed upward and disarms;
    /// otherwise changes nothing. Returns whether it jumped.
    pub fn double_jump(&mut self, mv: &mut MovingObject) -> (r: bool)
        ensures
            (*final(self), r) == old(self).consumed(),
            r ==> *final(mv) == (MovingObject {
                velocity: crate::geometry::Vector2 { y: JUMP_SPEED, ..old(mv).velocity },
                ..*old(mv)
            }),
            !r ==> *final(mv) == *old(mv),
    {
        if self.available {
            mv.velocity.y = JUMP_SPEED;
            self.available = false;
            true
        } else {
            false
        }
    }
}

} // verus!
