//! The input state that the parts of the player rig share. Each field has one
//! writer: the movement system writes `movement`, the weapon manager writes
//! `current_weapon`.

use crate::fixed::{Fixed, Vec2};
use crate::stage::EntityId;
use vstd::prelude::*;

verus! {

/// What the player wants to do, and what the player holds.
#[derive(Clone, Copy, PartialEq, Eq, Structural, Debug)]
pub struct PlayerInput {
    /// The steering intention of this frame: sideways in `x`, along the view
    /// in `y`.
    pub movement: Vec2,
    /// The weapon that is equipped; nothing only before the first one is.
    pub current_weapon: Option<EntityId>,
}

impl Default for PlayerInput {
    fn default() -> (r: PlayerInput)
        ensures
            r.movement.x.raw == 0,
            r.movement.y.raw == 0,
            r.current_weapon is None,
    {
        PlayerInput { movement: Vec2::zero(), current_weapon: None }
    }
}

impl PlayerInput {
    /// Replaces the steering intention with that of a new frame. Nothing of
    /// the frame before is kept.
    pub fn set_movement(&mut self, movement: Vec2)
        ensures
            final(self).movement == movement,
            final(self).current_weapon == old(self).current_weapon,
    {
        self.movement = movement;
    }
}

} // verus!
