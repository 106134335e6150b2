//! The kinematic player body: gravity, steering and ground contact.
//!
//! One fixed tick has two halves. [`Player::begin_tick`] updates the velocity
//! and says how far the body wants to move. The collision engine then moves
//! the body as far as the world allows and reports whether it touched the
//! ground, which [`Player::end_tick`] takes in.

use crate::fixed::{magnitude, narrow, product, saturate, wide_product, Fixed, Vec2, Vec3};
use vstd::prelude::*;

verus! {

/// The moving state of the player body.
#[derive(Clone, Copy, PartialEq, Eq, Structural, Debug)]
pub struct Player {
    /// Units per second along each world axis; `y` points up.
    pub velocity: Vec3,
    /// Downward acceleration, in units per second squared.
    pub gravity: Fixed,
    /// Horizontal speed while steering, in units per second.
    pub speed: Fixed,
}

/// What one fixed tick brings: the steering intention, the tick's duration in
/// seconds, and whether the collision engine reported ground contact.
#[derive(Clone, Copy, PartialEq, Eq, Structural, Debug)]
pub struct Tick {
    pub movement: Vec2,
    pub dt: Fixed,
    pub grounded: bool,
}

impl Player {
    /// The body after the first half of a tick: gravity has pulled on the
    /// vertical velocity for `dt`, and the horizontal velocity points along
    /// `movement` with length `speed`, or is zero where `movement` is.
    pub open spec fn accelerated(self, movement: Vec2, dt: Fixed) -> Player {
        Player {
            velocity: Vec3 {
                x: movement.stretched_to(self.speed).x,
                y: Fixed {
                    raw: saturate(
                        self.velocity.y.raw - product(self.gravity.raw as int, dt.raw as int),
                    ) as i64,
                },
                z: movement.stretched_to(self.speed).y,
            },
            gravity: self.gravity,
            speed: self.speed,
        }
    }

    /// The body after the second half of a tick: ground contact stops the fall.
    pub open spec fn landed(self, grounded: bool) -> Player {
        if grounded {
            Player {
                velocity: Vec3 { x: self.velocity.x, y: Fixed { raw: 0 }, z: self.velocity.z },
                gravity: self.gravity,
                speed: self.speed,
            }
        } else {
            self
        }
    }

    /// The body after one whole tick.
    pub open spec fn stepped(self, tick: Tick) -> Player {
        self.accelerated(tick.movement, tick.dt).landed(tick.grounded)
    }

    /// The body after each tick of `ticks` in turn.
    pub open spec fn after_ticks(self, ticks: Seq<Tick>) -> Player
        decreases ticks.len(),
    {
        if ticks.len() == 0 {
            self
        } else {
            self.after_ticks(ticks.drop_last()).stepped(ticks.last())
        }
    }

    /// A body at rest.
    pub fn new(gravity: Fixed, speed: Fixed) -> (r: Player)
        ensures
            r.velocity.x.raw == 0,
            r.velocity.y.raw == 0,
            r.velocity.z.raw == 0,
            r.gravity == gravity,
            r.speed == speed,
    {
        Player { velocity: Vec3::zero(), gravity, speed }
    }

    /// First half of a tick. Updates the velocity and returns the displacement
    /// to ask of the collision engine: the new velocity times `dt`.
    pub fn begin_tick(&mut self, movement: Vec2, dt: Fixed) -> (desired: Vec3)
        ensures
            *final(self) == old(self).accelerated(movement, dt),
            desired == final(self).velocity.scaled_by(dt),
    {
        let steer: Vec2 = movement.with_length(self.speed);
        let pull: i128 = wide_product(self.gravity, dt);
        self.velocity = Vec3 {
            x: steer.x,
            y: Fixed { raw: narrow(self.velocity.y.raw as i128 - pull) },
            z: steer.y,
        };
        self.velocity.times(dt)
    }

    /// Second half of a tick: takes in whether the body touched the ground.
    pub fn end_tick(&mut self, grounded: bool)
        ensures
            *final(self) == old(self).landed(grounded),
    {
        if grounded {
            self.velocity = Vec3 { x: self.velocity.x, y: Fixed::zero(), z: self.velocity.z };
        }
    }
}

/// The greatest vertical speed that gravity alone can have built up at the
/// end of `ticks`: the pull of every tick since the last ground contact, on
/// top of the speed at the start where the body never touched the ground.
pub open spec fn fall_budget(start: int, gravity: int, ticks: Seq<Tick>) -> int
    decreases ticks.len(),
{
    if ticks.len() == 0 {
        magnitude(start)
    } else if ticks.last().grounded {
        0
    } else {
        fall_budget(start, gravity, ticks.drop_last()) + magnitude(
            product(gravity, ticks.last().dt.raw as int),
        )
    }
}

/// No tick adds energy: after any sequence of ticks the vertical speed is at
/// most what unbroken gravity has built up since the last ground contact.
pub proof fn lemma_no_energy_injection(start: Player, ticks: Seq<Tick>)
    ensures
        magnitude(start.after_ticks(ticks).velocity.y.raw as int) <= fall_budget(
            start.velocity.y.raw as int,
            start.gravity.raw as int,
            ticks,
        ),
        start.after_ticks(ticks).gravity == start.gravity,
        start.after_ticks(ticks).speed == start.speed,
    decreases ticks.len(),
{
    if ticks.len() > 0 {
        lemma_no_energy_injection(start, ticks.drop_last());
    }
}

/// A body on the ground that is not steered does not move sideways and does
/// not fall: each tick asks for no horizontal displacement and ends with no
/// vertical velocity.
pub proof fn lemma_idle_on_ground(body: Player, dt: Fixed)
    ensures
        body.accelerated(Vec2 { x: Fixed { raw: 0 }, y: Fixed { raw: 0 } }, dt).velocity.scaled_by(dt).x.raw == 0,
        body.accelerated(Vec2 { x: Fixed { raw: 0 }, y: Fixed { raw: 0 } }, dt).velocity.scaled_by(dt).z.raw == 0,
        body.stepped(Tick { movement: Vec2 { x: Fixed { raw: 0 }, y: Fixed { raw: 0 } }, dt, grounded: true }).velocity.y.raw == 0,
{
    crate::fixed::lemma_root_unique(0, 0);
    assert(0int * (dt.raw as int) == 0);
}

} // verus!
