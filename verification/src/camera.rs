//! The camera-look controller: pointer motion in, clamped yaw and pitch out.

use crate::fixed::{limit, narrow, product, saturate, wide_product, Fixed, Vec2};
use crate::stage::{rotated, EntityId, Stage};
use crate::transform::Rotation;
use vstd::prelude::*;

verus! {

/// Mouse-look state of the camera. Angles are in degrees.
#[derive(Clone, Copy, PartialEq, Eq, Structural, Debug)]
pub struct CameraController {
    /// Rotation about the vertical axis.
    pub yaw: Fixed,
    /// Rotation about the sideways axis, kept within `pitch_limit`.
    pub pitch: Fixed,
    /// The greatest pitch allowed, up or down.
    pub pitch_limit: Fixed,
    /// Degrees turned per unit of pointer motion.
    pub sensitivity: Fixed,
}

impl CameraController {
    /// The limit is not negative and the pitch lies within it.
    pub open spec fn wf(self) -> bool {
        &&& 0 <= self.pitch_limit.raw
        &&& -self.pitch_limit.raw <= self.pitch.raw <= self.pitch_limit.raw
    }

    /// The controller after one pointer-delta sample: yaw and pitch each move
    /// by the sample times the sensitivity, then the pitch is clamped.
    pub open spec fn turned(self, delta: Vec2) -> CameraController {
        CameraController {
            yaw: Fixed {
                raw: saturate(
                    self.yaw.raw + product(delta.x.raw as int, self.sensitivity.raw as int),
                ) as i64,
            },
            pitch: Fixed {
                raw: limit(
                    self.pitch.raw + product(delta.y.raw as int, self.sensitivity.raw as int),
                    -self.pitch_limit.raw,
                    self.pitch_limit.raw as int,
                ) as i64,
            },
            pitch_limit: self.pitch_limit,
            sensitivity: self.sensitivity,
        }
    }

    /// The controller after each sample of `deltas` in turn.
    pub open spec fn after_looks(self, deltas: Seq<Vec2>) -> CameraController
        decreases deltas.len(),
    {
        if deltas.len() == 0 {
            self
        } else {
            self.after_looks(deltas.drop_last()).turned(deltas.last())
        }
    }

    /// A controller that looks straight ahead.
    pub fn new(pitch_limit: Fixed, sensitivity: Fixed) -> (r: CameraController)
        requires
            pitch_limit.raw >= 0,
        ensures
            r.wf(),
            r.yaw.raw == 0,
            r.pitch.raw == 0,
            r.pitch_limit == pitch_limit,
            r.sensitivity == sensitivity,
    {
        CameraController { yaw: Fixed::zero(), pitch: Fixed::zero(), pitch_limit, sensitivity }
    }

    /// Applies one pointer-delta sample.
    pub fn look(&mut self, delta: Vec2)
        requires
            old(self).pitch_limit.raw >= 0,
        ensures
            *final(self) == old(self).turned(delta),
            final(self).wf(),
    {
        let turn: i128 = wide_product(delta.x, self.sensitivity);
        let tilt: i128 = wide_product(delta.y, self.sensitivity);
        let top: i128 = self.pitch_limit.raw as i128;
        let raised: i128 = self.pitch.raw as i128 + tilt;
        let pitch: i128 = if raised < -top {
            -top
        } else if raised > top {
            top
        } else {
            raised
        };
        self.yaw = Fixed { raw: narrow(self.yaw.raw as i128 + turn) };
        self.pitch = Fixed { raw: pitch as i64 };
    }
}

/// One frame of the camera-look controller: takes in a pointer-delta sample
/// and sets the camera's rotation relative to its parent from the new yaw and
/// pitch. Says whether the camera exists; where it does not, only the
/// controller changes.
pub fn update_camera_controller(
    stage: &mut Stage,
    camera: EntityId,
    controller: &mut CameraController,
    delta: Vec2,
) -> (done: bool)
    requires
        old(stage).wf(),
        old(controller).pitch_limit.raw >= 0,
    ensures
        *final(controller) == old(controller).turned(delta),
        final(controller).wf(),
        final(stage).wf(),
        done == old(stage).holds(camera),
        final(stage)@ == rotated(
            old(stage)@,
            camera.index as int,
            Rotation { yaw: final(controller).yaw, pitch: final(controller).pitch },
        ),
{
    controller.look(delta);
    stage.set_rotation(camera, Rotation { yaw: controller.yaw, pitch: controller.pitch })
}

/// However far and however often the pointer moves, the pitch stays within
/// the limit, and neither the limit nor the sensitivity changes.
pub proof fn lemma_pitch_stays_within_limit(start: CameraController, deltas: Seq<Vec2>)
    requires
        start.wf(),
    ensures
        start.after_looks(deltas).wf(),
        -start.pitch_limit.raw <= start.after_looks(deltas).pitch.raw <= start.pitch_limit.raw,
        start.after_looks(deltas).pitch_limit == start.pitch_limit,
        start.after_looks(deltas).sensitivity == start.sensitivity,
    decreases deltas.len(),
{
    if deltas.len() > 0 {
        lemma_pitch_stays_within_limit(start, deltas.drop_last());
    }
}

} // verus!
