//! Local transforms of entities, and the change of basis from the modelling
//! tool's axes to the world's.

use crate::fixed::{Fixed, Vec3};
use vstd::prelude::*;

verus! {

/// An orientation without roll: a turn about the vertical axis, then a tilt
/// about the sideways axis. Angles are in degrees.
#[derive(Clone, Copy, PartialEq, Eq, Structural, Debug)]
pub struct Rotation {
    pub yaw: Fixed,
    pub pitch: Fixed,
}

/// Where an entity stands relative to its parent.
#[derive(Clone, Copy, PartialEq, Eq, Structural, Debug)]
pub struct Transform {
    pub translation: Vec3,
    pub rotation: Rotation,
    pub scale: Vec3,
}

impl Rotation {
    /// No rotation.
    pub fn none() -> (r: Rotation)
        ensures
            r.yaw.raw == 0,
            r.pitch.raw == 0,
    {
        Rotation { yaw: Fixed::zero(), pitch: Fixed::zero() }
    }

    /// A turn of `degrees` about the vertical axis.
    pub fn about_y(degrees: Fixed) -> (r: Rotation)
        ensures
            r.yaw == degrees,
            r.pitch.raw == 0,
    {
        Rotation { yaw: degrees, pitch: Fixed::zero() }
    }
}

impl Transform {
    /// The transform that changes nothing: no offset, no rotation, scale one.
    pub open spec fn identity_value() -> Transform {
        Transform {
            translation: Vec3 { x: Fixed { raw: 0 }, y: Fixed { raw: 0 }, z: Fixed { raw: 0 } },
            rotation: Rotation { yaw: Fixed { raw: 0 }, pitch: Fixed { raw: 0 } },
            scale: Vec3 {
                x: Fixed { raw: 1_000_000 },
                y: Fixed { raw: 1_000_000 },
                z: Fixed { raw: 1_000_000 },
            },
        }
    }

    /// An offset without rotation or scaling.
    pub open spec fn at(translation: Vec3) -> Transform {
        Transform {
            translation,
            rotation: Transform::identity_value().rotation,
            scale: Transform::identity_value().scale,
        }
    }

    /// The transform that changes nothing.
    pub fn identity() -> (r: Transform)
        ensures
            r == Transform::identity_value(),
    {
        Transform {
            translation: Vec3::zero(),
            rotation: Rotation::none(),
            scale: Vec3::new(Fixed::from_raw(1_000_000), Fixed::from_raw(1_000_000), Fixed::from_raw(1_000_000)),
        }
    }

    /// An offset without rotation or scaling.
    pub fn from_translation(translation: Vec3) -> (r: Transform)
        ensures
            r == Transform::at(translation),
    {
        Transform {
            translation,
            rotation: Rotation::none(),
            scale: Vec3::new(Fixed::from_raw(1_000_000), Fixed::from_raw(1_000_000), Fixed::from_raw(1_000_000)),
        }
    }
}

/// What [`blender_to_world`] computes.
pub open spec fn world_from_blender(v: Vec3) -> Vec3 {
    Vec3 { x: v.x, y: v.z, z: v.y.opposite() }
}

/// Converts a point from the modelling tool's axes (z up, y away from the
/// viewer) to the world's (y up, z toward the viewer): the heights trade
/// places and the depth changes sign.
pub fn blender_to_world(v: Vec3) -> (r: Vec3)
    ensures
        r == world_from_blender(v),
{
    Vec3 { x: v.x, y: v.z, z: v.y.negated() }
}

} // verus!
