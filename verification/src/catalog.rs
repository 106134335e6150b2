//! The weapon catalog: which weapons exist, which key selects each, which
//! model each shows and how that model sits in front of the camera.

use crate::fixed::{Fixed, Vec3};
use crate::transform::{Rotation, Transform};
use vstd::prelude::*;

verus! {

/// One entry of the weapon catalog.
#[derive(Clone, Copy, PartialEq, Eq, Structural, Debug)]
pub enum WeaponSlot {
    Glock,
    Ak47,
    M4a1,
    /// The fallback weapon on the reserved digit.
    Basic,
}

/// A transform given by raw values: an offset, a turn about the vertical
/// axis, and one scale for all three axes.
pub open spec fn placed(x: int, y: int, z: int, yaw: int, scale: int) -> Transform {
    Transform {
        translation: Vec3::of_raw(x, y, z),
        rotation: Rotation { yaw: Fixed { raw: yaw as i64 }, pitch: Fixed { raw: 0 } },
        scale: Vec3::of_raw(scale, scale, scale),
    }
}

impl WeaponSlot {
    /// The digit key that selects this entry.
    pub open spec fn digit_value(self) -> int {
        match self {
            WeaponSlot::Glock => 1,
            WeaponSlot::Ak47 => 2,
            WeaponSlot::M4a1 => 3,
            WeaponSlot::Basic => 0,
        }
    }

    /// How the entry's model sits relative to the camera.
    pub open spec fn transform_value(self) -> Transform {
        match self {
            WeaponSlot::Glock => placed(500_000, -500_000, -1_300_000, 90_000_000, 100_000),
            WeaponSlot::Ak47 => placed(500_000, -600_000, -1_300_000, 90_000_000, 4_000),
            WeaponSlot::M4a1 => placed(500_000, -600_000, -1_300_000, 90_000_000, 20_000),
            WeaponSlot::Basic => Transform::identity_value(),
        }
    }

    /// The file that holds the entry's model.
    pub open spec fn model_file_value(self) -> Seq<char> {
        match self {
            WeaponSlot::Glock => "models/glock/scene.gltf"@,
            WeaponSlot::Ak47 => "models/ak_47/scene.gltf"@,
            WeaponSlot::M4a1 => "models/m4_a1/scene.gltf"@,
            WeaponSlot::Basic => "models/basic/ak.glb"@,
        }
    }

    /// The digit key that selects this entry.
    pub fn digit(self) -> (d: u8)
        ensures
            d == self.digit_value(),
    {
        match self {
            WeaponSlot::Glock => 1,
            WeaponSlot::Ak47 => 2,
            WeaponSlot::M4a1 => 3,
            WeaponSlot::Basic => 0,
        }
    }

    /// The entry that a digit key selects, if any.
    pub fn from_digit(digit: u8) -> (r: Option<WeaponSlot>)
        ensures
            match r {
                Some(slot) => slot.digit_value() == digit,
                None => forall|slot: WeaponSlot| slot.digit_value() != digit,
            },
    {
        match digit {
            0 => Some(WeaponSlot::Basic),
            1 => Some(WeaponSlot::Glock),
            2 => Some(WeaponSlot::Ak47),
            3 => Some(WeaponSlot::M4a1),
            _ => None,
        }
    }

    /// The file that holds the entry's model, relative to the asset root.
    pub fn model_file(self) -> (r: &'static str)
        ensures
            r@ == self.model_file_value(),
    {
        match self {
            WeaponSlot::Glock => "models/glock/scene.gltf",
            WeaponSlot::Ak47 => "models/ak_47/scene.gltf",
            WeaponSlot::M4a1 => "models/m4_a1/scene.gltf",
            WeaponSlot::Basic => "models/basic/ak.glb",
        }
    }

    /// Which scene of the model file the entry shows.
    pub fn scene_index(self) -> (r: usize)
        ensures
            r == 0,
    {
        0
    }

    /// How the entry's model sits relative to the camera.
    pub fn transform(self) -> (r: Transform)
        ensures
            r == self.transform_value(),
    {
        match self {
            WeaponSlot::Glock => Transform {
                translation: Vec3::from_raw(500_000, -500_000, -1_300_000),
                rotation: Rotation::about_y(Fixed::from_raw(90_000_000)),
                scale: Vec3::from_raw(100_000, 100_000, 100_000),
            },
            WeaponSlot::Ak47 => Transform {
                translation: Vec3::from_raw(500_000, -600_000, -1_300_000),
                rotation: Rotation::about_y(Fixed::from_raw(90_000_000)),
                scale: Vec3::from_raw(4_000, 4_000, 4_000),
            },
            WeaponSlot::M4a1 => Transform {
                translation: Vec3::from_raw(500_000, -600_000, -1_300_000),
                rotation: Rotation::about_y(Fixed::from_raw(90_000_000)),
                scale: Vec3::from_raw(20_000, 20_000, 20_000),
            },
            WeaponSlot::Basic => Transform::identity(),
        }
    }
}

} // verus!
