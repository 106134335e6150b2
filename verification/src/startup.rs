//! Startup composition: the player body, the camera on it, and the first
//! weapon and the tracer anchor on the camera.

use crate::camera::CameraController;
use crate::catalog::WeaponSlot;
use crate::fixed::{Fixed, Vec3};
use crate::input::PlayerInput;
use crate::player::Player;
use crate::player_weapon::{armed, weapon_node};
use crate::stage::{has_role, EntityId, Node, Role, Slots, Stage};
use crate::transform::{blender_to_world, world_from_blender, Transform};
use vstd::prelude::*;

verus! {

/// What startup creates: the four entities of the rig, and the state of the
/// body and of the camera look.
#[derive(Clone, Copy, PartialEq, Eq, Structural, Debug)]
pub struct PlayerRig {
    pub player: EntityId,
    pub camera: EntityId,
    pub weapon: EntityId,
    pub tracer_anchor: EntityId,
    pub body: Player,
    pub look: CameraController,
    /// Half the size of the body's collision box along each axis.
    pub half_extents: Vec3,
    /// The gap that the collision engine keeps between the body and what it
    /// touches.
    pub contact_offset: Fixed,
}

/// The player body as startup spawns it: without a parent, thirty units up.
pub open spec fn player_node() -> Node {
    Node {
        role: Role::Player,
        parent: None,
        local: Transform::at(Vec3::of_raw(0, 30_000_000, 0)),
        model: None,
    }
}

/// The camera as startup spawns it: on the player, ten units behind it.
pub open spec fn camera_node(player: EntityId) -> Node {
    Node {
        role: Role::Camera,
        parent: Some(player),
        local: Transform::at(Vec3::of_raw(0, 0, 10_000_000)),
        model: None,
    }
}

/// The tracer anchor as startup spawns it: on the camera, at the muzzle as
/// the modelling tool measured it.
pub open spec fn anchor_node(camera: EntityId) -> Node {
    Node {
        role: Role::TracerAnchor,
        parent: Some(camera),
        local: Transform::at(world_from_blender(Vec3::of_raw(530_154, 1_409_000, -313_846))),
        model: None,
    }
}

/// The slots after startup: the player, the camera, the first weapon and the
/// tracer anchor follow what was there.
pub open spec fn composed(s: Slots) -> Slots {
    let player = EntityId { index: s.len() as usize };
    let camera = EntityId { index: (s.len() + 1) as usize };
    s.push(Some(player_node())).push(Some(camera_node(player))).push(
        Some(weapon_node(WeaponSlot::Glock, camera)),
    ).push(Some(anchor_node(camera)))
}

/// Spawns the player rig on a stage that holds no weapon yet, and registers
/// the first weapon as the equipped one. The body starts at rest with gravity
/// 9.8 and speed 20; the camera looks straight ahead, with the pitch limited
/// to 88 degrees and a sensitivity of 0.035.
pub fn init_player(stage: &mut Stage, input: &mut PlayerInput) -> (rig: PlayerRig)
    requires
        old(stage).wf(),
        forall|i: int| !has_role(old(stage)@, i, Role::Weapon),
    ensures
        final(stage).wf(),
        final(stage)@ == composed(old(stage)@),
        rig.player.index == old(stage)@.len(),
        rig.camera.index == old(stage)@.len() + 1,
        rig.weapon.index == old(stage)@.len() + 2,
        rig.tracer_anchor.index == old(stage)@.len() + 3,
        final(input).current_weapon == Some(rig.weapon),
        final(input).movement == old(input).movement,
        armed(final(stage)@, final(input).current_weapon),
        rig.body.velocity == Vec3::of_raw(0, 0, 0),
        rig.body.gravity.raw == 9_800_000,
        rig.body.speed.raw == 20_000_000,
        rig.look.wf(),
        rig.look.yaw.raw == 0,
        rig.look.pitch.raw == 0,
        rig.look.pitch_limit.raw == 88_000_000,
        rig.look.sensitivity.raw == 35_000,
        rig.half_extents == Vec3::of_raw(1_000_000, 10_000_000, 1_000_000),
        rig.contact_offset.raw == 10_000,
{
    let player: EntityId = stage.spawn_under(
        Node {
            role: Role::Player,
            parent: None,
            local: Transform::from_translation(Vec3::from_raw(0, 30_000_000, 0)),
            model: None,
        },
    );
    let camera: EntityId = stage.spawn_under(
        Node {
            role: Role::Camera,
            parent: Some(player),
            local: Transform::from_translation(Vec3::from_raw(0, 0, 10_000_000)),
            model: None,
        },
    );
    let weapon: EntityId = stage.spawn_under(
        Node {
            role: Role::Weapon,
            parent: Some(camera),
            local: WeaponSlot::Glock.transform(),
            model: Some(WeaponSlot::Glock),
        },
    );
    let spot: Vec3 = blender_to_world(Vec3::from_raw(530_154, 1_409_000, -313_846));
    let tracer_anchor: EntityId = stage.spawn_under(
        Node {
            role: Role::TracerAnchor,
            parent: Some(camera),
            local: Transform::from_translation(spot),
            model: None,
        },
    );
    input.current_weapon = Some(weapon);
    proof {
        let t = stage@;
        assert forall|j: int| #[trigger] has_role(t, j, Role::Weapon) implies j == weapon.index by {
            if j < old(stage)@.len() {
                assert(has_role(old(stage)@, j, Role::Weapon));
            }
        }
    }
    PlayerRig {
        player,
        camera,
        weapon,
        tracer_anchor,
        body: Player::new(Fixed::from_raw(9_800_000), Fixed::from_raw(20_000_000)),
        look: CameraController::new(Fixed::from_raw(88_000_000), Fixed::from_raw(35_000)),
        half_extents: Vec3::from_raw(1_000_000, 10_000_000, 1_000_000),
        contact_offset: Fixed::from_raw(10_000),
    }
}

} // verus!
