use fps_core::catalog::WeaponSlot;
use fps_core::fixed::{Fixed, Vec2, Vec3};
use fps_core::input::PlayerInput;
use fps_core::stage::{EntityId, Node, Role, Stage};
use fps_core::startup::init_player;
use fps_core::transform::Transform;

fn fx(raw: i64) -> Fixed {
    Fixed::from_raw(raw)
}

#[test]
fn default_input_holds_nothing() {
    let input = PlayerInput::default();
    assert_eq!(input.movement, Vec2::zero());
    assert_eq!(input.current_weapon, None);
}

#[test]
fn set_movement_replaces_the_intention() {
    let mut input = PlayerInput::default();
    input.current_weapon = Some(EntityId { index: 2 });
    input.set_movement(Vec2::new(fx(1), fx(2)));
    input.set_movement(Vec2::new(fx(10), fx(-20)));
    assert_eq!(input.movement, Vec2::new(fx(10), fx(-20)));
    assert_eq!(input.current_weapon, Some(EntityId { index: 2 }));
}

#[test]
fn startup_builds_the_rig_top_down() {
    let mut stage = Stage::new();
    let mut input = PlayerInput::default();
    let rig = init_player(&mut stage, &mut input);
    assert_eq!(rig.player, EntityId { index: 0 });
    assert_eq!(rig.camera, EntityId { index: 1 });
    assert_eq!(rig.weapon, EntityId { index: 2 });
    assert_eq!(rig.tracer_anchor, EntityId { index: 3 });
    assert_eq!(stage.len(), 4);
    assert_eq!(stage.live_count(), 4);
    assert_eq!(
        stage.get(rig.player),
        Some(Node {
            role: Role::Player,
            parent: None,
            local: Transform::from_translation(Vec3::new(fx(0), Fixed::from_units(30), fx(0))),
            model: None,
        })
    );
    assert_eq!(
        stage.get(rig.camera),
        Some(Node {
            role: Role::Camera,
            parent: Some(rig.player),
            local: Transform::from_translation(Vec3::new(fx(0), fx(0), Fixed::from_units(10))),
            model: None,
        })
    );
    assert_eq!(
        stage.get(rig.weapon),
        Some(Node {
            role: Role::Weapon,
            parent: Some(rig.camera),
            local: WeaponSlot::Glock.transform(),
            model: Some(WeaponSlot::Glock),
        })
    );
    assert_eq!(
        stage.get(rig.tracer_anchor),
        Some(Node {
            role: Role::TracerAnchor,
            parent: Some(rig.camera),
            local: Transform::from_translation(Vec3::new(fx(530_154), fx(-313_846), fx(-1_409_000))),
            model: None,
        })
    );
    assert_eq!(stage.children(rig.player), vec![rig.camera]);
    assert_eq!(stage.children(rig.camera), vec![rig.weapon, rig.tracer_anchor]);
}

#[test]
fn startup_registers_the_first_weapon() {
    let mut stage = Stage::new();
    let mut input = PlayerInput::default();
    input.set_movement(Vec2::new(fx(3), fx(4)));
    let rig = init_player(&mut stage, &mut input);
    assert_eq!(input.current_weapon, Some(rig.weapon));
    assert_eq!(input.movement, Vec2::new(fx(3), fx(4)));
    assert_eq!(stage.find_sole(Role::Weapon), Some(rig.weapon));
    assert_eq!(stage.find_sole(Role::Camera), Some(rig.camera));
    assert_eq!(stage.find_sole(Role::Player), Some(rig.player));
    assert_eq!(stage.find_sole(Role::TracerAnchor), Some(rig.tracer_anchor));
}

#[test]
fn startup_sets_the_scalars() {
    let mut stage = Stage::new();
    let mut input = PlayerInput::default();
    let rig = init_player(&mut stage, &mut input);
    assert_eq!(rig.body.velocity, Vec3::zero());
    assert_eq!(rig.body.gravity, fx(9_800_000));
    assert_eq!(rig.body.speed, Fixed::from_units(20));
    assert_eq!(rig.look.yaw, Fixed::zero());
    assert_eq!(rig.look.pitch, Fixed::zero());
    assert_eq!(rig.look.pitch_limit, Fixed::from_units(88));
    assert_eq!(rig.look.sensitivity, fx(35_000));
    assert_eq!(rig.half_extents, Vec3::new(Fixed::from_units(1), Fixed::from_units(10), Fixed::from_units(1)));
    assert_eq!(rig.contact_offset, fx(10_000));
}

#[test]
fn startup_on_a_stage_that_holds_a_level() {
    let mut stage = Stage::new();
    let floor = stage
        .spawn(Node { role: Role::Part, parent: None, local: Transform::identity(), model: None })
        .unwrap();
    let mut input = PlayerInput::default();
    let rig = init_player(&mut stage, &mut input);
    assert_eq!(rig.player, EntityId { index: 1 });
    assert_eq!(rig.tracer_anchor, EntityId { index: 4 });
    assert!(stage.contains(floor));
    assert_eq!(stage.children(floor), Vec::<EntityId>::new());
    assert_eq!(stage.live_count(), 5);
}
