use bevy::input::keyboard::KeyCode;
use bevy::input::ButtonInput;
use fps_core::catalog::WeaponSlot;
use fps_core::fixed::{Fixed, Vec2};
use fps_core::input::PlayerInput;
use fps_core::player_weapon::{equip_weapon, is_armed, update_weapon, WeaponSwap};
use fps_core::stage::{EntityId, Node, Role, Stage};
use fps_core::startup::{init_player, PlayerRig};
use fps_core::transform::Transform;

fn rig() -> (Stage, PlayerInput, PlayerRig) {
    let mut stage = Stage::new();
    let mut input = PlayerInput::default();
    let rig = init_player(&mut stage, &mut input);
    (stage, input, rig)
}

fn part(parent: EntityId) -> Node {
    Node { role: Role::Part, parent: Some(parent), local: Transform::identity(), model: None }
}

fn pressed(keys: &[KeyCode]) -> ButtonInput<KeyCode> {
    let mut input: ButtonInput<KeyCode> = ButtonInput::default();
    for key in keys {
        input.press(*key);
    }
    input
}

fn weapons(stage: &Stage) -> Vec<EntityId> {
    let mut found = Vec::new();
    for index in 0..stage.len() {
        if let Some(node) = stage.get(EntityId { index }) {
            if node.role == Role::Weapon {
                found.push(EntityId { index });
            }
        }
    }
    found
}

#[test]
fn equip_once_replaces_the_weapon_in_hand() {
    let (mut stage, mut input, rig) = rig();
    let barrel = stage.spawn(part(rig.weapon)).unwrap();
    let sight = stage.spawn(part(barrel)).unwrap();
    let done = equip_weapon(&mut stage, &mut input, WeaponSlot::Ak47);
    let new = EntityId { index: 6 };
    assert_eq!(
        done,
        Some(WeaponSwap { removed: Some(rig.weapon), spawned: new, camera: rig.camera, slot: WeaponSlot::Ak47 })
    );
    assert_eq!(input.current_weapon, Some(new));
    assert_eq!(weapons(&stage), vec![new]);
    assert_eq!(
        stage.get(new),
        Some(Node {
            role: Role::Weapon,
            parent: Some(rig.camera),
            local: WeaponSlot::Ak47.transform(),
            model: Some(WeaponSlot::Ak47),
        })
    );
    assert!(!stage.contains(rig.weapon));
    assert!(!stage.contains(barrel));
    assert!(!stage.contains(sight));
    assert_eq!(stage.children(rig.camera), vec![rig.tracer_anchor, new]);
    assert_eq!(stage.find_sole(Role::Weapon), Some(new));
    assert_eq!(stage.live_count(), 4);
}

#[test]
fn after_a_swap_one_weapon_hangs_under_the_camera() {
    let (mut stage, mut input, rig) = rig();
    for slot in [WeaponSlot::M4a1, WeaponSlot::Basic, WeaponSlot::Glock, WeaponSlot::Ak47] {
        let done = equip_weapon(&mut stage, &mut input, slot).unwrap();
        assert_eq!(weapons(&stage), vec![done.spawned]);
        assert_eq!(input.current_weapon, Some(done.spawned));
        let weapon = stage.get(done.spawned).unwrap();
        assert_eq!(weapon.parent, Some(rig.camera));
        assert_eq!(weapon.model, Some(slot));
        assert_eq!(weapon.local, slot.transform());
    }
}

#[test]
fn repeated_requests_leave_one_weapon_and_no_orphans() {
    let (mut stage, mut input, rig) = rig();
    stage.spawn(part(rig.weapon)).unwrap();
    for round in 0..5usize {
        let done = equip_weapon(&mut stage, &mut input, WeaponSlot::M4a1).unwrap();
        assert_eq!(done.spawned, EntityId { index: 5 + 3 * round });
        // The pieces of the model attach themselves before the next request.
        let attached = stage.spawn(part(done.spawned)).unwrap();
        assert_eq!(stage.children(done.spawned), vec![attached]);
        let next = equip_weapon(&mut stage, &mut input, WeaponSlot::M4a1).unwrap();
        assert_eq!(next.removed, Some(done.spawned));
        assert!(!stage.contains(attached));
    }
    let held = input.current_weapon.unwrap();
    assert_eq!(weapons(&stage), vec![held]);
    assert_eq!(stage.children(held), Vec::<EntityId>::new());
    assert_eq!(stage.live_count(), 4);
    for index in 0..stage.len() {
        if let Some(node) = stage.get(EntityId { index }) {
            if let Some(parent) = node.parent {
                assert!(stage.contains(parent));
            }
        }
    }
}

#[test]
fn same_entry_five_times_in_a_row() {
    let (mut stage, mut input, rig) = rig();
    for _ in 0..5 {
        equip_weapon(&mut stage, &mut input, WeaponSlot::Glock).unwrap();
    }
    let held = EntityId { index: 8 };
    assert_eq!(input.current_weapon, Some(held));
    assert_eq!(weapons(&stage), vec![held]);
    assert_eq!(stage.len(), 9);
    assert_eq!(stage.live_count(), 4);
    assert_eq!(stage.children(held), Vec::<EntityId>::new());
    assert_eq!(stage.children(rig.camera), vec![rig.tracer_anchor, held]);
}

#[test]
fn a_swap_spares_the_tracer_anchor() {
    let (mut stage, mut input, rig) = rig();
    let before = stage.get(rig.tracer_anchor);
    assert!(before.is_some());
    for slot in [WeaponSlot::Ak47, WeaponSlot::Ak47, WeaponSlot::Basic] {
        equip_weapon(&mut stage, &mut input, slot).unwrap();
        assert_eq!(stage.get(rig.tracer_anchor), before);
        assert_eq!(stage.find_sole(Role::TracerAnchor), Some(rig.tracer_anchor));
    }
    assert_eq!(stage.get(rig.player).unwrap().role, Role::Player);
    assert_eq!(stage.get(rig.camera).unwrap().role, Role::Camera);
}

#[test]
fn without_a_camera_the_request_is_dropped() {
    let mut stage = Stage::new();
    let mut input = PlayerInput::default();
    let root = stage.spawn(Node { role: Role::Player, parent: None, local: Transform::identity(), model: None }).unwrap();
    assert_eq!(equip_weapon(&mut stage, &mut input, WeaponSlot::Glock), None);
    assert_eq!(input.current_weapon, None);
    assert_eq!(stage.len(), 1);
    assert!(stage.contains(root));
}

#[test]
fn with_two_cameras_the_request_is_dropped_until_one_is_left() {
    let (mut stage, mut input, rig) = rig();
    let second = stage
        .spawn(Node { role: Role::Camera, parent: None, local: Transform::identity(), model: None })
        .unwrap();
    let before = stage.get(rig.weapon);
    assert_eq!(equip_weapon(&mut stage, &mut input, WeaponSlot::Ak47), None);
    assert_eq!(input.current_weapon, Some(rig.weapon));
    assert_eq!(stage.get(rig.weapon), before);
    assert_eq!(stage.live_count(), 5);
    stage.despawn_recursive(second);
    let done = equip_weapon(&mut stage, &mut input, WeaponSlot::Ak47).unwrap();
    assert_eq!(done.removed, Some(rig.weapon));
    assert_eq!(done.camera, rig.camera);
    assert_eq!(input.current_weapon, Some(done.spawned));
}

#[test]
fn first_equip_on_a_stage_without_weapon() {
    let mut stage = Stage::new();
    let mut input = PlayerInput::default();
    let camera = stage
        .spawn(Node { role: Role::Camera, parent: None, local: Transform::identity(), model: None })
        .unwrap();
    let done = equip_weapon(&mut stage, &mut input, WeaponSlot::Basic).unwrap();
    assert_eq!(done, WeaponSwap { removed: None, spawned: EntityId { index: 1 }, camera, slot: WeaponSlot::Basic });
    assert_eq!(input.current_weapon, Some(EntityId { index: 1 }));
    assert_eq!(stage.get(done.spawned).unwrap().local, Transform::identity());
}

#[test]
fn update_weapon_follows_the_keys() {
    let (mut stage, mut input, rig) = rig();
    input.set_movement(Vec2::new(Fixed::from_units(1), Fixed::from_units(-1)));
    assert_eq!(update_weapon(&mut stage, &mut input, &pressed(&[])), None);
    assert_eq!(update_weapon(&mut stage, &mut input, &pressed(&[KeyCode::Digit7, KeyCode::Space])), None);
    assert_eq!(input.current_weapon, Some(rig.weapon));
    assert_eq!(stage.len(), 4);
    let done = update_weapon(&mut stage, &mut input, &pressed(&[KeyCode::Digit3])).unwrap();
    assert_eq!(done.slot, WeaponSlot::M4a1);
    assert_eq!(done.removed, Some(rig.weapon));
    assert_eq!(input.current_weapon, Some(done.spawned));
    assert_eq!(stage.get(done.spawned).unwrap().model, Some(WeaponSlot::M4a1));
    assert_eq!(input.movement, Vec2::new(Fixed::from_units(1), Fixed::from_units(-1)));
}

#[test]
fn update_weapon_honours_one_request_per_frame() {
    let (mut stage, mut input, _rig) = rig();
    let keys = pressed(&[KeyCode::Digit1, KeyCode::Digit2, KeyCode::Digit3]);
    let done = update_weapon(&mut stage, &mut input, &keys).unwrap();
    assert_eq!(done.slot, WeaponSlot::M4a1);
    assert_eq!(stage.len(), 5);
    assert_eq!(weapons(&stage), vec![done.spawned]);
    let keys = pressed(&[KeyCode::Digit0, KeyCode::Digit2]);
    let done = update_weapon(&mut stage, &mut input, &keys).unwrap();
    assert_eq!(done.slot, WeaponSlot::Basic);
    assert_eq!(stage.len(), 6);
    assert_eq!(weapons(&stage), vec![done.spawned]);
}

#[test]
fn update_weapon_without_camera_changes_nothing() {
    let mut stage = Stage::new();
    let mut input = PlayerInput::default();
    assert_eq!(update_weapon(&mut stage, &mut input, &pressed(&[KeyCode::Digit1])), None);
    assert_eq!(stage.len(), 0);
    assert_eq!(input, PlayerInput::default());
}

#[test]
fn is_armed_tells_whether_stage_and_input_agree() {
    let (mut stage, mut input, rig) = rig();
    assert!(is_armed(&stage, &input));
    equip_weapon(&mut stage, &mut input, WeaponSlot::Ak47).unwrap();
    assert!(is_armed(&stage, &input));
    // A stale handle.
    let stale = PlayerInput { movement: input.movement, current_weapon: Some(rig.weapon) };
    assert!(!is_armed(&stage, &stale));
    // Nothing registered while a weapon exists.
    let empty = PlayerInput { movement: input.movement, current_weapon: None };
    assert!(!is_armed(&stage, &empty));
    // A handle that names something else.
    let wrong = PlayerInput { movement: input.movement, current_weapon: Some(rig.camera) };
    assert!(!is_armed(&stage, &wrong));
    // A second weapon.
    stage
        .spawn(Node { role: Role::Weapon, parent: Some(rig.camera), local: Transform::identity(), model: None })
        .unwrap();
    assert!(!is_armed(&stage, &input));
}

#[test]
fn is_armed_wants_the_weapon_under_a_camera() {
    let mut stage = Stage::new();
    let root = stage
        .spawn(Node { role: Role::Player, parent: None, local: Transform::identity(), model: None })
        .unwrap();
    assert!(is_armed(&stage, &PlayerInput::default()));
    let loose = stage
        .spawn(Node { role: Role::Weapon, parent: Some(root), local: Transform::identity(), model: None })
        .unwrap();
    let input = PlayerInput { movement: Vec2::zero(), current_weapon: Some(loose) };
    assert!(!is_armed(&stage, &input));
    stage.despawn_recursive(loose);
    let free = stage
        .spawn(Node { role: Role::Weapon, parent: None, local: Transform::identity(), model: None })
        .unwrap();
    let input = PlayerInput { movement: Vec2::zero(), current_weapon: Some(free) };
    assert!(!is_armed(&stage, &input));
}
