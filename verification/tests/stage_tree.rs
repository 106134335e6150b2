use fps_core::catalog::WeaponSlot;
use fps_core::fixed::Fixed;
use fps_core::stage::{EntityId, Node, Role, Stage};
use fps_core::transform::{Rotation, Transform};

fn node(role: Role, parent: Option<EntityId>) -> Node {
    Node { role, parent, local: Transform::identity(), model: None }
}

fn id(index: usize) -> EntityId {
    EntityId { index }
}

/// 0 player, 1 camera under 0, 2 weapon under 1, 3 part under 2, 4 part under 3,
/// 5 anchor under 1, 6 part under 2.
fn small_stage() -> Stage {
    let mut stage = Stage::new();
    assert_eq!(stage.spawn(node(Role::Player, None)), Some(id(0)));
    assert_eq!(stage.spawn(node(Role::Camera, Some(id(0)))), Some(id(1)));
    assert_eq!(stage.spawn(node(Role::Weapon, Some(id(1)))), Some(id(2)));
    assert_eq!(stage.spawn(node(Role::Part, Some(id(2)))), Some(id(3)));
    assert_eq!(stage.spawn(node(Role::Part, Some(id(3)))), Some(id(4)));
    assert_eq!(stage.spawn(node(Role::TracerAnchor, Some(id(1)))), Some(id(5)));
    assert_eq!(stage.spawn(node(Role::Part, Some(id(2)))), Some(id(6)));
    stage
}

#[test]
fn new_stage_is_empty() {
    let stage = Stage::new();
    assert_eq!(stage.len(), 0);
    assert_eq!(stage.live_count(), 0);
    assert!(!stage.contains(id(0)));
    assert_eq!(stage.get(id(0)), None);
    assert_eq!(stage.find_sole(Role::Camera), None);
    assert_eq!(stage.children(id(0)), Vec::<EntityId>::new());
}

#[test]
fn spawn_hands_out_rising_indices() {
    let stage = small_stage();
    assert_eq!(stage.len(), 7);
    assert_eq!(stage.live_count(), 7);
    assert_eq!(stage.get(id(2)), Some(node(Role::Weapon, Some(id(1)))));
    assert_eq!(stage.get(id(7)), None);
}

#[test]
fn spawn_under_a_missing_parent_adds_nothing() {
    let mut stage = small_stage();
    assert_eq!(stage.spawn(node(Role::Part, Some(id(7)))), None);
    assert_eq!(stage.len(), 7);
    stage.despawn_recursive(id(3));
    assert_eq!(stage.spawn(node(Role::Part, Some(id(3)))), None);
    assert_eq!(stage.spawn(node(Role::Part, Some(id(4)))), None);
    assert_eq!(stage.len(), 7);
    assert_eq!(stage.live_count(), 5);
}

#[test]
fn spawn_under_returns_the_new_handle() {
    let mut stage = small_stage();
    let part = stage.spawn_under(node(Role::Part, Some(id(5))));
    assert_eq!(part, id(7));
    assert_eq!(stage.children(id(5)), vec![id(7)]);
}

#[test]
fn children_are_listed_by_rising_index() {
    let stage = small_stage();
    assert_eq!(stage.children(id(0)), vec![id(1)]);
    assert_eq!(stage.children(id(1)), vec![id(2), id(5)]);
    assert_eq!(stage.children(id(2)), vec![id(3), id(6)]);
    assert_eq!(stage.children(id(4)), Vec::<EntityId>::new());
    assert_eq!(stage.children(id(40)), Vec::<EntityId>::new());
}

#[test]
fn despawn_removes_the_whole_subtree_and_nothing_else() {
    let mut stage = small_stage();
    stage.despawn_recursive(id(2));
    for gone in [2usize, 3, 4, 6] {
        assert!(!stage.contains(id(gone)));
        assert_eq!(stage.get(id(gone)), None);
    }
    assert_eq!(stage.get(id(0)), Some(node(Role::Player, None)));
    assert_eq!(stage.get(id(1)), Some(node(Role::Camera, Some(id(0)))));
    assert_eq!(stage.get(id(5)), Some(node(Role::TracerAnchor, Some(id(1)))));
    assert_eq!(stage.len(), 7);
    assert_eq!(stage.live_count(), 3);
    assert_eq!(stage.children(id(1)), vec![id(5)]);
}

#[test]
fn despawn_of_a_leaf_removes_one_entity() {
    let mut stage = small_stage();
    stage.despawn_recursive(id(4));
    assert_eq!(stage.live_count(), 6);
    assert!(stage.contains(id(3)));
    assert!(!stage.contains(id(4)));
}

#[test]
fn despawn_of_the_root_empties_the_tree() {
    let mut stage = small_stage();
    let other = stage.spawn(node(Role::Part, None)).unwrap();
    stage.despawn_recursive(id(0));
    assert_eq!(stage.live_count(), 1);
    assert!(stage.contains(other));
}

#[test]
fn despawn_of_nothing_changes_nothing() {
    let mut stage = small_stage();
    stage.despawn_recursive(id(9));
    assert_eq!(stage.live_count(), 7);
    stage.despawn_recursive(id(6));
    stage.despawn_recursive(id(6));
    assert_eq!(stage.live_count(), 6);
    assert_eq!(stage.children(id(2)), vec![id(3)]);
}

#[test]
fn indices_are_not_handed_out_twice() {
    let mut stage = small_stage();
    stage.despawn_recursive(id(6));
    assert_eq!(stage.spawn(node(Role::Part, Some(id(2)))), Some(id(7)));
    assert!(!stage.contains(id(6)));
}

#[test]
fn find_sole_wants_exactly_one() {
    let mut stage = small_stage();
    assert_eq!(stage.find_sole(Role::Camera), Some(id(1)));
    assert_eq!(stage.find_sole(Role::Weapon), Some(id(2)));
    assert_eq!(stage.find_sole(Role::TracerAnchor), Some(id(5)));
    assert_eq!(stage.find_sole(Role::Part), None);
    let second = stage.spawn(node(Role::Camera, None)).unwrap();
    assert_eq!(stage.find_sole(Role::Camera), None);
    stage.despawn_recursive(id(1));
    assert_eq!(stage.find_sole(Role::Camera), Some(second));
    stage.despawn_recursive(second);
    assert_eq!(stage.find_sole(Role::Camera), None);
}

#[test]
fn set_rotation_changes_the_rotation_alone() {
    let mut stage = small_stage();
    let turn = Rotation { yaw: Fixed::from_units(45), pitch: Fixed::from_units(-10) };
    assert!(stage.set_rotation(id(1), turn));
    let camera = stage.get(id(1)).unwrap();
    assert_eq!(camera.local.rotation, turn);
    assert_eq!(camera.local.translation, Transform::identity().translation);
    assert_eq!(camera.local.scale, Transform::identity().scale);
    assert_eq!(camera.role, Role::Camera);
    assert_eq!(camera.parent, Some(id(0)));
    assert_eq!(stage.get(id(2)), Some(node(Role::Weapon, Some(id(1)))));
    assert!(!stage.set_rotation(id(70), turn));
    stage.despawn_recursive(id(5));
    assert!(!stage.set_rotation(id(5), turn));
    assert_eq!(stage.live_count(), 6);
}

#[test]
fn nodes_keep_their_model() {
    let mut stage = Stage::new();
    let weapon = Node {
        role: Role::Weapon,
        parent: None,
        local: WeaponSlot::Ak47.transform(),
        model: Some(WeaponSlot::Ak47),
    };
    let e = stage.spawn(weapon).unwrap();
    assert_eq!(stage.get(e), Some(weapon));
}

#[test]
fn has_any_sees_each_role_that_is_there() {
    let mut stage = small_stage();
    assert!(stage.has_any(Role::Player));
    assert!(stage.has_any(Role::Weapon));
    assert!(stage.has_any(Role::Part));
    stage.despawn_recursive(id(2));
    assert!(!stage.has_any(Role::Weapon));
    assert!(!stage.has_any(Role::Part));
    assert!(stage.has_any(Role::TracerAnchor));
    assert!(!Stage::new().has_any(Role::Camera));
}

#[test]
fn stages_built_by_spawning_are_well_formed() {
    let mut stage = small_stage();
    assert!(stage.is_well_formed());
    stage.despawn_recursive(id(3));
    assert!(stage.is_well_formed());
    stage.despawn_recursive(id(0));
    assert!(stage.is_well_formed());
    assert!(Stage::new().is_well_formed());
}
