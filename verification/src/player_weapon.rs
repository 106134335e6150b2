//! The weapon manager: on an equip request it destroys the weapon in hand,
//! with everything attached to it, and puts the requested one in its place
//! under the camera.

use crate::catalog::WeaponSlot;
use crate::input::PlayerInput;
use crate::keyboard::{just_pressed_digits, requested, requested_slot};
use crate::stage::{
    alive, child_of, has_role, lemma_pruned_leaf, lemma_pruned_well_formed,
    lemma_push_well_formed, lemma_sole_is_only, lemma_within_bounds, only, pruned, sole,
    well_formed, within, EntityId, Node, Role, Slots, Stage,
};
use bevy::input::keyboard::KeyCode;
use bevy::input::ButtonInput;
use vstd::prelude::*;

verus! {

/// What a completed swap did, for whoever mirrors the stage elsewhere.
#[derive(Clone, Copy, PartialEq, Eq, Structural, Debug)]
pub struct WeaponSwap {
    /// The weapon that was destroyed, with everything below it.
    pub removed: Option<EntityId>,
    /// The weapon that was spawned.
    pub spawned: EntityId,
    /// The camera that the new weapon hangs under.
    pub camera: EntityId,
    /// The catalog entry of the new weapon.
    pub slot: WeaponSlot,
}

/// The entity that shows a catalog entry under a camera.
pub open spec fn weapon_node(slot: WeaponSlot, camera: EntityId) -> Node {
    Node {
        role: Role::Weapon,
        parent: Some(camera),
        local: slot.transform_value(),
        model: Some(slot),
    }
}

/// The slots without the weapon in hand and what is attached to it.
pub open spec fn disarmed(s: Slots, current: Option<EntityId>) -> Slots {
    match current {
        Some(w) => pruned(s, w.index as int),
        None => s,
    }
}

/// The stage holds at most one weapon: none while nothing is equipped, and
/// else the equipped one alone, which hangs under a camera.
pub open spec fn armed(s: Slots, current: Option<EntityId>) -> bool {
    match current {
        None => forall|i: int| !has_role(s, i, Role::Weapon),
        Some(w) => {
            &&& only(s, w.index as int, Role::Weapon)
            &&& s[w.index as int].unwrap().parent matches Some(c)
            &&& has_role(s, c.index as int, Role::Camera)
        },
    }
}

/// The slots and the equipped weapon after a request for `slot`. With exactly
/// one camera the weapon in hand gives way to a new one under that camera;
/// with none or several, nothing changes.
pub open spec fn equipped(s: Slots, current: Option<EntityId>, slot: WeaponSlot) -> (
    Slots,
    Option<EntityId>,
) {
    match sole(s, Role::Camera) {
        Some(camera) => (
            disarmed(s, current).push(Some(weapon_node(slot, camera))),
            Some(EntityId { index: s.len() as usize }),
        ),
        None => (s, current),
    }
}

/// What a request for `slot` reports: the swap, where there is exactly one
/// camera.
pub open spec fn swap_report(s: Slots, current: Option<EntityId>, slot: WeaponSlot) -> Option<
    WeaponSwap,
> {
    match sole(s, Role::Camera) {
        Some(camera) => Some(
            WeaponSwap {
                removed: current,
                spawned: EntityId { index: s.len() as usize },
                camera,
                slot,
            },
        ),
        None => None,
    }
}

/// After a swap exactly one entity is a weapon. It is the equipped one, it
/// hangs under the camera, and it shows the requested catalog entry where the
/// catalog puts it. No entity is left without its parent.
pub proof fn lemma_swap_leaves_one_weapon(s: Slots, current: Option<EntityId>, slot: WeaponSlot)
    requires
        well_formed(s),
        armed(s, current),
        sole(s, Role::Camera) is Some,
        s.len() <= usize::MAX,
    ensures
        ({
            let camera = sole(s, Role::Camera).unwrap();
            let (t, now) = equipped(s, current, slot);
            &&& well_formed(t)
            &&& armed(t, now)
            &&& now == Some(EntityId { index: s.len() as usize })
            &&& only(t, s.len() as int, Role::Weapon)
            &&& t[s.len() as int] == Some(weapon_node(slot, camera))
            &&& only(t, camera.index as int, Role::Camera)
            &&& alive(disarmed(s, current), camera.index as int)
        }),
{
    let camera = sole(s, Role::Camera).unwrap();
    let c = camera.index as int;
    let witness = choose|i: int| only(s, i, Role::Camera);
    assert(only(s, witness, Role::Camera));
    assert(only(s, c, Role::Camera));
    let base = disarmed(s, current);
    let (t, now) = equipped(s, current, slot);
    match current {
        Some(w) => {
            lemma_pruned_well_formed(s, w.index as int);
            assert(alive(s, w.index as int));
            let p = s[w.index as int].unwrap().parent.unwrap();
            assert(has_role(s, p.index as int, Role::Camera));
            assert(p.index as int == c);
            if within(s, c, w.index as int) {
                lemma_within_bounds(s, c, w.index as int);
            }
            assert(within(s, w.index as int, w.index as int));
        },
        None => {},
    }
    assert(alive(base, c));
    lemma_push_well_formed(base, weapon_node(slot, camera));
    assert forall|j: int| #[trigger] has_role(t, j, Role::Weapon) implies j == s.len() by {
        if j < s.len() {
            assert(has_role(s, j, Role::Weapon));
        }
    }
    assert forall|j: int| #[trigger] has_role(t, j, Role::Camera) implies j == c by {
        if j < s.len() {
            assert(has_role(s, j, Role::Camera));
        }
    }
}

/// A request leaves alone what does not hang under the weapon in hand. So an
/// entity that hangs under a camera, as the tracer anchor does, is there
/// after the request as it was before, with its transform, whether the swap
/// took place or not.
pub proof fn lemma_swap_spares_camera_children(
    s: Slots,
    current: Option<EntityId>,
    slot: WeaponSlot,
    anchor: int,
    camera: int,
)
    requires
        well_formed(s),
        armed(s, current),
        has_role(s, camera, Role::Camera),
        child_of(s, anchor, camera),
        !has_role(s, anchor, Role::Weapon),
    ensures
        alive(equipped(s, current, slot).0, anchor),
        equipped(s, current, slot).0[anchor] == s[anchor],
{
    if sole(s, Role::Camera) is Some {
        let witness = choose|i: int| only(s, i, Role::Camera);
        assert(only(s, witness, Role::Camera));
        assert(witness == camera);
        match current {
            Some(w) => {
                let p = s[w.index as int].unwrap().parent.unwrap();
                assert(has_role(s, p.index as int, Role::Camera));
                if within(s, camera, w.index as int) {
                    lemma_within_bounds(s, camera, w.index as int);
                }
                assert(!within(s, anchor, w.index as int));
            },
            None => {},
        }
    }
}

/// The slots and the equipped weapon after `n` requests for `slot` in a row.
pub open spec fn equipped_times(s: Slots, current: Option<EntityId>, slot: WeaponSlot, n: nat) -> (
    Slots,
    Option<EntityId>,
)
    decreases n,
{
    if n == 0 {
        (s, current)
    } else {
        equipped(
            equipped_times(s, current, slot, (n - 1) as nat).0,
            equipped_times(s, current, slot, (n - 1) as nat).1,
            slot,
        )
    }
}

/// However often the same entry is requested in a row, one weapon is left: the
/// last one spawned. It is the equipped one, it hangs under the camera and
/// nothing hangs under it. Of the weapons in between nothing is left, and
/// whatever did not hang under the first weapon is as it was.
pub proof fn lemma_repeated_equip_leaves_one_weapon(
    s: Slots,
    current: Option<EntityId>,
    slot: WeaponSlot,
    n: nat,
)
    requires
        well_formed(s),
        armed(s, current),
        sole(s, Role::Camera) is Some,
        n >= 1,
        s.len() + n <= usize::MAX,
    ensures
        ({
            let camera = sole(s, Role::Camera).unwrap();
            let (t, now) = equipped_times(s, current, slot, n);
            let last = s.len() + n - 1;
            &&& well_formed(t)
            &&& armed(t, now)
            &&& now == Some(EntityId { index: last as usize })
            &&& t.len() == s.len() + n
            &&& t[last] == Some(weapon_node(slot, camera))
            &&& only(t, last, Role::Weapon)
            &&& only(t, camera.index as int, Role::Camera)
            &&& forall|i: int| !child_of(t, i, last)
            &&& forall|i: int| 0 <= i < s.len() ==> t[i] == disarmed(s, current)[i]
            &&& forall|i: int| s.len() <= i < last ==> t[i] is None
        }),
    decreases n,
{
    let camera = sole(s, Role::Camera).unwrap();
    if n == 1 {
        assert(equipped_times(s, current, slot, 0) == (s, current));
        lemma_swap_leaves_one_weapon(s, current, slot);
        let (t, now) = equipped_times(s, current, slot, n);
        let last = s.len() as int;
        assert forall|i: int| !child_of(t, i, last) by {
            if alive(t, i) {
            }
        }
    } else {
        lemma_repeated_equip_leaves_one_weapon(s, current, slot, (n - 1) as nat);
        let (m, held) = equipped_times(s, current, slot, (n - 1) as nat);
        let w = s.len() + n - 2;
        lemma_sole_is_only(m, camera.index as int, Role::Camera);
        lemma_swap_leaves_one_weapon(m, held, slot);
        lemma_pruned_leaf(m, w);
        let (t, now) = equipped_times(s, current, slot, n);
        assert(t == m.update(w, None).push(Some(weapon_node(slot, camera))));
        let last = s.len() + n - 1;
        assert forall|i: int| !child_of(t, i, last) by {
            if alive(t, i) {
            }
        }
    }
}

/// Without exactly one camera, requests change nothing, however many.
pub proof fn lemma_requests_without_camera(
    s: Slots,
    current: Option<EntityId>,
    slot: WeaponSlot,
    n: nat,
)
    requires
        sole(s, Role::Camera) is None,
    ensures
        equipped_times(s, current, slot, n) == (s, current),
    decreases n,
{
    if n > 0 {
        lemma_requests_without_camera(s, current, slot, (n - 1) as nat);
    }
}

/// Where a weapon is equipped or the stage has exactly one camera, any number
/// of requests for the same entry in a row, one at least, leaves exactly one
/// weapon, which is the equipped one, and no entity without its parent.
pub proof fn lemma_repeated_equip_keeps_one_weapon(
    s: Slots,
    current: Option<EntityId>,
    slot: WeaponSlot,
    n: nat,
)
    requires
        well_formed(s),
        armed(s, current),
        current is Some || sole(s, Role::Camera) is Some,
        n >= 1,
        s.len() + n <= usize::MAX,
    ensures
        well_formed(equipped_times(s, current, slot, n).0),
        armed(equipped_times(s, current, slot, n).0, equipped_times(s, current, slot, n).1),
        equipped_times(s, current, slot, n).1 matches Some(w) && only(
            equipped_times(s, current, slot, n).0,
            w.index as int,
            Role::Weapon,
        ),
{
    if sole(s, Role::Camera) is Some {
        lemma_repeated_equip_leaves_one_weapon(s, current, slot, n);
    } else {
        lemma_requests_without_camera(s, current, slot, n);
    }
}

/// Whether the stage and the input state agree on the weapon: see [`armed`].
pub fn is_armed(stage: &Stage, input: &PlayerInput) -> (r: bool)
    ensures
        r == armed(stage@, input.current_weapon),
{
    match input.current_weapon {
        None => !stage.has_any(Role::Weapon),
        Some(weapon) => {
            match stage.find_sole(Role::Weapon) {
                Some(found) => {
                    if found.index != weapon.index {
                        return false;
                    }
                },
                None => {
                    return false;
                },
            }
            match stage.get(weapon) {
                Some(node) => match node.parent {
                    Some(parent) => match stage.get(parent) {
                        Some(above) => above.role == Role::Camera,
                        None => false,
                    },
                    None => false,
                },
                None => false,
            }
        },
    }
}

/// Handles a request for one catalog entry. With exactly one camera on the
/// stage, the weapon in hand is destroyed with everything attached to it, and
/// the requested one is spawned under the camera and becomes the equipped
/// weapon. With no camera or several the request is dropped and nothing
/// changes.
pub fn equip_weapon(stage: &mut Stage, input: &mut PlayerInput, slot: WeaponSlot) -> (done: Option<
    WeaponSwap,
>)
    requires
        old(stage).wf(),
        armed(old(stage)@, old(input).current_weapon),
    ensures
        final(stage).wf(),
        armed(final(stage)@, final(input).current_weapon),
        (final(stage)@, final(input).current_weapon) == equipped(
            old(stage)@,
            old(input).current_weapon,
            slot,
        ),
        final(input).movement == old(input).movement,
        done == swap_report(old(stage)@, old(input).current_weapon, slot),
{
    let camera: EntityId = match stage.find_sole(Role::Camera) {
        Some(camera) => camera,
        None => {
            return None;
        },
    };
    proof {
        stage.lemma_len_fits();
        lemma_swap_leaves_one_weapon(stage@, input.current_weapon, slot);
    }
    let removed: Option<EntityId> = input.current_weapon;
    match removed {
        Some(weapon) => {
            stage.despawn_recursive(weapon);
        },
        None => {},
    }
    let node: Node = Node {
        role: Role::Weapon,
        parent: Some(camera),
        local: slot.transform(),
        model: Some(slot),
    };
    match stage.spawn(node) {
        Some(spawned) => {
            input.current_weapon = Some(spawned);
            Some(WeaponSwap { removed, spawned, camera, slot })
        },
        None => None,
    }
}

/// The slots and the equipped weapon after a frame in which the keys of
/// `pressed` went down.
pub open spec fn updated(s: Slots, current: Option<EntityId>, pressed: Set<int>) -> (
    Slots,
    Option<EntityId>,
) {
    match requested(pressed) {
        Some(slot) => equipped(s, current, slot),
        None => (s, current),
    }
}

/// One frame of the weapon manager. At most one equip request is honoured,
/// whichever keys went down together; see [`equip_weapon`] for what a request
/// does.
pub fn update_weapon(stage: &mut Stage, input: &mut PlayerInput, keys: &ButtonInput<KeyCode>) -> (done:
    Option<WeaponSwap>)
    requires
        old(stage).wf(),
        armed(old(stage)@, old(input).current_weapon),
    ensures
        final(stage).wf(),
        armed(final(stage)@, final(input).current_weapon),
        (final(stage)@, final(input).current_weapon) == updated(
            old(stage)@,
            old(input).current_weapon,
            just_pressed_digits(*keys),
        ),
        final(input).movement == old(input).movement,
        done == match requested(just_pressed_digits(*keys)) {
            Some(slot) => swap_report(old(stage)@, old(input).current_weapon, slot),
            None => None,
        },
{
    match requested_slot(keys) {
        Some(slot) => equip_weapon(stage, input, slot),
        None => None,
    }
}

} // verus!
