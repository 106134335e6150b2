//! The stage: an arena of entities that form a forest.
//!
//! Every entity gets the next free index and keeps it; an index is never
//! handed out twice, so a stale handle can only name an empty slot. A child
//! is always spawned under a parent that exists, which puts every parent at a
//! smaller index than its children. Destroying an entity destroys everything
//! below it.

use crate::catalog::WeaponSlot;
use crate::transform::{Rotation, Transform};
use vstd::prelude::*;

verus! {

/// A handle to an entity of a [`Stage`].
#[derive(Clone, Copy, PartialEq, Eq, Structural, Debug)]
pub struct EntityId {
    pub index: usize,
}

/// What an entity is to the player rig.
#[derive(Clone, Copy, PartialEq, Eq, Structural, Debug)]
pub enum Role {
    /// The player body.
    Player,
    /// The camera that carries the view.
    Camera,
    /// A weapon held in front of the camera.
    Weapon,
    /// The fixed point from which shots start.
    TracerAnchor,
    /// Anything attached below another entity, such as the pieces of a model.
    Part,
}

/// What the stage keeps of one entity.
#[derive(Clone, Copy, PartialEq, Eq, Structural, Debug)]
pub struct Node {
    pub role: Role,
    pub parent: Option<EntityId>,
    pub local: Transform,
    /// The catalog entry whose model the entity shows, if it shows one.
    pub model: Option<WeaponSlot>,
}

/// The slots of a stage: the entity at each index, or nothing where none was
/// spawned yet or the one that was has been destroyed.
pub type Slots = Seq<Option<Node>>;

/// Whether index `i` holds an entity.
pub open spec fn alive(s: Slots, i: int) -> bool {
    0 <= i < s.len() && s[i] is Some
}

/// Whether index `i` holds an entity of the given role.
pub open spec fn has_role(s: Slots, i: int, role: Role) -> bool {
    alive(s, i) && s[i].unwrap().role == role
}

/// Whether index `i` holds an entity whose parent is at index `p`.
pub open spec fn child_of(s: Slots, i: int, p: int) -> bool {
    alive(s, i) && s[i].unwrap().parent == Some(EntityId { index: p as usize }) && 0 <= p
        <= usize::MAX
}

/// Every parent exists and stands at a smaller index than its child.
pub open spec fn well_formed(s: Slots) -> bool {
    forall|i: int| #[trigger]
        alive(s, i) ==> match s[i].unwrap().parent {
            Some(p) => p.index < i && alive(s, p.index as int),
            None => true,
        }
}

/// Whether the entity at `i` is the entity at `root` or stands below it.
pub open spec fn within(s: Slots, i: int, root: int) -> bool
    decreases i,
{
    if !alive(s, i) {
        false
    } else if i == root {
        true
    } else {
        match s[i].unwrap().parent {
            Some(p) => p.index < i && within(s, p.index as int, root),
            None => false,
        }
    }
}

/// The slots after the entity at `root` and everything below it is destroyed.
pub open spec fn pruned(s: Slots, root: int) -> Slots {
    Seq::new(
        s.len(),
        |i: int|
            if within(s, i, root) {
                None
            } else {
                s[i]
            },
    )
}

/// Whether `i` is the one index that holds an entity of the given role.
pub open spec fn only(s: Slots, i: int, role: Role) -> bool {
    has_role(s, i, role) && forall|j: int| #[trigger] has_role(s, j, role) ==> j == i
}

/// The one entity of the given role, where there is exactly one.
pub open spec fn sole(s: Slots, role: Role) -> Option<EntityId> {
    if exists|i: int| only(s, i, role) {
        Some(EntityId { index: (choose|i: int| only(s, i, role)) as usize })
    } else {
        None
    }
}

/// How many of the first `n` slots hold an entity.
pub open spec fn population(s: Slots, n: int) -> nat
    decreases n,
{
    if n <= 0 {
        0
    } else {
        population(s, n - 1) + if alive(s, n - 1) {
            1nat
        } else {
            0nat
        }
    }
}

/// What stands below an entity stands at a greater index, and both exist.
pub proof fn lemma_within_bounds(s: Slots, i: int, root: int)
    requires
        within(s, i, root),
    ensures
        root <= i,
        alive(s, root),
        alive(s, i),
    decreases i,
{
    if i != root {
        lemma_within_bounds(s, s[i].unwrap().parent.unwrap().index as int, root);
    }
}

/// Destroying what does not exist changes nothing.
pub proof fn lemma_pruned_absent(s: Slots, root: int)
    requires
        !alive(s, root),
    ensures
        pruned(s, root) == s,
{
    assert forall|i: int| 0 <= i < s.len() implies pruned(s, root)[i] == s[i] by {
        if within(s, i, root) {
            lemma_within_bounds(s, i, root);
        }
    }
    assert(pruned(s, root) =~= s);
}

/// Destroying an entity leaves no entity without its parent.
pub proof fn lemma_pruned_well_formed(s: Slots, root: int)
    requires
        well_formed(s),
    ensures
        well_formed(pruned(s, root)),
{
    let t = pruned(s, root);
    assert forall|i: int| #[trigger] alive(t, i) implies match t[i].unwrap().parent {
        Some(p) => p.index < i && alive(t, p.index as int),
        None => true,
    } by {
        assert(alive(s, i));
        assert(!within(s, i, root));
    }
}

/// Adding an entity under a parent that exists, or under none, keeps every
/// parent in place.
pub proof fn lemma_push_well_formed(s: Slots, node: Node)
    requires
        well_formed(s),
        node.parent matches Some(p) ==> alive(s, p.index as int),
    ensures
        well_formed(s.push(Some(node))),
{
    let t = s.push(Some(node));
    assert forall|i: int| #[trigger] alive(t, i) implies match t[i].unwrap().parent {
        Some(p) => p.index < i && alive(t, p.index as int),
        None => true,
    } by {
        if i < s.len() {
            assert(alive(s, i));
        }
    }
}

/// What has nothing below it is destroyed alone.
pub proof fn lemma_pruned_leaf(s: Slots, root: int)
    requires
        alive(s, root),
        forall|i: int| !child_of(s, i, root),
        s.len() <= usize::MAX,
    ensures
        pruned(s, root) == s.update(root, None),
{
    assert forall|i: int| 0 <= i < s.len() implies (within(s, i, root) <==> i == root) by {
        lemma_leaf_stands_alone(s, i, root);
    }
    assert(pruned(s, root) =~= s.update(root, None));
}

/// Below an entity without children stands nothing but itself.
pub proof fn lemma_leaf_stands_alone(s: Slots, i: int, root: int)
    requires
        alive(s, root),
        forall|j: int| !child_of(s, j, root),
        s.len() <= usize::MAX,
    ensures
        within(s, i, root) <==> i == root,
    decreases i,
{
    if alive(s, i) && i != root {
        match s[i].unwrap().parent {
            Some(p) => {
                if p.index < i {
                    lemma_leaf_stands_alone(s, p.index as int, root);
                    assert(!child_of(s, i, root));
                }
            },
            None => {},
        }
    }
}

/// Where one index alone holds an entity of a role, that entity is the sole
/// one of the role.
pub proof fn lemma_sole_is_only(s: Slots, i: int, role: Role)
    requires
        only(s, i, role),
        s.len() <= usize::MAX,
    ensures
        sole(s, role) == Some(EntityId { index: i as usize }),
{
    let c = choose|j: int| only(s, j, role);
    assert(has_role(s, c, role));
}

/// The entities that form a scene, with their parents, roles and transforms.
pub struct Stage {
    slots: Vec<Option<Node>>,
}

impl View for Stage {
    type V = Seq<Option<Node>>;

    closed spec fn view(&self) -> Seq<Option<Node>> {
        self.slots@
    }
}

impl Stage {
    /// Every parent exists and stands at a smaller index than its child.
    pub open spec fn wf(&self) -> bool {
        well_formed(self@)
    }

    /// Whether the handle names an entity that exists.
    pub open spec fn holds(&self, e: EntityId) -> bool {
        alive(self@, e.index as int)
    }

    /// A stage never holds more slots than can be counted.
    pub proof fn lemma_len_fits(&self)
        ensures
            self@.len() <= usize::MAX,
    {
        assert(self.slots@.len() == self.slots.len());
    }

    /// An empty stage.
    pub fn new() -> (r: Stage)
        ensures
            r@ == Seq::<Option<Node>>::empty(),
            r.wf(),
    {
        Stage { slots: Vec::new() }
    }

    /// The number of slots: one more than the greatest index handed out.
    pub fn len(&self) -> (n: usize)
        ensures
            n == self@.len(),
    {
        self.slots.len()
    }

    /// Whether the handle names an entity that exists.
    pub fn contains(&self, e: EntityId) -> (r: bool)
        ensures
            r == self.holds(e),
    {
        e.index < self.slots.len() && self.slots[e.index].is_some()
    }

    /// The entity that the handle names, if it exists.
    pub fn get(&self, e: EntityId) -> (r: Option<Node>)
        ensures
            r == if self.holds(e) {
                self@[e.index as int]
            } else {
                None
            },
    {
        if e.index < self.slots.len() {
            self.slots[e.index]
        } else {
            None
        }
    }

    /// Adds an entity and returns its handle, which is the next free index.
    /// An entity whose parent does not exist is not added.
    pub fn spawn(&mut self, node: Node) -> (r: Option<EntityId>)
        requires
            old(self).wf(),
        ensures
            final(self).wf(),
            match node.parent {
                Some(p) if !old(self).holds(p) => r is None && final(self)@ == old(self)@,
                _ => r is Some && r.unwrap().index == old(self)@.len() && final(self)@
                    == old(self)@.push(Some(node)),
            },
    {
        match node.parent {
            Some(p) => {
                if !self.contains(p) {
                    return None;
                }
            },
            None => {},
        }
        proof {
            lemma_push_well_formed(self@, node);
        }
        let index: usize = self.slots.len();
        self.slots.push(Some(node));
        Some(EntityId { index })
    }

    /// Destroys an entity and everything below it. A handle that names
    /// nothing destroys nothing.
    pub fn despawn_recursive(&mut self, e: EntityId)
        requires
            old(self).wf(),
        ensures
            final(self).wf(),
            final(self)@ == pruned(old(self)@, e.index as int),
    {
        proof {
            lemma_pruned_well_formed(self@, e.index as int);
        }
        if !self.contains(e) {
            proof {
                lemma_pruned_absent(self@, e.index as int);
            }
            return ;
        }
        let n: usize = self.slots.len();
        self.slots.set(e.index, None);
        let mut i: usize = e.index + 1;
        proof {
            assert forall|j: int| 0 <= j < i implies self@[j] == pruned(old(self)@, e.index as int)[j] by {
                if within(old(self)@, j, e.index as int) {
                    lemma_within_bounds(old(self)@, j, e.index as int);
                }
            }
        }
        while i < n
            invariant
                n == self@.len(),
                n == old(self)@.len(),
                e.index < i <= n,
                well_formed(old(self)@),
                alive(old(self)@, e.index as int),
                forall|j: int| 0 <= j < i ==> self@[j] == pruned(old(self)@, e.index as int)[j],
                forall|j: int| i <= j < n ==> self@[j] == old(self)@[j],
            decreases n - i,
        {
            let slot: Option<Node> = self.slots[i];
            let mut doomed: bool = false;
            match slot {
                Some(node) => match node.parent {
                    Some(p) => {
                        assert(alive(old(self)@, i as int));
                        doomed = self.slots[p.index].is_none();
                        assert(doomed == within(old(self)@, p.index as int, e.index as int));
                    },
                    None => {},
                },
                None => {},
            }
            assert(doomed == within(old(self)@, i as int, e.index as int));
            if doomed {
                self.slots.set(i, None);
            }
            i = i + 1;
        }
        assert(self@ =~= pruned(old(self)@, e.index as int));
    }

    /// Whether every parent exists and stands at a smaller index than its
    /// child.
    pub fn is_well_formed(&self) -> (r: bool)
        ensures
            r == self.wf(),
    {
        let n: usize = self.slots.len();
        let mut i: usize = 0;
        while i < n
            invariant
                n == self@.len(),
                i <= n,
                forall|j: int|
                    0 <= j < i && #[trigger] alive(self@, j) ==> match self@[j].unwrap().parent {
                        Some(p) => p.index < j && alive(self@, p.index as int),
                        None => true,
                    },
            decreases n - i,
        {
            match self.slots[i] {
                Some(node) => match node.parent {
                    Some(p) => {
                        if p.index >= i || self.slots[p.index].is_none() {
                            assert(alive(self@, i as int));
                            return false;
                        }
                    },
                    None => {},
                },
                None => {},
            }
            i = i + 1;
        }
        true
    }

    /// Whether any entity has the given role.
    pub fn has_any(&self, role: Role) -> (r: bool)
        ensures
            r == exists|i: int| has_role(self@, i, role),
    {
        let n: usize = self.slots.len();
        let mut i: usize = 0;
        while i < n
            invariant
                n == self@.len(),
                i <= n,
                forall|j: int| 0 <= j < i ==> !has_role(self@, j, role),
            decreases n - i,
        {
            let hit: bool = match self.slots[i] {
                Some(node) => node.role == role,
                None => false,
            };
            if hit {
                assert(has_role(self@, i as int, role));
                return true;
            }
            i = i + 1;
        }
        false
    }

    /// The one entity of the given role, where there is exactly one.
    pub fn find_sole(&self, role: Role) -> (r: Option<EntityId>)
        ensures
            r == sole(self@, role),
            r matches Some(e) ==> only(self@, e.index as int, role),
            r is None ==> forall|i: int| !only(self@, i, role),
    {
        let n: usize = self.slots.len();
        let mut first: Option<usize> = None;
        let mut more: bool = false;
        let ghost mut other: int = 0;
        let mut i: usize = 0;
        while i < n
            invariant
                n == self@.len(),
                i <= n,
                first is None ==> !more && forall|j: int|
                    0 <= j < i ==> !has_role(self@, j, role),
                first matches Some(f) ==> f < i && has_role(self@, f as int, role),
                first matches Some(f) ==> (!more ==> forall|j: int|
                    0 <= j < i && has_role(self@, j, role) ==> j == f),
                more ==> first is Some && has_role(self@, other, role) && other
                    != first.unwrap(),
            decreases n - i,
        {
            let hit: bool = match self.slots[i] {
                Some(node) => node.role == role,
                None => false,
            };
            if hit {
                match first {
                    None => {
                        first = Some(i);
                    },
                    Some(_) => {
                        more = true;
                        proof {
                            other = i as int;
                        }
                    },
                }
            }
            i = i + 1;
        }
        match first {
            Some(f) => {
                if more {
                    assert forall|k: int| !only(self@, k, role) by {
                        assert(has_role(self@, f as int, role));
                        assert(has_role(self@, other, role));
                    }
                    None
                } else {
                    assert(only(self@, f as int, role));
                    Some(EntityId { index: f })
                }
            },
            None => None,
        }
    }

    /// The entities whose parent is `e`, by rising index.
    pub fn children(&self, e: EntityId) -> (r: Vec<EntityId>)
        ensures
            forall|k: int| 0 <= k < r@.len() ==> child_of(self@, #[trigger] r@[k].index as int, e.index as int),
            forall|i: int| #[trigger]
                child_of(self@, i, e.index as int) ==> r@.contains(EntityId { index: i as usize }),
            forall|k: int, l: int| 0 <= k < l < r@.len() ==> r@[k].index < r@[l].index,
    {
        let n: usize = self.slots.len();
        let mut found: Vec<EntityId> = Vec::new();
        let mut i: usize = 0;
        while i < n
            invariant
                n == self@.len(),
                i <= n,
                forall|k: int| 0 <= k < found@.len() ==> child_of(self@, #[trigger] found@[k].index as int, e.index as int),
                forall|k: int| 0 <= k < found@.len() ==> #[trigger] found@[k].index < i,
                forall|j: int| 0 <= j < i && #[trigger] child_of(self@, j, e.index as int) ==> found@.contains(EntityId { index: j as usize }),
                forall|k: int, l: int| 0 <= k < l < found@.len() ==> found@[k].index < found@[l].index,
            decreases n - i,
        {
            let hit: bool = match self.slots[i] {
                Some(node) => match node.parent {
                    Some(p) => p.index == e.index,
                    None => false,
                },
                None => false,
            };
            if hit {
                let ghost before = found@;
                found.push(EntityId { index: i });
                assert forall|j: int| 0 <= j <= i && #[trigger] child_of(self@, j, e.index as int) implies found@.contains(EntityId { index: j as usize }) by {
                    if j < i {
                        let k = choose|k: int| 0 <= k < before.len() && before[k] == (EntityId { index: j as usize });
                        assert(found@[k] == EntityId { index: j as usize });
                    } else {
                        assert(found@[before.len() as int] == EntityId { index: j as usize });
                    }
                }
            }
            i = i + 1;
        }
        found
    }

    /// How many entities exist.
    pub fn live_count(&self) -> (count: usize)
        ensures
            count == population(self@, self@.len() as int),
    {
        let n: usize = self.slots.len();
        let mut count: usize = 0;
        let mut i: usize = 0;
        while i < n
            invariant
                n == self@.len(),
                i <= n,
                count <= i,
                count == population(self@, i as int),
            decreases n - i,
        {
            if self.slots[i].is_some() {
                count = count + 1;
            }
            i = i + 1;
        }
        count
    }

    /// Adds an entity whose parent, if it has one, is known to exist, and
    /// returns its handle.
    pub fn spawn_under(&mut self, node: Node) -> (id: EntityId)
        requires
            old(self).wf(),
            node.parent matches Some(p) ==> old(self).holds(p),
        ensures
            final(self).wf(),
            id.index == old(self)@.len(),
            final(self)@ == old(self)@.push(Some(node)),
    {
        match self.spawn(node) {
            Some(id) => id,
            None => vstd::pervasive::unreached(),
        }
    }

    /// Sets the rotation of an entity relative to its parent, and says
    /// whether the entity exists.
    pub fn set_rotation(&mut self, e: EntityId, rotation: Rotation) -> (done: bool)
        requires
            old(self).wf(),
        ensures
            final(self).wf(),
            done == old(self).holds(e),
            final(self)@ == rotated(old(self)@, e.index as int, rotation),
    {
        if e.index >= self.slots.len() {
            assert(self@ =~= rotated(self@, e.index as int, rotation));
            return false;
        }
        match self.slots[e.index] {
            Some(node) => {
                let local: Transform = Transform {
                    translation: node.local.translation,
                    rotation,
                    scale: node.local.scale,
                };
                let changed: Node = Node { role: node.role, parent: node.parent, local, model: node.model };
                self.slots.set(e.index, Some(changed));
                proof {
                    let s = old(self)@;
                    let t = self@;
                    assert(t =~= rotated(s, e.index as int, rotation));
                    assert forall|i: int| #[trigger] alive(t, i) implies match t[i].unwrap().parent {
                        Some(p) => p.index < i && alive(t, p.index as int),
                        None => true,
                    } by {
                        assert(alive(s, i));
                    }
                }
                true
            },
            None => {
                assert(self@ =~= rotated(self@, e.index as int, rotation));
                false
            },
        }
    }
}

/// The slots after the entity at `i`, if there is one, is given a new
/// rotation relative to its parent.
pub open spec fn rotated(s: Slots, i: int, rotation: Rotation) -> Slots {
    if alive(s, i) {
        s.update(
            i,
            Some(
                Node {
                    role: s[i].unwrap().role,
                    parent: s[i].unwrap().parent,
                    local: Transform {
                        translation: s[i].unwrap().local.translation,
                        rotation,
                        scale: s[i].unwrap().local.scale,
                    },
                    model: s[i].unwrap().model,
                },
            ),
        )
    } else {
        s
    }
}

} // verus!
