use vstd::prelude::*;

use crate::interaction::{TransformDelta, Turn};
use crate::vector::{add3, bounded, floor_div, floor_div_wide, scale3, sub3, Vec3, V3, POINT_LIMIT, UNIT};

verus! {

/// Whether an entity takes part in gizmo drags.
#[derive(Clone, Copy, Debug, PartialEq, Eq, Structural)]
pub struct PickSelection {
    pub is_selected: bool,
}

/// A parent's world placement: a child at local translation `l` stands at
/// `translation + scale * l` in the world.
#[derive(Clone, Copy, Debug, PartialEq, Eq, Structural)]
pub struct ParentFrame {
    pub translation: Vec3,
    pub scale: i64,
}

impl ParentFrame {
    pub open spec fn wf(&self) -> bool {
        &&& bounded(self.translation@, POINT_LIMIT as int)
        &&& 1 <= self.scale <= UNIT
    }
}

pub open spec fn parent_wf(parent: Option<ParentFrame>) -> bool {
    match parent {
        None => true,
        Some(p) => p.wf(),
    }
}

/// Where a local translation stands in the world.
pub open spec fn world_of(parent: Option<ParentFrame>, local: V3) -> V3 {
    match parent {
        None => local,
        Some(p) => add3(p.translation@, scale3(p.scale as int, local)),
    }
}

/// The local translation that puts a child at `world`, rounded down onto the
/// parent's lattice.
pub open spec fn local_of(parent: Option<ParentFrame>, world: V3) -> V3 {
    match parent {
        None => world,
        Some(p) => {
            let v = sub3(world, p.translation@);
            (floor_div(v.0, p.scale as int), floor_div(v.1, p.scale as int), floor_div(v.2, p.scale as int))
        },
    }
}

/// `world` lies on the lattice of points that a child of `parent` can reach.
pub open spec fn on_parent_lattice(parent: Option<ParentFrame>, world: V3) -> bool {
    match parent {
        None => true,
        Some(p) => {
            let v = sub3(world, p.translation@);
            &&& v.0 % (p.scale as int) == 0
            &&& v.1 % (p.scale as int) == 0
            &&& v.2 % (p.scale as int) == 0
        },
    }
}

/// The local translation that puts a child of `parent` at the world point `world`.
pub fn to_local(parent: &Option<ParentFrame>, world: &Vec3) -> (r: Vec3)
    requires
        parent_wf(*parent),
        bounded(world@, POINT_LIMIT as int),
    ensures
        r@ == local_of(*parent, world@),
        bounded(r@, 2 * POINT_LIMIT),
{
    match parent {
        None => *world,
        Some(p) => {
            let v = world.sub(&p.translation);
            let s = p.scale as i128;
            let x = floor_div_wide(v.x as i128, s);
            let y = floor_div_wide(v.y as i128, s);
            let z = floor_div_wide(v.z as i128, s);
            Vec3 { x: x as i64, y: y as i64, z: z as i64 }
        },
    }
}

/// Where a child of `parent` at local translation `local` stands in the world.
pub fn to_world(parent: &Option<ParentFrame>, local: &Vec3) -> (r: Vec3)
    requires
        parent_wf(*parent),
        bounded(local@, 2 * POINT_LIMIT),
    ensures
        r@ == world_of(*parent, local@),
{
    match parent {
        None => *local,
        Some(p) => {
            proof {
                crate::vector::lemma_mul_bound(p.scale as int, local.x as int, UNIT as int, 2 * POINT_LIMIT);
                crate::vector::lemma_mul_bound(p.scale as int, local.y as int, UNIT as int, 2 * POINT_LIMIT);
                crate::vector::lemma_mul_bound(p.scale as int, local.z as int, UNIT as int, 2 * POINT_LIMIT);
            }
            Vec3 {
                x: p.translation.x + p.scale * local.x,
                y: p.translation.y + p.scale * local.y,
                z: p.translation.z + p.scale * local.z,
            }
        },
    }
}

proof fn lemma_floor_round_trip(v: int, s: int)
    requires
        s >= 1,
    ensures
        0 <= v - s * floor_div(v, s) < s,
        v % s == 0 ==> s * floor_div(v, s) == v,
{
    vstd::arithmetic::div_mod::lemma_fundamental_div_mod(v, s);
    vstd::arithmetic::div_mod::lemma_mod_bound(v, s);
}

/// Converting a world point into a child's local translation and back lands on
/// the point itself where it lies on the parent's lattice, and otherwise at
/// most one parent step below it in each coordinate.
pub proof fn lemma_local_round_trip(parent: Option<ParentFrame>, world: V3)
    requires
        parent_wf(parent),
    ensures
        on_parent_lattice(parent, world) ==> world_of(parent, local_of(parent, world)) == world,
        parent matches Some(p) ==> {
            let back = world_of(parent, local_of(parent, world));
            &&& 0 <= world.0 - back.0 < p.scale
            &&& 0 <= world.1 - back.1 < p.scale
            &&& 0 <= world.2 - back.2 < p.scale
        },
{
    if let Some(p) = parent {
        let v = sub3(world, p.translation@);
        lemma_floor_round_trip(v.0, p.scale as int);
        lemma_floor_round_trip(v.1, p.scale as int);
        lemma_floor_round_trip(v.2, p.scale as int);
    }
}

/// A selectable scene entity as the gizmo sees it.
#[derive(Clone, Copy, Debug, PartialEq, Eq, Structural)]
pub struct SelectedEntity {
    pub id: u64,
    pub selection: PickSelection,
    /// The parent's world placement, for a child entity.
    pub parent: Option<ParentFrame>,
    /// The local translation.
    pub translation: Vec3,
    /// The rotation that the current drag applies after the rotation the entity
    /// had when the drag started.
    pub turn: Option<Turn>,
    /// The world translation when the current drag started.
    pub initial_translation: Vec3,
}

impl SelectedEntity {
    pub open spec fn wf(&self) -> bool {
        &&& parent_wf(self.parent)
        &&& bounded(self.translation@, 2 * POINT_LIMIT)
        &&& bounded(world_of(self.parent, self.translation@), POINT_LIMIT as int)
        &&& bounded(self.initial_translation@, POINT_LIMIT as int)
    }
}

/// The entity after a drag update that resolved to `delta`: a selected entity
/// moves to its own snapshot plus the translation, or takes the turn; the rest
/// stays as it was.
pub open spec fn synced(e: SelectedEntity, n: SelectedEntity, delta: TransformDelta) -> bool {
    if !e.selection.is_selected {
        n == e
    } else {
        match delta {
            TransformDelta::Translate(t) => {
                &&& n.translation@ == local_of(e.parent, add3(e.initial_translation@, t@))
                &&& n == SelectedEntity { translation: n.translation, ..e }
            },
            TransformDelta::Rotate(turn) => n == SelectedEntity { turn: Some(turn), ..e },
            TransformDelta::Identity => n == e,
        }
    }
}

/// A drag update by `delta` keeps the entity inside the world lattice's bounds.
pub open spec fn sync_fits(e: SelectedEntity, delta: TransformDelta) -> bool {
    e.selection.is_selected ==> (delta matches TransformDelta::Translate(t) ==> {
        let target = add3(e.initial_translation@, t@);
        &&& bounded(target, POINT_LIMIT as int)
        &&& bounded(world_of(e.parent, local_of(e.parent, target)), POINT_LIMIT as int)
    })
}

/// The entities that the gizmo moves, with their drag-start snapshots.
#[derive(Clone, Debug)]
pub struct SelectionSet {
    pub entities: Vec<SelectedEntity>,
}

impl SelectionSet {
    pub open spec fn wf(&self) -> bool {
        forall|i: int| 0 <= i < self.entities@.len() ==> (#[trigger] self.entities@[i]).wf()
    }

    pub fn new() -> (r: SelectionSet)
        ensures
            r.wf(),
            r.entities@.len() == 0,
    {
        SelectionSet { entities: Vec::new() }
    }

    /// Adds an unselected entity at the local translation `translation`.
    pub fn insert(&mut self, id: u64, parent: Option<ParentFrame>, translation: Vec3) -> (r: bool)
        requires
            old(self).wf(),
            parent_wf(parent),
            bounded(translation@, 2 * POINT_LIMIT),
        ensures
            final(self).wf(),
            r == bounded(world_of(parent, translation@), POINT_LIMIT as int),
            r ==> final(self).entities@ == old(self).entities@.push(
                (SelectedEntity {
                    id,
                    selection: PickSelection { is_selected: false },
                    parent,
                    translation,
                    turn: None,
                    initial_translation: to_world_spec(parent, translation),
                }),
            ),
            !r ==> final(self).entities@ == old(self).entities@,
    {
        let world = to_world(&parent, &translation);
        let lim = POINT_LIMIT;
        if -lim <= world.x && world.x <= lim && -lim <= world.y && world.y <= lim && -lim <= world.z
            && world.z <= lim {
            self.entities.push(
                SelectedEntity {
                    id,
                    selection: PickSelection { is_selected: false },
                    parent,
                    translation,
                    turn: None,
                    initial_translation: world,
                },
            );
            true
        } else {
            false
        }
    }

    /// Selects the entity `id` and clears every other selection; `false`, with
    /// nothing changed, where no entity has that id.
    pub fn select_only(&mut self, id: u64) -> (r: bool)
        requires
            old(self).wf(),
        ensures
            final(self).wf(),
            r == exists|i: int| 0 <= i < old(self).entities@.len() && (#[trigger] old(self).entities@[i]).id == id,
            final(self).entities@.len() == old(self).entities@.len(),
            forall|i: int|
                0 <= i < old(self).entities@.len() ==> #[trigger] final(self).entities@[i] == (if r {
                    selected_if(old(self).entities@[i], id)
                } else {
                    old(self).entities@[i]
                }),
    {
        let mut found = false;
        let mut k: usize = 0;
        while k < self.entities.len()
            invariant
                0 <= k <= self.entities@.len(),
                found == exists|i: int| 0 <= i < k && (#[trigger] self.entities@[i]).id == id,
            decreases self.entities@.len() - k,
        {
            if self.entities[k].id == id {
                found = true;
            }
            k = k + 1;
        }
        if !found {
            return false;
        }
        let ghost before = self.entities@;
        let mut i: usize = 0;
        while i < self.entities.len()
            invariant
                self.entities@.len() == before.len(),
                0 <= i <= before.len(),
                forall|j: int| 0 <= j < before.len() ==> (#[trigger] before[j]).wf(),
                forall|j: int|
                    0 <= j < i ==> #[trigger] self.entities@[j] == selected_if(before[j], id),
                forall|j: int| i <= j < before.len() ==> #[trigger] self.entities@[j] == before[j],
            decreases before.len() - i,
        {
            let mut e = self.entities[i];
            e.selection = PickSelection { is_selected: e.id == id };
            self.entities.set(i, e);
            i = i + 1;
        }
        proof {
            assert forall|j: int| 0 <= j < self.entities@.len() implies (#[trigger] self.entities@[j]).wf() by {
                assert(before[j].wf());
            }
        }
        true
    }

    /// Sets whether the entities with id `id` are selected, leaving the others
    /// as they are; `false`, with nothing changed, where no entity has that id.
    pub fn set_selected(&mut self, id: u64, selected: bool) -> (r: bool)
        requires
            old(self).wf(),
        ensures
            final(self).wf(),
            r == exists|i: int| 0 <= i < old(self).entities@.len() && (#[trigger] old(self).entities@[i]).id == id,
            final(self).entities@.len() == old(self).entities@.len(),
            forall|i: int|
                0 <= i < old(self).entities@.len() ==> #[trigger] final(self).entities@[i] == (if old(self).entities@[i].id == id {
                    with_selection(old(self).entities@[i], selected)
                } else {
                    old(self).entities@[i]
                }),
    {
        let ghost before = self.entities@;
        let mut found = false;
        let mut i: usize = 0;
        while i < self.entities.len()
            invariant
                self.entities@.len() == before.len(),
                0 <= i <= before.len(),
                forall|j: int| 0 <= j < before.len() ==> (#[trigger] before[j]).wf(),
                found == exists|j: int| 0 <= j < i && (#[trigger] before[j]).id == id,
                forall|j: int|
                    0 <= j < i ==> #[trigger] self.entities@[j] == (if before[j].id == id {
                        with_selection(before[j], selected)
                    } else {
                        before[j]
                    }),
                forall|j: int| i <= j < before.len() ==> #[trigger] self.entities@[j] == before[j],
            decreases before.len() - i,
        {
            let mut e = self.entities[i];
            if e.id == id {
                e.selection = PickSelection { is_selected: selected };
                found = true;
            }
            self.entities.set(i, e);
            i = i + 1;
        }
        proof {
            assert forall|j: int| 0 <= j < self.entities@.len() implies (#[trigger] self.entities@[j]).wf() by {
                assert(before[j].wf());
            }
        }
        found
    }

    /// Takes the drag-start snapshot: each selected entity records where it
    /// stands in the world, and its turn is cleared.
    pub fn snapshot_selected(&mut self)
        requires
            old(self).wf(),
        ensures
            final(self).wf(),
            final(self).entities@.len() == old(self).entities@.len(),
            forall|i: int|
                0 <= i < old(self).entities@.len() ==> #[trigger] final(self).entities@[i]
                    == snapshotted(old(self).entities@[i]),
    {
        let ghost before = self.entities@;
        let mut i: usize = 0;
        while i < self.entities.len()
            invariant
                self.entities@.len() == before.len(),
                0 <= i <= before.len(),
                forall|j: int| 0 <= j < before.len() ==> (#[trigger] before[j]).wf(),
                forall|j: int|
                    0 <= j < i ==> #[trigger] self.entities@[j] == snapshotted(before[j]),
                forall|j: int| 0 <= j < i ==> (#[trigger] self.entities@[j]).wf(),
                forall|j: int| i <= j < before.len() ==> #[trigger] self.entities@[j] == before[j],
            decreases before.len() - i,
        {
            let mut e = self.entities[i];
            if e.selection.is_selected {
                e.turn = None;
                e.initial_translation = to_world(&e.parent, &e.translation);
            }
            self.entities.set(i, e);
            i = i + 1;
        }
    }

    /// Applies a resolved drag update to every selected entity, from each one's
    /// own snapshot. Where some selected entity would leave the world lattice's
    /// bounds, nothing changes and the result is `false`.
    pub fn apply_delta(&mut self, delta: &TransformDelta) -> (r: bool)
        requires
            old(self).wf(),
        ensures
            final(self).wf(),
            r == forall|i: int| 0 <= i < old(self).entities@.len() ==> sync_fits(#[trigger] old(self).entities@[i], *delta),
            r ==> final(self).entities@.len() == old(self).entities@.len() && forall|i: int|
                0 <= i < old(self).entities@.len() ==> synced(
                    #[trigger] old(self).entities@[i],
                    final(self).entities@[i],
                    *delta,
                ),
            !r ==> final(self).entities@ == old(self).entities@,
    {
        let mut next: Vec<SelectedEntity> = Vec::new();
        let mut i: usize = 0;
        while i < self.entities.len()
            invariant
                self.wf(),
                0 <= i <= self.entities@.len(),
                next@.len() == i,
                forall|j: int| 0 <= j < i ==> sync_fits(#[trigger] self.entities@[j], *delta),
                forall|j: int| 0 <= j < i ==> synced(#[trigger] self.entities@[j], next@[j], *delta),
                forall|j: int| 0 <= j < i ==> (#[trigger] next@[j]).wf(),
            decreases self.entities@.len() - i,
        {
            let e = self.entities[i];
            assert(self.entities@[i as int].wf());
            let mut n = e;
            if e.selection.is_selected {
                match delta {
                    TransformDelta::Translate(t) => {
                        match e.initial_translation.checked_add(t) {
                            None => {
                                return false;
                            },
                            Some(target) => {
                                let local = to_local(&e.parent, &target);
                                let back = to_world(&e.parent, &local);
                                let lim = POINT_LIMIT;
                                if !(-lim <= back.x && back.x <= lim && -lim <= back.y && back.y
                                    <= lim && -lim <= back.z && back.z <= lim) {
                                    return false;
                                }
                                n.translation = local;
                            },
                        }
                    },
                    TransformDelta::Rotate(turn) => {
                        n.turn = Some(*turn);
                    },
                    TransformDelta::Identity => {},
                }
            }
            next.push(n);
            i = i + 1;
        }
        self.entities = next;
        true
    }
}

/// After a translation drag update, a selected entity without a parent stands
/// exactly at its own snapshot plus the translation; a child stands there
/// where that point lies on its parent's lattice, and otherwise less than one
/// parent step below it in each coordinate.
pub proof fn lemma_sync_translation(e: SelectedEntity, n: SelectedEntity, t: Vec3)
    requires
        e.wf(),
        e.selection.is_selected,
        synced(e, n, TransformDelta::Translate(t)),
    ensures
        on_parent_lattice(e.parent, add3(e.initial_translation@, t@)) ==> world_of(
            n.parent,
            n.translation@,
        ) == add3(e.initial_translation@, t@),
        e.parent is None ==> world_of(n.parent, n.translation@) == add3(e.initial_translation@, t@),
        e.parent matches Some(p) ==> {
            let target = add3(e.initial_translation@, t@);
            let w = world_of(n.parent, n.translation@);
            &&& 0 <= target.0 - w.0 < p.scale
            &&& 0 <= target.1 - w.1 < p.scale
            &&& 0 <= target.2 - w.2 < p.scale
        },
{
    lemma_local_round_trip(e.parent, add3(e.initial_translation@, t@));
}

/// A drag update depends on each entity's snapshot, never on where the last
/// update put it: applying the same change twice leaves the entity as applying
/// it once did.
pub proof fn lemma_sync_idempotent(e: SelectedEntity, n: SelectedEntity, m: SelectedEntity, delta: TransformDelta)
    requires
        synced(e, n, delta),
        synced(n, m, delta),
    ensures
        m == n,
{
}

/// The entity with its selection set exactly where its id is `id`.
pub open spec fn selected_if(e: SelectedEntity, id: u64) -> SelectedEntity {
    SelectedEntity { selection: PickSelection { is_selected: e.id == id }, ..e }
}

/// The entity with its selection set to `selected`.
pub open spec fn with_selection(e: SelectedEntity, selected: bool) -> SelectedEntity {
    SelectedEntity { selection: PickSelection { is_selected: selected }, ..e }
}

/// The entity after a drag-start snapshot.
pub open spec fn snapshotted(e: SelectedEntity) -> SelectedEntity {
    if e.selection.is_selected {
        SelectedEntity {
            turn: None,
            initial_translation: to_world_spec(e.parent, e.translation),
            ..e
        }
    } else {
        e
    }
}

/// Where a child of `parent` at local translation `local` stands, as a lattice vector.
pub open spec fn to_world_spec(parent: Option<ParentFrame>, local: Vec3) -> Vec3 {
    let w = world_of(parent, local@);
    Vec3 { x: w.0 as i64, y: w.1 as i64, z: w.2 as i64 }
}

} // verus!
