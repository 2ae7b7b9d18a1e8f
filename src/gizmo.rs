use vstd::prelude::*;

use crate::interaction::{
    rotated, Basis, InitialTransform, TransformDelta, TransformGizmoInteraction, Turn,
};
use crate::plane::hit_den;
use crate::resolve::{
    axis_drag_normal, drag_plane_normal, resolve_drag, resolves_to, screen_bounded, PointerSample,
};
use crate::selection::{
    lemma_sync_idempotent, snapshotted, sync_fits, synced, SelectionSet,
};
use crate::vector::{add3, bounded, Vec2, Vec3, V3, POINT_LIMIT, UNIT};

verus! {

/// The gizmo's interaction state and its own placement.
#[derive(Clone, Copy, Debug, PartialEq, Eq, Structural)]
pub struct TransformGizmo {
    /// The handle being dragged, if any.
    pub current_interaction: Option<TransformGizmoInteraction>,
    /// The world point under the pointer when the drag started.
    pub drag_start: Option<Vec3>,
    /// The pointer's screen position when the drag started.
    pub screen_drag_start: Vec2,
    /// The camera's forward direction when the drag started.
    pub start_forward: Vec3,
    /// The gizmo's placement when the drag started.
    pub initial_transform: Option<InitialTransform>,
    /// The gizmo's translation.
    pub translation: Vec3,
    /// The rotation that the current drag applies after the gizmo's rotation
    /// when the drag started.
    pub turn: Option<Turn>,
}

impl TransformGizmo {
    pub open spec fn wf(&self) -> bool {
        &&& self.current_interaction is Some <==> self.drag_start is Some
        &&& self.current_interaction is Some ==> self.initial_transform is Some
        &&& self.current_interaction matches Some(k) ==> k.wf()
        &&& self.drag_start matches Some(a) ==> bounded(a@, POINT_LIMIT as int)
        &&& self.initial_transform matches Some(t) ==> t.wf()
        &&& screen_bounded(self.screen_drag_start)
        &&& bounded(self.start_forward@, UNIT as int)
        &&& bounded(self.translation@, POINT_LIMIT as int)
    }

    pub open spec fn is_dragging(&self) -> bool {
        self.current_interaction is Some
    }
}

/// What the update resolves to for the gizmo's current drag; nothing while idle.
pub open spec fn drag_resolves(g: TransformGizmo, sample: PointerSample, r: Option<TransformDelta>) -> bool {
    match g.current_interaction {
        None => r is None,
        Some(kind) => resolves_to(
            r,
            kind,
            g.drag_start->0@,
            g.initial_transform->0,
            g.screen_drag_start,
            g.start_forward@,
            sample,
        ),
    }
}

/// The gizmo after a drag update by `delta`: moved to its drag-start translation
/// plus the translation, or turned.
pub open spec fn gizmo_synced(g: TransformGizmo, n: TransformGizmo, delta: TransformDelta) -> bool {
    match delta {
        TransformDelta::Translate(t) => {
            &&& n.translation@ == add3(g.initial_transform->0.translation@, t@)
            &&& n == TransformGizmo { translation: n.translation, ..g }
        },
        TransformDelta::Rotate(turn) => n == TransformGizmo { turn: Some(turn), ..g },
        TransformDelta::Identity => n == g,
    }
}

pub open spec fn gizmo_fits(g: TransformGizmo, delta: TransformDelta) -> bool {
    delta matches TransformDelta::Translate(t) ==> bounded(
        add3(g.initial_transform->0.translation@, t@),
        POINT_LIMIT as int,
    )
}

/// A drag update by `delta` keeps the gizmo and every selected entity inside the
/// world lattice's bounds.
pub open spec fn engine_fits(e: GizmoEngine, delta: TransformDelta) -> bool {
    &&& gizmo_fits(e.gizmo, delta)
    &&& forall|i: int|
        0 <= i < e.selection.entities@.len() ==> sync_fits(#[trigger] e.selection.entities@[i], delta)
}

/// `n` is `e` after a drag started on `interaction` over the world point
/// `anchor`: the gizmo records the drag and its own placement, and every
/// selected entity is snapshotted.
pub open spec fn clicked(
    e: GizmoEngine,
    n: GizmoEngine,
    interaction: TransformGizmoInteraction,
    anchor: Vec3,
    screen: Vec2,
    camera_forward: Vec3,
    basis: Basis,
) -> bool {
    &&& n.gizmo == (TransformGizmo {
        current_interaction: Some(interaction),
        drag_start: Some(anchor),
        screen_drag_start: screen,
        start_forward: camera_forward,
        initial_transform: Some(InitialTransform { translation: e.gizmo.translation, basis }),
        translation: e.gizmo.translation,
        turn: None,
    })
    &&& n.selection.entities@.len() == e.selection.entities@.len()
    &&& forall|i: int|
        0 <= i < e.selection.entities@.len() ==> #[trigger] n.selection.entities@[i] == snapshotted(
            e.selection.entities@[i],
        )
}

/// `n` is `e` after one pointer move that applied `r`: nothing changes where no
/// change applies; a change applies exactly where the drag resolves the move to
/// one that keeps every placement in bounds, and it moves the gizmo and every
/// selected entity from their drag-start placements.
pub open spec fn dragged(e: GizmoEngine, n: GizmoEngine, sample: PointerSample, r: Option<TransformDelta>) -> bool {
    &&& r is None ==> n.gizmo == e.gizmo && n.selection.entities@ == e.selection.entities@
    &&& drag_resolves(e.gizmo, sample, None) ==> r is None
    &&& forall|d: TransformDelta|
        drag_resolves(e.gizmo, sample, Some(d)) ==> (r is Some <==> engine_fits(e, d))
    &&& r matches Some(d) ==> {
        &&& drag_resolves(e.gizmo, sample, Some(d))
        &&& gizmo_synced(e.gizmo, n.gizmo, d)
        &&& n.selection.entities@.len() == e.selection.entities@.len()
        &&& forall|i: int|
            0 <= i < e.selection.entities@.len() ==> synced(
                #[trigger] e.selection.entities@[i],
                n.selection.entities@[i],
                d,
            )
    }
}

/// `n` is `e` after the drag ended: the gizmo is idle and every placement
/// stays where it was.
pub open spec fn released(e: GizmoEngine, n: GizmoEngine) -> bool {
    &&& n.gizmo == (TransformGizmo { current_interaction: None, drag_start: None, ..e.gizmo })
    &&& n.selection.entities@ == e.selection.entities@
}

/// One input event of a drag gesture.
#[derive(Clone, Copy, Debug, PartialEq, Eq, Structural)]
pub enum PointerEvent {
    /// A press on a handle, over the world point `anchor` at screen position
    /// `screen`, with the camera looking along `camera_forward` and the gizmo
    /// oriented by `basis`.
    Down {
        interaction: TransformGizmoInteraction,
        anchor: Vec3,
        screen: Vec2,
        camera_forward: Vec3,
        basis: Basis,
    },
    /// The pointer moved.
    Move(PointerSample),
    /// The pointer was released.
    Up,
}

impl PointerEvent {
    pub open spec fn wf(&self) -> bool {
        match *self {
            PointerEvent::Down { interaction, anchor, screen, camera_forward, basis } => {
                &&& interaction.wf()
                &&& bounded(anchor@, POINT_LIMIT as int)
                &&& screen_bounded(screen)
                &&& bounded(camera_forward@, UNIT as int)
                &&& basis.wf()
            },
            PointerEvent::Move(sample) => sample.wf(),
            PointerEvent::Up => true,
        }
    }
}

/// The gizmo together with the entities that it moves.
#[derive(Clone, Debug)]
pub struct GizmoEngine {
    pub gizmo: TransformGizmo,
    pub selection: SelectionSet,
}

impl GizmoEngine {
    pub open spec fn wf(&self) -> bool {
        &&& self.gizmo.wf()
        &&& self.selection.wf()
    }

    /// An idle gizmo at `translation`, with nothing to move yet.
    pub fn new(translation: Vec3) -> (r: GizmoEngine)
        requires
            bounded(translation@, POINT_LIMIT as int),
        ensures
            r.wf(),
            r.gizmo == (TransformGizmo {
                current_interaction: None,
                drag_start: None,
                screen_drag_start: Vec2 { x: 0, y: 0 },
                start_forward: Vec3 { x: 0, y: 0, z: 0 },
                initial_transform: None,
                translation,
                turn: None,
            }),
            r.selection.entities@.len() == 0,
    {
        GizmoEngine {
            gizmo: TransformGizmo {
                current_interaction: None,
                drag_start: None,
                screen_drag_start: Vec2 { x: 0, y: 0 },
                start_forward: Vec3 { x: 0, y: 0, z: 0 },
                initial_transform: None,
                translation,
                turn: None,
            },
            selection: SelectionSet::new(),
        }
    }

    /// Starts a drag on a handle: records the interaction, the world point
    /// under the pointer, the pointer's screen position, the camera's forward
    /// direction and the gizmo's placement (its current translation with the
    /// orientation `basis`), and snapshots every selected entity.
    pub fn click_axis(
        &mut self,
        interaction: TransformGizmoInteraction,
        anchor: Vec3,
        screen: Vec2,
        camera_forward: Vec3,
        basis: Basis,
    )
        requires
            old(self).wf(),
            interaction.wf(),
            bounded(anchor@, POINT_LIMIT as int),
            screen_bounded(screen),
            bounded(camera_forward@, UNIT as int),
            basis.wf(),
        ensures
            final(self).wf(),
            clicked(*old(self), *final(self), interaction, anchor, screen, camera_forward, basis),
    {
        self.gizmo.current_interaction = Some(interaction);
        self.gizmo.drag_start = Some(anchor);
        self.gizmo.screen_drag_start = screen;
        self.gizmo.start_forward = camera_forward;
        self.gizmo.initial_transform = Some(
            InitialTransform { translation: self.gizmo.translation, basis },
        );
        self.gizmo.turn = None;
        self.selection.snapshot_selected();
    }

    /// One pointer move of a drag: resolves the move and applies the change to
    /// the gizmo and every selected entity, each from its own drag-start
    /// placement. Returns the change applied; where there is none (no drag, a
    /// ray parallel to the constraining plane, a degenerate axis, or a result
    /// outside the world lattice's bounds) nothing changes.
    pub fn drag_axis(&mut self, sample: &PointerSample) -> (r: Option<TransformDelta>)
        requires
            old(self).wf(),
            sample.wf(),
        ensures
            final(self).wf(),
            dragged(*old(self), *final(self), *sample, r),
    {
        let interaction = match self.gizmo.current_interaction {
            None => {
                return None;
            },
            Some(k) => k,
        };
        let anchor = match self.gizmo.drag_start {
            None => {
                return None;
            },
            Some(a) => a,
        };
        let initial = match self.gizmo.initial_transform {
            None => {
                return None;
            },
            Some(t) => t,
        };
        let delta = match resolve_drag(
            &interaction,
            &anchor,
            &initial,
            &self.gizmo.screen_drag_start,
            &self.gizmo.start_forward,
            sample,
        ) {
            None => {
                proof {
                    assert forall|d: TransformDelta|
                        drag_resolves(old(self).gizmo, *sample, Some(d)) implies false by {
                        lemma_resolves_unique(old(self).gizmo, *sample, None, Some(d));
                    }
                }
                return None;
            },
            Some(d) => d,
        };
        proof {
            assert forall|d: TransformDelta|
                drag_resolves(old(self).gizmo, *sample, Some(d)) implies d == delta by {
                lemma_resolves_unique(old(self).gizmo, *sample, Some(delta), Some(d));
            }
        }
        let mut moved = self.gizmo;
        match delta {
            TransformDelta::Translate(t) => {
                match initial.translation.checked_add(&t) {
                    None => {
                        return None;
                    },
                    Some(p) => {
                        moved.translation = p;
                    },
                }
            },
            TransformDelta::Rotate(turn) => {
                moved.turn = Some(turn);
            },
            TransformDelta::Identity => {},
        }
        if !self.selection.apply_delta(&delta) {
            return None;
        }
        self.gizmo = moved;
        Some(delta)
    }

    /// Ends the drag: the gizmo goes idle and every placement stays where the
    /// last update left it.
    pub fn drag_axis_end(&mut self)
        requires
            old(self).wf(),
        ensures
            final(self).wf(),
            released(*old(self), *final(self)),
    {
        self.gizmo.current_interaction = None;
        self.gizmo.drag_start = None;
    }

    /// Feeds one input event of a drag gesture to the engine: a press on a
    /// handle starts a drag, a move updates it, a release ends it.
    pub fn handle_event(&mut self, event: &PointerEvent) -> (r: Option<TransformDelta>)
        requires
            old(self).wf(),
            event.wf(),
        ensures
            final(self).wf(),
            match *event {
                PointerEvent::Down { interaction, anchor, screen, camera_forward, basis } => {
                    &&& r is None
                    &&& clicked(*old(self), *final(self), interaction, anchor, screen, camera_forward, basis)
                },
                PointerEvent::Move(sample) => dragged(*old(self), *final(self), sample, r),
                PointerEvent::Up => r is None && released(*old(self), *final(self)),
            },
    {
        match event {
            PointerEvent::Down { interaction, anchor, screen, camera_forward, basis } => {
                self.click_axis(*interaction, *anchor, *screen, *camera_forward, *basis);
                None
            },
            PointerEvent::Move(sample) => self.drag_axis(sample),
            PointerEvent::Up => {
                self.drag_axis_end();
                None
            },
        }
    }
}

/// A drag update resolves to at most one change.
pub proof fn lemma_resolves_unique(
    g: TransformGizmo,
    sample: PointerSample,
    r1: Option<TransformDelta>,
    r2: Option<TransformDelta>,
)
    requires
        drag_resolves(g, sample, r1),
        drag_resolves(g, sample, r2),
    ensures
        r1 == r2,
{
    if let (Some(TransformDelta::Translate(a)), Some(TransformDelta::Translate(b))) = (r1, r2) {
        assert(a@ == b@);
        assert(a == b);
    }
}

/// The normal of the plane that constrains a translation drag, in world space.
pub open spec fn constraining_normal(g: TransformGizmo, sample: PointerSample) -> Option<V3> {
    let basis = g.initial_transform->0.basis;
    match g.current_interaction {
        Some(TransformGizmoInteraction::TranslateAxis { axis, .. }) => Some(
            axis_drag_normal(sample.ray.direction@, rotated(basis, axis@)),
        ),
        Some(TransformGizmoInteraction::TranslatePlane { normal, .. }) => Some(
            drag_plane_normal(normal, basis, g.start_forward@),
        ),
        _ => None,
    }
}

/// A pointer ray parallel to the plane that constrains a translation drag
/// resolves to no change, so the update leaves every placement as it was.
pub proof fn lemma_parallel_ray_no_op(g: TransformGizmo, sample: PointerSample)
    requires
        g.wf(),
        constraining_normal(g, sample) matches Some(n) && hit_den(sample.ray, n) == 0,
    ensures
        drag_resolves(g, sample, None),
        forall|r: Option<TransformDelta>| drag_resolves(g, sample, r) ==> r is None,
{
    assert forall|r: Option<TransformDelta>| drag_resolves(g, sample, r) implies r is None by {
        lemma_resolves_unique(g, sample, r, None);
    }
}

/// Ending a drag while idle changes nothing, the gizmo's state included.
pub proof fn lemma_drag_end_when_idle(e: GizmoEngine, n: GizmoEngine)
    requires
        e.wf(),
        !e.gizmo.is_dragging(),
        released(e, n),
    ensures
        n.gizmo == e.gizmo,
        n.selection.entities@ == e.selection.entities@,
{
}

/// After an update, the gizmo's drag resolves the same sample to the same change.
pub proof fn lemma_drag_resolves_again(
    g0: TransformGizmo,
    g1: TransformGizmo,
    sample: PointerSample,
    d: TransformDelta,
)
    requires
        drag_resolves(g0, sample, Some(d)),
        gizmo_synced(g0, g1, d),
    ensures
        drag_resolves(g1, sample, Some(d)),
{
}

/// The same pointer sample applied twice in a row applies the same change
/// again and leaves the gizmo and every entity where the first application
/// did: updates start from the drag-start snapshots and do not accumulate.
pub proof fn lemma_drag_repeat_idempotent(
    e0: GizmoEngine,
    e1: GizmoEngine,
    e2: GizmoEngine,
    sample: PointerSample,
    d: TransformDelta,
    r2: Option<TransformDelta>,
)
    requires
        e0.wf(),
        dragged(e0, e1, sample, Some(d)),
        dragged(e1, e2, sample, r2),
    ensures
        r2 == Some(d),
        e2.gizmo == e1.gizmo,
        e2.selection.entities@ == e1.selection.entities@,
{
    lemma_drag_resolves_again(e0.gizmo, e1.gizmo, sample, d);
    assert(drag_resolves(e0.gizmo, sample, Some(d)));
    assert(engine_fits(e0, d));
    assert forall|i: int| 0 <= i < e1.selection.entities@.len() implies sync_fits(
        #[trigger] e1.selection.entities@[i],
        d,
    ) by {
        assert(synced(e0.selection.entities@[i], e1.selection.entities@[i], d));
        assert(sync_fits(e0.selection.entities@[i], d));
    }
    assert(engine_fits(e1, d));
    let d2 = r2->0;
    lemma_resolves_unique(e1.gizmo, sample, Some(d), Some(d2));
    assert forall|i: int| 0 <= i < e1.selection.entities@.len() implies #[trigger] e2.selection.entities@[i]
        == e1.selection.entities@[i] by {
        lemma_sync_idempotent(
            e0.selection.entities@[i],
            e1.selection.entities@[i],
            e2.selection.entities@[i],
            d,
        );
    }
    assert(e2.selection.entities@ =~= e1.selection.entities@);
}

/// A pointer ray parallel to the plane that constrains a translation drag
/// leaves every placement as it was.
pub proof fn lemma_parallel_ray_leaves_placements(
    e: GizmoEngine,
    n: GizmoEngine,
    sample: PointerSample,
    r: Option<TransformDelta>,
)
    requires
        e.wf(),
        constraining_normal(e.gizmo, sample) matches Some(nn) && hit_den(sample.ray, nn) == 0,
        dragged(e, n, sample, r),
    ensures
        r is None,
        n.gizmo == e.gizmo,
        n.selection.entities@ == e.selection.entities@,
{
    lemma_parallel_ray_no_op(e.gizmo, sample);
}

} // verus!
