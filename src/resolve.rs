use vstd::prelude::*;

use crate::interaction::{
    cross2, dot2, rotated, Basis, InitialTransform, TransformDelta, TransformGizmoInteraction, Turn,
};
use crate::plane::{
    hit_den, intersect_plane, lemma_axis_offset_exact, lemma_plane_hit_exact, plane_hit,
    plane_offset, project, project_onto_axis, Ray3,
};
use crate::vector::{
    add3, bounded, cross3, dot3, lemma_cross_bound, lemma_dot_bound, scale3, sub3, zero3, Vec2, Vec3, V3,
    POINT_LIMIT, UNIT,
};

verus! {

/// What one pointer move supplies to a drag update.
#[derive(Clone, Copy, Debug, PartialEq, Eq, Structural)]
pub struct PointerSample {
    /// The ray under the pointer.
    pub ray: Ray3,
    /// The pointer's screen position.
    pub screen: Vec2,
    /// Where the gizmo's origin lies on screen.
    pub gizmo_screen: Vec2,
    /// The camera's forward direction.
    pub camera_forward: Vec3,
}

pub open spec fn screen_bounded(p: Vec2) -> bool {
    -POINT_LIMIT <= p.x <= POINT_LIMIT && -POINT_LIMIT <= p.y <= POINT_LIMIT
}

impl PointerSample {
    pub open spec fn wf(&self) -> bool {
        &&& self.ray.wf()
        &&& screen_bounded(self.screen)
        &&& screen_bounded(self.gizmo_screen)
        &&& bounded(self.camera_forward@, UNIT as int)
    }
}

/// Normal of the plane that holds the line of `axis` and faces along `direction`
/// as far as it can: `axis × (direction × axis)`.
pub open spec fn axis_drag_normal(direction: V3, axis: V3) -> V3 {
    cross3(axis, cross3(direction, axis))
}

/// Translation along the world-space `axis` for a drag anchored at `anchor`: the
/// ray meets the plane through the anchor that holds the axis and faces the ray,
/// and that point's offset from the anchor is projected onto the axis.
pub open spec fn axis_translation(axis: V3, anchor: V3, ray: Ray3) -> Option<V3> {
    let n = axis_drag_normal(ray.direction@, axis);
    let hit = plane_hit(ray, n, anchor);
    if axis == zero3() || hit_den(ray, n) == 0 || !bounded(hit, POINT_LIMIT as int) {
        None
    } else {
        Some(project(sub3(hit, anchor), axis))
    }
}

/// Translation in the plane through `anchor` with the world-space `normal`: the
/// offset from the anchor of the point where the ray meets that plane.
pub open spec fn plane_translation(normal: V3, anchor: V3, ray: Ray3) -> Option<V3> {
    let hit = plane_hit(ray, normal, anchor);
    if hit_den(ray, normal) == 0 || !bounded(hit, POINT_LIMIT as int) {
        None
    } else {
        Some(sub3(hit, anchor))
    }
}

/// The normal of a plane drag: the handle's normal turned into world space, or,
/// for the zero normal, the camera's forward direction when the drag started.
pub open spec fn drag_plane_normal(normal: Vec3, basis: Basis, start_forward: V3) -> V3 {
    if normal@ == zero3() {
        start_forward
    } else {
        rotated(basis, normal@)
    }
}

/// A screen position relative to the gizmo's screen position, with the
/// vertical axis pointing up.
pub open spec fn screen_offset(p: Vec2, center: Vec2) -> Vec2 {
    Vec2 { x: (p.x - center.x) as i64, y: (center.y - p.y) as i64 }
}

/// The turn of a rotation drag: from where the drag started to where the pointer
/// is, as seen around the gizmo's screen position; reversed where the world-space
/// axis has a positive component along the camera's forward direction, so that
/// the handle turns the way the pointer does from either side.
pub open spec fn rotation_turn(
    axis: Vec3,
    world_axis: V3,
    forward: V3,
    start: Vec2,
    now: Vec2,
    center: Vec2,
) -> Turn {
    let u = screen_offset(start, center);
    let v = screen_offset(now, center);
    if dot3(world_axis, forward) > 0 {
        Turn { axis, from: v, to: u }
    } else {
        Turn { axis, from: u, to: v }
    }
}

/// `r` translates by `t`, or both are missing.
pub open spec fn translates_by(r: Option<TransformDelta>, t: Option<V3>) -> bool {
    match (r, t) {
        (None, None) => true,
        (Some(TransformDelta::Translate(d)), Some(t)) => d@ == t,
        _ => false,
    }
}

/// What a drag update resolves to, for every kind of interaction.
pub open spec fn resolves_to(
    r: Option<TransformDelta>,
    interaction: TransformGizmoInteraction,
    anchor: V3,
    initial: InitialTransform,
    screen_drag_start: Vec2,
    start_forward: V3,
    sample: PointerSample,
) -> bool {
    match interaction {
        TransformGizmoInteraction::TranslateAxis { axis, .. } => translates_by(
            r,
            axis_translation(rotated(initial.basis, axis@), anchor, sample.ray),
        ),
        TransformGizmoInteraction::TranslatePlane { normal, .. } => translates_by(
            r,
            plane_translation(
                drag_plane_normal(normal, initial.basis, start_forward),
                anchor,
                sample.ray,
            ),
        ),
        TransformGizmoInteraction::RotateAxis { axis, .. } => r == Some(
            TransformDelta::Rotate(
                rotation_turn(
                    axis,
                    rotated(initial.basis, axis@),
                    sample.camera_forward@,
                    screen_drag_start,
                    sample.screen,
                    sample.gizmo_screen,
                ),
            ),
        ),
        TransformGizmoInteraction::ScaleAxis { .. } => r == Some(TransformDelta::Identity),
    }
}

fn screen_offset_of(p: &Vec2, center: &Vec2) -> (r: Vec2)
    requires
        screen_bounded(*p),
        screen_bounded(*center),
    ensures
        r == screen_offset(*p, *center),
{
    Vec2 { x: p.x - center.x, y: center.y - p.y }
}

/// Resolves one pointer move of a drag into the change it makes to the gizmo.
/// `None` where the ray runs parallel to the constraining plane, the geometry
/// degenerates, or the result leaves the world lattice's bounds.
pub fn resolve_drag(
    interaction: &TransformGizmoInteraction,
    anchor: &Vec3,
    initial: &InitialTransform,
    screen_drag_start: &Vec2,
    start_forward: &Vec3,
    sample: &PointerSample,
) -> (r: Option<TransformDelta>)
    requires
        interaction.wf(),
        bounded(anchor@, POINT_LIMIT as int),
        initial.wf(),
        screen_bounded(*screen_drag_start),
        bounded(start_forward@, UNIT as int),
        sample.wf(),
    ensures
        resolves_to(r, *interaction, anchor@, *initial, *screen_drag_start, start_forward@, *sample),
{
    match *interaction {
        TransformGizmoInteraction::TranslateAxis { axis, .. } => {
            let world = initial.basis.rotate(&axis);
            if world.is_zero() {
                return None;
            }
            proof {
                lemma_cross_bound(sample.ray.direction@, world@, UNIT as int, 3 * UNIT);
                lemma_cross_bound(world@, cross3(sample.ray.direction@, world@), 3 * UNIT, 2 * (UNIT * (3 * UNIT)));
            }
            let vertical = sample.ray.direction.cross(&world);
            let normal = world.cross(&vertical);
            match intersect_plane(&sample.ray, &normal, anchor) {
                None => None,
                Some(hit) => {
                    let v = hit.sub(anchor);
                    Some(TransformDelta::Translate(project_onto_axis(&v, &world)))
                },
            }
        },
        TransformGizmoInteraction::TranslatePlane { normal, .. } => {
            let n = if normal.is_zero() {
                *start_forward
            } else {
                initial.basis.rotate(&normal)
            };
            match intersect_plane(&sample.ray, &n, anchor) {
                None => None,
                Some(hit) => Some(TransformDelta::Translate(hit.sub(anchor))),
            }
        },
        TransformGizmoInteraction::RotateAxis { axis, .. } => {
            let world = initial.basis.rotate(&axis);
            proof {
                lemma_dot_bound(world@, sample.camera_forward@, 3 * UNIT, UNIT as int);
            }
            let facing = world.dot(&sample.camera_forward);
            let u = screen_offset_of(screen_drag_start, &sample.gizmo_screen);
            let v = screen_offset_of(&sample.screen, &sample.gizmo_screen);
            if facing > 0 {
                Some(TransformDelta::Rotate(Turn { axis, from: v, to: u }))
            } else {
                Some(TransformDelta::Rotate(Turn { axis, from: u, to: v }))
            }
        },
        TransformGizmoInteraction::ScaleAxis { .. } => Some(TransformDelta::Identity),
    }
}

/// Dragging along an axis so that the pointer's point on the drag plane lands
/// at `anchor + k * axis` moves by exactly `k * axis`, and that point's signed
/// offset along the axis is `k`, for negative `k` as well.
pub proof fn lemma_axis_drag_exact(axis: V3, anchor: V3, ray: Ray3, k: int)
    requires
        axis != zero3(),
        hit_den(ray, axis_drag_normal(ray.direction@, axis)) != 0,
        plane_hit(ray, axis_drag_normal(ray.direction@, axis), anchor) == add3(anchor, scale3(k, axis)),
        bounded(add3(anchor, scale3(k, axis)), POINT_LIMIT as int),
    ensures
        axis_translation(axis, anchor, ray) == Some(scale3(k, axis)),
        plane_offset(axis, anchor, add3(anchor, scale3(k, axis))) == k,
{
    lemma_axis_offset_exact(axis, anchor, k);
}

/// A plane drag whose ray meets the plane exactly at the anchor translates by
/// the zero vector.
pub proof fn lemma_plane_drag_at_anchor(normal: V3, anchor: V3, ray: Ray3, k: int)
    requires
        hit_den(ray, normal) != 0,
        anchor == add3(ray.origin@, scale3(k, ray.direction@)),
        bounded(anchor, POINT_LIMIT as int),
    ensures
        plane_translation(normal, anchor, ray) == Some(zero3()),
{
    lemma_plane_hit_exact(ray, normal, anchor, anchor, k);
}

/// A rotation drag turns by the screen angle `θ` from the drag's start to the
/// pointer where the world-space axis has no positive component along the
/// camera's forward direction, and by `-θ` where it has one: the turn keeps the
/// two screen vectors' dot product and, in the second case, flips the sign of
/// their cross product.
pub proof fn lemma_rotation_sign(
    axis: Vec3,
    world_axis: V3,
    forward: V3,
    start: Vec2,
    now: Vec2,
    center: Vec2,
)
    ensures
        ({
            let t = rotation_turn(axis, world_axis, forward, start, now, center);
            let u = screen_offset(start, center);
            let v = screen_offset(now, center);
            &&& t.axis == axis
            &&& dot2(t.from, t.to) == dot2(u, v)
            &&& dot3(world_axis, forward) > 0 ==> cross2(t.from, t.to) == -cross2(u, v)
            &&& dot3(world_axis, forward) <= 0 ==> cross2(t.from, t.to) == cross2(u, v)
        }),
{
    let u = screen_offset(start, center);
    let v = screen_offset(now, center);
    assert(dot2(v, u) == dot2(u, v)) by (nonlinear_arith);
    assert(cross2(v, u) == -cross2(u, v)) by (nonlinear_arith);
}

} // verus!
