use scratch_transform::gizmo::{GizmoEngine, PointerEvent};
use scratch_transform::interaction::{Basis, TransformDelta, TransformGizmoInteraction, Turn};
use scratch_transform::plane::{intersect_plane, project_onto_axis, signed_distance_to_plane, Ray3};
use scratch_transform::resolve::PointerSample;
use scratch_transform::selection::{to_local, to_world, ParentFrame};
use scratch_transform::vector::{Vec2, Vec3, POINT_LIMIT, UNIT};

fn v(x: i64, y: i64, z: i64) -> Vec3 {
    Vec3::new(x, y, z)
}

fn ray(origin: Vec3, direction: Vec3) -> Ray3 {
    Ray3 { origin, direction }
}

fn sample(r: Ray3) -> PointerSample {
    PointerSample {
        ray: r,
        screen: Vec2 { x: 0, y: 0 },
        gizmo_screen: Vec2 { x: 0, y: 0 },
        camera_forward: v(0, -UNIT, 0),
    }
}

fn axis_x() -> TransformGizmoInteraction {
    TransformGizmoInteraction::TranslateAxis { original: v(0, 0, 0), axis: v(UNIT, 0, 0) }
}

fn plane_y() -> TransformGizmoInteraction {
    TransformGizmoInteraction::TranslatePlane { original: v(0, 0, 0), normal: v(0, UNIT, 0) }
}

fn down_ray(x: i64, z: i64) -> Ray3 {
    ray(v(x, 10, z), v(0, -UNIT, 0))
}

/// A gizmo at the origin with two selected entities: one at (10, 0, 0), and a
/// child of a parent at (100, 0, 0) standing at local (5, 5, 5).
fn engine_with_two() -> GizmoEngine {
    let mut e = GizmoEngine::new(v(0, 0, 0));
    assert!(e.selection.insert(1, None, v(10, 0, 0)));
    let parent = ParentFrame { translation: v(100, 0, 0), scale: 1 };
    assert!(e.selection.insert(2, Some(parent), v(5, 5, 5)));
    assert!(e.selection.set_selected(1, true));
    assert!(e.selection.set_selected(2, true));
    e
}

#[test]
fn intersect_plane_straight_down() {
    let hit = intersect_plane(&down_ray(4, -2), &v(0, UNIT, 0), &v(0, 3, 0));
    assert_eq!(hit, Some(v(4, 3, -2)));
}

#[test]
fn intersect_plane_oblique() {
    let r = ray(v(0, 10, 0), v(UNIT, -UNIT, 0));
    assert_eq!(intersect_plane(&r, &v(0, UNIT, 0), &v(0, 0, 0)), Some(v(10, 0, 0)));
}

#[test]
fn intersect_plane_rounds_down() {
    let r = ray(v(0, 10, 0), v(2, -3, 0));
    assert_eq!(intersect_plane(&r, &v(0, UNIT, 0), &v(0, 0, 0)), Some(v(6, 0, 0)));
    let l = ray(v(0, 10, 0), v(-2, -3, 0));
    assert_eq!(intersect_plane(&l, &v(0, UNIT, 0), &v(0, 0, 0)), Some(v(-7, 0, 0)));
}

#[test]
fn intersect_plane_parallel_is_none() {
    let r = ray(v(0, 10, 0), v(UNIT, 0, 0));
    assert_eq!(intersect_plane(&r, &v(0, UNIT, 0), &v(0, 0, 0)), None);
}

#[test]
fn intersect_plane_outside_bounds_is_none() {
    let r = ray(v(0, 20_000, 0), v(UNIT, -1, 0));
    assert_eq!(intersect_plane(&r, &v(0, UNIT, 0), &v(0, 0, 0)), None);
}

#[test]
fn signed_distance_keeps_sign() {
    let n = v(0, 0, 1);
    assert_eq!(signed_distance_to_plane(&n, &v(0, 0, 0), &v(1, 2, -5)), -5);
    assert_eq!(signed_distance_to_plane(&n, &v(0, 0, 0), &v(1, 2, 7)), 7);
    assert_eq!(signed_distance_to_plane(&v(0, 0, UNIT), &v(0, 0, 0), &v(0, 0, 3 * UNIT)), 3);
}

#[test]
fn projection_onto_axis() {
    assert_eq!(project_onto_axis(&v(5, 7, -2), &v(UNIT, 0, 0)), v(5, 0, 0));
    assert_eq!(project_onto_axis(&v(3, 1, 0), &v(1, 1, 0)), v(2, 2, 0));
    assert_eq!(project_onto_axis(&v(-3, 0, 0), &v(0, 0, UNIT)), v(0, 0, 0));
}

#[test]
fn basis_rotates_axes() {
    let quarter = Basis { x: v(0, UNIT, 0), y: v(-UNIT, 0, 0), z: v(0, 0, UNIT) };
    assert_eq!(quarter.rotate(&v(UNIT, 0, 0)), v(0, UNIT, 0));
    assert_eq!(quarter.rotate(&v(0, UNIT, 0)), v(-UNIT, 0, 0));
    assert_eq!(Basis::identity().rotate(&v(3, -4, 5)), v(3, -4, 5));
}

#[test]
fn axis_drag_moves_forward_and_backward() {
    let mut e = GizmoEngine::new(v(0, 0, 0));
    e.click_axis(axis_x(), v(0, 0, 0), Vec2 { x: 0, y: 0 }, v(0, -UNIT, 0), Basis::identity());
    assert_eq!(e.drag_axis(&sample(down_ray(5, 0))), Some(TransformDelta::Translate(v(5, 0, 0))));
    assert_eq!(e.gizmo.translation, v(5, 0, 0));
    let back = e.drag_axis(&sample(down_ray(-7, 3)));
    assert_eq!(back, Some(TransformDelta::Translate(v(-7, 0, 0))));
    assert_eq!(e.gizmo.translation, v(-7, 0, 0));
}

#[test]
fn axis_drag_follows_gizmo_orientation() {
    let mut e = GizmoEngine::new(v(0, 0, 0));
    let quarter = Basis { x: v(0, UNIT, 0), y: v(-UNIT, 0, 0), z: v(0, 0, UNIT) };
    e.click_axis(axis_x(), v(0, 0, 0), Vec2 { x: 0, y: 0 }, v(0, 0, -UNIT), quarter);
    let s = sample(ray(v(2, 9, 10), v(0, 0, -UNIT)));
    assert_eq!(e.drag_axis(&s), Some(TransformDelta::Translate(v(0, 9, 0))));
    assert_eq!(e.gizmo.translation, v(0, 9, 0));
}

#[test]
fn plane_drag_moves_in_plane() {
    let mut e = GizmoEngine::new(v(1, 2, 3));
    e.click_axis(plane_y(), v(1, 2, 3), Vec2 { x: 0, y: 0 }, v(0, -UNIT, 0), Basis::identity());
    let s = sample(ray(v(4, 12, -1), v(0, -UNIT, 0)));
    assert_eq!(e.drag_axis(&s), Some(TransformDelta::Translate(v(3, 0, -4))));
    assert_eq!(e.gizmo.translation, v(4, 2, -1));
}

#[test]
fn plane_drag_at_anchor_is_zero() {
    let mut e = GizmoEngine::new(v(1, 2, 3));
    e.click_axis(plane_y(), v(1, 2, 3), Vec2 { x: 0, y: 0 }, v(0, -UNIT, 0), Basis::identity());
    let s = sample(ray(v(1, 12, 3), v(0, -UNIT, 0)));
    assert_eq!(e.drag_axis(&s), Some(TransformDelta::Translate(v(0, 0, 0))));
    assert_eq!(e.gizmo.translation, v(1, 2, 3));
}

#[test]
fn plane_drag_zero_normal_faces_camera() {
    let mut e = GizmoEngine::new(v(1, 2, 3));
    let screen_plane = TransformGizmoInteraction::TranslatePlane { original: v(0, 0, 0), normal: v(0, 0, 0) };
    e.click_axis(screen_plane, v(1, 2, 3), Vec2 { x: 0, y: 0 }, v(0, 0, -UNIT), Basis::identity());
    let s = sample(ray(v(5, 5, 10), v(0, 0, -UNIT)));
    assert_eq!(e.drag_axis(&s), Some(TransformDelta::Translate(v(4, 3, 0))));
    assert_eq!(e.gizmo.translation, v(5, 5, 3));
}

fn turn_angle(t: &Turn) -> f64 {
    let cross = (t.from.x * t.to.y - t.from.y * t.to.x) as f64;
    let dot = (t.from.x * t.to.x + t.from.y * t.to.y) as f64;
    cross.atan2(dot).to_degrees()
}

fn rotate_with_camera(forward: Vec3) -> Turn {
    let mut e = GizmoEngine::new(v(0, 0, 0));
    let rotate_y = TransformGizmoInteraction::RotateAxis { original: v(0, 0, 0), axis: v(0, UNIT, 0) };
    // the pointer starts right of the gizmo's screen position and moves 30 degrees counter-clockwise
    e.click_axis(rotate_y, v(0, 0, 0), Vec2 { x: 1100, y: 500 }, forward, Basis::identity());
    let s = PointerSample {
        ray: down_ray(0, 0),
        screen: Vec2 { x: 100 + 866, y: 500 - 500 },
        gizmo_screen: Vec2 { x: 100, y: 500 },
        camera_forward: forward,
    };
    match e.drag_axis(&s) {
        Some(TransformDelta::Rotate(t)) => {
            assert_eq!(e.gizmo.turn, Some(t));
            assert_eq!(t.axis, v(0, UNIT, 0));
            t
        },
        other => panic!("expected a rotation, got {:?}", other),
    }
}

#[test]
fn rotation_sign_follows_camera_side() {
    // the camera looks down the axis: no component along its forward direction
    let from_above = rotate_with_camera(v(0, -UNIT, 0));
    assert_eq!(from_above.from, Vec2 { x: 1000, y: 0 });
    assert_eq!(from_above.to, Vec2 { x: 866, y: 500 });
    assert!((turn_angle(&from_above) - 30.0).abs() < 0.05);
    // the camera looks up the axis: a positive component along its forward direction
    let from_below = rotate_with_camera(v(0, UNIT, 0));
    assert_eq!(from_below.from, Vec2 { x: 866, y: 500 });
    assert_eq!(from_below.to, Vec2 { x: 1000, y: 0 });
    assert!((turn_angle(&from_below) + 30.0).abs() < 0.05);
}

#[test]
fn scale_drag_is_identity() {
    let mut e = engine_with_two();
    let scale = TransformGizmoInteraction::ScaleAxis { original: v(0, 0, 0), axis: v(UNIT, 0, 0) };
    e.click_axis(scale, v(0, 0, 0), Vec2 { x: 0, y: 0 }, v(0, -UNIT, 0), Basis::identity());
    let before = e.clone();
    assert_eq!(e.drag_axis(&sample(down_ray(5, 0))), Some(TransformDelta::Identity));
    assert_eq!(e.gizmo, before.gizmo);
    assert_eq!(e.selection.entities, before.selection.entities);
}

#[test]
fn multi_selection_moves_from_snapshots() {
    let mut e = engine_with_two();
    e.click_axis(axis_x(), v(0, 0, 0), Vec2 { x: 0, y: 0 }, v(0, -UNIT, 0), Basis::identity());
    assert_eq!(e.selection.entities[0].initial_translation, v(10, 0, 0));
    assert_eq!(e.selection.entities[1].initial_translation, v(105, 5, 5));
    let s = sample(down_ray(5, 0));
    assert_eq!(e.drag_axis(&s), Some(TransformDelta::Translate(v(5, 0, 0))));
    assert_eq!(e.selection.entities[0].translation, v(15, 0, 0));
    assert_eq!(e.selection.entities[1].translation, v(10, 5, 5));
    let once = e.clone();
    assert_eq!(e.drag_axis(&s), Some(TransformDelta::Translate(v(5, 0, 0))));
    assert_eq!(e.gizmo, once.gizmo);
    assert_eq!(e.selection.entities, once.selection.entities);
    assert_eq!(e.drag_axis(&sample(down_ray(-7, 0))), Some(TransformDelta::Translate(v(-7, 0, 0))));
    assert_eq!(e.selection.entities[0].translation, v(3, 0, 0));
    assert_eq!(e.selection.entities[1].translation, v(-2, 5, 5));
}

#[test]
fn unselected_entities_stay() {
    let mut e = engine_with_two();
    assert!(e.selection.set_selected(2, false));
    e.click_axis(axis_x(), v(0, 0, 0), Vec2 { x: 0, y: 0 }, v(0, -UNIT, 0), Basis::identity());
    assert!(e.drag_axis(&sample(down_ray(5, 0))).is_some());
    assert_eq!(e.selection.entities[0].translation, v(15, 0, 0));
    assert_eq!(e.selection.entities[1].translation, v(5, 5, 5));
}

#[test]
fn rotation_drag_turns_selected_entities() {
    let mut e = engine_with_two();
    let rotate_y = TransformGizmoInteraction::RotateAxis { original: v(0, 0, 0), axis: v(0, UNIT, 0) };
    e.click_axis(rotate_y, v(0, 0, 0), Vec2 { x: 10, y: 0 }, v(0, -UNIT, 0), Basis::identity());
    let s = PointerSample {
        ray: down_ray(0, 0),
        screen: Vec2 { x: 0, y: -10 },
        gizmo_screen: Vec2 { x: 0, y: 0 },
        camera_forward: v(0, -UNIT, 0),
    };
    let turn = Turn { axis: v(0, UNIT, 0), from: Vec2 { x: 10, y: 0 }, to: Vec2 { x: 0, y: 10 } };
    assert_eq!(e.drag_axis(&s), Some(TransformDelta::Rotate(turn)));
    assert_eq!(e.selection.entities[0].turn, Some(turn));
    assert_eq!(e.selection.entities[1].turn, Some(turn));
    assert_eq!(e.selection.entities[0].translation, v(10, 0, 0));
}

#[test]
fn parallel_ray_changes_nothing() {
    let mut e = engine_with_two();
    e.click_axis(plane_y(), v(0, 0, 0), Vec2 { x: 0, y: 0 }, v(0, -UNIT, 0), Basis::identity());
    assert!(e.drag_axis(&sample(down_ray(5, 0))).is_some());
    let before = e.clone();
    let flat = sample(ray(v(0, 10, 0), v(UNIT, 0, 0)));
    assert_eq!(e.drag_axis(&flat), None);
    assert_eq!(e.gizmo, before.gizmo);
    assert_eq!(e.selection.entities, before.selection.entities);
}

#[test]
fn axis_drag_along_view_changes_nothing() {
    let mut e = GizmoEngine::new(v(0, 0, 0));
    let axis_y = TransformGizmoInteraction::TranslateAxis { original: v(0, 0, 0), axis: v(0, UNIT, 0) };
    e.click_axis(axis_y, v(0, 0, 0), Vec2 { x: 0, y: 0 }, v(0, -UNIT, 0), Basis::identity());
    let before = e.clone();
    assert_eq!(e.drag_axis(&sample(down_ray(5, 0))), None);
    assert_eq!(e.gizmo, before.gizmo);
}

#[test]
fn drag_out_of_bounds_changes_nothing() {
    let mut e = GizmoEngine::new(v(POINT_LIMIT, 0, 0));
    e.click_axis(axis_x(), v(0, 0, 0), Vec2 { x: 0, y: 0 }, v(0, -UNIT, 0), Basis::identity());
    let before = e.clone();
    assert_eq!(e.drag_axis(&sample(down_ray(5, 0))), None);
    assert_eq!(e.gizmo, before.gizmo);
}

#[test]
fn drag_while_idle_changes_nothing() {
    let mut e = engine_with_two();
    let before = e.clone();
    assert_eq!(e.drag_axis(&sample(down_ray(5, 0))), None);
    assert_eq!(e.gizmo, before.gizmo);
    assert_eq!(e.selection.entities, before.selection.entities);
}

#[test]
fn drag_end_when_idle_changes_nothing() {
    let mut e = engine_with_two();
    let before = e.clone();
    e.drag_axis_end();
    assert_eq!(e.gizmo, before.gizmo);
    assert_eq!(e.selection.entities, before.selection.entities);
}

#[test]
fn drag_end_keeps_last_placement() {
    let mut e = engine_with_two();
    e.click_axis(axis_x(), v(0, 0, 0), Vec2 { x: 0, y: 0 }, v(0, -UNIT, 0), Basis::identity());
    assert!(e.drag_axis(&sample(down_ray(5, 0))).is_some());
    e.drag_axis_end();
    assert_eq!(e.gizmo.current_interaction, None);
    assert_eq!(e.gizmo.drag_start, None);
    assert_eq!(e.gizmo.translation, v(5, 0, 0));
    assert_eq!(e.selection.entities[0].translation, v(15, 0, 0));
    assert_eq!(e.drag_axis(&sample(down_ray(9, 0))), None);
    assert_eq!(e.gizmo.translation, v(5, 0, 0));
}

#[test]
fn local_round_trip_on_lattice() {
    let parent = Some(ParentFrame { translation: v(10, 20, 30), scale: 4 });
    let local = to_local(&parent, &v(18, 20, 26));
    assert_eq!(local, v(2, 0, -1));
    assert_eq!(to_world(&parent, &local), v(18, 20, 26));
}

#[test]
fn local_round_trip_off_lattice() {
    let parent = Some(ParentFrame { translation: v(10, 20, 30), scale: 4 });
    let local = to_local(&parent, &v(19, 21, 27));
    assert_eq!(local, v(2, 0, -1));
    assert_eq!(to_world(&parent, &local), v(18, 20, 26));
    assert_eq!(to_local(&None, &v(19, 21, 27)), v(19, 21, 27));
}

#[test]
fn select_only_clears_others() {
    let mut e = engine_with_two();
    assert!(e.selection.select_only(2));
    assert!(!e.selection.entities[0].selection.is_selected);
    assert!(e.selection.entities[1].selection.is_selected);
    assert!(!e.selection.select_only(7));
    assert!(e.selection.entities[1].selection.is_selected);
    assert!(!e.selection.set_selected(7, true));
}

#[test]
fn insert_outside_bounds_is_refused() {
    let mut e = GizmoEngine::new(v(0, 0, 0));
    let parent = Some(ParentFrame { translation: v(POINT_LIMIT, 0, 0), scale: 1 });
    assert!(!e.selection.insert(3, parent, v(1, 0, 0)));
    assert!(e.selection.entities.is_empty());
}

#[test]
fn event_stream_drives_a_drag() {
    let mut e = engine_with_two();
    let down = PointerEvent::Down {
        interaction: axis_x(),
        anchor: v(0, 0, 0),
        screen: Vec2 { x: 0, y: 0 },
        camera_forward: v(0, -UNIT, 0),
        basis: Basis::identity(),
    };
    assert_eq!(e.handle_event(&down), None);
    assert_eq!(e.gizmo.current_interaction, Some(axis_x()));
    assert_eq!(e.gizmo.drag_start, Some(v(0, 0, 0)));
    let moved = e.handle_event(&PointerEvent::Move(sample(down_ray(5, 0))));
    assert_eq!(moved, Some(TransformDelta::Translate(v(5, 0, 0))));
    assert_eq!(e.handle_event(&PointerEvent::Up), None);
    assert_eq!(e.gizmo.current_interaction, None);
    assert_eq!(e.gizmo.drag_start, None);
    assert_eq!(e.gizmo.translation, v(5, 0, 0));
    assert_eq!(e.selection.entities[0].translation, v(15, 0, 0));
    let before = e.clone();
    assert_eq!(e.handle_event(&PointerEvent::Up), None);
    assert_eq!(e.gizmo, before.gizmo);
    assert_eq!(e.selection.entities, before.selection.entities);
}

#[test]
fn new_drag_starts_from_current_placement() {
    let mut e = engine_with_two();
    e.click_axis(axis_x(), v(0, 0, 0), Vec2 { x: 0, y: 0 }, v(0, -UNIT, 0), Basis::identity());
    assert!(e.drag_axis(&sample(down_ray(5, 0))).is_some());
    e.drag_axis_end();
    e.click_axis(axis_x(), v(5, 0, 0), Vec2 { x: 0, y: 0 }, v(0, -UNIT, 0), Basis::identity());
    assert_eq!(e.selection.entities[0].initial_translation, v(15, 0, 0));
    assert_eq!(e.drag_axis(&sample(down_ray(7, 0))), Some(TransformDelta::Translate(v(2, 0, 0))));
    assert_eq!(e.gizmo.translation, v(7, 0, 0));
    assert_eq!(e.selection.entities[0].translation, v(17, 0, 0));
    assert_eq!(e.selection.entities[1].translation, v(12, 5, 5));
}
