use vstd::prelude::*;

use crate::vector::{
    bounded, floor_div, floor_div_wide, lemma_floor_div_bound, lemma_mul_bound, Vec2, Vec3, V3,
    POINT_LIMIT, UNIT,
};

verus! {

/// An orientation: where it takes the three unit axes, as fixed-point directions.
#[derive(Clone, Copy, Debug, PartialEq, Eq, Structural)]
pub struct Basis {
    pub x: Vec3,
    pub y: Vec3,
    pub z: Vec3,
}

/// One coordinate of a rotated vector: a row of the basis applied to `v`, rounded down.
pub open spec fn rotate_coord(a: int, b: int, c: int, v: V3) -> int {
    floor_div(a * v.0 + b * v.1 + c * v.2, UNIT as int)
}

/// The image of a fixed-point direction under an orientation.
pub open spec fn rotated(basis: Basis, v: V3) -> V3 {
    (
        rotate_coord(basis.x.x as int, basis.y.x as int, basis.z.x as int, v),
        rotate_coord(basis.x.y as int, basis.y.y as int, basis.z.y as int, v),
        rotate_coord(basis.x.z as int, basis.y.z as int, basis.z.z as int, v),
    )
}

impl Basis {
    pub open spec fn wf(&self) -> bool {
        &&& bounded(self.x@, UNIT as int)
        &&& bounded(self.y@, UNIT as int)
        &&& bounded(self.z@, UNIT as int)
    }

    /// The orientation that leaves every direction as it is.
    pub fn identity() -> (r: Basis)
        ensures
            r.wf(),
            r.x@ == (UNIT as int, 0int, 0int),
            r.y@ == (0int, UNIT as int, 0int),
            r.z@ == (0int, 0int, UNIT as int),
    {
        Basis {
            x: Vec3 { x: UNIT, y: 0, z: 0 },
            y: Vec3 { x: 0, y: UNIT, z: 0 },
            z: Vec3 { x: 0, y: 0, z: UNIT },
        }
    }

    fn row(a: i64, b: i64, c: i64, v: &Vec3) -> (r: i64)
        requires
            -UNIT <= a <= UNIT,
            -UNIT <= b <= UNIT,
            -UNIT <= c <= UNIT,
            bounded(v@, UNIT as int),
        ensures
            r == rotate_coord(a as int, b as int, c as int, v@),
            -3 * UNIT <= r <= 3 * UNIT,
    {
        proof {
            lemma_mul_bound(a as int, v.x as int, UNIT as int, UNIT as int);
            lemma_mul_bound(b as int, v.y as int, UNIT as int, UNIT as int);
            lemma_mul_bound(c as int, v.z as int, UNIT as int, UNIT as int);
        }
        let s = a as i128 * v.x as i128 + b as i128 * v.y as i128 + c as i128 * v.z as i128;
        proof {
            lemma_floor_div_bound(s as int, UNIT as int, 3 * UNIT);
        }
        floor_div_wide(s, UNIT as i128) as i64
    }

    /// Turns a fixed-point direction by this orientation.
    pub fn rotate(&self, v: &Vec3) -> (r: Vec3)
        requires
            self.wf(),
            bounded(v@, UNIT as int),
        ensures
            r@ == rotated(*self, v@),
            bounded(r@, 3 * UNIT),
    {
        Vec3 {
            x: Self::row(self.x.x, self.y.x, self.z.x, v),
            y: Self::row(self.x.y, self.y.y, self.z.y, v),
            z: Self::row(self.x.z, self.y.z, self.z.z, v),
        }
    }
}

/// The gizmo's own placement, taken when a drag starts.
#[derive(Clone, Copy, Debug, PartialEq, Eq, Structural)]
pub struct InitialTransform {
    pub translation: Vec3,
    pub basis: Basis,
}

impl InitialTransform {
    pub open spec fn wf(&self) -> bool {
        &&& bounded(self.translation@, POINT_LIMIT as int)
        &&& self.basis.wf()
    }
}

/// What a gizmo handle does when dragged. Axes and normals are fixed-point
/// directions in the gizmo's own frame; `original` is the handle's position.
/// A zero `normal` stands for the plane facing the camera.
#[derive(Clone, Copy, Debug, PartialEq, Eq, Structural)]
pub enum TransformGizmoInteraction {
    TranslateAxis { original: Vec3, axis: Vec3 },
    TranslatePlane { original: Vec3, normal: Vec3 },
    RotateAxis { original: Vec3, axis: Vec3 },
    ScaleAxis { original: Vec3, axis: Vec3 },
}

impl TransformGizmoInteraction {
    /// The axis or normal that the interaction carries.
    pub open spec fn direction(&self) -> Vec3 {
        match *self {
            TransformGizmoInteraction::TranslateAxis { axis, .. } => axis,
            TransformGizmoInteraction::TranslatePlane { normal, .. } => normal,
            TransformGizmoInteraction::RotateAxis { axis, .. } => axis,
            TransformGizmoInteraction::ScaleAxis { axis, .. } => axis,
        }
    }

    pub open spec fn wf(&self) -> bool {
        bounded(self.direction()@, UNIT as int)
    }
}

/// A rotation about `axis`, a direction in the rotated object's own frame, by
/// the signed angle that turns the screen vector `from` into `to`.
#[derive(Clone, Copy, Debug, PartialEq, Eq, Structural)]
pub struct Turn {
    pub axis: Vec3,
    pub from: Vec2,
    pub to: Vec2,
}

/// Sense of the angle from `a` to `b`: positive counter-clockwise.
pub open spec fn cross2(a: Vec2, b: Vec2) -> int {
    a.x * b.y - a.y * b.x
}

pub open spec fn dot2(a: Vec2, b: Vec2) -> int {
    a.x * b.x + a.y * b.y
}

/// The change that one drag update makes to a placement.
#[derive(Clone, Copy, Debug, PartialEq, Eq, Structural)]
pub enum TransformDelta {
    /// Move by a lattice offset.
    Translate(Vec3),
    /// Rotate by a turn after the placement's own rotation.
    Rotate(Turn),
    /// Leave the placement as it is.
    Identity,
}

} // verus!
