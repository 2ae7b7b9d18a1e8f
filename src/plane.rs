use vstd::prelude::*;

use crate::vector::{
    add3, bounded, dot3, floor_div, floor_div_wide, lemma_dot_bound, lemma_floor_div_bound, lemma_mul_bound,
    scale3, sub3, zero3, Vec3, V3, DIRECTION_LIMIT, UNIT, NORMAL_LIMIT, POINT_LIMIT,
};

verus! {

/// A pointer ray: a lattice point and a fixed-point direction.
#[derive(Clone, Copy, Debug, PartialEq, Eq, Structural)]
pub struct Ray3 {
    pub origin: Vec3,
    pub direction: Vec3,
}

impl Ray3 {
    pub open spec fn wf(&self) -> bool {
        &&& bounded(self.origin@, POINT_LIMIT as int)
        &&& bounded(self.direction@, UNIT as int)
    }
}

/// One coordinate of the point where a ray meets a plane, rounded down:
/// `o + d * num / den`, the ray parameter being `num / den`.
pub open spec fn hit_coord(o: int, d: int, num: int, den: int) -> int {
    o + floor_div(d * num, den)
}

/// The ray parameter's denominator: zero exactly when the ray runs parallel to the plane.
pub open spec fn hit_den(ray: Ray3, normal: V3) -> int {
    dot3(ray.direction@, normal)
}

pub open spec fn hit_num(ray: Ray3, normal: V3, point: V3) -> int {
    dot3(sub3(point, ray.origin@), normal)
}

/// The point where the ray's line meets the plane through `point` with `normal`,
/// rounded down onto the lattice.
pub open spec fn plane_hit(ray: Ray3, normal: V3, point: V3) -> V3 {
    let num = hit_num(ray, normal, point);
    let den = hit_den(ray, normal);
    (
        hit_coord(ray.origin.x as int, ray.direction.x as int, num, den),
        hit_coord(ray.origin.y as int, ray.direction.y as int, num, den),
        hit_coord(ray.origin.z as int, ray.direction.z as int, num, den),
    )
}

/// Offset of `q` from the plane through `point` with `normal`, in multiples of the
/// normal's length (so, for a unit normal, the signed distance), rounded down.
pub open spec fn plane_offset(normal: V3, point: V3, q: V3) -> int {
    floor_div(dot3(sub3(q, point), normal), dot3(normal, normal))
}

/// One coordinate of the projection of `v` onto `axis`, rounded down.
pub open spec fn project_coord(a: int, v: V3, axis: V3) -> int {
    floor_div(a * dot3(v, axis), dot3(axis, axis))
}

/// The projection of `v` onto the line of `axis`, rounded down onto the lattice.
pub open spec fn project(v: V3, axis: V3) -> V3 {
    (project_coord(axis.0, v, axis), project_coord(axis.1, v, axis), project_coord(axis.2, v, axis))
}

proof fn lemma_sq_pos(v: V3)
    ensures
        dot3(v, v) >= 0,
        dot3(v, v) == 0 <==> v == zero3(),
{
    assert(v.0 * v.0 >= 0) by (nonlinear_arith);
    assert(v.1 * v.1 >= 0) by (nonlinear_arith);
    assert(v.2 * v.2 >= 0) by (nonlinear_arith);
    if v.0 != 0 {
        assert(v.0 * v.0 > 0) by (nonlinear_arith)
            requires
                v.0 != 0,
        ;
    }
    if v.1 != 0 {
        assert(v.1 * v.1 > 0) by (nonlinear_arith)
            requires
                v.1 != 0,
        ;
    }
    if v.2 != 0 {
        assert(v.2 * v.2 > 0) by (nonlinear_arith)
            requires
                v.2 != 0,
        ;
    }
}

proof fn lemma_flip_sign(d: int, gnum: int, gden: int, num: int, den: int)
    requires
        (gden > 0 && num == gnum && den == gden) || (gden < 0 && num == -gnum && den == -gden),
    ensures
        floor_div(d * gnum, gden) == floor_div(d * num, den),
{
    if gden < 0 {
        assert(d * num == -(d * gnum)) by (nonlinear_arith)
            requires
                num == -gnum,
        ;
    }
}

/// The point where a ray meets a plane, or `None` where the ray runs parallel to
/// the plane or the point lies outside the world lattice's bounds.
pub fn intersect_plane(ray: &Ray3, plane_normal: &Vec3, plane_origin: &Vec3) -> (r: Option<Vec3>)
    requires
        ray.wf(),
        bounded(plane_normal@, NORMAL_LIMIT as int),
        bounded(plane_origin@, POINT_LIMIT as int),
    ensures
        r is None <==> (hit_den(*ray, plane_normal@) == 0 || !bounded(
            plane_hit(*ray, plane_normal@, plane_origin@),
            POINT_LIMIT as int,
        )),
        r is Some ==> r->0@ == plane_hit(*ray, plane_normal@, plane_origin@),
{
    proof {
        lemma_dot_bound(ray.direction@, plane_normal@, DIRECTION_LIMIT as int, NORMAL_LIMIT as int);
    }
    let den0 = ray.direction.dot(plane_normal);
    if den0 == 0 {
        return None;
    }
    let to_plane = plane_origin.sub(&ray.origin);
    proof {
        lemma_dot_bound(to_plane@, plane_normal@, 2 * POINT_LIMIT, NORMAL_LIMIT as int);
    }
    let num0 = to_plane.dot(plane_normal);
    let ghost gnum = num0;
    let ghost gden = den0;
    // keep the divisor positive: `d * num / den == d * (-num) / (-den)`
    let (num, den) = if den0 > 0 {
        (num0, den0)
    } else {
        (-num0, -den0)
    };
    proof {
        let bn = 3 * ((2 * POINT_LIMIT) * (NORMAL_LIMIT as int));
        assert(bn < 0x1_0000_0000_0000_0000_0000_0000);
        lemma_mul_bound(ray.direction.x as int, num as int, DIRECTION_LIMIT as int, bn);
        lemma_mul_bound(ray.direction.y as int, num as int, DIRECTION_LIMIT as int, bn);
        lemma_mul_bound(ray.direction.z as int, num as int, DIRECTION_LIMIT as int, bn);
        assert((DIRECTION_LIMIT as int) * bn < 0x1000_0000_0000_0000_0000_0000_0000_0000)
           ;
        lemma_flip_sign(ray.direction.x as int, gnum as int, gden as int, num as int, den as int);
        lemma_flip_sign(ray.direction.y as int, gnum as int, gden as int, num as int, den as int);
        lemma_flip_sign(ray.direction.z as int, gnum as int, gden as int, num as int, den as int);
    }
    let qx = floor_div_wide(ray.direction.x as i128 * num, den);
    let qy = floor_div_wide(ray.direction.y as i128 * num, den);
    let qz = floor_div_wide(ray.direction.z as i128 * num, den);
    let x = ray.origin.x as i128 + qx;
    let y = ray.origin.y as i128 + qy;
    let z = ray.origin.z as i128 + qz;
    let lim = POINT_LIMIT as i128;
    if -lim <= x && x <= lim && -lim <= y && y <= lim && -lim <= z && z <= lim {
        Some(Vec3 { x: x as i64, y: y as i64, z: z as i64 })
    } else {
        None
    }
}

/// Offset of `query_point` from the plane through `plane_point` with `plane_normal`,
/// in multiples of the normal's length, rounded down: its sign tells the side.
pub fn signed_distance_to_plane(plane_normal: &Vec3, plane_point: &Vec3, query_point: &Vec3) -> (r:
    i64)
    requires
        bounded(plane_normal@, DIRECTION_LIMIT as int),
        plane_normal@ != zero3(),
        bounded(plane_point@, POINT_LIMIT as int),
        bounded(query_point@, POINT_LIMIT as int),
    ensures
        r == plane_offset(plane_normal@, plane_point@, query_point@),
{
    let v = query_point.sub(plane_point);
    proof {
        lemma_dot_bound(v@, plane_normal@, 2 * POINT_LIMIT, DIRECTION_LIMIT as int);
        lemma_dot_bound(plane_normal@, plane_normal@, DIRECTION_LIMIT as int, DIRECTION_LIMIT as int);
        lemma_sq_pos(plane_normal@);
    }
    let num = v.dot(plane_normal);
    let den = plane_normal.dot(plane_normal);
    let q = floor_div_wide(num, den);
    q as i64
}

proof fn lemma_abs_mul(x: int, p: int, ap: int, l: int)
    requires
        -l <= x <= l,
        ap == p || ap == -p,
        ap >= 0,
    ensures
        -(l * ap) <= x * p <= l * ap,
{
    assert(-(l * ap) <= x * p <= l * ap) by (nonlinear_arith)
        requires
            -l <= x <= l,
            ap == p || ap == -p,
            ap >= 0,
    ;
}

proof fn lemma_projection_bound(v: V3, axis: V3, a: int)
    requires
        bounded(v, 2 * POINT_LIMIT),
        a == axis.0 || a == axis.1 || a == axis.2,
    ensures
        -(dot3(axis, axis) * 0x2_0000_0000) <= a * dot3(v, axis) <= dot3(axis, axis)
            * 0x2_0000_0000,
{
    let (x, y, z) = v;
    let (p, q, r) = axis;
    let l = 0x8000_0000int;
    let s = p * p + q * q + r * r;
    let d = x * p + y * q + z * r;
    let ap = if p >= 0 { p } else { -p };
    let aq = if q >= 0 { q } else { -q };
    let ar = if r >= 0 { r } else { -r };
    let t = ap + aq + ar;
    lemma_abs_mul(x, p, ap, l);
    lemma_abs_mul(y, q, aq, l);
    lemma_abs_mul(z, r, ar, l);
    assert(l * ap + l * aq + l * ar == l * t) by (nonlinear_arith)
        requires
            t == ap + aq + ar,
    ;
    assert(-(l * t) <= d <= l * t);
    assert(-t <= a <= t);
    lemma_mul_bound(a, d, t, l * t);
    assert(t * (l * t) == l * (t * t)) by (nonlinear_arith);
    assert(t * t <= 3 * s) by (nonlinear_arith)
        requires
            t == ap + aq + ar,
            ap == p || ap == -p,
            aq == q || aq == -q,
            ar == r || ar == -r,
            s == p * p + q * q + r * r,
    ;
    assert(l * (t * t) <= l * (3 * s)) by (nonlinear_arith)
        requires
            t * t <= 3 * s,
            l > 0,
    ;
    assert(s >= 0) by (nonlinear_arith)
        requires
            s == p * p + q * q + r * r,
    ;
    assert(l * (3 * s) <= s * 0x2_0000_0000) by (nonlinear_arith)
        requires
            s >= 0,
            l == 0x8000_0000,
    ;
}

/// The projection of `v` onto the line of a non-zero `axis`, rounded down.
pub fn project_onto_axis(v: &Vec3, axis: &Vec3) -> (r: Vec3)
    requires
        bounded(v@, 2 * POINT_LIMIT),
        bounded(axis@, DIRECTION_LIMIT as int),
        axis@ != zero3(),
    ensures
        r@ == project(v@, axis@),
{
    proof {
        lemma_dot_bound(v@, axis@, 2 * POINT_LIMIT, DIRECTION_LIMIT as int);
        lemma_dot_bound(axis@, axis@, DIRECTION_LIMIT as int, DIRECTION_LIMIT as int);
        lemma_sq_pos(axis@);
        lemma_projection_bound(v@, axis@, axis.x as int);
        lemma_projection_bound(v@, axis@, axis.y as int);
        lemma_projection_bound(v@, axis@, axis.z as int);
    }
    let d = v.dot(axis);
    let s = axis.dot(axis);
    let qx = floor_div_wide(axis.x as i128 * d, s);
    let qy = floor_div_wide(axis.y as i128 * d, s);
    let qz = floor_div_wide(axis.z as i128 * d, s);
    proof {
        lemma_floor_div_bound(axis.x as int * d, s as int, 0x2_0000_0000);
        lemma_floor_div_bound(axis.y as int * d, s as int, 0x2_0000_0000);
        lemma_floor_div_bound(axis.z as int * d, s as int, 0x2_0000_0000);
    }
    Vec3 { x: qx as i64, y: qy as i64, z: qz as i64 }
}

/// Moving along an axis by `k` of its lengths is measured as exactly `k`, also
/// for negative `k`: both as the offset from the plane through the anchor
/// that the axis is normal to, and as the projection onto the axis.
pub proof fn lemma_axis_offset_exact(axis: V3, anchor: V3, k: int)
    requires
        axis != zero3(),
    ensures
        plane_offset(axis, anchor, add3(anchor, scale3(k, axis))) == k,
        project(sub3(add3(anchor, scale3(k, axis)), anchor), axis) == scale3(k, axis),
{
    let s = dot3(axis, axis);
    lemma_sq_pos(axis);
    let v = sub3(add3(anchor, scale3(k, axis)), anchor);
    assert(v == scale3(k, axis));
    assert(dot3(v, axis) == k * s) by (nonlinear_arith)
        requires
            v == scale3(k, axis),
            s == dot3(axis, axis),
    ;
    vstd::arithmetic::div_mod::lemma_div_multiples_vanish(k, s);
    assert(k * s == s * k) by (nonlinear_arith);
    assert(plane_offset(axis, anchor, add3(anchor, scale3(k, axis))) == k);
    assert forall|a: int| a == axis.0 || a == axis.1 || a == axis.2 implies #[trigger] project_coord(
        a,
        v,
        axis,
    ) == k * a by {
        assert(a * (k * s) == s * (k * a)) by (nonlinear_arith);
        vstd::arithmetic::div_mod::lemma_div_multiples_vanish(k * a, s);
    }
    assert(project_coord(axis.0, v, axis) == k * axis.0);
    assert(project_coord(axis.1, v, axis) == k * axis.1);
    assert(project_coord(axis.2, v, axis) == k * axis.2);
}

/// Where the ray passes through a lattice point of the plane, the rounded
/// intersection is that point exactly.
pub proof fn lemma_plane_hit_exact(ray: Ray3, normal: V3, point: V3, q: V3, k: int)
    requires
        hit_den(ray, normal) != 0,
        q == add3(ray.origin@, scale3(k, ray.direction@)),
        dot3(sub3(q, point), normal) == 0,
    ensures
        plane_hit(ray, normal, point) == q,
{
    let d = ray.direction@;
    let o = ray.origin@;
    let den = hit_den(ray, normal);
    let num = hit_num(ray, normal, point);
    let (n0, n1, n2) = normal;
    assert((o.0 + k * d.0 - point.0) * n0 == o.0 * n0 + k * (d.0 * n0) - point.0 * n0)
        by (nonlinear_arith);
    assert((o.1 + k * d.1 - point.1) * n1 == o.1 * n1 + k * (d.1 * n1) - point.1 * n1)
        by (nonlinear_arith);
    assert((o.2 + k * d.2 - point.2) * n2 == o.2 * n2 + k * (d.2 * n2) - point.2 * n2)
        by (nonlinear_arith);
    assert((point.0 - o.0) * n0 == point.0 * n0 - o.0 * n0) by (nonlinear_arith);
    assert((point.1 - o.1) * n1 == point.1 * n1 - o.1 * n1) by (nonlinear_arith);
    assert((point.2 - o.2) * n2 == point.2 * n2 - o.2 * n2) by (nonlinear_arith);
    assert(k * (d.0 * n0 + d.1 * n1 + d.2 * n2) == k * (d.0 * n0) + k * (d.1 * n1) + k * (d.2
        * n2)) by (nonlinear_arith);
    assert(num == k * den);
    assert forall|c: int| c == d.0 || c == d.1 || c == d.2 implies floor_div(#[trigger] (c * num), den)
        == k * c by {
        if den > 0 {
            assert(c * num == den * (k * c)) by (nonlinear_arith)
                requires
                    num == k * den,
            ;
            vstd::arithmetic::div_mod::lemma_div_multiples_vanish(k * c, den);
        } else {
            assert(-(c * num) == (-den) * (k * c)) by (nonlinear_arith)
                requires
                    num == k * den,
            ;
            vstd::arithmetic::div_mod::lemma_div_multiples_vanish(k * c, -den);
        }
    }
    assert(floor_div(d.0 * num, den) == k * d.0);
    assert(floor_div(d.1 * num, den) == k * d.1);
    assert(floor_div(d.2 * num, den) == k * d.2);
}

} // verus!
