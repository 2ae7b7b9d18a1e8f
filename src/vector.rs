use vstd::prelude::*;

verus! {

/// Fixed-point scale of directions: a unit vector has length `UNIT`.
pub const UNIT: i64 = 0x1_0000;

/// Bound on each coordinate of a point of the world lattice.
pub const POINT_LIMIT: i64 = 0x4000_0000;

/// Bound on each coordinate of a direction derived from unit vectors.
pub const DIRECTION_LIMIT: i64 = 0x10_0000;

/// Bound on each coordinate of a plane normal built by cross products.
pub const NORMAL_LIMIT: i64 = 0x100_0000_0000_0000;

/// A vector of the world lattice: points, offsets and fixed-point directions.
#[derive(Clone, Copy, Debug, PartialEq, Eq, Structural)]
pub struct Vec3 {
    pub x: i64,
    pub y: i64,
    pub z: i64,
}

/// A vector of screen space, in pixels.
#[derive(Clone, Copy, Debug, PartialEq, Eq, Structural)]
pub struct Vec2 {
    pub x: i64,
    pub y: i64,
}

pub type V3 = (int, int, int);

impl View for Vec3 {
    type V = V3;

    open spec fn view(&self) -> V3 {
        (self.x as int, self.y as int, self.z as int)
    }
}

pub open spec fn bounded(v: V3, limit: int) -> bool {
    &&& -limit <= v.0 <= limit
    &&& -limit <= v.1 <= limit
    &&& -limit <= v.2 <= limit
}

pub open spec fn zero3() -> V3 {
    (0, 0, 0)
}

pub open spec fn add3(a: V3, b: V3) -> V3 {
    (a.0 + b.0, a.1 + b.1, a.2 + b.2)
}

pub open spec fn sub3(a: V3, b: V3) -> V3 {
    (a.0 - b.0, a.1 - b.1, a.2 - b.2)
}

pub open spec fn scale3(k: int, a: V3) -> V3 {
    (k * a.0, k * a.1, k * a.2)
}

pub open spec fn dot3(a: V3, b: V3) -> int {
    a.0 * b.0 + a.1 * b.1 + a.2 * b.2
}

pub open spec fn cross3(a: V3, b: V3) -> V3 {
    (a.1 * b.2 - a.2 * b.1, a.2 * b.0 - a.0 * b.2, a.0 * b.1 - a.1 * b.0)
}

/// Division rounded towards negative infinity.
pub open spec fn floor_div(a: int, b: int) -> int
    recommends
        b != 0,
{
    if b > 0 {
        a / b
    } else {
        (-a) / (-b)
    }
}

pub proof fn lemma_mul_bound(a: int, b: int, la: int, lb: int)
    requires
        -la <= a <= la,
        -lb <= b <= lb,
    ensures
        -(la * lb) <= a * b <= la * lb,
{
    assert(-(la * lb) <= a * b <= la * lb) by (nonlinear_arith)
        requires
            -la <= a <= la,
            -lb <= b <= lb,
    ;
}

pub proof fn lemma_dot_bound(a: V3, b: V3, la: int, lb: int)
    requires
        bounded(a, la),
        bounded(b, lb),
    ensures
        -3 * (la * lb) <= dot3(a, b) <= 3 * (la * lb),
{
    lemma_mul_bound(a.0, b.0, la, lb);
    lemma_mul_bound(a.1, b.1, la, lb);
    lemma_mul_bound(a.2, b.2, la, lb);
}

pub proof fn lemma_cross_bound(a: V3, b: V3, la: int, lb: int)
    requires
        bounded(a, la),
        bounded(b, lb),
    ensures
        bounded(cross3(a, b), 2 * (la * lb)),
{
    lemma_mul_bound(a.0, b.1, la, lb);
    lemma_mul_bound(a.0, b.2, la, lb);
    lemma_mul_bound(a.1, b.0, la, lb);
    lemma_mul_bound(a.1, b.2, la, lb);
    lemma_mul_bound(a.2, b.0, la, lb);
    lemma_mul_bound(a.2, b.1, la, lb);
}

pub proof fn lemma_floor_div_bound(a: int, s: int, b: int)
    requires
        s > 0,
        b > 0,
        -(s * b) <= a <= s * b,
    ensures
        -b <= floor_div(a, s) <= b,
{
    vstd::arithmetic::div_mod::lemma_fundamental_div_mod(a, s);
    vstd::arithmetic::div_mod::lemma_mod_bound(a, s);
    let q = a / s;
    let r = a % s;
    assert(-b <= q <= b) by (nonlinear_arith)
        requires
            a == s * q + r,
            0 <= r < s,
            -(s * b) <= a <= s * b,
            s > 0,
    ;
}

/// Floor division of wide integers by a positive divisor.
pub fn floor_div_wide(a: i128, b: i128) -> (q: i128)
    requires
        b > 0,
    ensures
        q == floor_div(a as int, b as int),
        a >= 0 ==> 0 <= q <= a,
        a < 0 ==> a <= q < 0,
{
    if a >= 0 {
        proof {
            vstd::arithmetic::div_mod::lemma_fundamental_div_mod(a as int, b as int);
            vstd::arithmetic::div_mod::lemma_mod_bound(a as int, b as int);
            let (q, r) = ((a as int) / (b as int), (a as int) % (b as int));
            assert(0 <= q <= a) by (nonlinear_arith)
                requires
                    a == b * q + r,
                    0 <= r < b,
                    a >= 0,
                    b >= 1,
            ;
        }
        a / b
    } else {
        let m: i128 = -1 - a;
        let t: i128 = m / b;
        proof {
            vstd::arithmetic::div_mod::lemma_fundamental_div_mod(m as int, b as int);
            vstd::arithmetic::div_mod::lemma_mod_bound(m as int, b as int);
            let r = (m as int) % (b as int);
            assert(a as int == (-1 - t as int) * (b as int) + (b - 1 - r)) by (nonlinear_arith)
                requires
                    m as int == (b as int) * (t as int) + r,
                    m == -1 - a,
            ;
            vstd::arithmetic::div_mod::lemma_fundamental_div_mod_converse(
                a as int,
                b as int,
                -1 - t as int,
                b - 1 - r,
            );
            assert(0 <= t <= m) by (nonlinear_arith)
                requires
                    m as int == (b as int) * (t as int) + r,
                    0 <= r < b,
                    m >= 0,
                    b >= 1,
            ;
        }
        -1 - t
    }
}

impl Vec3 {
    pub fn new(x: i64, y: i64, z: i64) -> (r: Vec3)
        ensures
            r@ == (x as int, y as int, z as int),
    {
        Vec3 { x, y, z }
    }

    pub fn zero() -> (r: Vec3)
        ensures
            r@ == zero3(),
    {
        Vec3 { x: 0, y: 0, z: 0 }
    }

    pub fn is_zero(&self) -> (r: bool)
        ensures
            r == (self@ == zero3()),
    {
        self.x == 0 && self.y == 0 && self.z == 0
    }

    /// Difference of two lattice points.
    pub fn sub(&self, o: &Vec3) -> (r: Vec3)
        requires
            bounded(self@, POINT_LIMIT as int),
            bounded(o@, POINT_LIMIT as int),
        ensures
            r@ == sub3(self@, o@),
            bounded(r@, 2 * POINT_LIMIT),
    {
        Vec3 { x: self.x - o.x, y: self.y - o.y, z: self.z - o.z }
    }

    /// Sum of two vectors, or `None` where it leaves the world lattice's bounds.
    pub fn checked_add(&self, o: &Vec3) -> (r: Option<Vec3>)
        ensures
            r is Some <==> bounded(add3(self@, o@), POINT_LIMIT as int),
            r is Some ==> r->0@ == add3(self@, o@),
    {
        let x = self.x as i128 + o.x as i128;
        let y = self.y as i128 + o.y as i128;
        let z = self.z as i128 + o.z as i128;
        let lim = POINT_LIMIT as i128;
        if -lim <= x && x <= lim && -lim <= y && y <= lim && -lim <= z && z <= lim {
            Some(Vec3 { x: x as i64, y: y as i64, z: z as i64 })
        } else {
            None
        }
    }

    /// Dot product, exact.
    pub fn dot(&self, o: &Vec3) -> (r: i128)
        requires
            bounded(self@, 0x4000_0000_0000_0000),
            bounded(o@, 0x4000_0000_0000_0000),
        ensures
            r == dot3(self@, o@),
    {
        proof {
            lemma_mul_bound(self.x as int, o.x as int, 0x4000_0000_0000_0000, 0x4000_0000_0000_0000);
            lemma_mul_bound(self.y as int, o.y as int, 0x4000_0000_0000_0000, 0x4000_0000_0000_0000);
            lemma_mul_bound(self.z as int, o.z as int, 0x4000_0000_0000_0000, 0x4000_0000_0000_0000);
        }
        let xx = self.x as i128 * o.x as i128;
        let yy = self.y as i128 * o.y as i128;
        let zz = self.z as i128 * o.z as i128;
        xx + yy + zz
    }

    /// Cross product of a direction with a wider vector, exact.
    pub fn cross(&self, o: &Vec3) -> (r: Vec3)
        requires
            bounded(self@, DIRECTION_LIMIT as int),
            bounded(o@, 0x100_0000_0000),
        ensures
            r@ == cross3(self@, o@),
    {
        proof {
            let (la, lb) = (DIRECTION_LIMIT as int, 0x100_0000_0000int);
            lemma_mul_bound(self.x as int, o.y as int, la, lb);
            lemma_mul_bound(self.x as int, o.z as int, la, lb);
            lemma_mul_bound(self.y as int, o.x as int, la, lb);
            lemma_mul_bound(self.y as int, o.z as int, la, lb);
            lemma_mul_bound(self.z as int, o.x as int, la, lb);
            lemma_mul_bound(self.z as int, o.y as int, la, lb);
        }
        let x = self.y as i128 * o.z as i128 - self.z as i128 * o.y as i128;
        let y = self.z as i128 * o.x as i128 - self.x as i128 * o.z as i128;
        let z = self.x as i128 * o.y as i128 - self.y as i128 * o.x as i128;
        Vec3 { x: x as i64, y: y as i64, z: z as i64 }
    }
}

} // verus!
