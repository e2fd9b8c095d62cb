use vstd::prelude::*;

verus! {

/// Largest magnitude, in simulation units, that a coordinate of a position,
/// velocity, displacement or collider may take. Keeping coordinates inside
/// this range lets every intermediate product of the collision computation
/// fit comfortably in the machine integer types.
pub const MAX_COORD: i64 = 100_000;

/// A point or direction in simulation space. Coordinates are exact signed
/// integers, so vector arithmetic carries no rounding.
#[derive(Clone, Copy, PartialEq, Eq, Structural, Debug)]
pub struct Vector2 {
    pub x: i64,
    pub y: i64,
}

/// Both coordinates of `v` lie in `[-bound, bound]`.
pub open spec fn bounded(v: Vector2, bound: int) -> bool {
    &&& -bound <= v.x <= bound
    &&& -bound <= v.y <= bound
}

/// The dot product of `a` and `b`, over unbounded integers.
pub open spec fn dot_spec(a: Vector2, b: Vector2) -> int {
    a.x * b.x + a.y * b.y
}

/// Bounds the product of two bounded factors.
pub proof fn lemma_mul_bound(x: int, y: int, xb: int, yb: int)
    by (nonlinear_arith)
    requires
        0 <= xb,
        0 <= yb,
        -xb <= x <= xb,
        -yb <= y <= yb,
    ensures
        -(xb * yb) <= x * y <= xb * yb,
{
}

/// Bounds the dot product of two bounded vectors.
pub proof fn lemma_dot_bound(a: Vector2, b: Vector2, ab: int, bb: int)
    requires
        0 <= ab,
        0 <= bb,
        bounded(a, ab),
        bounded(b, bb),
    ensures
        -2 * (ab * bb) <= dot_spec(a, b) <= 2 * (ab * bb),
{
    lemma_mul_bound(a.x as int, b.x as int, ab, bb);
    lemma_mul_bound(a.y as int, b.y as int, ab, bb);
}

impl Vector2 {
    /// Both coordinates lie in the simulation range.
    pub open spec fn in_range(self) -> bool {
        bounded(self, MAX_COORD as int)
    }

    pub fn new(x: i64, y: i64) -> (r: Vector2)
        ensures
            r.x == x,
            r.y == y,
    {
        Vector2 { x, y }
    }

    /// Componentwise vector addition.
    pub fn add(self, other: Vector2) -> (r: Vector2)
        requires
            i64::MIN <= self.x + other.x <= i64::MAX,
            i64::MIN <= self.y + other.y <= i64::MAX,
        ensures
            r.x == self.x + other.x,
            r.y == self.y + other.y,
    {
        Vector2 { x: self.x + other.x, y: self.y + other.y }
    }

    /// Componentwise vector subtraction.
    pub fn sub(self, other: Vector2) -> (r: Vector2)
        requires
            i64::MIN <= self.x - other.x <= i64::MAX,
            i64::MIN <= self.y - other.y <= i64::MAX,
        ensures
            r.x == self.x - other.x,
            r.y == self.y - other.y,
    {
        Vector2 { x: self.x - other.x, y: self.y - other.y }
    }

    /// Multiplication by an integer scalar.
    pub fn scale(self, k: i64) -> (r: Vector2)
        requires
            i64::MIN <= k * self.x <= i64::MAX,
            i64::MIN <= k * self.y <= i64::MAX,
        ensures
            r.x == k * self.x,
            r.y == k * self.y,
    {
        Vector2 { x: k * self.x, y: k * self.y }
    }

    /// Dot product. The bound on the arguments is loose enough to admit a
    /// difference of two in-range vectors on either side.
    pub fn dot(self, other: Vector2) -> (r: i64)
        requires
            bounded(self, 200_000),
            bounded(other, 200_000),
        ensures
            r == dot_spec(self, other),
    {
        proof {
            lemma_mul_bound(self.x as int, other.x as int, 200_000, 200_000);
            lemma_mul_bound(self.y as int, other.y as int, 200_000, 200_000);
        }
        self.x * other.x + self.y * other.y
    }

    /// Squared Euclidean length. Lengths are compared through their squares,
    /// which keeps the arithmetic exact.
    pub fn norm_sq(self) -> (r: i64)
        requires
            bounded(self, 200_000),
        ensures
            r == dot_spec(self, self),
            r >= 0,
    {
        let r = self.dot(self);
        proof {
            assert(self.x * self.x >= 0) by (nonlinear_arith);
            assert(self.y * self.y >= 0) by (nonlinear_arith);
        }
        r
    }
}

} // verus!
