use vstd::prelude::*;

use crate::vector::{bounded, dot_spec, lemma_dot_bound, lemma_mul_bound, Vector2, MAX_COORD};

verus! {

/// A static, one-sided line-segment obstacle: the segment is centred at
/// `centre`, runs perpendicular to `normal`, and spans `breadth` units. The
/// outward-facing `normal` should be a unit vector, which over integer
/// coordinates means axis-aligned; the pushback formula is stated for any
/// normal, but only a unit normal makes the corrected motion come to rest
/// exactly on the surface.
#[derive(Clone, Copy, Debug)]
pub struct Collider {
    pub centre: Vector2,
    pub normal: Vector2,
    pub breadth: i64,
}

impl Collider {
    /// Well-formedness: coordinates in simulation range and a positive span.
    pub open spec fn wf(self) -> bool {
        &&& self.centre.in_range()
        &&& self.normal.in_range()
        &&& 0 < self.breadth <= MAX_COORD
    }

    /// `normal` has unit length, the invariant under which pushback leaves
    /// the moving point resting exactly on the supporting line.
    pub open spec fn has_unit_normal(self) -> bool {
        dot_spec(self.normal, self.normal) == 1
    }

    /// `normal · displacement`: negative exactly when the motion runs into
    /// the collider's front face.
    pub open spec fn denom(self, d: Vector2) -> int {
        dot_spec(self.normal, d)
    }

    /// `normal · (centre - position)`: the signed distance (scaled by the
    /// normal's length) from the position to the supporting line. The
    /// contact fraction is `t = numer / denom`.
    pub open spec fn numer(self, p: Vector2) -> int {
        self.normal.x * (self.centre.x - p.x) + self.normal.y * (self.centre.y - p.y)
    }

    /// The trajectory crosses the supporting line within this tick's travel:
    /// with `denom < 0`, the contact fraction `t = numer / denom` lies in
    /// `[0, 1]` exactly when `denom <= numer <= 0`.
    pub open spec fn crosses_within_tick(self, p: Vector2, d: Vector2) -> bool {
        &&& self.denom(d) < 0
        &&& self.denom(d) <= self.numer(p) <= 0
    }

    /// The contact point `p + t * d` lies within `breadth / 2` of `centre`.
    /// Multiplying the squared-distance comparison through by `4 * denom^2`
    /// clears both the contact fraction's denominator and the halving of the
    /// breadth, so the test is exact over integers:
    /// `denom^2 * |p + t*d - centre|^2 <= (breadth/2)^2 * denom^2`
    /// becomes `4 * |denom*(p - centre) + numer*d|^2 <= breadth^2 * denom^2`.
    pub open spec fn within_breadth(self, p: Vector2, d: Vector2) -> bool {
        let den = self.denom(d);
        let num = self.numer(p);
        let ex = den * (p.x - self.centre.x) + num * d.x;
        let ey = den * (p.y - self.centre.y) + num * d.y;
        4 * (ex * ex + ey * ey) <= self.breadth * self.breadth * (den * den)
    }

    /// The displacement `d` from `p` is blocked by this collider: the motion
    /// runs into the front face, crosses the supporting line within this
    /// tick, and does so within the segment's finite extent.
    pub open spec fn collides(self, p: Vector2, d: Vector2) -> bool {
        &&& self.crosses_within_tick(p, d)
        &&& self.within_breadth(p, d)
    }

    /// The scalar by which `normal` is multiplied to form the pushback:
    /// `(t - 1) * (d · normal) = numer - denom`, an exact integer.
    pub open spec fn pushback_scale(self, p: Vector2, d: Vector2) -> int {
        self.numer(p) - self.denom(d)
    }

    /// The corrective vector this collider reports for a motion from `p`
    /// along `d`, as a pair of unbounded integers; `None` when the motion
    /// does not collide.
    pub open spec fn pushback_of(self, p: Vector2, d: Vector2) -> Option<(int, int)> {
        if self.collides(p, d) {
            Some(
                (
                    self.pushback_scale(p, d) * self.normal.x,
                    self.pushback_scale(p, d) * self.normal.y,
                ),
            )
        } else {
            None
        }
    }

    /// Computes the pushback for a proposed displacement `d` from position
    /// `p`: `Some` exactly when the swept point strikes the segment, and
    /// then the vector `(numer - denom) * normal`, which cancels the portion
    /// of `d` that would carry the point through the surface.
    pub fn get_pushback(&self, p: &Vector2, d: &Vector2) -> (r: Option<Vector2>)
        requires
            self.wf(),
            p.in_range(),
            d.in_range(),
        ensures
            r is Some <==> self.collides(*p, *d),
            match r {
                Some(v) => self.pushback_of(*p, *d) == Some((v.x as int, v.y as int)),
                None => self.pushback_of(*p, *d) is None,
            },
    {
        let den = self.normal.dot(*d);
        // A zero or positive denominator means motion parallel to the
        // collider or away from its front face: never a collision.
        if den >= 0 {
            return None;
        }
        let num = self.normal.dot(self.centre.sub(*p));
        // With den < 0, the contact fraction t = num / den lies outside
        // [0, 1] exactly when num > 0 (t < 0) or num < den (t > 1).
        if num > 0 || num < den {
            return None;
        }
        proof {
            lemma_dot_bound(self.normal, *d, MAX_COORD as int, MAX_COORD as int);
            lemma_dot_bound(
                self.normal,
                Vector2 { x: (self.centre.x - p.x) as i64, y: (self.centre.y - p.y) as i64 },
                MAX_COORD as int,
                2 * MAX_COORD as int,
            );
        }
        let pcx = p.x - self.centre.x;
        let pcy = p.y - self.centre.y;
        proof {
            lemma_mul_bound(den as int, pcx as int, 20_000_000_000, 200_000);
            lemma_mul_bound(den as int, pcy as int, 20_000_000_000, 200_000);
            lemma_mul_bound(num as int, d.x as int, 40_000_000_000, 100_000);
            lemma_mul_bound(num as int, d.y as int, 40_000_000_000, 100_000);
        }
        let ex: i128 = (den as i128) * (pcx as i128) + (num as i128) * (d.x as i128);
        let ey: i128 = (den as i128) * (pcy as i128) + (num as i128) * (d.y as i128);
        proof {
            lemma_mul_bound(ex as int, ex as int, 8_000_000_000_000_000, 8_000_000_000_000_000);
            lemma_mul_bound(ey as int, ey as int, 8_000_000_000_000_000, 8_000_000_000_000_000);
            lemma_mul_bound(self.breadth as int, self.breadth as int, 100_000, 100_000);
            lemma_mul_bound(den as int, den as int, 20_000_000_000, 20_000_000_000);
            lemma_mul_bound(
                (self.breadth * self.breadth) as int,
                (den * den) as int,
                10_000_000_000,
                400_000_000_000_000_000_000,
            );
        }
        let bsq: i128 = (self.breadth as i128) * (self.breadth as i128);
        let densq: i128 = (den as i128) * (den as i128);
        // The contact point lies beyond breadth / 2 from the centre: compare
        // squared distances with denominators cleared.
        if 4 * (ex * ex + ey * ey) > bsq * densq {
            return None;
        }
        let scale = num - den;
        proof {
            lemma_mul_bound(scale as int, self.normal.x as int, 60_000_000_000, 100_000);
            lemma_mul_bound(scale as int, self.normal.y as int, 60_000_000_000, 100_000);
        }
        Some(Vector2 { x: scale * self.normal.x, y: scale * self.normal.y })
    }
}

/// The pushback, whenever a collision is reported, is parallel to the
/// collider's normal: it is the normal scaled by an integer.
pub proof fn lemma_pushback_parallel_to_normal(c: Collider, p: Vector2, d: Vector2)
    requires
        c.collides(p, d),
    ensures
        c.pushback_of(p, d) is Some,
        exists|k: int|
            c.pushback_of(p, d) == Some((#[trigger] (k * c.normal.x), k * c.normal.y)),
{
    let k = c.pushback_scale(p, d);
    assert(c.pushback_of(p, d) == Some((k * c.normal.x, k * c.normal.y)));
}

/// With a unit normal, the pushback leaves the moving point resting exactly
/// on the collider's supporting line: the corrected position
/// `p + d + pushback` has zero component along the normal measured from the
/// centre.
pub proof fn lemma_pushback_rests_on_supporting_line(c: Collider, p: Vector2, d: Vector2)
    requires
        c.has_unit_normal(),
        c.collides(p, d),
    ensures
        c.pushback_of(p, d) is Some,
        ({
            let pb = c.pushback_of(p, d).unwrap();
            c.normal.x * (p.x + d.x + pb.0 - c.centre.x) + c.normal.y * (p.y + d.y + pb.1
                - c.centre.y) == 0
        }),
{
    let s = c.pushback_scale(p, d);
    let pb = c.pushback_of(p, d).unwrap();
    assert(pb.0 == s * c.normal.x && pb.1 == s * c.normal.y);
    // The normal component of the corrected travel is
    // numer(p) - denom(d) - s * |normal|^2, and s was chosen as exactly
    // numer(p) - denom(d).
    assert(c.normal.x * (p.x + d.x + pb.0 - c.centre.x) + c.normal.y * (p.y + d.y + pb.1
        - c.centre.y) == 0) by (nonlinear_arith)
        requires
            pb.0 == s * c.normal.x,
            pb.1 == s * c.normal.y,
            s == c.numer(p) - c.denom(d),
            c.numer(p) == c.normal.x * (c.centre.x - p.x) + c.normal.y * (c.centre.y - p.y),
            c.denom(d) == c.normal.x * d.x + c.normal.y * d.y,
            c.normal.x * c.normal.x + c.normal.y * c.normal.y == 1,
    ;
}

/// Motion that is parallel to the collider or moving away from its front
/// face (`normal · d >= 0`) never collides, whatever the position.
pub proof fn lemma_moving_away_never_collides(c: Collider, p: Vector2, d: Vector2)
    requires
        dot_spec(c.normal, d) >= 0,
    ensures
        c.pushback_of(p, d) is None,
{
}

} // verus!
