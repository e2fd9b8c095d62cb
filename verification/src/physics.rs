use vstd::prelude::*;

use crate::collider::Collider;
use crate::vector::{lemma_dot_bound, lemma_mul_bound, Vector2, MAX_COORD};

verus! {

/// The authoritative simulation-space location of a dynamic object. Written
/// exactly once per tick, by the integrator.
#[derive(Clone, Copy, Debug)]
pub struct Position(pub Vector2);

/// The object's velocity in simulation units per tick.
#[derive(Clone, Copy, Debug)]
pub struct Velocity(pub Vector2);

/// Downward acceleration applied to the velocity each tick.
#[derive(Clone, Copy, Debug)]
pub struct Gravity(pub i64);

/// Cap on the downward velocity magnitude: `velocity.y` never falls below
/// `-fall_speed`.
#[derive(Clone, Copy, Debug)]
pub struct FallSpeed(pub i64);

/// Monotonically increasing tick counter.
#[derive(Clone, Copy, Debug)]
pub struct FrameCounter(pub u32);

/// The render transform an object is drawn at; the presentation step copies
/// the resolved position into it each tick.
#[derive(Clone, Copy, Debug)]
pub struct Transform {
    pub x: i64,
    pub y: i64,
}

/// The pushback of the first collider at or after index `i` that reports
/// one, scanning in iteration order; `None` when none collides.
pub open spec fn first_pushback_from(
    colliders: Seq<Collider>,
    i: int,
    p: Vector2,
    d: Vector2,
) -> Option<(int, int)>
    decreases colliders.len() - i,
{
    if i < 0 || i >= colliders.len() {
        None
    } else if colliders[i].collides(p, d) {
        colliders[i].pushback_of(p, d)
    } else {
        first_pushback_from(colliders, i + 1, p, d)
    }
}

/// The pushback of the first collider, in iteration order, that reports one.
pub open spec fn first_pushback(colliders: Seq<Collider>, p: Vector2, d: Vector2) -> Option<
    (int, int),
> {
    first_pushback_from(colliders, 0, p, d)
}

/// The corrective vector actually applied: the first collider's pushback,
/// defaulting to zero when no collider blocks the motion.
pub open spec fn applied_pushback(colliders: Seq<Collider>, p: Vector2, d: Vector2) -> (
    int,
    int,
) {
    match first_pushback(colliders, p, d) {
        Some(pb) => pb,
        None => (0int, 0int),
    }
}

/// The position reached in one tick from `p` under intended displacement
/// `d`: `p + d + pushback`.
pub open spec fn resolved_position(p: Vector2, d: Vector2, colliders: Seq<Collider>) -> (
    int,
    int,
) {
    let pb = applied_pushback(colliders, p, d);
    (p.x + d.x + pb.0, p.y + d.y + pb.1)
}

/// Every collider in the sequence is well-formed.
pub open spec fn all_wf(colliders: Seq<Collider>) -> bool {
    forall|i: int| 0 <= i < colliders.len() ==> (#[trigger] colliders[i]).wf()
}

/// Whatever pushback the scan reports is bounded: the scale is a difference
/// of two dot products of in-range vectors, and the normal is in range.
proof fn lemma_first_pushback_bounded(colliders: Seq<Collider>, i: int, p: Vector2, d: Vector2)
    requires
        all_wf(colliders),
        p.in_range(),
        d.in_range(),
    ensures
        match first_pushback_from(colliders, i, p, d) {
            Some(pb) => {
                &&& -6_000_000_000_000_000 <= pb.0 <= 6_000_000_000_000_000
                &&& -6_000_000_000_000_000 <= pb.1 <= 6_000_000_000_000_000
            },
            None => true,
        },
    decreases colliders.len() - i,
{
    if i < 0 || i >= colliders.len() {
    } else if colliders[i].collides(p, d) {
        let c = colliders[i];
        lemma_dot_bound(c.normal, d, MAX_COORD as int, MAX_COORD as int);
        lemma_dot_bound(
            c.normal,
            Vector2 { x: (c.centre.x - p.x) as i64, y: (c.centre.y - p.y) as i64 },
            MAX_COORD as int,
            2 * MAX_COORD as int,
        );
        let scale = c.pushback_scale(p, d);
        lemma_mul_bound(scale, c.normal.x as int, 60_000_000_000, 100_000);
        lemma_mul_bound(scale, c.normal.y as int, 60_000_000_000, 100_000);
    } else {
        lemma_first_pushback_bounded(colliders, i + 1, p, d);
    }
}

/// Scans the colliders in iteration order, applies the first reported
/// pushback (zero when none collides), and moves the position by
/// `displacement + pushback`. At most one collider's correction is applied
/// per tick, the first in iteration order — not necessarily the nearest.
pub fn displace(position: &mut Position, displacement: &Vector2, colliders: &Vec<Collider>)
    requires
        old(position).0.in_range(),
        displacement.in_range(),
        all_wf(colliders@),
    ensures
        final(position).0.x == resolved_position(old(position).0, *displacement, colliders@).0,
        final(position).0.y == resolved_position(old(position).0, *displacement, colliders@).1,
{
    let p = position.0;
    let n = colliders.len();
    let mut i: usize = 0;
    let mut pushback: Option<Vector2> = None;
    while i < n && pushback.is_none()
        invariant
            0 <= i <= n,
            n == colliders@.len(),
            p == old(position).0,
            p.in_range(),
            displacement.in_range(),
            all_wf(colliders@),
            match pushback {
                Some(v) => first_pushback(colliders@, p, *displacement) == Some(
                    (v.x as int, v.y as int),
                ),
                None => first_pushback(colliders@, p, *displacement) == first_pushback_from(
                    colliders@,
                    i as int,
                    p,
                    *displacement,
                ),
            },
        decreases n - i,
    {
        match colliders[i].get_pushback(&p, displacement) {
            Some(v) => {
                pushback = Some(v);
            },
            None => {},
        }
        i += 1;
    }
    match pushback {
        Some(v) => {
            proof {
                lemma_first_pushback_bounded(colliders@, 0, p, *displacement);
            }
            let moved = p.add(*displacement);
            position.0 = moved.add(v);
        },
        None => {
            position.0 = p.add(*displacement);
        },
    }
}

/// Applies one tick of motion: the displacement is the per-tick velocity
/// itself, corrected by the collision resolver.
pub fn apply_velocity(position: &mut Position, velocity: &Velocity, colliders: &Vec<Collider>)
    requires
        old(position).0.in_range(),
        velocity.0.in_range(),
        all_wf(colliders@),
    ensures
        final(position).0.x == resolved_position(old(position).0, velocity.0, colliders@).0,
        final(position).0.y == resolved_position(old(position).0, velocity.0, colliders@).1,
{
    displace(position, &velocity.0, colliders);
}

/// One gravity step on the vertical velocity: subtract `gravity`, then clamp
/// at `-fall_speed` from below.
pub open spec fn gravity_step(vy: int, gravity: int, fall_speed: int) -> int {
    if vy - gravity < -fall_speed {
        -fall_speed
    } else {
        vy - gravity
    }
}

/// The vertical velocity after `n` gravity steps.
pub open spec fn gravity_steps(vy: int, gravity: int, fall_speed: int, n: nat) -> int
    decreases n,
{
    if n == 0 {
        vy
    } else {
        gravity_step(gravity_steps(vy, gravity, fall_speed, (n - 1) as nat), gravity, fall_speed)
    }
}

/// Applies one tick of gravity to the velocity and clamps the downward
/// speed: afterwards `velocity.y` is never below `-fall_speed`, whatever it
/// was before.
pub fn apply_gravity(velocity: &mut Velocity, gravity: &Gravity, fall_speed: &FallSpeed)
    requires
        old(velocity).0.in_range(),
        0 <= gravity.0 <= MAX_COORD,
        0 <= fall_speed.0 <= MAX_COORD,
    ensures
        final(velocity).0.x == old(velocity).0.x,
        final(velocity).0.y == gravity_step(old(velocity).0.y as int, gravity.0 as int, fall_speed.0 as int),
        final(velocity).0.y >= -fall_speed.0,
        final(velocity).0.in_range(),
{
    velocity.0.y = velocity.0.y - gravity.0;
    if velocity.0.y < -fall_speed.0 {
        velocity.0.y = -fall_speed.0;
    }
}

/// However many gravity steps are taken, once at least one has run the
/// vertical velocity never lies below `-fall_speed`.
pub proof fn lemma_repeated_gravity_clamp(vy: int, gravity: int, fall_speed: int, n: nat)
    requires
        n >= 1,
    ensures
        gravity_steps(vy, gravity, fall_speed, n) >= -fall_speed,
{
}

/// Copies the resolved position into the render transform (x and y only, no
/// interpolation).
pub fn snap_transform_to_position(transform: &mut Transform, position: &Position)
    ensures
        final(transform).x == position.0.x,
        final(transform).y == position.0.y,
{
    transform.x = position.0.x;
    transform.y = position.0.y;
}

/// Advances the frame counter by one.
pub fn increment_frame_counter(counter: &mut FrameCounter)
    requires
        old(counter).0 < u32::MAX,
    ensures
        final(counter).0 == old(counter).0 + 1,
{
    counter.0 = counter.0 + 1;
}

/// One fixed tick of the physics integrator, in fixed order: gravity step,
/// displacement through the collision resolver, presentation sync, frame
/// counter increment.
pub fn fixed_tick(
    position: &mut Position,
    velocity: &mut Velocity,
    transform: &mut Transform,
    counter: &mut FrameCounter,
    gravity: &Gravity,
    fall_speed: &FallSpeed,
    colliders: &Vec<Collider>,
)
    requires
        old(position).0.in_range(),
        old(velocity).0.in_range(),
        0 <= gravity.0 <= MAX_COORD,
        0 <= fall_speed.0 <= MAX_COORD,
        old(counter).0 < u32::MAX,
        all_wf(colliders@),
    ensures
        final(velocity).0.x == old(velocity).0.x,
        final(velocity).0.y == gravity_step(old(velocity).0.y as int, gravity.0 as int, fall_speed.0 as int),
        final(velocity).0.y >= -fall_speed.0,
        final(position).0.x == resolved_position(old(position).0, final(velocity).0, colliders@).0,
        final(position).0.y == resolved_position(old(position).0, final(velocity).0, colliders@).1,
        final(transform).x == final(position).0.x,
        final(transform).y == final(position).0.y,
        final(counter).0 == old(counter).0 + 1,
{
    apply_gravity(velocity, gravity, fall_speed);
    apply_velocity(position, &*velocity, colliders);
    snap_transform_to_position(transform, position);
    increment_frame_counter(counter);
}

/// A zero displacement is never blocked: every denominator `normal · 0` is
/// zero, so no collider reports a pushback and the position is unchanged.
pub proof fn lemma_zero_displacement_identity(p: Vector2, colliders: Seq<Collider>)
    ensures
        resolved_position(p, Vector2 { x: 0i64, y: 0i64 }, colliders) == (p.x as int, p.y as int),
{
    lemma_zero_displacement_no_pushback(colliders, 0, p);
}

/// No suffix of the scan reports a pushback for a zero displacement.
proof fn lemma_zero_displacement_no_pushback(colliders: Seq<Collider>, i: int, p: Vector2)
    ensures
        first_pushback_from(colliders, i, p, Vector2 { x: 0i64, y: 0i64 }) is None,
    decreases colliders.len() - i,
{
    if 0 <= i < colliders.len() {
        lemma_zero_displacement_no_pushback(colliders, i + 1, p);
    }
}

/// Resting on a flat floor: for a collider whose normal points straight up,
/// a purely vertical drop that starts on or above the supporting line,
/// crosses it this tick, and stays within the segment's breadth is corrected
/// to rest exactly on the surface: the resolved `y` equals the floor's `y`
/// and `x` is unchanged.
pub proof fn lemma_flat_floor_resting(
    c: Collider,
    p: Vector2,
    d: Vector2,
    colliders: Seq<Collider>,
)
    requires
        c.normal.x == 0,
        c.normal.y == 1,
        d.x == 0,
        d.y < 0,
        p.y >= c.centre.y,
        p.y + d.y <= c.centre.y,
        -c.breadth <= 2 * (p.x - c.centre.x) <= c.breadth,
        colliders.len() >= 1,
        colliders[0] == c,
    ensures
        c.collides(p, d),
        resolved_position(p, d, colliders) == (p.x as int, c.centre.y as int),
{
    let den = c.denom(d);
    let num = c.numer(p);
    assert(den == d.y);
    assert(num == c.centre.y - p.y);
    let ex = den * (p.x - c.centre.x) + num * d.x;
    let ey = den * (p.y - c.centre.y) + num * d.y;
    assert(ey == 0) by (nonlinear_arith)
        requires
            ey == den * (p.y - c.centre.y) + num * d.y,
            den == d.y,
            num == c.centre.y - p.y,
    ;
    assert(4 * (ex * ex + ey * ey) <= c.breadth * c.breadth * (den * den)) by (nonlinear_arith)
        requires
            ex == den * (p.x - c.centre.x),
            ey == 0,
            den < 0,
            -c.breadth <= 2 * (p.x - c.centre.x) <= c.breadth,
            0 <= c.breadth,
    ;
    assert(c.collides(p, d));
    assert(c.pushback_of(p, d) == Some(((num - den) * 0, (num - den) * 1)));
}

} // verus!
