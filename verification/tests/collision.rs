use platformer_core::collider::Collider;
use platformer_core::physics::{
    apply_gravity, apply_velocity, displace, fixed_tick, increment_frame_counter,
    snap_transform_to_position, FallSpeed, FrameCounter, Gravity, Position, Transform, Velocity,
};
use platformer_core::vector::Vector2;

fn floor() -> Collider {
    // A flat floor: outward normal straight up, centred at (0, -200),
    // spanning 400 units.
    Collider {
        centre: Vector2 { x: 0, y: -200 },
        normal: Vector2 { x: 0, y: 1 },
        breadth: 400,
    }
}

#[test]
fn vector_arithmetic_exact_values() {
    let a = Vector2::new(3, -4);
    let b = Vector2::new(10, 2);
    assert_eq!(a.add(b), Vector2 { x: 13, y: -2 });
    assert_eq!(a.sub(b), Vector2 { x: -7, y: -6 });
    assert_eq!(a.scale(-2), Vector2 { x: -6, y: 8 });
    assert_eq!(a.dot(b), 22);
    assert_eq!(a.norm_sq(), 25);
}

#[test]
fn pushback_on_downward_crossing() {
    // Crossing the floor's plane at t = 0.5: the pushback cancels the
    // portion of travel beyond the contact plane, (t - 1) * (d·n) * n.
    let c = floor();
    let p = Vector2 { x: 0, y: -150 };
    let d = Vector2 { x: 0, y: -100 };
    assert_eq!(c.get_pushback(&p, &d), Some(Vector2 { x: 0, y: 50 }));
}

#[test]
fn pushback_is_parallel_to_normal() {
    // A slanted wall: whatever the collision, the pushback is an integer
    // multiple of the normal.
    let c = Collider {
        centre: Vector2 { x: 0, y: 0 },
        normal: Vector2 { x: 1, y: 1 },
        breadth: 100,
    };
    let p = Vector2 { x: 10, y: 10 };
    let d = Vector2 { x: -15, y: -15 };
    let v = c.get_pushback(&p, &d).expect("head-on motion must collide");
    assert_eq!(v.x, v.y);
    assert_eq!(v, Vector2 { x: 10, y: 10 });
}

#[test]
fn moving_away_never_collides() {
    let c = floor();
    let p = Vector2 { x: 0, y: -150 };
    // Moving away from the front face.
    assert_eq!(c.get_pushback(&p, &Vector2 { x: 0, y: 100 }), None);
    // Moving parallel to the surface: denominator exactly zero.
    assert_eq!(c.get_pushback(&p, &Vector2 { x: 25, y: 0 }), None);
    // Zero displacement is parallel motion too.
    assert_eq!(c.get_pushback(&p, &Vector2 { x: 0, y: 0 }), None);
}

#[test]
fn crossing_outside_tick_travel_ignored() {
    let c = floor();
    // The plane lies beyond this tick's travel: t > 1.
    let p = Vector2 { x: 0, y: -100 };
    assert_eq!(c.get_pushback(&p, &Vector2 { x: 0, y: -50 }), None);
    // The plane lies behind the motion: t < 0.
    let below = Vector2 { x: 0, y: -250 };
    assert_eq!(c.get_pushback(&below, &Vector2 { x: 0, y: -50 }), None);
}

#[test]
fn boundary_just_outside_breadth_not_stopped() {
    // breadth / 2 = 200 from centre.x = 0: at x = 201 the crossing misses
    // the segment's finite extent.
    let c = floor();
    let p = Vector2 { x: 201, y: -150 };
    let d = Vector2 { x: 0, y: -100 };
    assert_eq!(c.get_pushback(&p, &d), None);
}

#[test]
fn boundary_exactly_at_breadth_stopped() {
    // At x = 200 the contact point is exactly breadth / 2 from the centre,
    // which still counts as a hit.
    let c = floor();
    let p = Vector2 { x: 200, y: -150 };
    let d = Vector2 { x: 0, y: -100 };
    assert_eq!(c.get_pushback(&p, &d), Some(Vector2 { x: 0, y: 50 }));
}

#[test]
fn displace_zero_displacement_unchanged() {
    let mut pos = Position(Vector2 { x: 7, y: -150 });
    let colliders = vec![floor()];
    displace(&mut pos, &Vector2 { x: 0, y: 0 }, &colliders);
    assert_eq!(pos.0, Vector2 { x: 7, y: -150 });
}

#[test]
fn displace_no_colliders_moves_freely() {
    let mut pos = Position(Vector2 { x: 1, y: 2 });
    let colliders: Vec<Collider> = vec![];
    displace(&mut pos, &Vector2 { x: 3, y: -5 }, &colliders);
    assert_eq!(pos.0, Vector2 { x: 4, y: -3 });
}

#[test]
fn displace_rests_on_floor() {
    // The resting invariant: a downward crossing within the breadth is
    // corrected to land exactly on the surface.
    let mut pos = Position(Vector2 { x: 0, y: -150 });
    let colliders = vec![floor()];
    displace(&mut pos, &Vector2 { x: 0, y: -100 }, &colliders);
    assert_eq!(pos.0, Vector2 { x: 0, y: -200 });

    // Breadth-interior x: same resting height, x unchanged.
    let mut pos = Position(Vector2 { x: 150, y: -150 });
    displace(&mut pos, &Vector2 { x: 0, y: -100 }, &colliders);
    assert_eq!(pos.0, Vector2 { x: 150, y: -200 });
}

#[test]
fn displace_first_collider_in_order_wins() {
    // Two overlapping floors; the first in iteration order is applied even
    // though the second is nearer — a deliberate simplification of the
    // resolver, not nearest-surface resolution.
    let lower = floor();
    let upper = Collider {
        centre: Vector2 { x: 0, y: -100 },
        normal: Vector2 { x: 0, y: 1 },
        breadth: 400,
    };
    let mut pos = Position(Vector2 { x: 0, y: 0 });
    let colliders = vec![lower, upper];
    displace(&mut pos, &Vector2 { x: 0, y: -300 }, &colliders);
    assert_eq!(pos.0.y, -200);
}

#[test]
fn gravity_accumulates_and_clamps() {
    let mut v = Velocity(Vector2 { x: 5, y: 0 });
    let g = Gravity(1);
    let f = FallSpeed(100);
    for _ in 0..150 {
        apply_gravity(&mut v, &g, &f);
        assert!(v.0.y >= -100);
        assert_eq!(v.0.x, 5);
    }
    // 150 ticks at gravity 1 would reach -150 unclamped; the cap holds it
    // at exactly -fall_speed.
    assert_eq!(v.0.y, -100);
}

#[test]
fn gravity_clamps_in_single_large_step() {
    let mut v = Velocity(Vector2 { x: 0, y: -95 });
    apply_gravity(&mut v, &Gravity(10), &FallSpeed(100));
    assert_eq!(v.0.y, -100);
}

#[test]
fn apply_velocity_uses_velocity_as_displacement() {
    let mut pos = Position(Vector2 { x: 0, y: -150 });
    let colliders = vec![floor()];
    apply_velocity(&mut pos, &Velocity(Vector2 { x: 0, y: -100 }), &colliders);
    assert_eq!(pos.0, Vector2 { x: 0, y: -200 });
}

#[test]
fn transform_snaps_to_position() {
    let mut t = Transform { x: 99, y: 99 };
    snap_transform_to_position(&mut t, &Position(Vector2 { x: -3, y: 42 }));
    assert_eq!((t.x, t.y), (-3, 42));
}

#[test]
fn frame_counter_increments() {
    let mut c = FrameCounter(6);
    increment_frame_counter(&mut c);
    assert_eq!(c.0, 7);
}

#[test]
fn free_fall_then_lands_and_stays() {
    // An object falls freely above the floor, snaps to y = -200 on the tick
    // whose travel crosses the plane, and further downward velocity is
    // absorbed on every later tick.
    let mut pos = Position(Vector2 { x: 0, y: 0 });
    let mut vel = Velocity(Vector2 { x: 0, y: 0 });
    let mut tf = Transform { x: 0, y: 0 };
    let mut fc = FrameCounter(0);
    let g = Gravity(1);
    let f = FallSpeed(100);
    let colliders = vec![floor()];

    let mut landed_at: Option<u32> = None;
    for tick in 1..=60u32 {
        fixed_tick(&mut pos, &mut vel, &mut tf, &mut fc, &g, &f, &colliders);
        assert_eq!(fc.0, tick);
        assert_eq!((tf.x, tf.y), (pos.0.x, pos.0.y));
        assert!(pos.0.y >= -200);
        if landed_at.is_none() && pos.0.y == -200 {
            landed_at = Some(tick);
        }
        if landed_at.is_some() {
            // Once resting, the position never integrates below the floor.
            assert_eq!(pos.0.y, -200);
        }
    }
    // After k ticks of free fall, y = -k(k+1)/2; the plane at -200 is first
    // crossed during tick 20.
    assert_eq!(landed_at, Some(20));
    // Velocity keeps integrating down to the clamp even while resting.
    assert_eq!(vel.0.y, -60);
}
