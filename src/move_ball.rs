use vstd::prelude::*;

use crate::catvolleyball::{Ball, Vector2, LIMIT};

verus! {

/// The constant downward acceleration: 5 pixels per square second.
pub const GRAVITY_ACCELERATION: i64 = -5;

/// Longest step the integrator accepts, in milliseconds.
pub const MAX_DT: i64 = 1_048_576;

/// Bound on the magnitude of an acceleration the integrator accepts.
pub const MAX_GRAVITY: i64 = 1_048_576;

/// The inputs of one integration step are within the integrator's bounds.
pub open spec fn step_ok(ball: Ball, dt: int, gravity: int) -> bool {
    ball.in_range() && 0 <= dt <= MAX_DT && -MAX_GRAVITY <= gravity <= MAX_GRAVITY
}

/// The ball after `dt` milliseconds under the constant acceleration `gravity`:
/// the horizontal position advances by `vx * dt`, the vertical one by
/// `vy * dt + gravity * dt^2 / 2` (rounded down), and `vy` gains `gravity * dt`.
pub open spec fn moved(ball: Ball, dt: int, gravity: int) -> Ball {
    Ball {
        position: Vector2 {
            x: (ball.position.x + ball.velocity.x * dt) as i64,
            y: (ball.position.y + ball.velocity.y * dt + (gravity * dt * dt) / 2) as i64,
        },
        velocity: Vector2 { x: ball.velocity.x, y: (ball.velocity.y + gravity * dt) as i64 },
        radius: ball.radius,
    }
}

/// `floor(q / 2)`.
fn half_down(q: i64) -> (r: i64)
    ensures
        r == q as int / 2,
{
    if q >= 0 {
        q / 2
    } else {
        let m: i64 = -(q + 1);
        -(m / 2) - 1
    }
}

/// Advances the ball by `dt` milliseconds under the acceleration `gravity`.
pub fn integrate(ball: &mut Ball, dt: i64, gravity: i64)
    requires
        step_ok(*old(ball), dt as int, gravity as int),
    ensures
        *final(ball) == moved(*old(ball), dt as int, gravity as int),
        final(ball).position.x == old(ball).position.x + old(ball).velocity.x * dt,
        final(ball).position.y == old(ball).position.y + old(ball).velocity.y * dt + (gravity
            * dt * dt) / 2,
        final(ball).velocity.y == old(ball).velocity.y + gravity * dt,
{
    let vx = ball.velocity.x;
    let vy = ball.velocity.y;
    assert(-LIMIT * MAX_DT <= vx * dt <= LIMIT * MAX_DT) by (nonlinear_arith)
        requires
            -LIMIT <= vx <= LIMIT,
            0 <= dt <= MAX_DT,
    ;
    assert(-LIMIT * MAX_DT <= vy * dt <= LIMIT * MAX_DT) by (nonlinear_arith)
        requires
            -LIMIT <= vy <= LIMIT,
            0 <= dt <= MAX_DT,
    ;
    assert(-MAX_GRAVITY * MAX_DT <= gravity * dt <= MAX_GRAVITY * MAX_DT) by (nonlinear_arith)
        requires
            -MAX_GRAVITY <= gravity <= MAX_GRAVITY,
            0 <= dt <= MAX_DT,
    ;
    let gdt: i64 = gravity * dt;
    assert(-MAX_GRAVITY * MAX_DT * MAX_DT <= gdt * dt <= MAX_GRAVITY * MAX_DT * MAX_DT)
        by (nonlinear_arith)
        requires
            -MAX_GRAVITY * MAX_DT <= gdt <= MAX_GRAVITY * MAX_DT,
            0 <= dt <= MAX_DT,
    ;
    let drop: i64 = half_down(gdt * dt);
    ball.position.x = ball.position.x + vx * dt;
    ball.position.y = ball.position.y + vy * dt + drop;
    ball.velocity.y = vy + gdt;
    assert(gdt * dt == gravity * dt * dt) by (nonlinear_arith)
        requires
            gdt == gravity * dt,
    ;
}

/// With no gravity a step keeps the velocity and moves the ball by exactly
/// `velocity * dt`.
pub proof fn lemma_zero_gravity_is_uniform_motion(ball: Ball, dt: int)
    requires
        step_ok(ball, dt, 0),
    ensures
        moved(ball, dt, 0).velocity == ball.velocity,
        moved(ball, dt, 0).radius == ball.radius,
        moved(ball, dt, 0).position.x == ball.position.x + ball.velocity.x * dt,
        moved(ball, dt, 0).position.y == ball.position.y + ball.velocity.y * dt,
{
    assert(-LIMIT * MAX_DT <= ball.velocity.x * dt <= LIMIT * MAX_DT) by (nonlinear_arith)
        requires
            -LIMIT <= ball.velocity.x <= LIMIT,
            0 <= dt <= MAX_DT,
    ;
    assert(-LIMIT * MAX_DT <= ball.velocity.y * dt <= LIMIT * MAX_DT) by (nonlinear_arith)
        requires
            -LIMIT <= ball.velocity.y <= LIMIT,
            0 <= dt <= MAX_DT,
    ;
    assert(0 * dt * dt == 0) by (nonlinear_arith);
}

/// Moves the ball through one tick of `dt` milliseconds under
/// `GRAVITY_ACCELERATION`.
pub struct MoveBallsSystem;

impl MoveBallsSystem {
    pub fn run(&mut self, ball: &mut Ball, dt: i64)
        requires
            ball.in_range(),
            0 <= dt <= MAX_DT,
        ensures
            *final(ball) == moved(*old(ball), dt as int, GRAVITY_ACCELERATION as int),
    {
        integrate(ball, dt, GRAVITY_ACCELERATION);
    }
}

} // verus!
