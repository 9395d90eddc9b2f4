use vstd::prelude::*;

use crate::catvolleyball::{Arena, Ball, Player, Vector2, LIMIT};
use crate::random::random_in;
use crate::winner::{scorable, MAX_SERVE_SPEED};

verus! {

/// Smallest factor, in thousandths, by which a paddle rescales the horizontal speed.
pub const DEFLECT_MIN: i64 = 600;

/// Bound (excluded), in thousandths, of the factor by which a paddle rescales
/// the horizontal speed.
pub const DEFLECT_MAX: i64 = 3000;

pub open spec fn abs(v: int) -> int {
    if v < 0 {
        -v
    } else {
        v
    }
}

/// The ball rests on or below the ground and is falling.
pub open spec fn hits_bottom(ball: Ball) -> bool {
    ball.position.y <= ball.radius && ball.velocity.y < 0
}

/// The ball reaches the ceiling and is rising.
pub open spec fn hits_top(ball: Ball, arena: Arena) -> bool {
    ball.position.y >= arena.height - ball.radius && ball.velocity.y > 0
}

/// The ball reaches the left wall and moves left.
pub open spec fn hits_left(ball: Ball) -> bool {
    ball.position.x <= ball.radius && ball.velocity.x < 0
}

/// The ball reaches the right wall and moves right.
pub open spec fn hits_right(ball: Ball, arena: Arena) -> bool {
    ball.position.x >= arena.width - ball.radius && ball.velocity.x > 0
}

pub open spec fn bounces_vertically(ball: Ball, arena: Arena) -> bool {
    hits_bottom(ball) || hits_top(ball, arena)
}

pub open spec fn bounces_horizontally(ball: Ball, arena: Arena) -> bool {
    hits_left(ball) || hits_right(ball, arena)
}

/// The velocity after the walls: each axis is reflected when the ball reaches
/// a wall of that axis while moving towards it.
pub open spec fn wall_velocity(ball: Ball, arena: Arena) -> Vector2 {
    Vector2 {
        x: if bounces_horizontally(ball, arena) {
            -ball.velocity.x
        } else {
            ball.velocity.x as int
        } as i64,
        y: if bounces_vertically(ball, arena) {
            -ball.velocity.y
        } else {
            ball.velocity.y as int
        } as i64,
    }
}

/// How many walls the ball bounces off: one per reflected axis.
pub open spec fn wall_bounces(ball: Ball, arena: Arena) -> int {
    (if bounces_vertically(ball, arena) {
        1int
    } else {
        0int
    }) + (if bounces_horizontally(ball, arena) {
        1int
    } else {
        0int
    })
}

/// The height of the paddle's hitting surface.
pub open spec fn surface(player: Player) -> int {
    player.position.y + player.height
}

pub open spec fn min(a: int, b: int) -> int {
    if a <= b {
        a
    } else {
        b
    }
}

/// The ball's centre lies in the paddle's rectangle widened by the radius on
/// both sides, at or below the paddle's surface. Horizontal bounds are
/// doubled so that half the paddle's width stays exact.
pub open spec fn over_paddle(ball: Ball, player: Player) -> bool {
    2 * player.position.x - player.width - 2 * ball.radius <= 2 * ball.position.x
        <= 2 * player.position.x + player.width + 2 * ball.radius
        && ball.position.y <= min(surface(player), surface(player) + player.height)
}

/// The horizontal velocity after a paddle hit with factor `f` thousandths:
/// `-|vx| * f / 1000`, the magnitude rounded down.
pub open spec fn paddle_vx(vx: int, f: int) -> int {
    -((abs(vx) * f) / 1000)
}

/// `vx_new` is what a paddle hit makes of `vx` for some factor it may draw.
pub open spec fn deflected(vx: int, vx_new: int) -> bool {
    exists|f: int| #![trigger paddle_vx(vx, f)]
        DEFLECT_MIN <= f < DEFLECT_MAX && vx_new == paddle_vx(vx, f)
}

/// Some paddle of `players` lies under the ball.
pub open spec fn over_some_paddle(ball: Ball, players: Seq<Player>) -> bool {
    exists|i: int| 0 <= i < players.len() && #[trigger] over_paddle(ball, players[i])
}

/// `after` and `bounces` are a possible outcome of one collision pass on
/// `before`: the walls reflect the velocity first; then, if the ball is
/// falling and over a paddle, its vertical velocity is reflected and its
/// horizontal one deflected. Every reflection counts one bounce.
pub open spec fn bounced(
    before: Ball,
    players: Seq<Player>,
    arena: Arena,
    after: Ball,
    bounces: int,
) -> bool {
    let v = wall_velocity(before, arena);
    &&& after.position == before.position
    &&& after.radius == before.radius
    &&& if v.y < 0 && over_some_paddle(before, players) {
        &&& after.velocity.y == -v.y
        &&& deflected(v.x as int, after.velocity.x as int)
        &&& bounces == wall_bounces(before, arena) + 1
    } else {
        &&& after.velocity == v
        &&& bounces == wall_bounces(before, arena)
    }
}

/// Whether `x` lies in `[left, right]` and `y` lies at or below both `top` and
/// `bottom`.
pub fn point_in_rect(x: i64, y: i64, left: i64, right: i64, top: i64, bottom: i64) -> (r: bool)
    ensures
        r == (left <= x <= right && y <= bottom && y <= top),
{
    x >= left && x <= right && y <= bottom && y <= top
}

/// Whether the ball lies over the paddle.
pub fn is_over_paddle(ball: &Ball, player: &Player) -> (r: bool)
    requires
        ball.in_range(),
        player.wf(),
    ensures
        r == over_paddle(*ball, *player),
{
    let top = player.position.y + player.height;
    point_in_rect(
        2 * ball.position.x,
        ball.position.y,
        2 * player.position.x - player.width - 2 * ball.radius,
        2 * player.position.x + player.width + 2 * ball.radius,
        top + player.height,
        top,
    )
}

/// Reflects the ball off the arena's walls and returns how many walls it
/// bounced off.
pub fn bounce_off_walls(ball: &mut Ball, arena: &Arena) -> (bounces: u32)
    requires
        old(ball).in_range(),
        arena.wf(),
    ensures
        final(ball).position == old(ball).position,
        final(ball).radius == old(ball).radius,
        final(ball).velocity == wall_velocity(*old(ball), *arena),
        bounces == wall_bounces(*old(ball), *arena),
        final(ball).in_range(),
{
    let mut bounces: u32 = 0;
    if ball.position.y <= ball.radius && ball.velocity.y < 0 {
        ball.velocity.y = -ball.velocity.y;
        bounces = bounces + 1;
    } else if ball.position.y >= arena.height - ball.radius && ball.velocity.y > 0 {
        ball.velocity.y = -ball.velocity.y;
        bounces = bounces + 1;
    }
    if ball.position.x <= ball.radius && ball.velocity.x < 0 {
        ball.velocity.x = -ball.velocity.x;
        bounces = bounces + 1;
    } else if ball.position.x >= arena.width - ball.radius && ball.velocity.x > 0 {
        ball.velocity.x = -ball.velocity.x;
        bounces = bounces + 1;
    }
    bounces
}

/// Bounces a falling ball off the paddle, rescaling its horizontal velocity
/// to `-|vx| * factor / 1000`; returns whether it bounced. A rising ball, or
/// one away from the paddle, is left as it is.
pub fn bounce_off_paddle(ball: &mut Ball, player: &Player, factor: i64) -> (hit: bool)
    requires
        old(ball).in_range(),
        player.wf(),
        DEFLECT_MIN <= factor < DEFLECT_MAX,
    ensures
        hit == (over_paddle(*old(ball), *player) && old(ball).velocity.y < 0),
        final(ball).position == old(ball).position,
        final(ball).radius == old(ball).radius,
        hit ==> final(ball).velocity.y == -old(ball).velocity.y,
        hit ==> final(ball).velocity.x == paddle_vx(old(ball).velocity.x as int, factor as int),
        !hit ==> final(ball).velocity == old(ball).velocity,
        scorable(*final(ball)),
{
    if is_over_paddle(ball, player) && ball.velocity.y < 0 {
        ball.velocity.y = -ball.velocity.y;
        let vx = ball.velocity.x;
        let speed: i64 = if vx < 0 {
            -vx
        } else {
            vx
        };
        assert(0 <= speed * factor <= LIMIT * DEFLECT_MAX) by (nonlinear_arith)
            requires
                0 <= speed <= LIMIT,
                0 <= factor <= DEFLECT_MAX,
        ;
        assert((speed * factor) / 1000 <= MAX_SERVE_SPEED) by (nonlinear_arith)
            requires
                0 <= speed * factor <= LIMIT * DEFLECT_MAX,
        ;
        ball.velocity.x = -((speed * factor) / 1000);
        true
    } else {
        false
    }
}

/// Resolves the collisions of the ball with the walls and the paddles.
pub struct BounceSystem;

impl BounceSystem {
    /// One collision pass; returns how many bounces it made. The factor of a
    /// paddle hit is drawn at random.
    pub fn run(&mut self, ball: &mut Ball, players: &Vec<Player>, arena: &Arena) -> (bounces: u32)
        requires
            old(ball).in_range(),
            arena.wf(),
            forall|i: int| 0 <= i < players.len() ==> (#[trigger] players[i]).wf(),
        ensures
            bounced(*old(ball), players@, *arena, *final(ball), bounces as int),
            scorable(*final(ball)),
    {
        let ghost before = *old(ball);
        let mut bounces = bounce_off_walls(ball, arena);
        let ghost v = wall_velocity(before, *arena);
        let ghost walls = bounces;
        let mut i: usize = 0;
        while i < players.len()
            invariant
                arena.wf(),
                forall|k: int| 0 <= k < players.len() ==> (#[trigger] players[k]).wf(),
                i <= players.len(),
                v == wall_velocity(before, *arena),
                walls == wall_bounces(before, *arena),
                ball.position == before.position,
                ball.radius == before.radius,
                if v.y < 0 && over_some_paddle(before, players@.take(i as int)) {
                    &&& ball.velocity.y == -v.y
                    &&& deflected(v.x as int, ball.velocity.x as int)
                    &&& bounces == walls + 1
                    &&& scorable(*ball)
                } else {
                    &&& ball.velocity == v
                    &&& ball.in_range()
                    &&& bounces == walls
                },
            decreases players.len() - i,
        {
            let player = &players[i];
            proof {
                assert(players@.take(i + 1)[i as int] == *player);
                assert(over_paddle(*ball, *player) == over_paddle(before, *player));
            }
            if ball.velocity.y < 0 && is_over_paddle(ball, player) {
                let factor = random_in(DEFLECT_MIN, DEFLECT_MAX);
                bounce_off_paddle(ball, player, factor);
                assert(paddle_vx(v.x as int, factor as int) == ball.velocity.x);
                bounces = bounces + 1;
            }
            proof {
                let seen = players@.take(i as int);
                let next = players@.take(i + 1);
                if over_some_paddle(before, next) {
                    let j = choose|j: int| 0 <= j < next.len() && #[trigger] over_paddle(before, next[j]);
                    if j < i {
                        assert(seen[j] == next[j]);
                    }
                }
                if v.y < 0 && over_paddle(before, *player) {
                    assert(over_paddle(before, next[i as int]));
                }
            }
            i = i + 1;
        }
        assert(players@.take(players.len() as int) =~= players@);
        bounces
    }
}

/// A falling ball on the ground, away from the side walls, leaves one pass
/// with its vertical velocity negated and its horizontal one kept; the next
/// pass finds it rising and does not bounce it off the ground again.
pub proof fn lemma_ground_bounce_reflects(
    ball: Ball,
    players: Seq<Player>,
    arena: Arena,
    after: Ball,
    bounces: int,
)
    requires
        ball.in_range(),
        hits_bottom(ball),
        !bounces_horizontally(ball, arena),
        bounced(ball, players, arena, after, bounces),
    ensures
        after.velocity.y == -ball.velocity.y,
        after.velocity.x == ball.velocity.x,
        !hits_bottom(after),
{
}

/// A ball that is not falling after the walls is left as the walls made it:
/// no paddle changes its velocity.
pub proof fn lemma_paddles_need_falling_ball(
    ball: Ball,
    players: Seq<Player>,
    arena: Arena,
    after: Ball,
    bounces: int,
)
    requires
        wall_velocity(ball, arena).y >= 0,
        bounced(ball, players, arena, after, bounces),
    ensures
        after.velocity == wall_velocity(ball, arena),
        bounces == wall_bounces(ball, arena),
{
}

} // verus!
