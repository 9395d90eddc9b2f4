use vstd::prelude::*;

use crate::catvolleyball::{
    Arena, Ball, ScoreBoard, ScoreText, Side, Vector2, BALL_VELOCITY_Y, LIMIT, MAX_SCORE,
};
use crate::random::random_in;

verus! {

/// Smallest factor, in thousandths, applied to the horizontal velocity when
/// the ball is served again.
pub const SERVE_MIN: i64 = -1000;

/// Bound (excluded), in thousandths, of the factor applied to the horizontal
/// velocity when the ball is served again.
pub const SERVE_MAX: i64 = 1000;

/// Bound on the horizontal speed a ball may have when a point is scored: a
/// paddle hit may have tripled a speed within `LIMIT`.
pub const MAX_SERVE_SPEED: i64 = 3_298_534_883_328;

/// The ball's values are within the bounds that the scoring system accepts.
pub open spec fn scorable(ball: Ball) -> bool {
    &&& ball.position.in_range()
    &&& 0 < ball.radius <= LIMIT
    &&& -MAX_SERVE_SPEED <= ball.velocity.x <= MAX_SERVE_SPEED
}

/// The ball touches the ground.
pub open spec fn touches_ground(ball: Ball) -> bool {
    ball.position.y <= ball.radius
}

/// The side that wins the point when the ball lands: the right side when it
/// lands on the left half (centre included), else the left side.
pub open spec fn scoring_side(ball: Ball, arena: Arena) -> Side {
    if 2 * ball.position.x <= arena.width {
        Side::Right
    } else {
        Side::Left
    }
}

/// One more point, stopping at `MAX_SCORE`.
pub open spec fn incremented(score: int) -> int {
    if score < MAX_SCORE {
        score + 1
    } else {
        MAX_SCORE as int
    }
}

/// The score board after a point for `side`.
pub open spec fn add_point(scores: ScoreBoard, side: Side) -> ScoreBoard {
    match side {
        Side::Left => ScoreBoard {
            score_left: incremented(scores.score_left as int) as i32,
            score_right: scores.score_right,
        },
        Side::Right => ScoreBoard {
            score_left: scores.score_left,
            score_right: incremented(scores.score_right as int) as i32,
        },
    }
}

/// The score board after a point for each side of `sides`, in order.
pub open spec fn add_points(scores: ScoreBoard, sides: Seq<Side>) -> ScoreBoard
    decreases sides.len(),
{
    if sides.len() == 0 {
        scores
    } else {
        add_point(add_points(scores, sides.drop_last()), sides.last())
    }
}

/// `v * f / 1000`, rounded towards zero.
pub open spec fn scale_milli(v: int, f: int) -> int {
    if v * f >= 0 {
        (v * f) / 1000
    } else {
        -((-(v * f)) / 1000)
    }
}

/// The centre of the arena.
pub open spec fn center(arena: Arena) -> Vector2 {
    Vector2 { x: (arena.width / 2) as i64, y: (arena.height / 2) as i64 }
}

/// The ball put back in play with factor `f` thousandths: at the arena's
/// centre, its horizontal velocity scaled by `f`, its vertical velocity the
/// serve's.
pub open spec fn served(ball: Ball, arena: Arena, f: int) -> Ball {
    Ball {
        position: center(arena),
        velocity: Vector2 {
            x: scale_milli(ball.velocity.x as int, f) as i64,
            y: BALL_VELOCITY_Y,
        },
        radius: ball.radius,
    }
}

/// `after` is the ball served again with a factor that may be drawn.
pub open spec fn served_again(before: Ball, arena: Arena, after: Ball) -> bool {
    exists|f: int| #![trigger served(before, arena, f)]
        SERVE_MIN <= f < SERVE_MAX && after == served(before, arena, f)
}

/// `after`, `scores_after` and `scored` are a possible outcome of one scoring
/// pass: a ball on the ground gives a point to the side that wins it and is
/// served again; any other ball and the scores are left as they are.
pub open spec fn scored_outcome(
    before: Ball,
    arena: Arena,
    scores_before: ScoreBoard,
    after: Ball,
    scores_after: ScoreBoard,
    scored: Option<Side>,
) -> bool {
    if touches_ground(before) {
        &&& scored == Some(scoring_side(before, arena))
        &&& scores_after == add_point(scores_before, scoring_side(before, arena))
        &&& served_again(before, arena, after)
    } else {
        &&& scored is None
        &&& scores_after == scores_before
        &&& after == before
    }
}

/// Adds one point to a score, stopping at `MAX_SCORE`.
pub fn saturating_point(score: i32) -> (r: i32)
    requires
        0 <= score <= MAX_SCORE,
    ensures
        r == incremented(score as int),
{
    if score < MAX_SCORE {
        score + 1
    } else {
        MAX_SCORE
    }
}

/// Gives `side` a point and returns its new score.
pub fn award_point(scores: &mut ScoreBoard, side: Side) -> (score: i32)
    requires
        old(scores).wf(),
    ensures
        *final(scores) == add_point(*old(scores), side),
        final(scores).wf(),
        score == match side {
            Side::Left => final(scores).score_left,
            Side::Right => final(scores).score_right,
        },
{
    match side {
        Side::Left => {
            scores.score_left = saturating_point(scores.score_left);
            scores.score_left
        },
        Side::Right => {
            scores.score_right = saturating_point(scores.score_right);
            scores.score_right
        },
    }
}

/// Puts the ball back in play at the arena's centre, its horizontal velocity
/// scaled by `factor` thousandths (rounded towards zero), its vertical
/// velocity the serve's.
pub fn serve(ball: &mut Ball, arena: &Arena, factor: i64)
    requires
        scorable(*old(ball)),
        arena.wf(),
        SERVE_MIN <= factor < SERVE_MAX,
    ensures
        *final(ball) == served(*old(ball), *arena, factor as int),
{
    let vx = ball.velocity.x;
    assert(-MAX_SERVE_SPEED * 1000 <= vx * factor <= MAX_SERVE_SPEED * 1000) by (nonlinear_arith)
        requires
            -MAX_SERVE_SPEED <= vx <= MAX_SERVE_SPEED,
            -1000 <= factor <= 1000,
    ;
    let p: i64 = vx * factor;
    let scaled: i64 = if p >= 0 {
        p / 1000
    } else {
        -((-p) / 1000)
    };
    ball.position = Vector2 { x: arena.width / 2, y: arena.height / 2 };
    ball.velocity = Vector2 { x: scaled, y: BALL_VELOCITY_Y };
}

/// Scores a point when the ball touches the ground, and serves it again.
pub struct WinnerSystem;

impl WinnerSystem {
    /// One scoring pass; returns the side that scored, if any. The display
    /// is updated with the new score, and the serve's factor is drawn at
    /// random.
    pub fn run(
        &mut self,
        ball: &mut Ball,
        arena: &Arena,
        scores: &mut ScoreBoard,
        score_text: &mut ScoreText,
    ) -> (scored: Option<Side>)
        requires
            scorable(*old(ball)),
            arena.wf(),
            old(scores).wf(),
            old(score_text).shows(*old(scores)),
        ensures
            scored_outcome(
                *old(ball),
                *arena,
                *old(scores),
                *final(ball),
                *final(scores),
                scored,
            ),
            final(scores).wf(),
            final(score_text).shows(*final(scores)),
    {
        if ball.position.y <= ball.radius {
            let side = if ball.position.x <= arena.width / 2 {
                Side::Right
            } else {
                Side::Left
            };
            let score = award_point(scores, side);
            match side {
                Side::Left => score_text.p1_score = score,
                Side::Right => score_text.p2_score = score,
            }
            let ghost before = *ball;
            let factor = random_in(SERVE_MIN, SERVE_MAX);
            serve(ball, arena, factor);
            assert(*ball == served(before, *arena, factor as int));
            Some(side)
        } else {
            None
        }
    }
}

/// However many points are scored, each score stays within `0..=MAX_SCORE`;
/// a point for a side already at `MAX_SCORE` leaves it there.
pub proof fn lemma_scores_saturate(scores: ScoreBoard, sides: Seq<Side>)
    requires
        scores.wf(),
    ensures
        add_points(scores, sides).wf(),
        scores.score_left == MAX_SCORE ==> add_point(scores, Side::Left).score_left == MAX_SCORE,
        scores.score_right == MAX_SCORE ==> add_point(scores, Side::Right).score_right
            == MAX_SCORE,
    decreases sides.len(),
{
    if sides.len() > 0 {
        lemma_scores_saturate(scores, sides.drop_last());
    }
}

/// After a point the ball stands at the arena's centre with the serve's
/// vertical velocity, whatever it was before.
pub proof fn lemma_point_recentres_ball(
    before: Ball,
    arena: Arena,
    scores_before: ScoreBoard,
    after: Ball,
    scores_after: ScoreBoard,
    scored: Option<Side>,
)
    requires
        scored_outcome(before, arena, scores_before, after, scores_after, scored),
        scored is Some,
    ensures
        after.position.x == arena.width / 2,
        after.position.y == arena.height / 2,
        after.velocity.y == BALL_VELOCITY_Y,
        after.radius == before.radius,
{
}

} // verus!
