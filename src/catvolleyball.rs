use vstd::prelude::*;

use crate::bounce::{bounced, BounceSystem};
use crate::move_ball::{integrate, moved, MoveBallsSystem, GRAVITY_ACCELERATION, MAX_DT};
use crate::winner::{scored_outcome, WinnerSystem};

verus! {

/// Micro-pixels in one pixel.
pub const PIXEL: i64 = 1_000_000;

/// One pixel per second, in micro-pixels per millisecond.
pub const PIXEL_PER_SECOND: i64 = 1_000;

/// Bound on the magnitude of every coordinate and velocity component (2^40).
pub const LIMIT: i64 = 1_099_511_627_776;

/// Paddle height: 32 pixels.
pub const PLAYER_HEIGHT: i64 = 32_000_000;

/// Paddle width: 32 pixels.
pub const PLAYER_WIDTH: i64 = 32_000_000;

/// Arena height: 500 pixels.
pub const ARENA_HEIGHT: i64 = 500_000_000;

/// Arena width: 500 pixels.
pub const ARENA_WIDTH: i64 = 500_000_000;

/// Horizontal serve velocity: 60 pixels per second.
pub const BALL_VELOCITY_X: i64 = 60_000;

/// Vertical serve velocity: 50 pixels per second downwards. The ball gets it
/// again each time it is put back in play after a point.
pub const BALL_VELOCITY_Y: i64 = -50_000;

/// Ball radius: 16 pixels.
pub const BALL_RADIUS: i64 = 16_000_000;

/// Upper bound of each side's score.
pub const MAX_SCORE: i32 = 999;

/// A pair of integer coordinates: a position or a velocity.
#[derive(Clone, Copy, Debug, PartialEq, Eq, Structural)]
pub struct Vector2 {
    pub x: i64,
    pub y: i64,
}

pub open spec fn within_limit(v: int) -> bool {
    -LIMIT <= v <= LIMIT
}

impl Vector2 {
    pub open spec fn in_range(self) -> bool {
        within_limit(self.x as int) && within_limit(self.y as int)
    }
}

/// A configuration that cannot describe a playable match.
#[derive(Clone, Copy, Debug, PartialEq, Eq, Structural)]
pub enum ConfigError {
    /// A side of the arena is not positive, or exceeds `LIMIT`.
    ArenaSize,
    /// The ball's radius is not positive, or a value of the ball exceeds `LIMIT`.
    BallOutOfRange,
    /// A paddle dimension is negative, or a value of the paddle exceeds `LIMIT`.
    PaddleOutOfRange,
}

/// The rectangle the ball plays in, from `(0, 0)` to `(width, height)`.
#[derive(Clone, Copy, Debug, PartialEq, Eq, Structural)]
pub struct Arena {
    pub width: i64,
    pub height: i64,
}

pub open spec fn arena_size_ok(width: int, height: int) -> bool {
    0 < width <= LIMIT && 0 < height <= LIMIT
}

impl Arena {
    pub open spec fn wf(self) -> bool {
        arena_size_ok(self.width as int, self.height as int)
    }

    /// An arena of the given size; both sides must be positive.
    pub fn new(width: i64, height: i64) -> (r: Result<Arena, ConfigError>)
        ensures
            arena_size_ok(width as int, height as int) <==> r is Ok,
            r is Ok ==> r->Ok_0 == (Arena { width, height }),
            r is Err ==> r->Err_0 == ConfigError::ArenaSize,
    {
        if 0 < width && width <= LIMIT && 0 < height && height <= LIMIT {
            Ok(Arena { width, height })
        } else {
            Err(ConfigError::ArenaSize)
        }
    }
}

/// The ball: the position of its centre, its velocity and its radius.
#[derive(Clone, Copy, Debug, PartialEq, Eq, Structural)]
pub struct Ball {
    pub position: Vector2,
    pub velocity: Vector2,
    pub radius: i64,
}

pub open spec fn ball_ok(position: Vector2, velocity: Vector2, radius: int) -> bool {
    position.in_range() && velocity.in_range() && 0 < radius <= LIMIT
}

impl Ball {
    /// The ball's values are within the bounds that the systems accept.
    pub open spec fn in_range(self) -> bool {
        ball_ok(self.position, self.velocity, self.radius as int)
    }

    /// A ball with a positive radius and all values within `LIMIT`.
    pub fn new(position: Vector2, velocity: Vector2, radius: i64) -> (r: Result<Ball, ConfigError>)
        ensures
            ball_ok(position, velocity, radius as int) <==> r is Ok,
            r is Ok ==> r->Ok_0 == (Ball { position, velocity, radius }),
            r is Err ==> r->Err_0 == ConfigError::BallOutOfRange,
    {
        let b = Ball { position, velocity, radius };
        if b.is_in_range() {
            Ok(b)
        } else {
            Err(ConfigError::BallOutOfRange)
        }
    }

    /// Whether the ball's values are within the bounds that the systems accept.
    pub fn is_in_range(&self) -> (r: bool)
        ensures
            r == self.in_range(),
    {
        -LIMIT <= self.position.x && self.position.x <= LIMIT
            && -LIMIT <= self.position.y && self.position.y <= LIMIT
            && -LIMIT <= self.velocity.x && self.velocity.x <= LIMIT
            && -LIMIT <= self.velocity.y && self.velocity.y <= LIMIT
            && 0 < self.radius && self.radius <= LIMIT
    }
}

/// The side of the net a player stands on.
#[derive(Clone, Copy, Debug, PartialEq, Eq, Structural)]
pub enum Side {
    Left,
    Right,
}

/// A paddle: its side, the position of its centre and its size.
#[derive(Clone, Copy, Debug, PartialEq, Eq, Structural)]
pub struct Player {
    pub side: Side,
    pub position: Vector2,
    pub width: i64,
    pub height: i64,
}

pub open spec fn player_ok(position: Vector2, width: int, height: int) -> bool {
    position.in_range() && 0 <= width <= LIMIT && 0 <= height <= LIMIT
}

impl Player {
    pub open spec fn wf(self) -> bool {
        player_ok(self.position, self.width as int, self.height as int)
    }

    /// A paddle of the standard size, centred at `position`.
    pub fn new(side: Side, position: Vector2) -> (r: Result<Player, ConfigError>)
        ensures
            position.in_range() <==> r is Ok,
            r is Ok ==> r->Ok_0 == (Player {
                side,
                position,
                width: PLAYER_WIDTH,
                height: PLAYER_HEIGHT,
            }),
            r is Err ==> r->Err_0 == ConfigError::PaddleOutOfRange,
    {
        Player::with_size(side, position, PLAYER_WIDTH, PLAYER_HEIGHT)
    }

    /// A paddle of the given size, centred at `position`.
    pub fn with_size(side: Side, position: Vector2, width: i64, height: i64) -> (r: Result<
        Player,
        ConfigError,
    >)
        ensures
            player_ok(position, width as int, height as int) <==> r is Ok,
            r is Ok ==> r->Ok_0 == (Player { side, position, width, height }),
            r is Err ==> r->Err_0 == ConfigError::PaddleOutOfRange,
    {
        if -LIMIT <= position.x && position.x <= LIMIT && -LIMIT <= position.y && position.y
            <= LIMIT && 0 <= width && width <= LIMIT && 0 <= height && height <= LIMIT {
            Ok(Player { side, position, width, height })
        } else {
            Err(ConfigError::PaddleOutOfRange)
        }
    }
}

/// The two sides' scores, each between 0 and `MAX_SCORE`.
#[derive(Clone, Copy, Debug, Default, PartialEq, Eq, Structural)]
pub struct ScoreBoard {
    pub score_left: i32,
    pub score_right: i32,
}

impl ScoreBoard {
    pub open spec fn wf(self) -> bool {
        0 <= self.score_left <= MAX_SCORE && 0 <= self.score_right <= MAX_SCORE
    }

    /// A score board at nil all.
    pub fn new() -> (r: ScoreBoard)
        ensures
            r.score_left == 0,
            r.score_right == 0,
    {
        ScoreBoard { score_left: 0, score_right: 0 }
    }
}

/// The scores as the display shows them: the left player's and the right
/// player's.
#[derive(Clone, Copy, Debug, PartialEq, Eq, Structural)]
pub struct ScoreText {
    pub p1_score: i32,
    pub p2_score: i32,
}

impl ScoreText {
    /// The display agrees with the score board.
    pub open spec fn shows(self, scores: ScoreBoard) -> bool {
        self.p1_score == scores.score_left && self.p2_score == scores.score_right
    }
}

/// The ball in the middle of the arena, with the serve's velocity.
fn initialize_ball() -> (ball: Ball)
    ensures
        ball == (Ball {
            position: Vector2 { x: (ARENA_WIDTH / 2) as i64, y: (ARENA_HEIGHT / 2) as i64 },
            velocity: Vector2 { x: BALL_VELOCITY_X, y: BALL_VELOCITY_Y },
            radius: BALL_RADIUS,
        }),
        ball.in_range(),
{
    Ball {
        position: Vector2 { x: (ARENA_WIDTH / 2) as i64, y: (ARENA_HEIGHT / 2) as i64 },
        velocity: Vector2 { x: BALL_VELOCITY_X, y: BALL_VELOCITY_Y },
        radius: BALL_RADIUS,
    }
}

/// The left paddle at the left wall and the right one at the right wall,
/// both standing on the ground.
fn initialize_players() -> (players: Vec<Player>)
    ensures
        players@ == seq![
            Player {
                side: Side::Left,
                position: Vector2 { x: (PLAYER_WIDTH / 2) as i64, y: (PLAYER_HEIGHT / 2) as i64 },
                width: PLAYER_WIDTH,
                height: PLAYER_HEIGHT,
            },
            Player {
                side: Side::Right,
                position: Vector2 {
                    x: (ARENA_WIDTH - PLAYER_WIDTH / 2) as i64,
                    y: (PLAYER_HEIGHT / 2) as i64,
                },
                width: PLAYER_WIDTH,
                height: PLAYER_HEIGHT,
            },
        ],
{
    let y = PLAYER_HEIGHT / 2;
    let left = Player {
        side: Side::Left,
        position: Vector2 { x: PLAYER_WIDTH / 2, y },
        width: PLAYER_WIDTH,
        height: PLAYER_HEIGHT,
    };
    let right = Player {
        side: Side::Right,
        position: Vector2 { x: ARENA_WIDTH - PLAYER_WIDTH / 2, y },
        width: PLAYER_WIDTH,
        height: PLAYER_HEIGHT,
    };
    let mut players: Vec<Player> = Vec::new();
    players.push(left);
    players.push(right);
    players
}

/// A score board at nil all and a display that shows it.
fn initialize_scoreboard() -> (r: (ScoreBoard, ScoreText))
    ensures
        r.0.score_left == 0,
        r.0.score_right == 0,
        r.1.shows(r.0),
{
    let scores = ScoreBoard::new();
    (scores, ScoreText { p1_score: 0, p2_score: 0 })
}

/// A sound the audio layer is asked to play.
#[derive(Clone, Copy, Debug, PartialEq, Eq, Structural)]
pub enum SoundEvent {
    Bounce,
    Score,
}

/// What happened during one tick: how many bounces, and which side scored.
#[derive(Clone, Copy, Debug)]
pub struct TickEvents {
    pub bounces: u32,
    pub scored: Option<Side>,
}

impl TickEvents {
    /// The sounds of the tick: one bounce per bounce, then a score sound if a
    /// side scored.
    pub fn sounds(&self) -> (r: Vec<SoundEvent>)
        ensures
            r.len() == self.bounces + if self.scored is Some {
                1int
            } else {
                0int
            },
            forall|i: int| 0 <= i < self.bounces ==> r[i] == SoundEvent::Bounce,
            self.scored is Some ==> r[self.bounces as int] == SoundEvent::Score,
    {
        let mut r: Vec<SoundEvent> = Vec::new();
        let mut i: u32 = 0;
        while i < self.bounces
            invariant
                i <= self.bounces,
                r.len() == i,
                forall|k: int| 0 <= k < i ==> r[k] == SoundEvent::Bounce,
            decreases self.bounces - i,
        {
            r.push(SoundEvent::Bounce);
            i = i + 1;
        }
        if self.scored.is_some() {
            r.push(SoundEvent::Score);
        }
        r
    }
}

/// A match: the arena, the ball, the paddles and the scores.
pub struct CatVolleyBall {
    pub arena: Arena,
    pub ball: Ball,
    pub players: Vec<Player>,
    pub scores: ScoreBoard,
    pub score_text: ScoreText,
}

impl CatVolleyBall {
    pub open spec fn wf(&self) -> bool {
        &&& self.arena.wf()
        &&& forall|i: int| 0 <= i < self.players.len() ==> (#[trigger] self.players[i]).wf()
        &&& self.scores.wf()
        &&& self.score_text.shows(self.scores)
    }

    /// A match at its start: the standard arena, the ball in the middle with
    /// the serve's velocity, a paddle at each wall and no points.
    pub fn on_start() -> (game: CatVolleyBall)
        ensures
            game.wf(),
            game.arena == (Arena { width: ARENA_WIDTH, height: ARENA_HEIGHT }),
            game.ball == (Ball {
                position: Vector2 { x: (ARENA_WIDTH / 2) as i64, y: (ARENA_HEIGHT / 2) as i64 },
                velocity: Vector2 { x: BALL_VELOCITY_X, y: BALL_VELOCITY_Y },
                radius: BALL_RADIUS,
            }),
            game.players.len() == 2,
            game.players[0].side == Side::Left,
            game.players[1].side == Side::Right,
            game.scores.score_left == 0,
            game.scores.score_right == 0,
    {
        let arena = Arena { width: ARENA_WIDTH, height: ARENA_HEIGHT };
        let ball = initialize_ball();
        let players = initialize_players();
        let (scores, score_text) = initialize_scoreboard();
        CatVolleyBall { arena, ball, players, scores, score_text }
    }

    /// Whether a tick of `dt` milliseconds keeps the ball within the bounds
    /// the systems accept.
    pub fn can_tick(&self, dt: i64) -> (r: bool)
        ensures
            r == (0 <= dt <= MAX_DT && self.ball.in_range() && moved(
                self.ball,
                dt as int,
                GRAVITY_ACCELERATION as int,
            ).in_range()),
    {
        if dt < 0 || dt > MAX_DT || !self.ball.is_in_range() {
            return false;
        }
        let mut next = self.ball;
        integrate(&mut next, dt, GRAVITY_ACCELERATION);
        next.is_in_range()
    }

    /// One tick of `dt` milliseconds: the ball moves, then bounces, then
    /// scores, in that order.
    pub fn tick(&mut self, dt: i64) -> (events: TickEvents)
        requires
            old(self).wf(),
            0 <= dt <= MAX_DT,
            old(self).ball.in_range(),
            moved(old(self).ball, dt as int, GRAVITY_ACCELERATION as int).in_range(),
        ensures
            final(self).wf(),
            final(self).arena == old(self).arena,
            final(self).players@ == old(self).players@,
            exists|mid: Ball|
                #[trigger] bounced(
                    moved(old(self).ball, dt as int, GRAVITY_ACCELERATION as int),
                    old(self).players@,
                    old(self).arena,
                    mid,
                    events.bounces as int,
                ) && scored_outcome(
                    mid,
                    old(self).arena,
                    old(self).scores,
                    final(self).ball,
                    final(self).scores,
                    events.scored,
                ),
    {
        let mut mover = MoveBallsSystem;
        let mut bouncer = BounceSystem;
        let mut winner = WinnerSystem;
        mover.run(&mut self.ball, dt);
        let bounces = bouncer.run(&mut self.ball, &self.players, &self.arena);
        let ghost mid = self.ball;
        assert(bounced(
            moved(old(self).ball, dt as int, GRAVITY_ACCELERATION as int),
            old(self).players@,
            old(self).arena,
            mid,
            bounces as int,
        ));
        let scored = winner.run(&mut self.ball, &self.arena, &mut self.scores, &mut self.score_text);
        assert(scored_outcome(mid, self.arena, old(self).scores, self.ball, self.scores, scored));
        let events = TickEvents { bounces, scored };
        assert(bounced(
            moved(old(self).ball, dt as int, GRAVITY_ACCELERATION as int),
            old(self).players@,
            old(self).arena,
            mid,
            events.bounces as int,
        ) && scored_outcome(
            mid,
            old(self).arena,
            old(self).scores,
            self.ball,
            self.scores,
            events.scored,
        ));
        events
    }
}

} // verus!
