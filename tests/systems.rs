use catvolleyball::bounce::{bounce_off_paddle, bounce_off_walls, point_in_rect};
use catvolleyball::catvolleyball::{
    ARENA_HEIGHT, ARENA_WIDTH, BALL_RADIUS, BALL_VELOCITY_Y, LIMIT, PIXEL, PIXEL_PER_SECOND,
    PLAYER_HEIGHT, PLAYER_WIDTH,
};
use catvolleyball::move_ball::{integrate, GRAVITY_ACCELERATION};
use catvolleyball::winner::{award_point, saturating_point, serve};
use catvolleyball::{
    Arena, Ball, BounceSystem, CatVolleyBall, ConfigError, MoveBallsSystem, Player, ScoreBoard,
    ScoreText, Side, SoundEvent, TickEvents, Vector2, WinnerSystem,
};

fn px(n: i64) -> i64 {
    n * PIXEL
}

fn px_per_s(n: i64) -> i64 {
    n * PIXEL_PER_SECOND
}

fn arena() -> Arena {
    Arena::new(ARENA_WIDTH, ARENA_HEIGHT).unwrap()
}

fn ball(x: i64, y: i64, vx: i64, vy: i64) -> Ball {
    Ball::new(
        Vector2 { x: px(x), y: px(y) },
        Vector2 { x: px_per_s(vx), y: px_per_s(vy) },
        px(16),
    )
    .unwrap()
}

fn paddles() -> Vec<Player> {
    CatVolleyBall::on_start().players
}

#[test]
fn top_wall_bounce_reverses_vertical_velocity() {
    let mut b = ball(250, 500, 60, 40);
    let bounces = BounceSystem.run(&mut b, &paddles(), &arena());
    assert_eq!(b.velocity, Vector2 { x: px_per_s(60), y: px_per_s(-40) });
    assert_eq!(b.position, Vector2 { x: px(250), y: px(500) });
    assert_eq!(bounces, 1);
}

#[test]
fn ground_touch_on_left_half_scores_for_right() {
    let mut b = ball(100, 16, -30, -50);
    let mut scores = ScoreBoard { score_left: 0, score_right: 0 };
    let mut text = ScoreText { p1_score: 0, p2_score: 0 };
    let scored = WinnerSystem.run(&mut b, &arena(), &mut scores, &mut text);
    assert_eq!(scored, Some(Side::Right));
    assert_eq!(scores.score_right, 1);
    assert_eq!(scores.score_left, 0);
    assert_eq!(text.p2_score, 1);
    assert_eq!(text.p1_score, 0);
    assert_eq!(b.position, Vector2 { x: px(250), y: px(250) });
    assert_eq!(b.velocity.y, px_per_s(-50));
    assert_eq!(b.velocity.y, BALL_VELOCITY_Y);
    assert!(b.velocity.x.abs() <= px_per_s(30));
}

#[test]
fn ground_touch_on_right_half_scores_for_left() {
    let mut b = ball(251, 10, 20, 5);
    let mut scores = ScoreBoard { score_left: 4, score_right: 7 };
    let mut text = ScoreText { p1_score: 4, p2_score: 7 };
    let scored = WinnerSystem.run(&mut b, &arena(), &mut scores, &mut text);
    assert_eq!(scored, Some(Side::Left));
    assert_eq!(scores, ScoreBoard { score_left: 5, score_right: 7 });
    assert_eq!(text, ScoreText { p1_score: 5, p2_score: 7 });
    assert_eq!(b.position, Vector2 { x: px(250), y: px(250) });
    assert_eq!(b.velocity.y, BALL_VELOCITY_Y);
}

#[test]
fn ball_in_the_air_scores_nothing() {
    let mut b = ball(100, 17, -30, -50);
    let before = b;
    let mut scores = ScoreBoard::new();
    let mut text = ScoreText { p1_score: 0, p2_score: 0 };
    let scored = WinnerSystem.run(&mut b, &arena(), &mut scores, &mut text);
    assert_eq!(scored, None);
    assert_eq!(b, before);
    assert_eq!(scores, ScoreBoard::new());
}

#[test]
fn right_score_saturates_at_999() {
    let mut scores = ScoreBoard::new();
    for _ in 0..999 {
        award_point(&mut scores, Side::Right);
    }
    assert_eq!(scores.score_right, 999);
    let score = award_point(&mut scores, Side::Right);
    assert_eq!(score, 999);
    assert_eq!(scores.score_right, 999);
    assert_eq!(scores.score_left, 0);
}

#[test]
fn repeated_scoring_events_stop_at_999() {
    let mut scores = ScoreBoard::new();
    let mut text = ScoreText { p1_score: 0, p2_score: 0 };
    for _ in 0..1005 {
        let mut b = ball(10, 0, 5, -5);
        WinnerSystem.run(&mut b, &arena(), &mut scores, &mut text);
        assert!(scores.score_right <= 999);
    }
    assert_eq!(scores.score_right, 999);
    assert_eq!(text.p2_score, 999);
}

#[test]
fn saturating_point_values() {
    assert_eq!(saturating_point(0), 1);
    assert_eq!(saturating_point(998), 999);
    assert_eq!(saturating_point(999), 999);
}

#[test]
fn zero_gravity_moves_uniformly() {
    let mut b = ball(100, 200, 60, -40);
    integrate(&mut b, 250, 0);
    assert_eq!(b.velocity, Vector2 { x: px_per_s(60), y: px_per_s(-40) });
    assert_eq!(b.position.x, px(100) + px_per_s(60) * 250);
    assert_eq!(b.position.y, px(200) - px_per_s(40) * 250);
    assert_eq!(b.position, Vector2 { x: px(115), y: px(190) });
}

#[test]
fn zero_step_is_a_no_op() {
    let mut b = ball(100, 200, 60, -40);
    let before = b;
    MoveBallsSystem.run(&mut b, 0);
    assert_eq!(b, before);
}

#[test]
fn gravity_step_values() {
    let mut b = Ball::new(Vector2 { x: 0, y: 1_000 }, Vector2 { x: 7, y: 0 }, 1).unwrap();
    integrate(&mut b, 10, GRAVITY_ACCELERATION);
    // -5 * 10 * 10 / 2 = -250; the vertical velocity gains -5 * 10.
    assert_eq!(b.position, Vector2 { x: 70, y: 750 });
    assert_eq!(b.velocity, Vector2 { x: 7, y: -50 });

    let mut c = Ball::new(Vector2 { x: 0, y: 0 }, Vector2 { x: 0, y: 2 }, 1).unwrap();
    MoveBallsSystem.run(&mut c, 3);
    // 2 * 3 + floor(-5 * 9 / 2) = 6 - 23
    assert_eq!(c.position.y, -17);
    assert_eq!(c.velocity.y, -13);
}

#[test]
fn ground_bounce_reflects_once() {
    let mut b = ball(250, 10, 60, -40);
    let n = bounce_off_walls(&mut b, &arena());
    assert_eq!(n, 1);
    assert_eq!(b.velocity, Vector2 { x: px_per_s(60), y: px_per_s(40) });
    let again = bounce_off_walls(&mut b, &arena());
    assert_eq!(again, 0);
    assert_eq!(b.velocity, Vector2 { x: px_per_s(60), y: px_per_s(40) });
}

#[test]
fn side_walls_bounce() {
    let mut left = ball(10, 250, -60, 0);
    assert_eq!(bounce_off_walls(&mut left, &arena()), 1);
    assert_eq!(left.velocity.x, px_per_s(60));
    let mut right = ball(490, 250, 60, 0);
    assert_eq!(bounce_off_walls(&mut right, &arena()), 1);
    assert_eq!(right.velocity.x, px_per_s(-60));
    let mut leaving = ball(490, 250, -60, 0);
    assert_eq!(bounce_off_walls(&mut leaving, &arena()), 0);
    assert_eq!(leaving.velocity.x, px_per_s(-60));
}

#[test]
fn corner_bounces_on_both_axes() {
    let mut b = ball(5, 5, -10, -20);
    assert_eq!(bounce_off_walls(&mut b, &arena()), 2);
    assert_eq!(b.velocity, Vector2 { x: px_per_s(10), y: px_per_s(20) });
}

#[test]
fn rising_ball_passes_through_paddle() {
    let player = Player::new(Side::Left, Vector2 { x: px(100), y: px(16) }).unwrap();
    let mut b = ball(100, 40, 30, 20);
    let before = b;
    assert!(!bounce_off_paddle(&mut b, &player, 1000));
    assert_eq!(b, before);
    let mut level = ball(100, 40, 30, 0);
    assert!(!bounce_off_paddle(&mut level, &player, 1000));
    assert_eq!(level.velocity, Vector2 { x: px_per_s(30), y: 0 });
}

#[test]
fn falling_ball_bounces_off_paddle() {
    let player = Player::new(Side::Right, Vector2 { x: px(100), y: px(16) }).unwrap();
    let mut b = ball(100, 40, 30, -20);
    assert!(bounce_off_paddle(&mut b, &player, 2000));
    assert_eq!(b.velocity, Vector2 { x: px_per_s(-60), y: px_per_s(20) });

    let mut c = Ball::new(Vector2 { x: px(100), y: px(40) }, Vector2 { x: -7, y: -1 }, px(16))
        .unwrap();
    assert!(bounce_off_paddle(&mut c, &player, 999));
    assert_eq!(c.velocity, Vector2 { x: -6, y: 1 });
}

#[test]
fn ball_away_from_paddle_is_not_hit() {
    let player = Player::new(Side::Left, Vector2 { x: px(100), y: px(16) }).unwrap();
    // Widened rectangle spans x in [100 - 16 - 16, 100 + 16 + 16] at or below y = 48.
    let mut above = ball(100, 49, 30, -20);
    assert!(!bounce_off_paddle(&mut above, &player, 1000));
    let mut beside = ball(133, 40, 30, -20);
    assert!(!bounce_off_paddle(&mut beside, &player, 1000));
    let mut edge = ball(132, 48, 30, -20);
    assert!(bounce_off_paddle(&mut edge, &player, 1000));
    assert_eq!(edge.velocity, Vector2 { x: px_per_s(-30), y: px_per_s(20) });
}

#[test]
fn paddle_hit_through_system_deflects_leftwards() {
    let players = paddles();
    let mut seen = std::collections::BTreeSet::new();
    for _ in 0..64 {
        let mut b = ball(16, 40, 50, -30);
        let bounces = BounceSystem.run(&mut b, &players, &arena());
        assert_eq!(bounces, 1);
        assert_eq!(b.velocity.y, px_per_s(30));
        assert!(b.velocity.x <= -(px_per_s(50) * 600 / 1000));
        assert!(b.velocity.x > -(px_per_s(50) * 3000 / 1000));
        seen.insert(b.velocity.x);
    }
    assert!(seen.len() > 1);
}

#[test]
fn serve_values() {
    let mut b = ball(100, 10, 30, -50);
    serve(&mut b, &arena(), -500);
    assert_eq!(b.position, Vector2 { x: px(250), y: px(250) });
    assert_eq!(b.velocity, Vector2 { x: px_per_s(-15), y: BALL_VELOCITY_Y });
    let mut c = Ball::new(Vector2 { x: 0, y: 0 }, Vector2 { x: -7, y: 3 }, 1).unwrap();
    serve(&mut c, &arena(), 999);
    assert_eq!(c.velocity, Vector2 { x: -6, y: BALL_VELOCITY_Y });
}

#[test]
fn serve_draws_varied_factors() {
    let mut signs = (false, false);
    for _ in 0..64 {
        let mut b = ball(100, 10, 30, -50);
        let mut scores = ScoreBoard::new();
        let mut text = ScoreText { p1_score: 0, p2_score: 0 };
        WinnerSystem.run(&mut b, &arena(), &mut scores, &mut text);
        assert!(b.velocity.x.abs() <= px_per_s(30));
        if b.velocity.x > 0 {
            signs.0 = true;
        }
        if b.velocity.x < 0 {
            signs.1 = true;
        }
    }
    assert!(signs.0 && signs.1);
}

#[test]
fn point_in_rect_bounds() {
    assert!(point_in_rect(5, 3, 0, 10, 4, 3));
    assert!(!point_in_rect(5, 4, 0, 10, 4, 3));
    assert!(!point_in_rect(11, 0, 0, 10, 4, 3));
    assert!(!point_in_rect(-1, 0, 0, 10, 4, 3));
}

#[test]
fn configuration_errors() {
    assert_eq!(Arena::new(0, 10), Err(ConfigError::ArenaSize));
    assert_eq!(Arena::new(10, -1), Err(ConfigError::ArenaSize));
    assert_eq!(Arena::new(10, 20), Ok(Arena { width: 10, height: 20 }));
    let origin = Vector2 { x: 0, y: 0 };
    assert_eq!(Ball::new(origin, origin, 0), Err(ConfigError::BallOutOfRange));
    assert_eq!(
        Ball::new(Vector2 { x: LIMIT + 1, y: 0 }, origin, 1),
        Err(ConfigError::BallOutOfRange)
    );
    assert!(Ball::new(origin, origin, BALL_RADIUS).is_ok());
    assert_eq!(
        Player::new(Side::Left, Vector2 { x: 0, y: -LIMIT - 1 }),
        Err(ConfigError::PaddleOutOfRange)
    );
    assert_eq!(
        Player::with_size(Side::Right, origin, -1, 5),
        Err(ConfigError::PaddleOutOfRange)
    );
    let p = Player::new(Side::Right, origin).unwrap();
    assert_eq!((p.width, p.height), (PLAYER_WIDTH, PLAYER_HEIGHT));
}

#[test]
fn match_starts_centred_at_nil_all() {
    let game = CatVolleyBall::on_start();
    assert_eq!(game.ball.position, Vector2 { x: px(250), y: px(250) });
    assert_eq!(game.ball.velocity, Vector2 { x: px_per_s(60), y: px_per_s(-50) });
    assert_eq!(game.ball.radius, px(16));
    assert_eq!(game.players.len(), 2);
    assert_eq!(game.players[0].position, Vector2 { x: px(16), y: px(16) });
    assert_eq!(game.players[1].position, Vector2 { x: px(484), y: px(16) });
    assert_eq!(game.scores, ScoreBoard { score_left: 0, score_right: 0 });
}

#[test]
fn tick_moves_bounces_then_scores() {
    let mut game = CatVolleyBall::on_start();
    game.ball.position = Vector2 { x: px(250), y: px(16) + 500_000 };
    game.ball.velocity = Vector2 { x: px_per_s(60), y: px_per_s(-50) };
    assert!(game.can_tick(16));
    let events = game.tick(16);
    // The ball sinks below its radius and bounces off the ground; it has
    // moved 0.96 px past the centre, so the left side scores.
    assert_eq!(events.bounces, 1);
    assert_eq!(events.scored, Some(Side::Left));
    assert_eq!(events.sounds(), vec![SoundEvent::Bounce, SoundEvent::Score]);
    assert_eq!(game.scores, ScoreBoard { score_left: 1, score_right: 0 });
    assert_eq!(game.score_text, ScoreText { p1_score: 1, p2_score: 0 });
    assert_eq!(game.ball.position, Vector2 { x: px(250), y: px(250) });
    assert_eq!(game.ball.velocity.y, BALL_VELOCITY_Y);
    assert!(game.ball.velocity.x.abs() <= px_per_s(60));
}

#[test]
fn tick_in_the_air_only_moves() {
    let mut game = CatVolleyBall::on_start();
    let events = game.tick(16);
    assert_eq!(events.bounces, 0);
    assert_eq!(events.scored, None);
    // x: 60_000 * 16; y: -50_000 * 16 + floor(-5 * 256 / 2); vy: -50_000 - 80.
    assert_eq!(game.ball.position, Vector2 { x: px(250) + 960_000, y: px(250) - 800_640 });
    assert_eq!(game.ball.velocity, Vector2 { x: px_per_s(60), y: px_per_s(-50) - 80 });
}

#[test]
fn tick_sounds_list_bounces_then_score() {
    let events = TickEvents { bounces: 2, scored: Some(Side::Left) };
    assert_eq!(
        events.sounds(),
        vec![SoundEvent::Bounce, SoundEvent::Bounce, SoundEvent::Score]
    );
    let quiet = TickEvents { bounces: 0, scored: None };
    assert!(quiet.sounds().is_empty());
}

#[test]
fn can_tick_checks_the_bounds() {
    let mut game = CatVolleyBall::on_start();
    assert!(game.can_tick(16));
    assert!(!game.can_tick(-1));
    assert!(!game.can_tick(2_000_000));
    game.ball.velocity.x = LIMIT;
    assert!(!game.can_tick(16));
    assert!(game.can_tick(0));
}
