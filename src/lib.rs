//! The simulation core of a two-player arcade volleyball game: a ball that
//! flies under gravity, bounces off the arena's walls and the two paddles, and
//! scores a point for a side when it touches the ground.
//!
//! All quantities are integers. A length is counted in micro-pixels, a time in
//! milliseconds, a velocity in micro-pixels per millisecond and an
//! acceleration in micro-pixels per square millisecond.
mod random;

pub mod catvolleyball;
pub mod move_ball;
pub mod bounce;
pub mod winner;


pub use bounce::BounceSystem;
pub use catvolleyball::{
    Arena, Ball, CatVolleyBall, ConfigError, Player, ScoreBoard, ScoreText, Side, SoundEvent,
    TickEvents, Vector2,
};
pub use move_ball::MoveBallsSystem;
pub use winner::WinnerSystem;
