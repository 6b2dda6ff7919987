//! A single-screen brick-breaking game: a ball bounces inside a bordered
//! arena, a pointer-driven paddle deflects it, and bricks are destroyed on
//! contact to accumulate score.
//!
//! The crate holds the game model only. Lengths are counted in millionths of
//! an arena unit, time in microseconds and speed in arena units per second,
//! so that a speed times a frame time is a displacement with nothing lost.
//! The host samples its devices once per frame, hands the samples in as plain
//! integers, and paints the list of drawing commands it gets back.

pub mod arena;
pub mod brick;
pub mod color;
pub mod game;
pub mod geometry;
pub mod model;
pub mod render;
pub mod text;

pub use arena::{
    BALL_SIZE, BASE_SPEED, BRICK_COUNT, BRICK_GAP, BRICK_HEIGHT, BRICK_ROWS, BRICK_WIDTH,
    GAME_WIDTH, LIVES, PADDING, UNIT,
};
pub use brick::Brick;
pub use color::Color;
pub use game::Breakout;
pub use geometry::{Rect, Vec2};
pub use model::{GameModel, GameState};
pub use render::{Anchor, DrawCommand, Label};
pub use text::Text;
