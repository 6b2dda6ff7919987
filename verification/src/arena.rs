//! The fixed measures of the play field.

use vstd::prelude::*;

verus! {

/// Millionths in one arena unit: every length in this crate is a whole
/// number of them.
pub const UNIT: i64 = 1_000_000;

/// Bricks in one row.
pub const BRICK_COUNT: u8 = 14;

/// Rows of bricks on a fresh board.
pub const BRICK_ROWS: u8 = 8;

/// Width of a brick, and of the paddle.
pub const BRICK_WIDTH: i64 = 50_000_000;

/// Height of a brick, and of the paddle.
pub const BRICK_HEIGHT: i64 = 15_000_000;

/// Free space between two neighbouring bricks, in both directions.
pub const BRICK_GAP: i64 = 6_000_000;

/// Width of the arena: a full row of bricks with the gaps between them.
pub const GAME_WIDTH: i64 = 778_000_000;

/// Distance of the lowest brick row from the top of the screen, and of the
/// paddle from its bottom.
pub const PADDING: i64 = 150_000_000;

/// Speed of the ball along each axis, in arena units per second.
pub const BASE_SPEED: i64 = 500;

/// Side of the square ball.
pub const BALL_SIZE: i64 = 16_000_000;

/// Balls a fresh session starts with.
pub const LIVES: u8 = 3;

/// The arena is exactly as wide as one row of bricks: `BRICK_COUNT` bricks
/// and the gaps between them, with no gap at either wall.
pub proof fn lemma_arena_width()
    ensures
        GAME_WIDTH == BRICK_COUNT * (BRICK_WIDTH + BRICK_GAP) - BRICK_GAP,
        BRICK_WIDTH == 50 * UNIT,
        BRICK_HEIGHT == 15 * UNIT,
        BRICK_GAP == 6 * UNIT,
        PADDING == 150 * UNIT,
        BALL_SIZE == 16 * UNIT,
{
}

} // verus!
