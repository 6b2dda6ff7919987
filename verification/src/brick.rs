//! Bricks: where they stand, what they look like and what they are worth.

use vstd::prelude::*;
use crate::arena::{BRICK_COUNT, BRICK_GAP, BRICK_HEIGHT, BRICK_ROWS, BRICK_WIDTH, PADDING};
use crate::color::Color;
use crate::geometry::{Rect, Vec2};

verus! {

/// A destructible rectangle. Row 0 is the lowest row on the screen and the
/// cheapest; the rows above it are worth more.
#[derive(Clone, Copy, Debug, PartialEq, Eq, Structural)]
pub struct Brick {
    pub pos: Vec2,
    pub row: u8,
}

/// Points for a brick of the given row: 1 for the first pair of rows, then 2
/// more for each further pair.
pub open spec fn row_points(row: u8) -> int {
    (row / 2) * 2 + 1
}

/// Tint of a brick of the given row: one color per pair of rows, and the zero
/// color for rows beyond the board.
pub open spec fn row_color(row: u8) -> Color {
    if row < 2 {
        Color::Yellow
    } else if row < 4 {
        Color::Green
    } else if row < 6 {
        Color::Orange
    } else if row < 8 {
        Color::Red
    } else {
        Color::Transparent
    }
}

/// Points of all the bricks in `bricks` together.
pub open spec fn board_points(bricks: Seq<Brick>) -> int
    decreases bricks.len(),
{
    if bricks.len() == 0 {
        0
    } else {
        board_points(bricks.drop_last()) + row_points(bricks.last().row)
    }
}

/// The bricks of a fresh board, row by row from row 0, each row from the left
/// wall to the right.
pub open spec fn full_board() -> Seq<Brick> {
    Seq::new(
        (BRICK_ROWS * BRICK_COUNT) as nat,
        |i: int| Brick::at((i / BRICK_COUNT as int) as u8, (i % BRICK_COUNT as int) as u8),
    )
}

/// Points of all the rows below `row` together, one brick per row.
pub open spec fn rows_below_points(row: u8) -> int
    decreases row,
{
    if row == 0 {
        0
    } else {
        rows_below_points((row - 1) as u8) + row_points((row - 1) as u8)
    }
}

/// Points on a fresh board: every row's value once for each of its columns.
pub open spec fn full_board_points() -> int {
    BRICK_COUNT * rows_below_points(BRICK_ROWS)
}

impl Brick {
    /// The brick of the given row and column of the grid. Columns count from
    /// the left wall; row 0 lies nearest to the paddle, `PADDING` plus seven
    /// row heights below the top of the screen.
    pub open spec fn at(row: u8, col: u8) -> Brick {
        Brick {
            pos: Vec2 {
                x: (col * (BRICK_WIDTH + BRICK_GAP)) as i64,
                y: (PADDING + (BRICK_ROWS - row - 1) * (BRICK_HEIGHT + BRICK_GAP)) as i64,
            },
            row,
        }
    }

    /// The area the brick covers.
    pub open spec fn rect(self) -> Rect {
        Rect { x: self.pos.x, y: self.pos.y, width: BRICK_WIDTH, height: BRICK_HEIGHT }
    }

    /// Places a brick on the grid.
    pub fn new(row: u8, col: u8) -> (brick: Brick)
        requires
            row < BRICK_ROWS,
        ensures
            brick == Brick::at(row, col),
    {
        let column_pitch: i64 = BRICK_WIDTH + BRICK_GAP;
        let row_pitch: i64 = BRICK_HEIGHT + BRICK_GAP;
        assert(column_pitch == 56_000_000 && row_pitch == 21_000_000);
        let x: i64 = col as i64 * column_pitch;
        let y: i64 = PADDING + (BRICK_ROWS - row - 1) as i64 * row_pitch;
        Brick { pos: Vec2 { x, y }, row }
    }

    /// The tint the brick is painted with.
    pub fn color(&self) -> (color: Color)
        ensures
            color == row_color(self.row),
    {
        match self.row {
            0 | 1 => Color::Yellow,
            2 | 3 => Color::Green,
            4 | 5 => Color::Orange,
            6 | 7 => Color::Red,
            _ => Color::Transparent,
        }
    }

    /// The points the brick awards when it is destroyed.
    pub fn point_value(&self) -> (points: u16)
        ensures
            points == row_points(self.row),
    {
        (self.row / 2) as u16 * 2 + 1
    }

    /// The collider of the brick.
    pub fn bounds(&self) -> (r: Rect)
        ensures
            r == self.rect(),
    {
        Rect { x: self.pos.x, y: self.pos.y, width: BRICK_WIDTH, height: BRICK_HEIGHT }
    }
}

/// A brick's value depends on its row alone, and rises by pairs of rows:
/// 1, 3, 5 and 7 points for the four pairs of the board.
pub proof fn lemma_row_points_by_pair(row: u8)
    ensures
        row == 0 || row == 1 ==> row_points(row) == 1,
        row == 2 || row == 3 ==> row_points(row) == 3,
        row == 4 || row == 5 ==> row_points(row) == 5,
        row == 6 || row == 7 ==> row_points(row) == 7,
        row_points(row) == 2 * (row / 2) + 1,
        1 <= row_points(row) <= 255,
{
}

/// Appending a brick adds its points to the board's.
pub proof fn lemma_board_points_push(bricks: Seq<Brick>, brick: Brick)
    ensures
        board_points(bricks.push(brick)) == board_points(bricks) + row_points(brick.row),
{
    assert(bricks.push(brick).drop_last() =~= bricks);
}

/// Taking the brick at `i` off the board takes exactly its points away.
pub proof fn lemma_board_points_remove(bricks: Seq<Brick>, i: int)
    requires
        0 <= i < bricks.len(),
    ensures
        board_points(bricks.remove(i)) == board_points(bricks) - row_points(bricks[i].row),
    decreases bricks.len(),
{
    if i == bricks.len() - 1 {
        assert(bricks.remove(i) =~= bricks.drop_last());
    } else {
        lemma_board_points_remove(bricks.drop_last(), i);
        assert(bricks.remove(i).drop_last() =~= bricks.drop_last().remove(i));
    }
}

/// A board never holds negative points.
pub proof fn lemma_board_points_nonnegative(bricks: Seq<Brick>)
    ensures
        0 <= board_points(bricks),
        bricks.len() > 0 ==> 0 < board_points(bricks),
    decreases bricks.len(),
{
    if bricks.len() > 0 {
        lemma_board_points_nonnegative(bricks.drop_last());
    }
}

/// A fresh board is worth 448 points: 14 columns times the 32 points of one
/// brick from each of the 8 rows.
pub proof fn lemma_full_board_points()
    ensures
        full_board_points() == 448,
        full_board_points() == BRICK_COUNT * (1 + 1 + 3 + 3 + 5 + 5 + 7 + 7),
{
    reveal_with_fuel(rows_below_points, 9);
}

/// The bricks of a fresh board are worth what `full_board_points` says.
pub proof fn lemma_full_board_is_worth_its_points()
    ensures
        board_points(full_board()) == full_board_points(),
{
    lemma_board_prefix_points((BRICK_ROWS * BRICK_COUNT) as nat);
    assert(full_board().take((BRICK_ROWS * BRICK_COUNT) as int) =~= full_board());
    lemma_full_board_points();
}

/// The first `n` bricks of a fresh board are worth the full rows among them
/// and the begun row's bricks.
proof fn lemma_board_prefix_points(n: nat)
    requires
        n <= BRICK_ROWS * BRICK_COUNT,
    ensures
        board_points(full_board().take(n as int)) == BRICK_COUNT * rows_below_points(
            (n / BRICK_COUNT as nat) as u8,
        ) + (n % BRICK_COUNT as nat) * row_points((n / BRICK_COUNT as nat) as u8),
    decreases n,
{
    let count = BRICK_COUNT as nat;
    if n > 0 {
        let m = (n - 1) as nat;
        lemma_board_prefix_points(m);
        let before = full_board().take(m as int);
        let brick = full_board()[m as int];
        assert(full_board().take(n as int) =~= before.push(brick));
        lemma_board_points_push(before, brick);
        let row = (m / count) as u8;
        assert(brick.row == row);
        let below = rows_below_points(row);
        let here = row_points(row);
        if n % count == 0 {
            let col = m % count;
            assert(n / count == row + 1 && col == count - 1);
            assert(rows_below_points((row + 1) as u8) == below + here);
            assert(BRICK_COUNT * (below + here) + 0 * row_points((row + 1) as u8) == BRICK_COUNT
                * below + col * here + here) by (nonlinear_arith)
                requires
                    col + 1 == BRICK_COUNT,
            ;
        } else {
            let col = m % count;
            assert(n / count == row && n % count == col + 1);
            assert((col + 1) * here == col * here + here) by (nonlinear_arith);
        }
    } else {
        assert(full_board().take(0) =~= Seq::<Brick>::empty());
        assert(rows_below_points(0) == 0);
    }
}

} // verus!
