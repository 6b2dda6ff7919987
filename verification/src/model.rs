//! The game as a mathematical object: its state, what one frame does to it,
//! how it answers the player, and what holds of every game.

use vstd::prelude::*;
use crate::arena::{
    BALL_SIZE, BASE_SPEED, BRICK_COUNT, BRICK_HEIGHT, BRICK_ROWS, BRICK_WIDTH, GAME_WIDTH, LIVES,
    PADDING,
};
use crate::brick::{
    board_points, full_board, full_board_points, lemma_board_points_nonnegative,
    lemma_board_points_remove, lemma_full_board_is_worth_its_points, lemma_full_board_points,
    row_points, Brick,
};
use crate::geometry::{clamp, reflect, saturate, Rect, Vec2};

verus! {

/// The phases a game moves through.
#[derive(Clone, Copy, Debug, PartialEq, Eq, Structural)]
pub enum GameState {
    /// Before the first click: the ball bounces, nothing is at stake.
    NewGame,
    /// The player steers the paddle; bricks break and balls are lost.
    Playing,
    /// Frozen by the pause key.
    Paused,
    /// The last ball is lost.
    GameOver,
    /// The last brick is gone.
    Win,
}

/// The mathematical picture of a [`Breakout`]: the same fields, with the
/// bricks as a sequence.
pub struct GameModel {
    pub font_size: u16,
    pub game_state: GameState,
    pub bricks: Seq<Brick>,
    pub ball_pos: Vec2,
    pub ball_vel: Vec2,
    pub paddle_pos: Vec2,
    pub hit_paddle: bool,
    pub last_mouse_x: i64,
    pub score: u16,
    pub balls_rem: u8,
    pub game_count: u8,
}

/// Where a ball is put into play: the middle of the arena's width and of the
/// screen's height.
pub open spec fn ball_start(screen_height: i64) -> Vec2 {
    Vec2 { x: (GAME_WIDTH / 2) as i64, y: (screen_height / 2) as i64 }
}

/// The score after `points` more, which stops at the largest score there is.
pub open spec fn score_plus(score: u16, points: int) -> u16 {
    if score + points > u16::MAX {
        u16::MAX
    } else {
        (score + points) as u16
    }
}

/// Whether `picks` names, in rising order, the places on a fresh board where
/// the bricks of `bricks` were laid.
pub open spec fn laid_in_order(picks: Seq<int>, bricks: Seq<Brick>) -> bool {
    &&& picks.len() == bricks.len()
    &&& forall|k: int|
        0 <= k < picks.len() ==> 0 <= #[trigger] picks[k] < full_board().len() && bricks[k]
            == full_board()[picks[k]]
    &&& forall|j: int, k: int| 0 <= j < k < picks.len() ==> #[trigger] picks[j] < #[trigger] picks[k]
}

/// Whether `bricks` is what is left of a fresh board after some bricks were
/// taken off it.
pub open spec fn from_full_board(bricks: Seq<Brick>) -> bool {
    exists|picks: Seq<int>| laid_in_order(picks, bricks)
}

impl GameModel {
    /// A game nobody has touched yet, on a screen of the given height: full
    /// board, three balls, no points, the ball in the middle heading down and
    /// to the right, the paddle centred `PADDING` above the bottom.
    pub open spec fn fresh(font_size: u16, screen_height: i64) -> GameModel {
        GameModel {
            font_size,
            game_state: GameState::NewGame,
            bricks: full_board(),
            ball_pos: ball_start(screen_height),
            ball_vel: Vec2 { x: BASE_SPEED, y: BASE_SPEED },
            paddle_pos: Vec2 {
                x: ((GAME_WIDTH - BRICK_WIDTH) / 2) as i64,
                y: saturate(screen_height - PADDING),
            },
            hit_paddle: false,
            last_mouse_x: 0,
            score: 0,
            balls_rem: LIVES,
            game_count: 0,
        }
    }

    /// The area the ball covers.
    pub open spec fn ball_rect(self) -> Rect {
        Rect { x: self.ball_pos.x, y: self.ball_pos.y, width: BALL_SIZE, height: BALL_SIZE }
    }

    /// What the ball bounces off at the paddle line: the paddle while the game
    /// is played, a bar across the whole arena otherwise.
    pub open spec fn paddle_rect(self) -> Rect {
        if self.game_state == GameState::Playing {
            Rect {
                x: self.paddle_pos.x,
                y: self.paddle_pos.y,
                width: BRICK_WIDTH,
                height: BRICK_HEIGHT,
            }
        } else {
            Rect { x: 0, y: self.paddle_pos.y, width: GAME_WIDTH, height: BRICK_HEIGHT }
        }
    }

    /// Points scored and points still on the board together.
    pub open spec fn points_in_play(self) -> int {
        self.score + board_points(self.bricks)
    }

    /// Whether the ball stands at or beyond the left or the right wall.
    pub open spec fn at_side_wall(self) -> bool {
        self.ball_pos.x <= 0 || self.ball_pos.x >= GAME_WIDTH - BALL_SIZE
    }

    /// Whether the ball stands at or beyond the top wall.
    pub open spec fn at_top_wall(self) -> bool {
        self.ball_pos.y <= 0
    }

    /// Whether the ball overlaps the brick at index `i`.
    pub open spec fn hits(self, i: int) -> bool {
        0 <= i < self.bricks.len() && self.ball_rect().overlaps(self.bricks[i].rect())
    }

    /// Whether the brick at index `i` is the earliest laid of those the ball
    /// overlaps.
    pub open spec fn is_first_hit(self, i: int) -> bool {
        self.hits(i) && forall|j: int| 0 <= j < i ==> !self.hits(j)
    }

    /// The index of the brick the ball strikes in this frame, if it strikes
    /// one: of all the bricks it overlaps, the one laid first.
    pub open spec fn first_hit(self) -> Option<int> {
        if exists|i: int| self.is_first_hit(i) {
            Some(choose|i: int| self.is_first_hit(i))
        } else {
            None
        }
    }

    /// What every step of a frame keeps true of a game that was set up by
    /// `fresh`: the bricks standing are bricks of the fresh board, in the
    /// order they were laid and none twice; the points scored and the points
    /// still on the board make up the fresh board's points; no more balls are
    /// left than a game starts with; the paddle stands between the walls; and
    /// the ball moves at the base speed along both axes.
    pub open spec fn sound(self) -> bool {
        &&& from_full_board(self.bricks)
        &&& self.points_in_play() == full_board_points()
        &&& self.balls_rem <= LIVES
        &&& 0 <= self.paddle_pos.x <= GAME_WIDTH - BRICK_WIDTH
        &&& self.ball_vel.x == BASE_SPEED || self.ball_vel.x == -BASE_SPEED
        &&& self.ball_vel.y == BASE_SPEED || self.ball_vel.y == -BASE_SPEED
        &&& self.game_count == 0
    }

    /// What holds of a game between two frames, from `fresh` on: it is sound,
    /// it is won exactly when the board is empty, it is over only when no
    /// ball is left, and without a ball it is over or won.
    pub open spec fn well_formed(self) -> bool {
        &&& self.sound()
        &&& self.game_state == GameState::Win <==> self.bricks.len() == 0
        &&& self.game_state == GameState::GameOver ==> self.balls_rem == 0
        &&& self.balls_rem == 0 ==> self.game_state == GameState::GameOver || self.game_state
            == GameState::Win
    }

    /// The game after the paddle has followed the pointer to `mouse_x`: it
    /// moves as far as the pointer moved since it was last followed, and
    /// stops at the walls.
    pub open spec fn mouse_moved(self, mouse_x: i64) -> GameModel {
        GameModel {
            paddle_pos: Vec2 {
                x: clamp(
                    self.paddle_pos.x + (mouse_x - self.last_mouse_x),
                    0,
                    GAME_WIDTH - BRICK_WIDTH,
                ) as i64,
                y: self.paddle_pos.y,
            },
            last_mouse_x: mouse_x,
            ..self
        }
    }

    /// The game after the walls have turned the ball: a side wall reverses
    /// its horizontal speed, the top wall its vertical speed. There is no
    /// bottom wall.
    pub open spec fn wall_checked(self) -> GameModel {
        GameModel {
            ball_vel: Vec2 {
                x: if self.at_side_wall() {
                    reflect(self.ball_vel.x)
                } else {
                    self.ball_vel.x
                },
                y: if self.at_top_wall() {
                    reflect(self.ball_vel.y)
                } else {
                    self.ball_vel.y
                },
            },
            ..self
        }
    }

    /// The game after the paddle has turned the ball. The ball is sent back
    /// once per contact: `hit_paddle` remembers the contact until the ball
    /// has come free.
    pub open spec fn paddle_checked(self) -> GameModel {
        if self.ball_rect().overlaps(self.paddle_rect()) {
            if self.hit_paddle {
                self
            } else {
                GameModel {
                    hit_paddle: true,
                    ball_vel: Vec2 { x: self.ball_vel.x, y: reflect(self.ball_vel.y) },
                    ..self
                }
            }
        } else {
            GameModel { hit_paddle: false, ..self }
        }
    }

    /// The game after the bricks have turned the ball. At most one brick is
    /// struck per frame, the first laid of those the ball overlaps. It always
    /// sends the ball back; while the game is played it also leaves the board
    /// and its points go to the score.
    pub open spec fn brick_checked(self) -> GameModel {
        match self.first_hit() {
            None => self,
            Some(i) => {
                let ball_vel = Vec2 { x: self.ball_vel.x, y: reflect(self.ball_vel.y) };
                if self.game_state == GameState::Playing {
                    GameModel {
                        ball_vel,
                        score: score_plus(self.score, row_points(self.bricks[i].row)),
                        bricks: self.bricks.remove(i),
                        ..self
                    }
                } else {
                    GameModel { ball_vel, ..self }
                }
            },
        }
    }

    /// Where the ball gets to in `frame_time` microseconds at its present
    /// speed, as far as `i64` reaches.
    pub open spec fn ball_target(self, frame_time: u32) -> Vec2 {
        Vec2 {
            x: saturate(self.ball_pos.x + self.ball_vel.x * frame_time),
            y: saturate(self.ball_pos.y + self.ball_vel.y * frame_time),
        }
    }

    /// Whether the ball is lost in this frame: its flight ends at or below the
    /// paddle's upper edge.
    pub open spec fn ball_drops(self, frame_time: u32) -> bool {
        self.ball_target(frame_time).y >= self.paddle_pos.y
    }

    /// The balls left after one is lost: one fewer, and none where none was
    /// left.
    pub open spec fn balls_after_drop(self) -> u8 {
        if self.balls_rem > 0 {
            (self.balls_rem - 1) as u8
        } else {
            0
        }
    }

    /// The game after the ball has flown for `frame_time` microseconds. A ball
    /// that drops is put back into play at the start position and costs one
    /// ball; with the last ball the game is over.
    pub open spec fn ball_moved(self, frame_time: u32, screen_height: i64) -> GameModel {
        if self.ball_drops(frame_time) {
            GameModel {
                ball_pos: ball_start(screen_height),
                balls_rem: self.balls_after_drop(),
                game_state: if self.balls_after_drop() == 0 {
                    GameState::GameOver
                } else {
                    self.game_state
                },
                ..self
            }
        } else {
            GameModel { ball_pos: self.ball_target(frame_time), ..self }
        }
    }

    /// The game with the win recorded, if the board is empty.
    pub open spec fn win_checked(self) -> GameModel {
        if self.bricks.len() == 0 {
            GameModel { game_state: GameState::Win, ..self }
        } else {
            self
        }
    }

    /// The game one frame later. A paused game stands still. Otherwise the
    /// paddle follows the pointer, then walls, paddle and bricks turn the
    /// ball, in this order, then the ball flies, and last an empty board wins
    /// the game.
    pub open spec fn updated(self, mouse_x: i64, frame_time: u32, screen_height: i64) -> GameModel {
        if self.game_state == GameState::Paused {
            self
        } else {
            self.mouse_moved(mouse_x).wall_checked().paddle_checked().brick_checked().ball_moved(
                frame_time,
                screen_height,
            ).win_checked()
        }
    }

    /// The game after the primary button's state has been looked at. A press
    /// starts or resumes play; after a lost or a won game it first sets up a
    /// fresh one. While the game is played a press does nothing.
    pub open spec fn clicked(self, pressed: bool, screen_height: i64) -> GameModel {
        if pressed && self.game_state != GameState::Playing {
            if self.game_state == GameState::GameOver || self.game_state == GameState::Win {
                GameModel {
                    game_state: GameState::Playing,
                    ..GameModel::fresh(self.font_size, screen_height)
                }
            } else {
                GameModel { game_state: GameState::Playing, ..self }
            }
        } else {
            self
        }
    }

    /// The game after the pause key's state has been looked at. A press
    /// pauses a game that is played and resumes one that is paused; in every
    /// other phase it does nothing.
    pub open spec fn key_pressed(self, pressed: bool) -> GameModel {
        if pressed && self.game_state == GameState::Playing {
            GameModel { game_state: GameState::Paused, ..self }
        } else if pressed && self.game_state == GameState::Paused {
            GameModel { game_state: GameState::Playing, ..self }
        } else {
            self
        }
    }
}

/// Of the bricks the ball overlaps only one is the first: an index that
/// passes `is_first_hit` is the one `first_hit` names.
pub proof fn lemma_first_hit_is(game: GameModel, i: int)
    requires
        game.is_first_hit(i),
    ensures
        game.first_hit() == Some(i),
{
    let k = choose|k: int| game.is_first_hit(k);
    assert(game.is_first_hit(k));
    if k < i {
        assert(!game.hits(k));
    } else if i < k {
        assert(!game.hits(i));
    }
}

/// Where the ball overlaps no brick, none is struck.
pub proof fn lemma_no_hit(game: GameModel)
    requires
        forall|j: int| 0 <= j < game.bricks.len() ==> !game.hits(j),
    ensures
        game.first_hit().is_none(),
{
}

/// The brick that `first_hit` names stands on the board, and the ball
/// overlaps it and none laid before it.
pub proof fn lemma_first_hit_on_board(game: GameModel)
    ensures
        game.first_hit() matches Some(i) ==> game.is_first_hit(i) && 0 <= i < game.bricks.len(),
        game.first_hit().is_none() ==> forall|j: int| !game.hits(j),
{
    if game.first_hit().is_none() {
        assert forall|j: int| !game.hits(j) by {
            if game.hits(j) {
                lemma_some_hit_is_first(game, j);
            }
        }
    }
}

/// Where the ball overlaps the brick at `j`, some brick at or before `j` is
/// the first it overlaps.
proof fn lemma_some_hit_is_first(game: GameModel, j: int)
    requires
        game.hits(j),
    ensures
        exists|i: int| game.is_first_hit(i),
    decreases j,
{
    if forall|k: int| 0 <= k < j ==> !game.hits(k) {
        assert(game.is_first_hit(j));
    } else {
        let k = choose|k: int| 0 <= k < j && game.hits(k);
        lemma_some_hit_is_first(game, k);
    }
}

/// A wall turns the ball by reversing its speed, never by moving it. A ball
/// that has run into a side wall, or into the top wall, leaves the wall check
/// heading back into the arena; a ball between the walls keeps its speed.
pub proof fn lemma_wall_check_turns_ball_back(game: GameModel)
    ensures
        game.wall_checked().ball_pos == game.ball_pos,
        game.at_side_wall() ==> game.wall_checked().ball_vel.x == reflect(game.ball_vel.x),
        !game.at_side_wall() ==> game.wall_checked().ball_vel.x == game.ball_vel.x,
        game.ball_pos.x <= 0 && game.ball_vel.x < 0 ==> game.wall_checked().ball_vel.x > 0,
        game.ball_pos.x >= GAME_WIDTH - BALL_SIZE && game.ball_vel.x > 0
            ==> game.wall_checked().ball_vel.x < 0,
        game.ball_pos.y <= 0 && game.ball_vel.y < 0 ==> game.wall_checked().ball_vel.y > 0,
        game.ball_pos.y > 0 ==> game.wall_checked().ball_vel.y == game.ball_vel.y,
{
}

/// The frame in which the last brick leaves the board is the frame in which
/// the game is won: a board that is empty after an update that ran means
/// `Win` after that same update.
pub proof fn lemma_cleared_board_wins(
    game: GameModel,
    mouse_x: i64,
    frame_time: u32,
    screen_height: i64,
)
    ensures
        ({
            let after = game.updated(mouse_x, frame_time, screen_height);
            &&& game.bricks.len() > 0 && after.bricks.len() == 0 ==> after.game_state
                == GameState::Win
            &&& game.game_state != GameState::Paused && after.bricks.len() == 0
                ==> after.game_state == GameState::Win
        }),
{
}

/// The frame in which the last ball drops is the frame in which the game is
/// over, unless the last brick went in that very frame, which wins the game.
pub proof fn lemma_last_ball_ends_game(
    game: GameModel,
    mouse_x: i64,
    frame_time: u32,
    screen_height: i64,
)
    ensures
        ({
            let after = game.updated(mouse_x, frame_time, screen_height);
            game.balls_rem > 0 && after.balls_rem == 0 ==> if after.bricks.len() > 0 {
                after.game_state == GameState::GameOver
            } else {
                after.game_state == GameState::Win
            }
        }),
{
}

/// The ball's flight alone never leaves a game without balls running: when a
/// ball drops and none is left, the game is over.
pub proof fn lemma_drop_without_balls_is_game_over(
    game: GameModel,
    frame_time: u32,
    screen_height: i64,
)
    ensures
        ({
            let after = game.ball_moved(frame_time, screen_height);
            &&& game.ball_drops(frame_time) && after.balls_rem == 0 ==> after.game_state
                == GameState::GameOver
            &&& game.ball_drops(frame_time) ==> after.ball_pos == ball_start(screen_height)
            &&& after.balls_rem <= game.balls_rem
            &&& after.score == game.score
        }),
{
}

/// The pause key freezes a game that is played: no frame changes the paused
/// game, whatever the pointer and the clock say, and a second press gives
/// back the game as it was.
pub proof fn lemma_pause_freezes_game(
    game: GameModel,
    mouse_x: i64,
    frame_time: u32,
    screen_height: i64,
)
    requires
        game.game_state == GameState::Playing,
    ensures
        ({
            let paused = game.key_pressed(true);
            &&& paused.game_state == GameState::Paused
            &&& paused.updated(mouse_x, frame_time, screen_height) == paused
            &&& paused.key_pressed(true) == game
        }),
{
}

/// A click after a lost or a won game sets up a fresh game and starts it:
/// full board, no points, three balls.
pub proof fn lemma_click_restarts_game(game: GameModel, screen_height: i64)
    requires
        game.game_state == GameState::GameOver || game.game_state == GameState::Win,
    ensures
        ({
            let after = game.clicked(true, screen_height);
            &&& after == GameModel {
                game_state: GameState::Playing,
                ..GameModel::fresh(game.font_size, screen_height)
            }
            &&& after.bricks.len() == BRICK_ROWS * BRICK_COUNT
            &&& after.score == 0
            &&& after.balls_rem == LIVES
        }),
{
}

/// No point is lost or made up: as long as the counter can hold them, the
/// points scored and the points on the board together stay what they were.
/// The score never falls, at most one brick goes per frame, and outside
/// `Playing` board and score do not change at all.
pub proof fn lemma_update_keeps_points(
    game: GameModel,
    mouse_x: i64,
    frame_time: u32,
    screen_height: i64,
)
    ensures
        ({
            let after = game.updated(mouse_x, frame_time, screen_height);
            &&& game.points_in_play() <= u16::MAX ==> after.points_in_play()
                == game.points_in_play()
            &&& after.score >= game.score
            &&& game.bricks.len() - 1 <= after.bricks.len() <= game.bricks.len()
            &&& game.game_state != GameState::Playing ==> after.bricks == game.bricks
                && after.score == game.score
        }),
{
    if game.game_state != GameState::Paused {
        let at_bricks = game.mouse_moved(mouse_x).wall_checked().paddle_checked();
        assert(at_bricks.bricks == game.bricks && at_bricks.score == game.score);
        lemma_brick_check_keeps_points(at_bricks);
    }
}

/// The brick check moves the points of the brick it destroys from the board
/// to the score, and touches neither where it destroys none.
pub proof fn lemma_brick_check_keeps_points(game: GameModel)
    ensures
        ({
            let after = game.brick_checked();
            &&& game.points_in_play() <= u16::MAX ==> after.points_in_play()
                == game.points_in_play()
            &&& after.score >= game.score
            &&& game.bricks.len() - 1 <= after.bricks.len() <= game.bricks.len()
            &&& game.game_state != GameState::Playing ==> after.bricks == game.bricks
                && after.score == game.score
            &&& after.game_state == game.game_state
        }),
{
    lemma_first_hit_on_board(game);
    if let Some(i) = game.first_hit() {
        lemma_board_points_remove(game.bricks, i);
        lemma_board_points_nonnegative(game.bricks.remove(i));
    }
}

/// A fresh board is what is left of itself.
pub proof fn lemma_full_board_from_full_board()
    ensures
        from_full_board(full_board()),
{
    let picks = Seq::new(full_board().len(), |i: int| i);
    assert(laid_in_order(picks, full_board()));
}

/// Taking one more brick off leaves a board that still comes from a fresh
/// one.
pub proof fn lemma_from_full_board_remove(bricks: Seq<Brick>, i: int)
    requires
        from_full_board(bricks),
        0 <= i < bricks.len(),
    ensures
        from_full_board(bricks.remove(i)),
{
    let picks = choose|picks: Seq<int>| laid_in_order(picks, bricks);
    let rest = picks.remove(i);
    assert forall|j: int, k: int| 0 <= j < k < rest.len() implies #[trigger] rest[j]
        < #[trigger] rest[k] by {
        let from_j = if j < i { j } else { j + 1 };
        let from_k = if k < i { k } else { k + 1 };
        assert(rest[j] == picks[from_j] && rest[k] == picks[from_k]);
    }
    assert forall|k: int| 0 <= k < rest.len() implies 0 <= #[trigger] rest[k] < full_board().len()
        && bricks.remove(i)[k] == full_board()[rest[k]] by {
        let from_k = if k < i { k } else { k + 1 };
        assert(rest[k] == picks[from_k]);
    }
    assert(laid_in_order(rest, bricks.remove(i)));
}

/// The bricks standing in a sound game are all different, and each stands
/// where a fresh board has a brick of its row.
pub proof fn lemma_sound_bricks_differ(game: GameModel, j: int, k: int)
    requires
        game.sound(),
        0 <= j < k < game.bricks.len(),
    ensures
        game.bricks[j] != game.bricks[k],
        game.bricks[j].row < BRICK_ROWS,
        game.bricks[k].row < BRICK_ROWS,
        game.bricks.len() <= BRICK_ROWS * BRICK_COUNT,
{
    let picks = choose|picks: Seq<int>| laid_in_order(picks, game.bricks);
    assert(picks[j] < picks[k]);
    let a = picks[j];
    let b = picks[k];
    assert(game.bricks[j] == full_board()[a] && game.bricks[k] == full_board()[b]);
    assert(a / (BRICK_COUNT as int) != b / (BRICK_COUNT as int) || a % (BRICK_COUNT as int) != b
        % (BRICK_COUNT as int));
    lemma_picks_fit(picks, game.bricks.len() as int);
}

/// Rising picks below a bound are no more than the bound.
proof fn lemma_picks_fit(picks: Seq<int>, n: int)
    requires
        0 <= n <= picks.len(),
        forall|k: int| 0 <= k < picks.len() ==> 0 <= #[trigger] picks[k],
        forall|j: int, k: int| 0 <= j < k < picks.len() ==> #[trigger] picks[j] < #[trigger] picks[k],
    ensures
        n > 0 ==> picks[n - 1] >= n - 1,
    decreases n,
{
    if n > 1 {
        lemma_picks_fit(picks, n - 1);
        assert(picks[n - 2] < picks[n - 1]);
    }
}

/// A game set up by `fresh` is well formed.
pub proof fn lemma_fresh_is_well_formed(font_size: u16, screen_height: i64)
    ensures
        GameModel::fresh(font_size, screen_height).well_formed(),
        GameModel::fresh(font_size, screen_height).bricks.len() == BRICK_ROWS * BRICK_COUNT,
{
    lemma_full_board_from_full_board();
    lemma_full_board_is_worth_its_points();
}

/// Each step of a frame keeps a sound game sound.
pub proof fn lemma_steps_keep_sound(
    game: GameModel,
    mouse_x: i64,
    frame_time: u32,
    screen_height: i64,
)
    requires
        game.sound(),
    ensures
        game.mouse_moved(mouse_x).sound(),
        game.wall_checked().sound(),
        game.paddle_checked().sound(),
        game.brick_checked().sound(),
        game.ball_moved(frame_time, screen_height).sound(),
        game.win_checked().sound(),
{
    lemma_brick_check_keeps_points(game);
    lemma_first_hit_on_board(game);
    if let Some(i) = game.first_hit() {
        lemma_from_full_board_remove(game.bricks, i);
    }
    lemma_full_board_points();
}

/// A frame, a click and a press of the pause key each keep a well-formed
/// game well formed.
pub proof fn lemma_game_stays_well_formed(
    game: GameModel,
    mouse_x: i64,
    frame_time: u32,
    screen_height: i64,
    pressed: bool,
)
    requires
        game.well_formed(),
    ensures
        game.updated(mouse_x, frame_time, screen_height).well_formed(),
        game.clicked(pressed, screen_height).well_formed(),
        game.key_pressed(pressed).well_formed(),
{
    lemma_fresh_is_well_formed(game.font_size, screen_height);
    if game.game_state != GameState::Paused {
        let moved = game.mouse_moved(mouse_x);
        lemma_steps_keep_sound(game, mouse_x, frame_time, screen_height);
        let walled = moved.wall_checked();
        lemma_steps_keep_sound(moved, mouse_x, frame_time, screen_height);
        let paddled = walled.paddle_checked();
        lemma_steps_keep_sound(walled, mouse_x, frame_time, screen_height);
        let bricked = paddled.brick_checked();
        lemma_steps_keep_sound(paddled, mouse_x, frame_time, screen_height);
        lemma_brick_check_keeps_points(paddled);
        let flown = bricked.ball_moved(frame_time, screen_height);
        lemma_steps_keep_sound(bricked, mouse_x, frame_time, screen_height);
        lemma_steps_keep_sound(flown, mouse_x, frame_time, screen_height);
    }
}

/// In a well-formed game the score is the worth of the bricks that are
/// gone: nothing before the first brick goes, and all 448 points when the
/// game is won.
pub proof fn lemma_score_of_well_formed(game: GameModel)
    requires
        game.well_formed(),
    ensures
        game.score == full_board_points() - board_points(game.bricks),
        0 <= game.score <= 448,
        game.game_state == GameState::Win ==> game.score == 448,
        game.bricks == full_board() ==> game.score == 0,
{
    lemma_full_board_points();
    lemma_full_board_is_worth_its_points();
    lemma_board_points_nonnegative(game.bricks);
    if game.bricks.len() == 0 {
        assert(board_points(game.bricks) == 0);
    }
}

} // verus!
