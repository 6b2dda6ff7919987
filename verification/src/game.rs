//! The game as a running program: the state the host holds, and the
//! functions it calls once per frame.

use vstd::prelude::*;
use crate::arena::{
    BALL_SIZE, BASE_SPEED, BRICK_COUNT, BRICK_HEIGHT, BRICK_ROWS, BRICK_WIDTH, GAME_WIDTH, LIVES,
    PADDING,
};
use crate::brick::{
    board_points, full_board, full_board_points, lemma_full_board_is_worth_its_points, Brick,
};
use crate::geometry::{half, reflected, saturating, Rect, Vec2};
use crate::model::{
    lemma_first_hit_is, lemma_fresh_is_well_formed, lemma_game_stays_well_formed, lemma_no_hit,
    lemma_steps_keep_sound, lemma_update_keeps_points, GameModel, GameState,
};

verus! {

/// A game of breakout: the board, the ball, the paddle and the scoreboard.
#[derive(Clone, Debug)]
pub struct Breakout {
    /// Size of the font the host measures the game's texts with.
    pub font_size: u16,
    pub game_state: GameState,
    /// The bricks still standing, in the order they were laid.
    pub bricks: Vec<Brick>,
    /// Top-left corner of the ball.
    pub ball_pos: Vec2,
    /// Speed of the ball, in arena units per second.
    pub ball_vel: Vec2,
    /// Top-left corner of the paddle.
    pub paddle_pos: Vec2,
    /// Set while the ball stays in touch with the paddle after bouncing off it.
    pub hit_paddle: bool,
    /// Where the pointer stood when the paddle last followed it.
    pub last_mouse_x: i64,
    pub score: u16,
    /// Balls left, the one in play included.
    pub balls_rem: u8,
    /// Games played before this one.
    pub game_count: u8,
}

impl View for Breakout {
    type V = GameModel;

    open spec fn view(&self) -> GameModel {
        GameModel {
            font_size: self.font_size,
            game_state: self.game_state,
            bricks: self.bricks@,
            ball_pos: self.ball_pos,
            ball_vel: self.ball_vel,
            paddle_pos: self.paddle_pos,
            hit_paddle: self.hit_paddle,
            last_mouse_x: self.last_mouse_x,
            score: self.score,
            balls_rem: self.balls_rem,
            game_count: self.game_count,
        }
    }
}

/// The way a speed of `speed` units per second covers in `frame_time`
/// microseconds, in millionths of a unit.
fn travel(speed: i64, frame_time: u32) -> (way: i128)
    ensures
        way == speed * frame_time,
        i64::MIN * u32::MAX <= way <= i64::MAX * u32::MAX,
{
    assert(i64::MIN * u32::MAX <= speed * frame_time <= i64::MAX * u32::MAX) by (nonlinear_arith)
        requires
            i64::MIN <= speed <= i64::MAX,
            0 <= frame_time <= u32::MAX,
    ;
    speed as i128 * frame_time as i128
}

impl Breakout {
    /// Starts a game on a screen of the given height.
    pub fn new(font_size: u16, screen_height: i64) -> (game: Breakout)
        ensures
            game@ == GameModel::fresh(font_size, screen_height),
            game@.well_formed(),
    {
        proof {
            lemma_fresh_is_well_formed(font_size, screen_height);
        }
        Breakout {
            font_size,
            game_state: GameState::NewGame,
            bricks: Breakout::bricks(),
            ball_pos: Vec2 { x: GAME_WIDTH / 2, y: half(screen_height) },
            ball_vel: Vec2 { x: BASE_SPEED, y: BASE_SPEED },
            paddle_pos: Vec2 {
                x: (GAME_WIDTH - BRICK_WIDTH) / 2,
                y: saturating(screen_height as i128 - PADDING as i128),
            },
            hit_paddle: false,
            last_mouse_x: 0,
            score: 0,
            balls_rem: LIVES,
            game_count: 0,
        }
    }

    /// Advances the game by one frame. `mouse_x` is the pointer's
    /// horizontal position, `frame_time` the microseconds since the previous
    /// frame and `screen_height` the present height of the screen.
    pub fn update(&mut self, mouse_x: i64, frame_time: u32, screen_height: i64)
        ensures
            final(self)@ == old(self)@.updated(mouse_x, frame_time, screen_height),
            old(self).game_state == GameState::Paused ==> final(self)@ == old(self)@,
            old(self).bricks@.len() > 0 && final(self).bricks@.len() == 0
                ==> final(self).game_state == GameState::Win,
            old(self).balls_rem > 0 && final(self).balls_rem == 0 && final(self).bricks@.len() > 0
                ==> final(self).game_state == GameState::GameOver,
            final(self).score >= old(self).score,
            old(self)@.points_in_play() <= u16::MAX ==> final(self)@.points_in_play() == old(
                self,
            )@.points_in_play(),
            old(self)@.well_formed() ==> final(self)@.well_formed(),
    {
        proof {
            lemma_update_keeps_points(old(self)@, mouse_x, frame_time, screen_height);
            if old(self)@.well_formed() {
                lemma_game_stays_well_formed(old(self)@, mouse_x, frame_time, screen_height, false);
            }
        }
        if self.game_state == GameState::Paused {
            return;
        }
        self.handle_mouse_move(mouse_x);
        self.check_wall_collision();
        self.check_paddle_collision();
        self.check_brick_collision();
        self.update_ball(frame_time, screen_height);

        if self.bricks.len() == 0 {
            self.game_state = GameState::Win;
        }
    }

    /// Lets the paddle follow the pointer.
    pub fn handle_mouse_move(&mut self, mouse_x: i64)
        ensures
            final(self)@ == old(self)@.mouse_moved(mouse_x),
            old(self)@.sound() ==> final(self)@.sound(),
    {
        proof {
            if old(self)@.sound() {
                lemma_steps_keep_sound(old(self)@, mouse_x, 0, 0);
            }
        }
        let target: i128 = self.paddle_pos.x as i128 + (mouse_x as i128 - self.last_mouse_x as i128);
        let limit: i64 = GAME_WIDTH - BRICK_WIDTH;
        self.paddle_pos.x = if target < 0 {
            0
        } else if target > limit as i128 {
            limit
        } else {
            target as i64
        };
        self.last_mouse_x = mouse_x;
    }

    /// Turns the ball at the side walls and at the top wall.
    pub fn check_wall_collision(&mut self)
        ensures
            final(self)@ == old(self)@.wall_checked(),
            old(self)@.sound() ==> final(self)@.sound(),
    {
        proof {
            if old(self)@.sound() {
                lemma_steps_keep_sound(old(self)@, 0, 0, 0);
            }
        }
        if self.ball_pos.x <= 0 || self.ball_pos.x >= GAME_WIDTH - BALL_SIZE {
            self.ball_vel.x = reflected(self.ball_vel.x);
        }
        if self.ball_pos.y <= 0 {
            self.ball_vel.y = reflected(self.ball_vel.y);
        }
    }

    /// Turns the ball at the paddle.
    pub fn check_paddle_collision(&mut self)
        ensures
            final(self)@ == old(self)@.paddle_checked(),
            old(self)@.sound() ==> final(self)@.sound(),
    {
        proof {
            if old(self)@.sound() {
                lemma_steps_keep_sound(old(self)@, 0, 0, 0);
            }
        }
        let ball_rect = Rect::from_vec(self.ball_pos, Vec2 { x: BALL_SIZE, y: BALL_SIZE });
        let paddle_rect = if self.game_state == GameState::Playing {
            Rect::from_vec(self.paddle_pos, Vec2 { x: BRICK_WIDTH, y: BRICK_HEIGHT })
        } else {
            Rect { x: 0, y: self.paddle_pos.y, width: GAME_WIDTH, height: BRICK_HEIGHT }
        };
        if ball_rect.intersects(&paddle_rect) {
            if !self.hit_paddle {
                self.hit_paddle = true;
                self.ball_vel.y = reflected(self.ball_vel.y);
            }
        } else {
            self.hit_paddle = false;
        }
    }

    /// Turns the ball at the first brick it overlaps and, while the game is
    /// played, destroys that brick and scores its points.
    pub fn check_brick_collision(&mut self)
        ensures
            final(self)@ == old(self)@.brick_checked(),
            old(self)@.sound() ==> final(self)@.sound(),
    {
        let ball_rect = Rect::from_vec(self.ball_pos, Vec2 { x: BALL_SIZE, y: BALL_SIZE });
        let mut i: usize = 0;
        while i < self.bricks.len()
            invariant
                i <= self.bricks.len(),
                self@ == old(self)@,
                ball_rect == self@.ball_rect(),
                forall|j: int| 0 <= j < i ==> !self@.hits(j),
            decreases self.bricks.len() - i,
        {
            let brick_rect = self.bricks[i].bounds();
            if ball_rect.intersects(&brick_rect) {
                proof {
                    lemma_first_hit_is(self@, i as int);
                    if self@.sound() {
                        lemma_steps_keep_sound(self@, 0, 0, 0);
                    }
                }
                self.ball_vel.y = reflected(self.ball_vel.y);
                if self.game_state == GameState::Playing {
                    let points = self.bricks[i].point_value();
                    self.score = self.score.saturating_add(points);
                    self.bricks.remove(i);
                }
                return;
            }
            i += 1;
        }
        proof {
            lemma_no_hit(self@);
        }
    }

    /// Lets the ball fly for `frame_time` microseconds, and deals with a ball
    /// that drops below the paddle line.
    pub fn update_ball(&mut self, frame_time: u32, screen_height: i64)
        ensures
            final(self)@ == old(self)@.ball_moved(frame_time, screen_height),
            old(self)@.sound() ==> final(self)@.sound(),
    {
        proof {
            if old(self)@.sound() {
                lemma_steps_keep_sound(old(self)@, 0, frame_time, screen_height);
            }
        }
        let dx: i128 = travel(self.ball_vel.x, frame_time);
        let dy: i128 = travel(self.ball_vel.y, frame_time);
        self.ball_pos = Vec2 {
            x: saturating(self.ball_pos.x as i128 + dx),
            y: saturating(self.ball_pos.y as i128 + dy),
        };

        if self.ball_pos.y >= self.paddle_pos.y {
            self.ball_pos = Vec2 { x: GAME_WIDTH / 2, y: half(screen_height) };
            if self.balls_rem > 0 {
                self.balls_rem -= 1;
            }
            if self.balls_rem == 0 {
                self.game_state = GameState::GameOver;
            }
        }
    }

    /// Reacts to the primary button: `pressed` says whether it went down in
    /// this frame.
    pub fn handle_mouse_click(&mut self, pressed: bool, screen_height: i64)
        ensures
            final(self)@ == old(self)@.clicked(pressed, screen_height),
            old(self)@.well_formed() ==> final(self)@.well_formed(),
    {
        proof {
            if old(self)@.well_formed() {
                lemma_game_stays_well_formed(old(self)@, 0, 0, screen_height, pressed);
            }
        }
        if pressed && self.game_state != GameState::Playing {
            if self.game_state == GameState::GameOver || self.game_state == GameState::Win {
                *self = Breakout::new(self.font_size, screen_height);
            }
            self.game_state = GameState::Playing;
        }
    }

    /// Reacts to the pause key: `pressed` says whether it went down in this
    /// frame.
    pub fn handle_key(&mut self, pressed: bool)
        ensures
            final(self)@ == old(self)@.key_pressed(pressed),
            old(self)@.well_formed() ==> final(self)@.well_formed(),
    {
        proof {
            if old(self)@.well_formed() {
                lemma_game_stays_well_formed(old(self)@, 0, 0, 0, pressed);
            }
        }
        if pressed {
            self.game_state = match self.game_state {
                GameState::Playing => GameState::Paused,
                GameState::Paused => GameState::Playing,
                other => other,
            };
        }
    }

    /// Lays a fresh board.
    pub fn bricks() -> (list: Vec<Brick>)
        ensures
            list@ == full_board(),
            board_points(list@) == full_board_points(),
    {
        let mut list: Vec<Brick> = Vec::new();
        let mut row: u8 = 0;
        while row < BRICK_ROWS
            invariant
                row <= BRICK_ROWS,
                list@.len() == row * BRICK_COUNT,
                forall|k: int| 0 <= k < list@.len() ==> list@[k] == full_board()[k],
            decreases BRICK_ROWS - row,
        {
            let mut col: u8 = 0;
            while col < BRICK_COUNT
                invariant
                    row < BRICK_ROWS,
                    col <= BRICK_COUNT,
                    list@.len() == row * BRICK_COUNT + col,
                    forall|k: int| 0 <= k < list@.len() ==> list@[k] == full_board()[k],
                decreases BRICK_COUNT - col,
            {
                list.push(Brick::new(row, col));
                col += 1;
            }
            row += 1;
        }
        proof {
            assert(list@ =~= full_board());
            lemma_full_board_is_worth_its_points();
        }
        list
    }
}

} // verus!
