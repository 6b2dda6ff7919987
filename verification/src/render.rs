//! The picture of a game, as a list of drawing commands for the host.
//!
//! The arena is drawn centred on the screen; texts that belong in the middle
//! of the screen are anchored at their centre, so that the host, which knows
//! the font, can place them.

use vstd::prelude::*;
use crate::arena::{BALL_SIZE, BRICK_HEIGHT, BRICK_WIDTH, GAME_WIDTH};
use crate::brick::{row_color, Brick};
use crate::color::Color;
use crate::game::Breakout;
use crate::geometry::{half, saturate, saturating};
use crate::model::{GameModel, GameState};
use crate::text::Text;

verus! {

/// Thickness of the border round the arena.
pub const BORDER: i64 = 16_000_000;

/// Distance of the score line from the top of the screen.
pub const SCORE_TOP: i64 = 32_000_000;

/// Distance of the score from the left wall.
pub const SCORE_LEFT: i64 = 16_000_000;

/// Distance of the ball counter from the right wall.
pub const BALLS_RIGHT: i64 = 100_000_000;

/// Height of a line of text in the middle of the screen.
pub const LINE_HEIGHT: i64 = 64_000_000;

/// Distance of the exit button from the bottom of the screen.
pub const EXIT_BOTTOM: i64 = 300_000_000;

/// How the `x` of a label is meant.
#[derive(Clone, Copy, Debug, PartialEq, Eq, Structural)]
pub enum Anchor {
    /// The text begins at `x`.
    Left,
    /// The text is centred on `x`.
    Center,
}

/// A text and its place on the screen.
#[derive(Clone, Copy, Debug, PartialEq, Eq, Structural)]
pub struct Label {
    pub x: i64,
    pub y: i64,
    pub anchor: Anchor,
    /// Size of the font to measure the text with.
    pub font_size: u16,
    pub text: Text,
}

/// One step of painting a frame, in screen coordinates.
#[derive(Clone, Copy, Debug, PartialEq, Eq, Structural)]
pub enum DrawCommand {
    /// Fill the whole screen.
    Clear { color: Color },
    /// Outline a rectangle with a line of the given thickness.
    RectangleLines { x: i64, y: i64, width: i64, height: i64, thickness: i64, color: Color },
    /// Fill a rectangle.
    Rectangle { x: i64, y: i64, width: i64, height: i64, color: Color },
    /// Write a text.
    Label(Label),
}

/// Where the arena's left wall stands on a screen of the given width: the
/// arena is centred, to the nearest millionth on the left.
pub open spec fn arena_left(screen_width: i64) -> i64 {
    ((screen_width - GAME_WIDTH) / 2) as i64
}

/// A text centred on the middle of the screen's width, `lines_up` lines above
/// the middle of its height.
pub open spec fn centered_label(
    text: Text,
    lines_up: int,
    font_size: u16,
    screen_width: i64,
    screen_height: i64,
) -> Label {
    Label {
        x: (screen_width / 2) as i64,
        y: saturate(screen_height / 2 - lines_up * LINE_HEIGHT),
        anchor: Anchor::Center,
        font_size,
        text,
    }
}

/// The filled rectangle that shows a brick.
pub open spec fn brick_rectangle(brick: Brick, screen_width: i64) -> DrawCommand {
    DrawCommand::Rectangle {
        x: saturate(arena_left(screen_width) + brick.pos.x),
        y: brick.pos.y,
        width: BRICK_WIDTH,
        height: BRICK_HEIGHT,
        color: row_color(brick.row),
    }
}

impl GameModel {
    /// The border: a frame round the arena over the whole height of the
    /// screen, its line centred on the walls.
    pub open spec fn border(self, screen_width: i64, screen_height: i64) -> DrawCommand {
        DrawCommand::RectangleLines {
            x: saturate(arena_left(screen_width) - BORDER / 2),
            y: 0,
            width: (GAME_WIDTH + BORDER) as i64,
            height: screen_height,
            thickness: BORDER,
            color: Color::White,
        }
    }

    /// The paddle: while the game is played the paddle where it stands,
    /// otherwise a bar across the arena at the paddle's height.
    pub open spec fn paddle_bar(self, screen_width: i64) -> DrawCommand {
        if self.game_state == GameState::Playing {
            DrawCommand::Rectangle {
                x: saturate(arena_left(screen_width) + self.paddle_pos.x),
                y: self.paddle_pos.y,
                width: BRICK_WIDTH,
                height: BRICK_HEIGHT,
                color: Color::SkyBlue,
            }
        } else {
            DrawCommand::Rectangle {
                x: arena_left(screen_width),
                y: self.paddle_pos.y,
                width: GAME_WIDTH,
                height: BRICK_HEIGHT,
                color: Color::SkyBlue,
            }
        }
    }

    /// The ball.
    pub open spec fn ball_square(self, screen_width: i64) -> DrawCommand {
        DrawCommand::Rectangle {
            x: saturate(arena_left(screen_width) + self.ball_pos.x),
            y: self.ball_pos.y,
            width: BALL_SIZE,
            height: BALL_SIZE,
            color: Color::White,
        }
    }

    /// The score, at the top left of the arena.
    pub open spec fn score_label(self, screen_width: i64) -> DrawCommand {
        DrawCommand::Label(
            Label {
                x: saturate(arena_left(screen_width) + SCORE_LEFT),
                y: SCORE_TOP,
                anchor: Anchor::Left,
                font_size: self.font_size,
                text: Text::Score(self.score),
            },
        )
    }

    /// The balls left, at the top right of the arena.
    pub open spec fn balls_label(self, screen_width: i64) -> DrawCommand {
        DrawCommand::Label(
            Label {
                x: saturate(arena_left(screen_width) + GAME_WIDTH - BALLS_RIGHT),
                y: SCORE_TOP,
                anchor: Anchor::Left,
                font_size: self.font_size,
                text: Text::Balls(self.balls_rem),
            },
        )
    }

    /// One line in the middle of the screen.
    pub open spec fn headline(self, text: Text, screen_width: i64, screen_height: i64) -> Seq<
        DrawCommand,
    > {
        seq![
            DrawCommand::Label(
                centered_label(text, 1, self.font_size, screen_width, screen_height),
            ),
        ]
    }

    /// Two lines in the middle of the screen.
    pub open spec fn two_lines(
        self,
        first: Text,
        second: Text,
        screen_width: i64,
        screen_height: i64,
    ) -> Seq<DrawCommand> {
        seq![
            DrawCommand::Label(
                centered_label(first, 1, self.font_size, screen_width, screen_height),
            ),
            DrawCommand::Label(
                centered_label(second, 0, self.font_size, screen_width, screen_height),
            ),
        ]
    }

    /// What is written across the screen in the present phase: nothing while
    /// the game is played.
    pub open spec fn overlay(self, screen_width: i64, screen_height: i64) -> Seq<DrawCommand> {
        match self.game_state {
            GameState::NewGame => self.headline(Text::ClickToPlay, screen_width, screen_height),
            GameState::Paused => self.two_lines(
                Text::GamePaused,
                Text::ClickToResume,
                screen_width,
                screen_height,
            ),
            GameState::GameOver => self.two_lines(
                Text::GameOver,
                Text::ClickToPlayAgain,
                screen_width,
                screen_height,
            ),
            GameState::Win => self.two_lines(
                Text::YouWin,
                Text::ClickToPlayAgain,
                screen_width,
                screen_height,
            ),
            GameState::Playing => Seq::empty(),
        }
    }

    /// The whole frame, from back to front: background, border, paddle,
    /// ball, the bricks in the order they were laid, score, balls left, and
    /// the text of the present phase.
    pub open spec fn scene(self, screen_width: i64, screen_height: i64) -> Seq<DrawCommand> {
        seq![
            DrawCommand::Clear { color: Color::Black },
            self.border(screen_width, screen_height),
            self.paddle_bar(screen_width),
            self.ball_square(screen_width),
        ] + Seq::new(self.bricks.len(), |i: int| brick_rectangle(self.bricks[i], screen_width))
            + seq![self.score_label(screen_width), self.balls_label(screen_width)] + self.overlay(
            screen_width,
            screen_height,
        )
    }

    /// The exit button: offered in every phase but `Playing`, centred near the
    /// bottom of the screen.
    pub open spec fn exit_label(self, screen_width: i64, screen_height: i64) -> Option<Label> {
        if self.game_state == GameState::Playing {
            None
        } else {
            Some(
                Label {
                    x: (screen_width / 2) as i64,
                    y: saturate(screen_height - EXIT_BOTTOM),
                    anchor: Anchor::Center,
                    font_size: self.font_size,
                    text: Text::ExitGame,
                },
            )
        }
    }
}

/// Computes where the arena's left wall stands on the screen.
fn left_wall(screen_width: i64) -> (left: i64)
    ensures
        left == arena_left(screen_width),
{
    let slack: i128 = screen_width as i128 - GAME_WIDTH as i128;
    if slack >= 0 {
        (slack / 2) as i64
    } else {
        ((slack - 1) / 2) as i64
    }
}

/// Moves an arena coordinate onto the screen.
fn on_screen(left: i64, x: i64) -> (r: i64)
    ensures
        r == saturate(left + x),
{
    saturating(left as i128 + x as i128)
}

/// Builds a label in the middle of the screen.
fn centered(text: Text, lines_up: u8, font_size: u16, screen_width: i64, screen_height: i64) -> (label:
    DrawCommand)
    requires
        lines_up <= 1,
    ensures
        label == DrawCommand::Label(
            centered_label(text, lines_up as int, font_size, screen_width, screen_height),
        ),
{
    let rise: i64 = if lines_up == 1 {
        LINE_HEIGHT
    } else {
        0
    };
    DrawCommand::Label(
        Label {
            x: half(screen_width),
            y: saturating(half(screen_height) as i128 - rise as i128),
            anchor: Anchor::Center,
            font_size,
            text,
        },
    )
}

impl Breakout {
    /// The button that ends the program, where the present phase offers it.
    /// The host shows it and leaves when it is pressed.
    pub fn exit_button(&self, screen_width: i64, screen_height: i64) -> (button: Option<Label>)
        ensures
            button == self@.exit_label(screen_width, screen_height),
    {
        if self.game_state == GameState::Playing {
            None
        } else {
            Some(
                Label {
                    x: half(screen_width),
                    y: saturating(screen_height as i128 - EXIT_BOTTOM as i128),
                    anchor: Anchor::Center,
                    font_size: self.font_size,
                    text: Text::ExitGame,
                },
            )
        }
    }

    /// Whether the host shows the system's pointer: in every phase but
    /// `Playing`.
    pub fn show_mouse(&self) -> (shown: bool)
        ensures
            shown == (self.game_state != GameState::Playing),
    {
        self.game_state != GameState::Playing
    }

    /// Paints the game onto a screen of the given size.
    pub fn draw(&self, screen_width: i64, screen_height: i64) -> (commands: Vec<DrawCommand>)
        ensures
            commands@ == self@.scene(screen_width, screen_height),
    {
        let left = left_wall(screen_width);
        let mut commands: Vec<DrawCommand> = Vec::new();
        commands.push(DrawCommand::Clear { color: Color::Black });
        // border
        commands.push(
            DrawCommand::RectangleLines {
                x: saturating(left as i128 - (BORDER / 2) as i128),
                y: 0,
                width: GAME_WIDTH + BORDER,
                height: screen_height,
                thickness: BORDER,
                color: Color::White,
            },
        );
        // paddle
        if self.game_state == GameState::Playing {
            commands.push(
                DrawCommand::Rectangle {
                    x: on_screen(left, self.paddle_pos.x),
                    y: self.paddle_pos.y,
                    width: BRICK_WIDTH,
                    height: BRICK_HEIGHT,
                    color: Color::SkyBlue,
                },
            );
        } else {
            commands.push(
                DrawCommand::Rectangle {
                    x: left,
                    y: self.paddle_pos.y,
                    width: GAME_WIDTH,
                    height: BRICK_HEIGHT,
                    color: Color::SkyBlue,
                },
            );
        }
        // ball
        commands.push(
            DrawCommand::Rectangle {
                x: on_screen(left, self.ball_pos.x),
                y: self.ball_pos.y,
                width: BALL_SIZE,
                height: BALL_SIZE,
                color: Color::White,
            },
        );

        // bricks
        let ghost head = commands@;
        let mut i: usize = 0;
        while i < self.bricks.len()
            invariant
                i <= self.bricks.len(),
                left == arena_left(screen_width),
                commands@ == head + Seq::new(
                    i as nat,
                    |k: int| brick_rectangle(self.bricks@[k], screen_width),
                ),
            decreases self.bricks.len() - i,
        {
            let brick = &self.bricks[i];
            commands.push(
                DrawCommand::Rectangle {
                    x: on_screen(left, brick.pos.x),
                    y: brick.pos.y,
                    width: BRICK_WIDTH,
                    height: BRICK_HEIGHT,
                    color: brick.color(),
                },
            );
            i += 1;
        }

        // score and balls left
        commands.push(
            DrawCommand::Label(
                Label {
                    x: on_screen(left, SCORE_LEFT),
                    y: SCORE_TOP,
                    anchor: Anchor::Left,
                    font_size: self.font_size,
                    text: Text::Score(self.score),
                },
            ),
        );
        commands.push(
            DrawCommand::Label(
                Label {
                    x: on_screen(left, GAME_WIDTH - BALLS_RIGHT),
                    y: SCORE_TOP,
                    anchor: Anchor::Left,
                    font_size: self.font_size,
                    text: Text::Balls(self.balls_rem),
                },
            ),
        );

        // info text
        let mut overlay = match self.game_state {
            GameState::Paused => self.draw_paused_text(screen_width, screen_height),
            GameState::NewGame => self.draw_new_game_text(screen_width, screen_height),
            GameState::GameOver => self.draw_game_over_text(screen_width, screen_height),
            GameState::Win => self.draw_win_text(screen_width, screen_height),
            GameState::Playing => Vec::new(),
        };
        commands.append(&mut overlay);
        commands
    }

    /// The invitation shown before the first game.
    pub fn draw_new_game_text(&self, screen_width: i64, screen_height: i64) -> (commands: Vec<
        DrawCommand,
    >)
        ensures
            commands@ == self@.headline(Text::ClickToPlay, screen_width, screen_height),
    {
        let mut commands: Vec<DrawCommand> = Vec::new();
        commands.push(centered(Text::ClickToPlay, 1, self.font_size, screen_width, screen_height));
        commands
    }

    /// The two lines shown while the game is paused.
    pub fn draw_paused_text(&self, screen_width: i64, screen_height: i64) -> (commands: Vec<
        DrawCommand,
    >)
        ensures
            commands@ == self@.two_lines(
                Text::GamePaused,
                Text::ClickToResume,
                screen_width,
                screen_height,
            ),
    {
        let mut commands: Vec<DrawCommand> = Vec::new();
        commands.push(centered(Text::GamePaused, 1, self.font_size, screen_width, screen_height));
        commands.push(
            centered(Text::ClickToResume, 0, self.font_size, screen_width, screen_height),
        );
        commands
    }

    /// The two lines shown after the last ball is lost.
    pub fn draw_game_over_text(&self, screen_width: i64, screen_height: i64) -> (commands: Vec<
        DrawCommand,
    >)
        ensures
            commands@ == self@.two_lines(
                Text::GameOver,
                Text::ClickToPlayAgain,
                screen_width,
                screen_height,
            ),
    {
        let mut commands: Vec<DrawCommand> = Vec::new();
        commands.push(centered(Text::GameOver, 1, self.font_size, screen_width, screen_height));
        commands.push(
            centered(Text::ClickToPlayAgain, 0, self.font_size, screen_width, screen_height),
        );
        commands
    }

    /// The two lines shown after the last brick is gone.
    pub fn draw_win_text(&self, screen_width: i64, screen_height: i64) -> (commands: Vec<
        DrawCommand,
    >)
        ensures
            commands@ == self@.two_lines(
                Text::YouWin,
                Text::ClickToPlayAgain,
                screen_width,
                screen_height,
            ),
    {
        let mut commands: Vec<DrawCommand> = Vec::new();
        commands.push(centered(Text::YouWin, 1, self.font_size, screen_width, screen_height));
        commands.push(
            centered(Text::ClickToPlayAgain, 0, self.font_size, screen_width, screen_height),
        );
        commands
    }
}

} // verus!
