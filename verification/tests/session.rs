use breakout::{Breakout, Brick, GameState, Vec2, BRICK_WIDTH, GAME_WIDTH, UNIT};

const SCREEN: i64 = 1000 * UNIT;
const FRAME: u32 = 16_667;

fn fresh() -> Breakout {
    Breakout::new(56, SCREEN)
}

fn playing() -> Breakout {
    let mut game = fresh();
    game.handle_mouse_click(true, SCREEN);
    game
}

fn at(x: i64, y: i64) -> Vec2 {
    Vec2 { x, y }
}

fn points_left(game: &Breakout) -> u32 {
    game.bricks.iter().map(|b| b.point_value() as u32).sum()
}

#[test]
fn three_drops_without_scoring_end_the_game() {
    let mut game = fresh();
    assert_eq!(game.bricks.len(), 14 * 8);
    assert_eq!(game.balls_rem, 3);
    assert_eq!(game.score, 0);
    game.handle_mouse_click(true, SCREEN);
    assert_eq!(game.game_state, GameState::Playing);

    game.update(0, 700_000, SCREEN);
    assert_eq!(game.balls_rem, 2);
    assert_eq!(game.game_state, GameState::Playing);
    assert_eq!(game.ball_pos, at(389 * UNIT, 500 * UNIT));

    game.update(0, 700_000, SCREEN);
    assert_eq!(game.balls_rem, 1);
    assert_eq!(game.game_state, GameState::Playing);

    game.update(0, 700_000, SCREEN);
    assert_eq!(game.balls_rem, 0);
    assert_eq!(game.game_state, GameState::GameOver);
    assert_eq!(game.score, 0);
    assert_eq!(game.bricks.len(), 112);
}

#[test]
fn removing_every_brick_wins_with_the_full_score() {
    let mut game = playing();
    let mut removed = 0;
    while !game.bricks.is_empty() {
        assert_eq!(game.game_state, GameState::Playing);
        let target = game.bricks[0];
        let score = game.score;
        game.ball_pos = target.pos;
        game.update(0, 0, SCREEN);
        removed += 1;
        assert_eq!(game.bricks.len(), 112 - removed);
        assert_eq!(game.score, score + target.point_value());
        assert_eq!(game.score as u32 + points_left(&game), 448);
    }
    assert_eq!(removed, 112);
    assert_eq!(game.game_state, GameState::Win);
    assert_eq!(game.score, (1 + 1 + 3 + 3 + 5 + 5 + 7 + 7) * 14);
    assert_eq!(game.score, 448);
    assert_eq!(game.balls_rem, 3);
}

#[test]
fn removing_every_brick_from_the_top_wins_too() {
    let mut game = playing();
    while let Some(target) = game.bricks.last().copied() {
        game.ball_pos = target.pos;
        game.update(0, 0, SCREEN);
    }
    assert_eq!(game.game_state, GameState::Win);
    assert_eq!(game.score, 448);
}

#[test]
fn click_after_game_over_starts_a_fresh_game() {
    let mut game = playing();
    game.ball_pos = game.bricks[40].pos;
    game.update(123 * UNIT, 0, SCREEN);
    assert_eq!(game.score, 3);
    for _ in 0..3 {
        game.ball_pos = at(10 * UNIT, 849 * UNIT);
        game.ball_vel = at(500, 500);
        game.update(123 * UNIT, FRAME, SCREEN);
    }
    assert_eq!(game.game_state, GameState::GameOver);
    assert_eq!(game.balls_rem, 0);
    assert_eq!(game.bricks.len(), 111);

    game.handle_mouse_click(true, SCREEN);
    assert_eq!(game.game_state, GameState::Playing);
    assert_eq!(game.bricks, Breakout::bricks());
    assert_eq!(game.bricks.len(), 112);
    assert_eq!(game.score, 0);
    assert_eq!(game.balls_rem, 3);
    assert_eq!(game.ball_pos, at(389 * UNIT, 500 * UNIT));
    assert_eq!(game.ball_vel, at(500, 500));
    assert_eq!(game.paddle_pos, at(364 * UNIT, 850 * UNIT));
    assert_eq!(game.last_mouse_x, 0);
    assert!(!game.hit_paddle);
    assert_eq!(game.font_size, 56);
    assert_eq!(game.game_count, 0);
}

#[test]
fn click_after_a_win_starts_a_fresh_game() {
    let mut game = playing();
    game.bricks = vec![Brick::new(7, 7)];
    game.score = 441;
    game.ball_pos = game.bricks[0].pos;
    game.update(0, 0, SCREEN);
    assert_eq!(game.game_state, GameState::Win);
    assert_eq!(game.score, 448);
    game.handle_mouse_click(true, 800 * UNIT);
    assert_eq!(game.game_state, GameState::Playing);
    assert_eq!(game.bricks, Breakout::bricks());
    assert_eq!(game.score, 0);
    assert_eq!(game.balls_rem, 3);
    assert_eq!(game.ball_pos, at(389 * UNIT, 400 * UNIT));
    assert_eq!(game.paddle_pos, at(364 * UNIT, 650 * UNIT));
}

#[test]
fn click_starts_a_new_game_as_it_stands() {
    let mut game = fresh();
    game.update(40 * UNIT, FRAME, SCREEN);
    let before = game.clone();
    game.handle_mouse_click(true, SCREEN);
    assert_eq!(game.game_state, GameState::Playing);
    assert_eq!(game.ball_pos, before.ball_pos);
    assert_eq!(game.paddle_pos, before.paddle_pos);
    assert_eq!(game.last_mouse_x, 40 * UNIT);
    assert_eq!(game.bricks, before.bricks);
}

#[test]
fn click_resumes_a_paused_game_as_it_stands() {
    let mut game = playing();
    game.ball_pos = game.bricks[0].pos;
    game.update(0, 0, SCREEN);
    game.handle_key(true);
    assert_eq!(game.game_state, GameState::Paused);
    game.handle_mouse_click(true, SCREEN);
    assert_eq!(game.game_state, GameState::Playing);
    assert_eq!(game.score, 1);
    assert_eq!(game.bricks.len(), 111);
}

#[test]
fn click_while_playing_does_nothing() {
    let mut game = playing();
    game.score = 9;
    game.balls_rem = 1;
    game.handle_mouse_click(true, SCREEN);
    assert_eq!(game.game_state, GameState::Playing);
    assert_eq!(game.score, 9);
    assert_eq!(game.balls_rem, 1);
}

#[test]
fn no_click_does_nothing() {
    for state in [
        GameState::NewGame,
        GameState::Playing,
        GameState::Paused,
        GameState::GameOver,
        GameState::Win,
    ] {
        let mut game = fresh();
        game.game_state = state;
        game.score = 5;
        game.handle_mouse_click(false, SCREEN);
        assert_eq!(game.game_state, state);
        assert_eq!(game.score, 5);
    }
}

#[test]
fn pause_key_freezes_and_resumes_play() {
    let mut game = playing();
    game.update(10 * UNIT, FRAME, SCREEN);
    game.handle_key(true);
    assert_eq!(game.game_state, GameState::Paused);

    let ball = game.ball_pos;
    let paddle = game.paddle_pos;
    let pointer = game.last_mouse_x;
    game.update(300 * UNIT, FRAME, SCREEN);
    assert_eq!(game.ball_pos, ball);
    assert_eq!(game.paddle_pos, paddle);
    assert_eq!(game.last_mouse_x, pointer);
    assert_eq!(game.ball_vel, at(500, 500));
    assert_eq!(game.game_state, GameState::Paused);

    game.handle_key(true);
    assert_eq!(game.game_state, GameState::Playing);
    game.update(300 * UNIT, FRAME, SCREEN);
    assert_eq!(game.ball_pos, at(ball.x + 8_333_500, ball.y + 8_333_500));
    assert_eq!(game.paddle_pos.x, paddle.x + 290 * UNIT);
}

#[test]
fn pause_key_means_nothing_outside_play() {
    for state in [GameState::NewGame, GameState::GameOver, GameState::Win] {
        let mut game = fresh();
        game.game_state = state;
        game.handle_key(true);
        assert_eq!(game.game_state, state);
    }
}

#[test]
fn pause_key_not_pressed_does_nothing() {
    let mut game = playing();
    game.handle_key(false);
    assert_eq!(game.game_state, GameState::Playing);
    game.handle_key(true);
    game.handle_key(false);
    assert_eq!(game.game_state, GameState::Paused);
}

#[test]
fn paused_update_keeps_an_empty_board_paused() {
    let mut game = playing();
    game.bricks.clear();
    game.game_state = GameState::Paused;
    game.update(0, FRAME, SCREEN);
    assert_eq!(game.game_state, GameState::Paused);
}

#[test]
fn last_brick_wins_in_the_same_frame() {
    let mut game = playing();
    game.bricks = vec![Brick::new(3, 3)];
    game.ball_pos = game.bricks[0].pos;
    game.update(0, FRAME, SCREEN);
    assert!(game.bricks.is_empty());
    assert_eq!(game.game_state, GameState::Win);
    assert_eq!(game.score, 3);
}

#[test]
fn a_brick_short_of_the_last_does_not_win() {
    let mut game = playing();
    game.bricks = vec![Brick::new(3, 3), Brick::new(3, 9)];
    game.ball_pos = game.bricks[0].pos;
    game.update(0, FRAME, SCREEN);
    assert_eq!(game.bricks.len(), 1);
    assert_eq!(game.game_state, GameState::Playing);
}

#[test]
fn an_empty_board_wins_in_any_running_phase() {
    for state in [GameState::NewGame, GameState::Playing, GameState::GameOver, GameState::Win] {
        let mut game = fresh();
        game.game_state = state;
        game.bricks.clear();
        game.update(0, FRAME, SCREEN);
        assert_eq!(game.game_state, GameState::Win);
    }
}

#[test]
fn last_ball_is_game_over_in_the_same_frame() {
    let mut game = playing();
    game.balls_rem = 1;
    game.ball_pos = at(10 * UNIT, 849 * UNIT);
    game.update(0, FRAME, SCREEN);
    assert_eq!(game.balls_rem, 0);
    assert_eq!(game.game_state, GameState::GameOver);
}

#[test]
fn last_brick_beats_last_ball() {
    let mut game = playing();
    game.balls_rem = 1;
    game.bricks = vec![Brick::new(0, 5)];
    game.ball_pos = game.bricks[0].pos;
    game.ball_vel = at(500, -500);
    game.update(0, 2_000_000, SCREEN);
    assert!(game.bricks.is_empty());
    assert_eq!(game.balls_rem, 0);
    assert_eq!(game.game_state, GameState::Win);
}

#[test]
fn update_moves_the_paddle_before_the_ball_meets_it() {
    let mut game = playing();
    game.ball_pos = at(700 * UNIT, 840 * UNIT);
    game.update(320 * UNIT, 0, SCREEN);
    assert_eq!(game.paddle_pos.x, 684 * UNIT);
    assert!(game.hit_paddle);
    assert_eq!(game.ball_vel, at(500, -500));
}

#[test]
fn update_checks_the_walls_before_the_ball_flies() {
    let mut game = playing();
    game.ball_pos = at(0, 400 * UNIT);
    game.ball_vel = at(-500, 500);
    game.update(0, 1_000, SCREEN);
    assert_eq!(game.ball_vel, at(500, 500));
    assert_eq!(game.ball_pos, at(500_000, 400 * UNIT + 500_000));
}

#[test]
fn update_lets_the_ball_overshoot_a_wall_for_one_frame() {
    let mut game = playing();
    game.ball_pos = at(1 * UNIT, 400 * UNIT);
    game.ball_vel = at(-500, -500);
    game.update(0, 10_000, SCREEN);
    assert_eq!(game.ball_pos, at(-4 * UNIT, 395 * UNIT));
    assert_eq!(game.ball_vel, at(-500, -500));
    game.update(0, 10_000, SCREEN);
    assert_eq!(game.ball_vel, at(500, -500));
    assert_eq!(game.ball_pos, at(1 * UNIT, 390 * UNIT));
}

#[test]
fn update_bounces_the_ball_in_a_new_game_without_scoring() {
    let mut game = fresh();
    game.ball_pos = game.bricks[5].pos;
    game.ball_vel = at(500, -500);
    game.update(0, 1_000, SCREEN);
    assert_eq!(game.ball_vel, at(500, 500));
    assert_eq!(game.bricks.len(), 112);
    assert_eq!(game.score, 0);
    assert_eq!(game.game_state, GameState::NewGame);
}

#[test]
fn update_takes_one_brick_per_frame() {
    let mut game = playing();
    let left = Brick::new(4, 2);
    game.ball_pos = at(left.pos.x + BRICK_WIDTH - 5 * UNIT, left.pos.y);
    game.update(0, 0, SCREEN);
    assert_eq!(game.bricks.len(), 111);
    game.update(0, 0, SCREEN);
    assert_eq!(game.bricks.len(), 110);
    assert_eq!(game.score, 10);
}

#[test]
fn a_long_game_keeps_its_books() {
    let mut game = playing();
    let mut score = 0;
    let mut bricks = game.bricks.len();
    for _ in 0..20_000u32 {
        if game.game_state != GameState::Playing {
            break;
        }
        let under_ball = (game.ball_pos.x - 17 * UNIT).clamp(0, GAME_WIDTH - BRICK_WIDTH);
        let pointer = game.last_mouse_x + (under_ball - game.paddle_pos.x);
        game.update(pointer, FRAME, SCREEN);
        assert_eq!(game.paddle_pos.x, under_ball);
        assert!(game.score >= score);
        assert!(game.bricks.len() == bricks || game.bricks.len() + 1 == bricks);
        assert_eq!(game.score as u32 + points_left(&game), 448);
        assert_eq!(game.balls_rem, 3);
        score = game.score;
        bricks = game.bricks.len();
    }
    assert!(game.score > 0);
    assert_eq!(game.bricks.is_empty(), game.game_state == GameState::Win);
}
