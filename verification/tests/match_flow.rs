//! The round state machine: goals, freezing, restart, and full ticks
//! through the match controller.

use pong::gamestate::{Config, GameState, Input};

fn default_match() -> GameState {
    GameState::new(Config::default(), 1_600, 6_000, 800, 800)
}

fn no_keys() -> Input {
    Input { p1_up: false, p1_down: false, p2_up: false, p2_down: false, restart: false }
}

#[test]
fn default_config_holds_the_standard_match() {
    let c = Config::default();
    assert_eq!(c.field_width, 64_000);
    assert_eq!(c.field_height, 48_000);
    assert_eq!(c.paddle_speed, 800);
    assert_eq!(c.ball_speed, 500);
    assert_eq!(c.paddle_spin, 400);
    assert_eq!(c.ball_acc, 5);
    assert_eq!(c.paddle_inset, 1_600);
}

#[test]
fn opening_layout_is_centred() {
    let gs = default_match();
    assert_eq!(gs.player1.paddle.position.x, 1_600);
    assert_eq!(gs.player1.paddle.position.y, 21_000);
    assert_eq!(gs.player2.paddle.position.x, 60_800);
    assert_eq!(gs.player2.paddle.position.y, 21_000);
    assert_eq!(gs.ball.puck.position.x, 31_600);
    assert_eq!(gs.ball.puck.position.y, 23_600);
    assert_eq!(gs.ball.velocity.x, 500);
    assert_eq!(gs.ball.velocity.y, 0);
    assert_eq!(gs.player1.get_score(), 0);
    assert_eq!(gs.player2.get_score(), 0);
    assert!(!gs.is_game_over());
}

#[test]
fn ball_out_left_scores_for_right_player() {
    // A ball on the left boundary moving left at 5 pixels per tick: the
    // next tick puts it past the edge, scores for the right player and
    // freezes the round.
    let mut gs = default_match();
    gs.ball.puck.position.x = 0;
    gs.ball.puck.position.y = 24_000;
    gs.ball.velocity.x = -500;
    gs.ball.velocity.y = 0;
    gs.update(no_keys());
    assert!(gs.ball.is_in_p1_goal());
    assert!(gs.is_game_over());
    assert_eq!(gs.player2.get_score(), 1);
    assert_eq!(gs.player1.get_score(), 0);
}

#[test]
fn ball_out_right_scores_for_left_player() {
    let mut gs = default_match();
    gs.ball.puck.position.x = 63_000;
    gs.ball.velocity.x = 500;
    gs.ball.velocity.y = 0;
    gs.update(no_keys());
    // leading edge 63_500 + 800 is past the 64_000 boundary
    assert!(gs.is_game_over());
    assert_eq!(gs.player1.get_score(), 1);
    assert_eq!(gs.player2.get_score(), 0);
}

#[test]
fn restart_while_playing_has_no_effect() {
    let mut gs = default_match();
    gs.player1.paddle.position.y = 0;
    let mut input = no_keys();
    input.restart = true;
    gs.update(input);
    // the round is live: the tick ran normally and nothing was reset
    assert!(!gs.is_game_over());
    assert_eq!(gs.player1.paddle.position.y, 0);
    assert_eq!(gs.ball.puck.position.x, 32_100);
    assert_eq!(gs.player1.get_score(), 0);
    assert_eq!(gs.player2.get_score(), 0);
}

#[test]
fn round_over_freezes_everything() {
    let mut gs = default_match();
    gs.ball.puck.position.x = 0;
    gs.ball.velocity.x = -500;
    gs.ball.velocity.y = 0;
    gs.update(no_keys());
    assert!(gs.is_game_over());
    let frozen = gs;
    // held keys and further ticks change nothing while the round is over
    let mut keys_held = no_keys();
    keys_held.p1_up = true;
    keys_held.p2_down = true;
    for _ in 0..3 {
        gs.update(keys_held);
        assert_eq!(gs, frozen);
    }
}

#[test]
fn restart_restores_layout_and_keeps_scores() {
    let mut gs = default_match();
    gs.player1.paddle.position.y = 2_000;
    gs.ball.puck.position.x = 0;
    gs.ball.velocity.x = -500;
    gs.ball.velocity.y = 0;
    gs.update(no_keys());
    assert!(gs.is_game_over());
    assert_eq!(gs.player2.get_score(), 1);
    let mut input = no_keys();
    input.restart = true;
    gs.update(input);
    assert!(!gs.is_game_over());
    // scores persist across the round reset
    assert_eq!(gs.player2.get_score(), 1);
    assert_eq!(gs.player1.get_score(), 0);
    // ball and paddles are back on the opening layout
    assert_eq!(gs.ball.puck.position.x, 31_600);
    assert_eq!(gs.ball.puck.position.y, 23_600);
    assert_eq!(gs.ball.velocity.x, 500);
    assert_eq!(gs.ball.velocity.y, 0);
    assert_eq!(gs.player1.paddle.position.y, 21_000);
    assert_eq!(gs.player2.paddle.position.y, 21_000);
}

#[test]
fn held_keys_move_both_paddles_in_a_tick() {
    let mut gs = default_match();
    let mut input = no_keys();
    input.p1_up = true;
    input.p2_down = true;
    gs.update(input);
    assert_eq!(gs.player1.paddle.position.y, 20_200);
    assert_eq!(gs.player2.paddle.position.y, 21_800);
}

#[test]
fn tick_bounces_off_the_top_wall() {
    let mut gs = default_match();
    gs.ball.puck.position.y = 400;
    gs.ball.velocity.x = 0;
    gs.ball.velocity.y = -500;
    gs.update(no_keys());
    assert_eq!(gs.ball.puck.position.y, -100);
    assert_eq!(gs.ball.velocity.y, 500);
    assert!(!gs.is_game_over());
}

#[test]
fn double_overlap_applies_only_the_left_response() {
    // A ball wide enough to lie on both paddles at once gets exactly one
    // hit response, the left paddle's: one acceleration, one flip.
    let mut gs = GameState::new(Config::default(), 1_600, 6_000, 60_000, 800);
    gs.ball.puck.position.x = 2_000;
    gs.ball.puck.position.y = 23_600;
    gs.ball.velocity.x = 500;
    gs.ball.velocity.y = 0;
    gs.update(no_keys());
    // still spanning both paddles after the move; a second response
    // would have left the velocity at +510
    assert_eq!(gs.ball.velocity.x, -505);
    assert_eq!(gs.ball.velocity.y, 0);
    assert!(!gs.is_game_over());
}

#[test]
fn restart_restores_opening_layout_with_odd_sizes() {
    // With the one shared centring formula the restart reproduces the
    // opening layout exactly, truncation and all, even for sizes that
    // are an odd number of subpixels.
    let fresh = GameState::new(Config::default(), 1_600, 5_999, 801, 801);
    let mut gs = fresh;
    gs.ball.puck.position.x = 0;
    gs.ball.velocity.x = -500;
    gs.ball.velocity.y = 0;
    gs.update(no_keys());
    assert!(gs.is_game_over());
    let mut input = no_keys();
    input.restart = true;
    gs.update(input);
    assert_eq!(gs.player1.paddle.position, fresh.player1.paddle.position);
    assert_eq!(gs.player2.paddle.position, fresh.player2.paddle.position);
    assert_eq!(gs.ball.puck.position, fresh.ball.puck.position);
    assert_eq!(gs.ball.velocity, fresh.ball.velocity);
}

#[test]
fn tick_applies_the_left_paddle_hit() {
    let mut gs = default_match();
    // one tick of leftward flight lands the ball dead centre on the
    // left paddle
    gs.ball.puck.position.x = 3_300;
    gs.ball.puck.position.y = 23_600;
    gs.ball.velocity.x = -500;
    gs.ball.velocity.y = 0;
    gs.update(no_keys());
    assert_eq!(gs.ball.puck.position.x, 2_800);
    assert_eq!(gs.ball.velocity.x, 505);
    assert_eq!(gs.ball.velocity.y, 0);
    assert!(!gs.is_game_over());
}
