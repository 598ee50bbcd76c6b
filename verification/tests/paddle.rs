//! Paddle movement, clamping, scoring and reset.

use pong::entity::Player;
use pong::geometry::Vec2i;

const FIELD_HEIGHT: i64 = 48_000;
const SPEED: i64 = 800;

fn paddle_at(y: i64) -> Player {
    Player::new(Vec2i::new(1_600, y), 1_600, 6_000)
}

#[test]
fn move_up_steps_by_speed() {
    let mut p = paddle_at(10_000);
    p.move_up(SPEED);
    assert_eq!(p.paddle.position.y, 9_200);
}

#[test]
fn move_up_clamps_at_top_wall() {
    let mut p = paddle_at(500);
    p.move_up(SPEED);
    assert_eq!(p.paddle.position.y, 0);
}

#[test]
fn move_up_never_goes_negative() {
    let mut p = paddle_at(0);
    for _ in 0..20 {
        p.move_up(SPEED);
        assert!(p.paddle.position.y >= 0);
    }
}

#[test]
fn move_down_steps_by_speed() {
    let mut p = paddle_at(10_000);
    p.move_down(SPEED, FIELD_HEIGHT);
    assert_eq!(p.paddle.position.y, 10_800);
}

#[test]
fn move_down_clamps_at_bottom_wall() {
    let mut p = paddle_at(41_500);
    p.move_down(SPEED, FIELD_HEIGHT);
    // 41_500 + 800 + 6_000 would overshoot the field's 48_000
    assert_eq!(p.paddle.position.y, 42_000);
    assert_eq!(p.paddle.position.y + p.paddle.height, FIELD_HEIGHT);
}

#[test]
fn move_down_bottom_edge_stays_on_field() {
    let mut p = paddle_at(40_000);
    for _ in 0..20 {
        p.move_down(SPEED, FIELD_HEIGHT);
        assert!(p.paddle.position.y + p.paddle.height <= FIELD_HEIGHT);
    }
}

#[test]
fn eight_steps_down_from_a_hundred_pixels() {
    // A 60-pixel paddle at y = 100 on a 480-pixel field, stepped down by
    // 8 pixels eight times, ends at y = 164 with no clamp triggered.
    let mut p = paddle_at(10_000);
    for _ in 0..8 {
        p.move_down(SPEED, FIELD_HEIGHT);
    }
    assert_eq!(p.paddle.position.y, 16_400);
}

#[test]
fn scoring_counts_up_from_zero() {
    let mut p = paddle_at(0);
    assert_eq!(p.get_score(), 0);
    p.score();
    p.score();
    assert_eq!(p.get_score(), 2);
}

#[test]
fn reset_recentres_and_keeps_score() {
    let mut p = paddle_at(3_000);
    p.score();
    p.reset(FIELD_HEIGHT);
    assert_eq!(p.paddle.position.y, 21_000);
    assert_eq!(p.paddle.position.x, 1_600);
    assert_eq!(p.get_score(), 1);
}
