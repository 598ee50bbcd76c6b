//! The match controller: configuration, per-tick input, and the round
//! state machine that owns both paddles and the ball.

use vstd::prelude::*;
use crate::geometry::{Vec2i, overlaps, GEOM_LIMIT, SIM_LIMIT};
use crate::entity::{
    Ball, Player, clamped_up, clamped_down, vx_after_hit, vy_after_hit,
    wall_bounce_triggered,
};

verus! {

/// The rule constants of a match, in subpixel units: an explicit
/// immutable configuration handed to the controller at construction.
#[derive(Clone, Copy, Debug, PartialEq, Eq, Structural)]
pub struct Config {
    pub field_width: i64,
    pub field_height: i64,
    pub paddle_speed: i64,
    pub ball_speed: i64,
    pub paddle_spin: i64,
    pub ball_acc: i64,
    pub paddle_inset: i64,
}

impl Config {
    /// Every rule constant is non-negative, the field has positive extent,
    /// and all of them are small enough that tick arithmetic fits in `i64`.
    pub open spec fn wf(self) -> bool {
        &&& 0 < self.field_width <= GEOM_LIMIT
        &&& 0 < self.field_height <= GEOM_LIMIT
        &&& 0 <= self.paddle_speed <= GEOM_LIMIT
        &&& 0 <= self.ball_speed <= GEOM_LIMIT
        &&& 0 <= self.paddle_spin <= GEOM_LIMIT
        &&& 0 <= self.ball_acc <= GEOM_LIMIT
        &&& 0 <= self.paddle_inset <= GEOM_LIMIT
    }
}

impl Default for Config {
    /// The standard match: a 640 x 480 field, paddles moving 8 pixels per
    /// tick from 16 pixels inside each wall, a ball serving at 5 pixels
    /// per tick, spin factor 4, and 0.05 pixels of extra speed per hit.
    fn default() -> (c: Config)
        ensures
            c == (Config {
                field_width: 64_000i64,
                field_height: 48_000i64,
                paddle_speed: 800i64,
                ball_speed: 500i64,
                paddle_spin: 400i64,
                ball_acc: 5i64,
                paddle_inset: 1_600i64,
            }),
            c.wf(),
    {
        Config {
            field_width: 64_000,
            field_height: 48_000,
            paddle_speed: 800,
            ball_speed: 500,
            paddle_spin: 400,
            ball_acc: 5,
            paddle_inset: 1_600,
        }
    }
}

/// The movement keys held this tick, and whether the restart key was just
/// pressed. Polled once per tick by the shell and handed in as plain
/// booleans.
#[derive(Clone, Copy, Debug, PartialEq, Eq, Structural)]
pub struct Input {
    pub p1_up: bool,
    pub p1_down: bool,
    pub p2_up: bool,
    pub p2_down: bool,
    pub restart: bool,
}

/// The whole match: both players, the ball, the rule constants, and the
/// one state flag. While `game_over` is set the simulation is frozen and
/// only a restart is listened for.
#[derive(Clone, Copy, Debug, PartialEq, Eq, Structural)]
pub struct GameState {
    pub config: Config,
    pub player1: Player,
    pub player2: Player,
    pub ball: Ball,
    pub game_over: bool,
}

/// Where a paddle ends up after one tick of held keys: an upward step if
/// the up key is held, then a downward step if the down key is held, each
/// clamped to the field.
pub open spec fn paddle_y_after(
    y: int, up: bool, down: bool, speed: int, height: int, field_height: int,
) -> int {
    let y_up = if up {
        clamped_up(y, speed)
    } else {
        y
    };
    if down {
        clamped_down(y_up, speed, height, field_height)
    } else {
        y_up
    }
}

impl GameState {
    /// Structural well-formedness: the configuration is sane, every size
    /// is a bounded non-negative amount, paddles have positive height
    /// (the spin rule divides by it), and paddle positions stay in the
    /// small range the movement rules keep them in.
    pub open spec fn wf(self) -> bool {
        &&& self.config.wf()
        &&& 0 <= self.player1.paddle.width <= GEOM_LIMIT
        &&& 1 <= self.player1.paddle.height <= GEOM_LIMIT
        &&& 0 <= self.player2.paddle.width <= GEOM_LIMIT
        &&& 1 <= self.player2.paddle.height <= GEOM_LIMIT
        &&& self.player1.paddle.height <= self.config.field_height
        &&& self.player2.paddle.height <= self.config.field_height
        &&& 0 <= self.ball.puck.width <= GEOM_LIMIT
        &&& 0 <= self.ball.puck.height <= GEOM_LIMIT
        &&& -2 * GEOM_LIMIT <= self.player1.paddle.position.x <= 2 * GEOM_LIMIT
        &&& -2 * GEOM_LIMIT <= self.player2.paddle.position.x <= 2 * GEOM_LIMIT
        &&& -GEOM_LIMIT <= self.player1.paddle.position.y <= GEOM_LIMIT
        &&& -GEOM_LIMIT <= self.player2.paddle.position.y <= GEOM_LIMIT
    }

    /// What one simulated tick asks of the dynamic state: ball coordinates
    /// and velocities within the generous simulation range, and room left
    /// on both score counters.
    pub open spec fn sim_ready(self) -> bool {
        &&& -SIM_LIMIT <= self.ball.puck.position.x <= SIM_LIMIT
        &&& -SIM_LIMIT <= self.ball.puck.position.y <= SIM_LIMIT
        &&& -SIM_LIMIT <= self.ball.velocity.x <= SIM_LIMIT
        &&& -SIM_LIMIT <= self.ball.velocity.y <= SIM_LIMIT
        &&& self.player1.score < u32::MAX
        &&& self.player2.score < u32::MAX
    }
}

/// One full simulated tick while the round is live: paddles move by held
/// keys, the ball flies and bounces, at most one hit response is applied
/// — the left paddle is tested first and wins a double overlap — and a
/// goal freezes the round and awards the point, a ball past the left
/// edge scoring for the right player with the left-edge check taking
/// priority.
pub open spec fn tick(pre: GameState, input: Input, post: GameState) -> bool {
    let cfg = pre.config;
    let p1 = pre.player1.paddle;
    let p2 = pre.player2.paddle;
    let p1y = paddle_y_after(
        p1.position.y as int, input.p1_up, input.p1_down,
        cfg.paddle_speed as int, p1.height as int, cfg.field_height as int,
    );
    let p2y = paddle_y_after(
        p2.position.y as int, input.p2_up, input.p2_down,
        cfg.paddle_speed as int, p2.height as int, cfg.field_height as int,
    );
    let bw = pre.ball.puck.width as int;
    let bh = pre.ball.puck.height as int;
    let bx = pre.ball.puck.position.x + pre.ball.velocity.x;
    let by = pre.ball.puck.position.y + pre.ball.velocity.y;
    let vx0 = pre.ball.velocity.x as int;
    let vy_raw = pre.ball.velocity.y as int;
    let vy0 = if wall_bounce_triggered(by, bh, cfg.field_height as int) {
        -vy_raw
    } else {
        vy_raw
    };
    let t1 = overlaps(bx, by, bw, bh, p1.position.x as int, p1y, p1.width as int, p1.height as int);
    let t2 = !t1 && overlaps(bx, by, bw, bh, p2.position.x as int, p2y, p2.width as int, p2.height as int);
    let vx1 = vx_after_hit(vx0, t1, cfg.ball_acc as int);
    let vx2 = vx_after_hit(vx1, t2, cfg.ball_acc as int);
    let ball_cy = by + bh / 2;
    let p1_cy = p1y + p1.height / 2;
    let p2_cy = p2y + p2.height / 2;
    let vy1 = vy_after_hit(vy0, t1, cfg.paddle_spin as int, p1_cy, ball_cy, p1.height as int);
    let vy2 = vy_after_hit(vy1, t2, cfg.paddle_spin as int, p2_cy, ball_cy, p2.height as int);
    let past_left = bx < 0;
    let past_right = bx + bw > cfg.field_width;
    &&& post.config == cfg
    &&& post.player1.paddle.position.x == p1.position.x
    &&& post.player1.paddle.position.y == p1y
    &&& post.player1.paddle.width == p1.width
    &&& post.player1.paddle.height == p1.height
    &&& post.player2.paddle.position.x == p2.position.x
    &&& post.player2.paddle.position.y == p2y
    &&& post.player2.paddle.width == p2.width
    &&& post.player2.paddle.height == p2.height
    &&& post.ball.puck.position.x == bx
    &&& post.ball.puck.position.y == by
    &&& post.ball.puck.width == bw
    &&& post.ball.puck.height == bh
    &&& post.ball.velocity.x == vx2
    &&& post.ball.velocity.y == vy2
    &&& post.game_over == (past_left || past_right)
    &&& post.player1.score == pre.player1.score + (if !past_left && past_right {
        1int
    } else {
        0int
    })
    &&& post.player2.score == pre.player2.score + (if past_left {
        1int
    } else {
        0int
    })
}

/// The round-over to playing transition: ball and paddles go back to
/// their opening layout, the flag clears, and both scores persist
/// untouched.
pub open spec fn restarted(pre: GameState, post: GameState) -> bool {
    let cfg = pre.config;
    &&& post.config == cfg
    &&& post.game_over == false
    &&& post.player1.paddle.position.x == pre.player1.paddle.position.x
    &&& post.player1.paddle.position.y
        == (cfg.field_height - pre.player1.paddle.height) / 2
    &&& post.player1.paddle.width == pre.player1.paddle.width
    &&& post.player1.paddle.height == pre.player1.paddle.height
    &&& post.player1.score == pre.player1.score
    &&& post.player2.paddle.position.x == pre.player2.paddle.position.x
    &&& post.player2.paddle.position.y
        == (cfg.field_height - pre.player2.paddle.height) / 2
    &&& post.player2.paddle.width == pre.player2.paddle.width
    &&& post.player2.paddle.height == pre.player2.paddle.height
    &&& post.player2.score == pre.player2.score
    &&& post.ball.puck.position.x == cfg.field_width / 2 - pre.ball.puck.width / 2
    &&& post.ball.puck.position.y == cfg.field_height / 2 - pre.ball.puck.height / 2
    &&& post.ball.puck.width == pre.ball.puck.width
    &&& post.ball.puck.height == pre.ball.puck.height
    &&& post.ball.velocity.x == cfg.ball_speed
    &&& post.ball.velocity.y == 0
}

impl GameState {
    /// Open a match: paddles vertically centred at their fixed insets from
    /// the left and right walls, ball centred and serving to the right,
    /// both scores zero, round live. Entity sizes come from the drawable
    /// assets the shell renders with.
    pub fn new(
        config: Config,
        paddle_width: i64,
        paddle_height: i64,
        ball_width: i64,
        ball_height: i64,
    ) -> (r: GameState)
        requires
            config.wf(),
            0 <= paddle_width <= GEOM_LIMIT,
            1 <= paddle_height <= GEOM_LIMIT,
            paddle_height <= config.field_height,
            0 <= ball_width <= GEOM_LIMIT,
            0 <= ball_height <= GEOM_LIMIT,
        ensures
            r.config == config,
            r.player1.paddle.position.x == config.paddle_inset,
            r.player1.paddle.position.y == (config.field_height - paddle_height) / 2,
            r.player2.paddle.position.x
                == config.field_width - paddle_width - config.paddle_inset,
            r.player2.paddle.position.y == (config.field_height - paddle_height) / 2,
            r.player1.paddle.width == paddle_width,
            r.player1.paddle.height == paddle_height,
            r.player2.paddle.width == paddle_width,
            r.player2.paddle.height == paddle_height,
            r.player1.score == 0,
            r.player2.score == 0,
            r.ball.puck.position.x == config.field_width / 2 - ball_width / 2,
            r.ball.puck.position.y == config.field_height / 2 - ball_height / 2,
            r.ball.puck.width == ball_width,
            r.ball.puck.height == ball_height,
            r.ball.velocity.x == config.ball_speed,
            r.ball.velocity.y == 0,
            r.game_over == false,
            r.wf(),
            r.sim_ready(),
    {
        let paddle_y = (config.field_height - paddle_height) / 2;
        let player1 = Player::new(
            Vec2i::new(config.paddle_inset, paddle_y),
            paddle_width,
            paddle_height,
        );
        let player2 = Player::new(
            Vec2i::new(
                config.field_width - paddle_width - config.paddle_inset,
                paddle_y,
            ),
            paddle_width,
            paddle_height,
        );
        let ball = Ball::new(
            Vec2i::new(
                config.field_width / 2 - ball_width / 2,
                config.field_height / 2 - ball_height / 2,
            ),
            ball_width,
            ball_height,
            Vec2i::new(config.ball_speed, 0),
        );
        GameState { config, player1, player2, ball, game_over: false }
    }

    /// Start the next round: clear the flag and put ball and paddles back
    /// to the opening layout. Scores persist; only a full new match
    /// clears them.
    pub fn reset_game(&mut self)
        requires
            old(self).wf(),
        ensures
            restarted(*old(self), *final(self)),
            final(self).wf(),
            old(self).player1.score < u32::MAX && old(self).player2.score < u32::MAX
                ==> final(self).sim_ready(),
    {
        self.game_over = false;
        self.ball.reset(
            self.config.ball_speed,
            self.config.field_width,
            self.config.field_height,
        );
        self.player1.reset(self.config.field_height);
        self.player2.reset(self.config.field_height);
    }

    /// Movement phase of a tick: both paddles step by the held keys, then
    /// the ball flies and wall-bounces. No collision or scoring yet.
    pub fn update_positions(&mut self, input: Input)
        requires
            old(self).wf(),
            -SIM_LIMIT <= old(self).ball.puck.position.x <= SIM_LIMIT,
            -SIM_LIMIT <= old(self).ball.puck.position.y <= SIM_LIMIT,
            -SIM_LIMIT <= old(self).ball.velocity.x <= SIM_LIMIT,
            -SIM_LIMIT <= old(self).ball.velocity.y <= SIM_LIMIT,
        ensures
            final(self).config == old(self).config,
            final(self).game_over == old(self).game_over,
            final(self).player1.paddle.position.x == old(self).player1.paddle.position.x,
            final(self).player1.paddle.position.y == paddle_y_after(
                old(self).player1.paddle.position.y as int,
                input.p1_up,
                input.p1_down,
                old(self).config.paddle_speed as int,
                old(self).player1.paddle.height as int,
                old(self).config.field_height as int,
            ),
            final(self).player1.paddle.width == old(self).player1.paddle.width,
            final(self).player1.paddle.height == old(self).player1.paddle.height,
            final(self).player1.score == old(self).player1.score,
            final(self).player2.paddle.position.x == old(self).player2.paddle.position.x,
            final(self).player2.paddle.position.y == paddle_y_after(
                old(self).player2.paddle.position.y as int,
                input.p2_up,
                input.p2_down,
                old(self).config.paddle_speed as int,
                old(self).player2.paddle.height as int,
                old(self).config.field_height as int,
            ),
            final(self).player2.paddle.width == old(self).player2.paddle.width,
            final(self).player2.paddle.height == old(self).player2.paddle.height,
            final(self).player2.score == old(self).player2.score,
            final(self).ball.puck.position.x
                == old(self).ball.puck.position.x + old(self).ball.velocity.x,
            final(self).ball.puck.position.y
                == old(self).ball.puck.position.y + old(self).ball.velocity.y,
            final(self).ball.puck.width == old(self).ball.puck.width,
            final(self).ball.puck.height == old(self).ball.puck.height,
            final(self).ball.velocity.x == old(self).ball.velocity.x,
            final(self).ball.velocity.y == if wall_bounce_triggered(
                old(self).ball.puck.position.y + old(self).ball.velocity.y,
                old(self).ball.puck.height as int,
                old(self).config.field_height as int,
            ) {
                -old(self).ball.velocity.y
            } else {
                old(self).ball.velocity.y as int
            },
            final(self).wf(),
    {
        if input.p1_up {
            self.player1.move_up(self.config.paddle_speed);
        }
        if input.p1_down {
            self.player1.move_down(self.config.paddle_speed, self.config.field_height);
        }
        if input.p2_up {
            self.player2.move_up(self.config.paddle_speed);
        }
        if input.p2_down {
            self.player2.move_down(self.config.paddle_speed, self.config.field_height);
        }
        self.ball.move_puck(self.config.field_height);
    }

    /// Collision phase of a tick: the ball is tested against the left
    /// paddle first, then the right, and at most one hit response is
    /// applied per tick. A ball somehow overlapping both paddles at once
    /// gets only the left paddle's response.
    pub fn check_paddle_hit(&mut self)
        requires
            old(self).wf(),
            -2 * SIM_LIMIT <= old(self).ball.puck.position.x <= 2 * SIM_LIMIT,
            -2 * SIM_LIMIT <= old(self).ball.puck.position.y <= 2 * SIM_LIMIT,
            -2 * SIM_LIMIT <= old(self).ball.velocity.x <= 2 * SIM_LIMIT,
            -2 * SIM_LIMIT <= old(self).ball.velocity.y <= 2 * SIM_LIMIT,
        ensures
            final(self).config == old(self).config,
            final(self).game_over == old(self).game_over,
            final(self).player1 == old(self).player1,
            final(self).player2 == old(self).player2,
            final(self).ball.puck == old(self).ball.puck,
            final(self).ball.velocity.x == vx_after_hit(
                vx_after_hit(
                    old(self).ball.velocity.x as int,
                    old(self).ball.touches(old(self).player1),
                    old(self).config.ball_acc as int,
                ),
                !old(self).ball.touches(old(self).player1)
                    && old(self).ball.touches(old(self).player2),
                old(self).config.ball_acc as int,
            ),
            final(self).ball.velocity.y == vy_after_hit(
                vy_after_hit(
                    old(self).ball.velocity.y as int,
                    old(self).ball.touches(old(self).player1),
                    old(self).config.paddle_spin as int,
                    old(self).player1.paddle.centre_y(),
                    old(self).ball.puck.centre_y(),
                    old(self).player1.paddle.height as int,
                ),
                !old(self).ball.touches(old(self).player1)
                    && old(self).ball.touches(old(self).player2),
                old(self).config.paddle_spin as int,
                old(self).player2.paddle.centre_y(),
                old(self).ball.puck.centre_y(),
                old(self).player2.paddle.height as int,
            ),
    {
        let touched_left = self.ball.puck.bounds().intersects(&self.player1.paddle.bounds());
        if touched_left {
            self.ball.hit(&self.player1, self.config.ball_acc, self.config.paddle_spin);
        } else {
            self.ball.hit(&self.player2, self.config.ball_acc, self.config.paddle_spin);
        }
    }

    /// Scoring phase of a tick: a ball past the left edge freezes the
    /// round and scores for the right player; failing that, one past the
    /// right edge scores for the left player. Otherwise nothing changes.
    pub fn check_game_over(&mut self)
        requires
            0 <= old(self).ball.puck.width,
            old(self).ball.puck.position.x + old(self).ball.puck.width <= i64::MAX,
            old(self).ball.past_left() ==> old(self).player2.score < u32::MAX,
            !old(self).ball.past_left()
                && old(self).ball.past_right(old(self).config.field_width as int)
                ==> old(self).player1.score < u32::MAX,
        ensures
            final(self).config == old(self).config,
            final(self).ball == old(self).ball,
            final(self).player1.paddle == old(self).player1.paddle,
            final(self).player2.paddle == old(self).player2.paddle,
            final(self).game_over == (old(self).game_over
                || old(self).ball.past_left()
                || old(self).ball.past_right(old(self).config.field_width as int)),
            final(self).player2.score == old(self).player2.score
                + (if old(self).ball.past_left() {
                    1int
                } else {
                    0int
                }),
            final(self).player1.score == old(self).player1.score
                + (if !old(self).ball.past_left()
                    && old(self).ball.past_right(old(self).config.field_width as int) {
                    1int
                } else {
                    0int
                }),
    {
        if self.ball.is_in_p1_goal() {
            self.game_over = true;
            self.player2.score();
        } else if self.ball.is_in_p2_goal(self.config.field_width) {
            self.game_over = true;
            self.player1.score();
        }
    }

    /// One call per frame. While the round is live this runs a full
    /// simulated tick. Once the round is over the state is frozen solid —
    /// every further call leaves it exactly as it was — until a restart
    /// is handed in, which starts the next round with both scores kept.
    /// A restart while the round is live does nothing.
    pub fn update(&mut self, input: Input)
        requires
            old(self).wf(),
            !old(self).game_over ==> old(self).sim_ready(),
        ensures
            final(self).wf(),
            old(self).game_over && !input.restart ==> *final(self) == *old(self),
            old(self).game_over && input.restart
                ==> restarted(*old(self), *final(self)),
            !old(self).game_over ==> tick(*old(self), input, *final(self)),
    {
        if self.game_over {
            if input.restart {
                self.reset_game();
            }
        } else {
            self.update_positions(input);
            self.check_paddle_hit();
            self.check_game_over();
        }
    }

    /// Whether the round is over and the simulation frozen; the shell
    /// reads this to decide what to draw and whether restart applies.
    pub fn is_game_over(&self) -> (r: bool)
        ensures
            r == self.game_over,
    {
        self.game_over
    }
}

} // verus!
