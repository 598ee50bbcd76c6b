//! The moving pieces of the match: a geometric `Entity`, the player
//! `Player` paddle with its score, and the `Ball` with its velocity.

use vstd::prelude::*;
use vstd::arithmetic::div_mod::{lemma_div_nonincreasing, lemma_div_pos_is_pos};
use crate::geometry::{Vec2i, Rect, rects_intersect, GEOM_LIMIT, SIM_LIMIT};

verus! {

/// A positioned body with a fixed size. Sizes come from the drawable asset
/// the shell renders the entity with and never change during a match.
#[derive(Clone, Copy, Debug, PartialEq, Eq, Structural)]
pub struct Entity {
    pub position: Vec2i,
    pub width: i64,
    pub height: i64,
}

impl Entity {
    /// The bounding rectangle, as a spec-level value.
    pub open spec fn rect(self) -> Rect {
        Rect {
            x: self.position.x,
            y: self.position.y,
            width: self.width,
            height: self.height,
        }
    }

    /// Horizontal midpoint of the bounding rectangle.
    pub open spec fn centre_x(self) -> int {
        self.position.x + self.width / 2
    }

    /// Vertical midpoint of the bounding rectangle.
    pub open spec fn centre_y(self) -> int {
        self.position.y + self.height / 2
    }

    pub fn new(position: Vec2i, width: i64, height: i64) -> (e: Entity)
        ensures
            e == (Entity { position, width, height }),
    {
        Entity { position, width, height }
    }

    pub fn width(&self) -> (w: i64)
        ensures
            w == self.width,
    {
        self.width
    }

    pub fn height(&self) -> (h: i64)
        ensures
            h == self.height,
    {
        self.height
    }

    pub fn bounds(&self) -> (r: Rect)
        ensures
            r == self.rect(),
    {
        Rect::new(self.position.x, self.position.y, self.width, self.height)
    }

    pub fn centre(&self) -> (c: Vec2i)
        requires
            0 <= self.width,
            0 <= self.height,
            self.position.x + self.width <= i64::MAX,
            self.position.y + self.height <= i64::MAX,
        ensures
            c.x == self.centre_x(),
            c.y == self.centre_y(),
    {
        Vec2i::new(
            self.position.x + self.width / 2,
            self.position.y + self.height / 2,
        )
    }
}

/// Where a paddle whose top edge sits at `y` ends up after an upward
/// step of `speed`, clamped at the top wall.
pub open spec fn clamped_up(y: int, speed: int) -> int {
    if y - speed < 0 {
        0
    } else {
        y - speed
    }
}

/// Where a paddle whose top edge sits at `y` ends up after a downward
/// step of `speed`, clamped so its bottom edge stays on the field.
pub open spec fn clamped_down(y: int, speed: int, height: int, field_height: int) -> int {
    if y + speed + height > field_height {
        field_height - height
    } else {
        y + speed
    }
}

/// A player's paddle together with that player's score. Only the vertical
/// position ever moves; the horizontal inset is fixed at construction.
#[derive(Clone, Copy, Debug, PartialEq, Eq, Structural)]
pub struct Player {
    pub paddle: Entity,
    pub score: u32,
}

impl Player {
    pub fn new(position: Vec2i, width: i64, height: i64) -> (p: Player)
        ensures
            p.paddle == (Entity { position, width, height }),
            p.score == 0,
    {
        Player { paddle: Entity::new(position, width, height), score: 0 }
    }

    /// Step towards the top wall, never past it: the resulting vertical
    /// position is never negative.
    pub fn move_up(&mut self, speed: i64)
        requires
            0 <= speed,
            old(self).paddle.position.y - speed >= i64::MIN,
        ensures
            final(self).paddle.position.y == clamped_up(
                old(self).paddle.position.y as int,
                speed as int,
            ),
            final(self).paddle.position.y >= 0,
            final(self).paddle.position.x == old(self).paddle.position.x,
            final(self).paddle.width == old(self).paddle.width,
            final(self).paddle.height == old(self).paddle.height,
            final(self).score == old(self).score,
    {
        self.paddle.position.y = self.paddle.position.y - speed;
        if self.paddle.position.y < 0 {
            self.paddle.position.y = 0;
        }
    }

    /// Step towards the bottom wall, never past it: the paddle's bottom
    /// edge stays at or above the field's bottom.
    pub fn move_down(&mut self, speed: i64, field_height: i64)
        requires
            0 <= speed,
            0 <= old(self).paddle.height,
            old(self).paddle.position.y + speed + old(self).paddle.height <= i64::MAX,
            field_height - old(self).paddle.height >= i64::MIN,
        ensures
            final(self).paddle.position.y == clamped_down(
                old(self).paddle.position.y as int,
                speed as int,
                old(self).paddle.height as int,
                field_height as int,
            ),
            final(self).paddle.position.y + final(self).paddle.height <= field_height,
            final(self).paddle.position.x == old(self).paddle.position.x,
            final(self).paddle.width == old(self).paddle.width,
            final(self).paddle.height == old(self).paddle.height,
            final(self).score == old(self).score,
    {
        self.paddle.position.y = self.paddle.position.y + speed;
        if self.paddle.position.y + self.paddle.height > field_height {
            self.paddle.position.y = field_height - self.paddle.height;
        }
    }

    /// Award this player one point.
    pub fn score(&mut self)
        requires
            old(self).score < u32::MAX,
        ensures
            final(self).score == old(self).score + 1,
            final(self).paddle == old(self).paddle,
    {
        self.score = self.score + 1;
    }

    pub fn get_score(&self) -> (s: u32)
        ensures
            s == self.score,
    {
        self.score
    }

    /// Re-centre the paddle vertically for a new round, on exactly the
    /// opening-layout formula; the horizontal inset and the score are
    /// untouched.
    pub fn reset(&mut self, field_height: i64)
        requires
            0 <= old(self).paddle.height <= field_height,
        ensures
            final(self).paddle.position.y
                == (field_height - old(self).paddle.height) / 2,
            final(self).paddle.position.x == old(self).paddle.position.x,
            final(self).paddle.width == old(self).paddle.width,
            final(self).paddle.height == old(self).paddle.height,
            final(self).score == old(self).score,
    {
        self.paddle.position.y = (field_height - self.paddle.height) / 2;
    }
}

/// The direction of a horizontal velocity: 1 rightward, -1 leftward. A
/// motionless ball counts as travelling right, so every hit accelerates.
pub open spec fn sign(v: int) -> int {
    if v >= 0 {
        1
    } else {
        -1
    }
}

/// Horizontal hit response: the ball gains `accel` in its direction of
/// travel, then reverses. A motionless ball counts as travelling right
/// and leaves the hit moving left at `accel`.
pub open spec fn hit_velocity_x(vx: int, accel: int) -> int {
    -(vx + accel * sign(vx))
}

/// Vertical spin imparted by a hit: proportional to how far the paddle's
/// centre sits from the ball's centre, measured in paddle heights, and
/// directed away from the paddle's centre. The quotient is truncated
/// towards zero.
pub open spec fn spin_delta(spin: int, paddle_cy: int, ball_cy: int, paddle_height: int) -> int {
    let diff = paddle_cy - ball_cy;
    if diff >= 0 {
        -((spin * diff) / paddle_height)
    } else {
        (spin * -diff) / paddle_height
    }
}

/// The horizontal velocity after a possible hit.
pub open spec fn vx_after_hit(vx: int, touched: bool, accel: int) -> int {
    if touched {
        hit_velocity_x(vx, accel)
    } else {
        vx
    }
}

/// The vertical velocity after a possible hit.
pub open spec fn vy_after_hit(
    vy: int, touched: bool, spin: int, paddle_cy: int, ball_cy: int, paddle_height: int,
) -> int {
    if touched {
        vy + spin_delta(spin, paddle_cy, ball_cy, paddle_height)
    } else {
        vy
    }
}

/// A wall bounce fires when the ball's top edge has reached the top wall
/// or its bottom edge has reached the bottom wall. The check runs once per
/// tick, after the move; a ball fast enough to clear a wall in one tick
/// can tunnel past it — a deliberate boundary behaviour of the rule.
pub open spec fn wall_bounce_triggered(y: int, height: int, field_height: int) -> bool {
    y <= 0 || y + height >= field_height
}

/// The moving ball: a positioned body plus a velocity in subpixels per
/// tick.
#[derive(Clone, Copy, Debug, PartialEq, Eq, Structural)]
pub struct Ball {
    pub puck: Entity,
    pub velocity: Vec2i,
}

impl Ball {
    /// Whether the ball's bounding rectangle overlaps the paddle's.
    pub open spec fn touches(self, player: Player) -> bool {
        rects_intersect(self.puck.rect(), player.paddle.rect())
    }

    /// The ball's leading edge has crossed the left field boundary.
    pub open spec fn past_left(self) -> bool {
        self.puck.position.x < 0
    }

    /// The ball's leading edge has crossed the right field boundary.
    pub open spec fn past_right(self, field_width: int) -> bool {
        self.puck.position.x + self.puck.width > field_width
    }

    pub fn new(position: Vec2i, width: i64, height: i64, velocity: Vec2i) -> (b: Ball)
        ensures
            b.puck == (Entity { position, width, height }),
            b.velocity == velocity,
    {
        Ball { puck: Entity::new(position, width, height), velocity }
    }

    /// One tick of free flight: the position advances by the velocity and
    /// the vertical velocity reverses exactly once if the new position
    /// trips a wall. The bounce is reflective: the magnitude is kept, the
    /// sign flipped.
    pub fn move_puck(&mut self, field_height: i64)
        requires
            i64::MIN <= old(self).puck.position.x + old(self).velocity.x <= i64::MAX,
            i64::MIN <= old(self).puck.position.y + old(self).velocity.y <= i64::MAX,
            old(self).puck.position.y + old(self).velocity.y + old(self).puck.height
                <= i64::MAX,
            old(self).velocity.y != i64::MIN,
        ensures
            final(self).puck.position.x
                == old(self).puck.position.x + old(self).velocity.x,
            final(self).puck.position.y
                == old(self).puck.position.y + old(self).velocity.y,
            final(self).puck.width == old(self).puck.width,
            final(self).puck.height == old(self).puck.height,
            final(self).velocity.x == old(self).velocity.x,
            final(self).velocity.y == if wall_bounce_triggered(
                old(self).puck.position.y + old(self).velocity.y,
                old(self).puck.height as int,
                field_height as int,
            ) {
                -old(self).velocity.y
            } else {
                old(self).velocity.y as int
            },
    {
        self.puck.position.x = self.puck.position.x + self.velocity.x;
        self.puck.position.y = self.puck.position.y + self.velocity.y;
        if self.puck.position.y <= 0
            || self.puck.position.y + self.puck.height >= field_height {
            self.velocity.y = -self.velocity.y;
        }
    }

    /// Put the ball back in the middle of the field, serving to the right
    /// at `initial_speed` with no vertical motion.
    pub fn reset(&mut self, initial_speed: i64, field_width: i64, field_height: i64)
        requires
            0 <= old(self).puck.width,
            0 <= old(self).puck.height,
            0 <= field_width,
            0 <= field_height,
        ensures
            final(self).puck.position.x
                == field_width / 2 - old(self).puck.width / 2,
            final(self).puck.position.y
                == field_height / 2 - old(self).puck.height / 2,
            final(self).puck.width == old(self).puck.width,
            final(self).puck.height == old(self).puck.height,
            final(self).velocity.x == initial_speed,
            final(self).velocity.y == 0,
    {
        self.puck.position.x = field_width / 2 - self.puck.width / 2;
        self.puck.position.y = field_height / 2 - self.puck.height / 2;
        self.velocity = Vec2i::new(initial_speed, 0);
    }

    /// The left player has missed: the ball is past the left boundary, so
    /// the right player's goal has been scored.
    pub fn is_in_p1_goal(&self) -> (r: bool)
        ensures
            r == self.past_left(),
    {
        self.puck.position.x < 0
    }

    /// The right player has missed: the ball is past the right boundary.
    pub fn is_in_p2_goal(&self, field_width: i64) -> (r: bool)
        requires
            0 <= self.puck.width,
            self.puck.position.x + self.puck.width <= i64::MAX,
        ensures
            r == self.past_right(field_width as int),
    {
        self.puck.position.x + self.puck.width > field_width
    }

    /// The hit response. If the ball overlaps the paddle, the horizontal
    /// velocity grows by `accel` and reverses, and the vertical velocity
    /// takes spin away from the paddle's centre. Nothing bounds the
    /// resulting speed: the ball is meant to get faster for as long as a
    /// rally lasts. A ball that misses the paddle is untouched.
    pub fn hit(&mut self, player: &Player, accel: i64, spin: i64)
        requires
            0 <= accel <= GEOM_LIMIT,
            0 <= spin <= GEOM_LIMIT,
            0 <= old(self).puck.width <= GEOM_LIMIT,
            0 <= old(self).puck.height <= GEOM_LIMIT,
            0 <= player.paddle.width <= GEOM_LIMIT,
            1 <= player.paddle.height <= GEOM_LIMIT,
            old(self).puck.position.x + old(self).puck.width <= i64::MAX,
            old(self).puck.position.y + old(self).puck.height <= i64::MAX,
            player.paddle.position.x + player.paddle.width <= i64::MAX,
            player.paddle.position.y + player.paddle.height <= i64::MAX,
            -4 * SIM_LIMIT <= old(self).velocity.x <= 4 * SIM_LIMIT,
            -4 * SIM_LIMIT <= old(self).velocity.y <= 4 * SIM_LIMIT,
        ensures
            final(self).puck == old(self).puck,
            final(self).velocity.x == vx_after_hit(
                old(self).velocity.x as int,
                old(self).touches(*player),
                accel as int,
            ),
            final(self).velocity.y == vy_after_hit(
                old(self).velocity.y as int,
                old(self).touches(*player),
                spin as int,
                player.paddle.centre_y(),
                old(self).puck.centre_y(),
                player.paddle.height as int,
            ),
    {
        let ball_bounds = self.puck.bounds();
        let paddle_bounds = player.paddle.bounds();
        if ball_bounds.intersects(&paddle_bounds) {
            // Increase the ball's speed in its direction of travel, then
            // flip it.
            let bumped: i64 = if self.velocity.x >= 0 {
                self.velocity.x + accel
            } else {
                self.velocity.x - accel
            };
            self.velocity.x = -bumped;
            // The offset of the two centres, at most a paddle-plus-ball of
            // distance whenever the two rectangles overlap.
            let paddle_centre = player.paddle.centre();
            let ball_centre = self.puck.centre();
            let diff = paddle_centre.y - ball_centre.y;
            let h = player.paddle.height();
            proof {
                assert(spin * diff <= GEOM_LIMIT * (2 * GEOM_LIMIT)
                    && spin * diff >= -(GEOM_LIMIT * (2 * GEOM_LIMIT))
                    && spin * -diff <= GEOM_LIMIT * (2 * GEOM_LIMIT)) by (nonlinear_arith)
                    requires
                        0 <= spin <= GEOM_LIMIT,
                        -2 * GEOM_LIMIT <= diff <= 2 * GEOM_LIMIT,
                ;
            }
            let scaled: i64 = if diff >= 0 { spin * diff } else { spin * -diff };
            proof {
                lemma_div_pos_is_pos(scaled as int, h as int);
                lemma_div_nonincreasing(scaled as int, h as int);
            }
            let magnitude: i64 = scaled / h;
            // Apply the spin against the offset: a ball struck below the
            // paddle's centre is pushed further down, one struck above it
            // further up.
            if diff >= 0 {
                self.velocity.y = self.velocity.y - magnitude;
            } else {
                self.velocity.y = self.velocity.y + magnitude;
            }
        }
    }
}

} // verus!
