//! The ball: position and velocity integrated each tick, with a vertical
//! wall bounce and a horizontal paddle bounce.

use vstd::prelude::*;

verus! {

use crate::geometry::{boxes_overlap, clamp_i64, displacement, displacement_i64, sat_coord,
    COORD_LIMIT, VEL_LIMIT};
use crate::player::{Player, PADDLE_HALF_HEIGHT, PADDLE_WIDTH};

/// Radius of the ball, in units.
pub const BALL_RADIUS: i64 = 15;

/// Default velocity of the ball along each axis, in units per second.
pub const BALL_SPEED: i64 = 300;

/// The ball's radius is kept within this bound.
pub const RADIUS_LIMIT: i64 = 1_000_000;

/// A coordinate of the ball after one tick of travel: the displacement for
/// the elapsed time is added, saturating at the coordinate range.
pub open spec fn ball_pos_after(p: int, v: int, dt_ms: int) -> int {
    sat_coord(p + displacement(v, dt_ms))
}

/// Whether a ball centered at height `ny` is on or past a horizontal wall:
/// the top edge of the viewport at zero, or the line one radius above the
/// bottom edge. The two bounds are deliberately asymmetric.
pub open spec fn wall_hit(ny: int, radius: int, viewport_height: int) -> bool {
    ny <= 0 || ny >= viewport_height - radius
}

/// Whether the ball's bounding box, centered at `(nx, ny)`, overlaps the
/// bounding box of a paddle centered at `(px, py)`.
pub open spec fn hits_paddle(nx: int, ny: int, radius: int, px: int, py: int) -> bool {
    boxes_overlap(
        nx - radius, ny - radius, nx + radius, ny + radius,
        px, py - PADDLE_HALF_HEIGHT, px + PADDLE_WIDTH, py + PADDLE_HALF_HEIGHT,
    )
}

/// The vertical velocity after one tick: negated exactly when the moved ball
/// sits on or past a horizontal wall, otherwise kept.
pub open spec fn vy_after(y: int, vy: int, radius: int, dt_ms: int, viewport_height: int) -> int {
    if wall_hit(ball_pos_after(y, vy, dt_ms), radius, viewport_height) {
        -vy
    } else {
        vy
    }
}

/// The horizontal velocity after one tick: negated exactly when the moved
/// ball overlaps either paddle's bounding box, otherwise kept.
pub open spec fn vx_after(
    x: int, y: int, vx: int, vy: int, radius: int, dt_ms: int,
    left_x: int, left_y: int, right_x: int, right_y: int,
) -> int {
    let nx = ball_pos_after(x, vx, dt_ms);
    let ny = ball_pos_after(y, vy, dt_ms);
    if hits_paddle(nx, ny, radius, left_x, left_y) || hits_paddle(nx, ny, radius, right_x, right_y) {
        -vx
    } else {
        vx
    }
}

/// The ball: bounding-box center, velocity, and radius.
pub struct Ball {
    pub x: i64,
    pub y: i64,
    pub vx: i64,
    pub vy: i64,
    pub radius: i64,
}

/// Exact overlap test between the ball's box and one paddle's box.
fn overlaps_paddle(nx: i64, ny: i64, radius: i64, px: i64, py: i64) -> (b: bool)
    requires
        -COORD_LIMIT <= nx <= COORD_LIMIT,
        -COORD_LIMIT <= ny <= COORD_LIMIT,
        1 <= radius <= RADIUS_LIMIT,
        -COORD_LIMIT <= px <= COORD_LIMIT,
        -COORD_LIMIT <= py <= COORD_LIMIT,
    ensures
        b == hits_paddle(nx as int, ny as int, radius as int, px as int, py as int),
{
    nx - radius <= px + PADDLE_WIDTH && px <= nx + radius && ny - radius <= py
        + PADDLE_HALF_HEIGHT && py - PADDLE_HALF_HEIGHT <= ny + radius
}

impl Ball {
    /// Well-formedness: position within the coordinate range, velocity and
    /// radius bounded.
    pub open spec fn wf(self) -> bool {
        &&& -COORD_LIMIT <= self.x <= COORD_LIMIT
        &&& -COORD_LIMIT <= self.y <= COORD_LIMIT
        &&& -VEL_LIMIT <= self.vx <= VEL_LIMIT
        &&& -VEL_LIMIT <= self.vy <= VEL_LIMIT
        &&& 1 <= self.radius <= RADIUS_LIMIT
    }

    /// A fresh ball at the viewport's center, moving down-right at the
    /// default speed.
    pub fn new(viewport_width: i64, viewport_height: i64) -> (r: Ball)
        requires
            1 <= viewport_width <= COORD_LIMIT,
            1 <= viewport_height <= COORD_LIMIT,
        ensures
            r.x == viewport_width as int / 2,
            r.y == viewport_height as int / 2,
            r.vx == BALL_SPEED,
            r.vy == BALL_SPEED,
            r.radius == BALL_RADIUS,
            r.wf(),
    {
        Ball {
            x: viewport_width / 2,
            y: viewport_height / 2,
            vx: BALL_SPEED,
            vy: BALL_SPEED,
            radius: BALL_RADIUS,
        }
    }

    /// Recenter the ball and restore the default velocity for a new round,
    /// whatever the prior state was. The radius is untouched.
    pub fn reset(&mut self, viewport_width: i64, viewport_height: i64)
        requires
            1 <= viewport_width <= COORD_LIMIT,
            1 <= viewport_height <= COORD_LIMIT,
        ensures
            final(self).x == viewport_width as int / 2,
            final(self).y == viewport_height as int / 2,
            final(self).vx == BALL_SPEED,
            final(self).vy == BALL_SPEED,
            final(self).radius == old(self).radius,
            old(self).wf() ==> final(self).wf(),
    {
        self.x = viewport_width / 2;
        self.y = viewport_height / 2;
        self.vx = BALL_SPEED;
        self.vy = BALL_SPEED;
    }

    /// One tick of ball motion: integrate the position, then negate the
    /// vertical velocity exactly on a wall hit and the horizontal velocity
    /// exactly on a paddle overlap. A bounce flips one axis and never touches
    /// the other, and no positional separation is performed.
    pub fn update(&mut self, dt_ms: i64, left: &Player, right: &Player, viewport_height: i64)
        requires
            old(self).wf(),
            left.wf(),
            right.wf(),
            1 <= viewport_height <= COORD_LIMIT,
        ensures
            final(self).x == ball_pos_after(old(self).x as int, old(self).vx as int, dt_ms as int),
            final(self).y == ball_pos_after(old(self).y as int, old(self).vy as int, dt_ms as int),
            final(self).vy == vy_after(
                old(self).y as int, old(self).vy as int, old(self).radius as int, dt_ms as int,
                viewport_height as int,
            ),
            final(self).vx == vx_after(
                old(self).x as int, old(self).y as int, old(self).vx as int, old(self).vy as int,
                old(self).radius as int, dt_ms as int,
                left.x as int, left.y as int, right.x as int, right.y as int,
            ),
            final(self).radius == old(self).radius,
            final(self).wf(),
            wall_hit(final(self).y as int, old(self).radius as int, viewport_height as int)
                ==> final(self).vy == -old(self).vy,
            !wall_hit(final(self).y as int, old(self).radius as int, viewport_height as int)
                ==> final(self).vy == old(self).vy,
            hits_paddle(final(self).x as int, final(self).y as int, old(self).radius as int,
                left.x as int, left.y as int)
                || hits_paddle(final(self).x as int, final(self).y as int, old(self).radius as int,
                    right.x as int, right.y as int)
                ==> final(self).vx == -old(self).vx,
            !(hits_paddle(final(self).x as int, final(self).y as int, old(self).radius as int,
                left.x as int, left.y as int)
                || hits_paddle(final(self).x as int, final(self).y as int, old(self).radius as int,
                    right.x as int, right.y as int))
                ==> final(self).vx == old(self).vx,
    {
        let dx: i64 = displacement_i64(self.vx, dt_ms);
        let dy: i64 = displacement_i64(self.vy, dt_ms);
        let nx: i64 = clamp_i64(-COORD_LIMIT, self.x + dx, COORD_LIMIT);
        let ny: i64 = clamp_i64(-COORD_LIMIT, self.y + dy, COORD_LIMIT);
        self.x = nx;
        self.y = ny;
        if ny <= 0 || ny >= viewport_height - self.radius {
            self.vy = -self.vy;
        }
        if overlaps_paddle(nx, ny, self.radius, left.x, left.y)
            || overlaps_paddle(nx, ny, self.radius, right.x, right.y) {
            self.vx = -self.vx;
        }
    }
}

/// Law: a wall bounce flips the sign of the vertical velocity, and the sign
/// then persists: on a tick whose moved position sits on or past a horizontal
/// wall the vertical velocity is exactly negated, and on any other tick it is
/// exactly kept.
pub proof fn lemma_wall_bounce_sign_flip(
    y: int, vy: int, radius: int, dt_ms: int, viewport_height: int,
)
    ensures
        wall_hit(ball_pos_after(y, vy, dt_ms), radius, viewport_height)
            ==> vy_after(y, vy, radius, dt_ms, viewport_height) == -vy,
        !wall_hit(ball_pos_after(y, vy, dt_ms), radius, viewport_height)
            ==> vy_after(y, vy, radius, dt_ms, viewport_height) == vy,
{
}

/// Law: a paddle collision reverses the horizontal velocity only. When the
/// moved ball overlaps a paddle's box, the horizontal velocity is exactly
/// negated, while the vertical velocity is given by the wall rule alone —
/// `vy_after` does not depend on the paddles at all.
pub proof fn lemma_paddle_collision_reverses_x_only(
    x: int, y: int, vx: int, vy: int, radius: int, dt_ms: int, viewport_height: int,
    left_x: int, left_y: int, right_x: int, right_y: int,
)
    requires
        hits_paddle(ball_pos_after(x, vx, dt_ms), ball_pos_after(y, vy, dt_ms), radius,
            left_x, left_y)
            || hits_paddle(ball_pos_after(x, vx, dt_ms), ball_pos_after(y, vy, dt_ms), radius,
                right_x, right_y),
    ensures
        vx_after(x, y, vx, vy, radius, dt_ms, left_x, left_y, right_x, right_y) == -vx,
        vy_after(y, vy, radius, dt_ms, viewport_height)
            == (if wall_hit(ball_pos_after(y, vy, dt_ms), radius, viewport_height) {
                -vy
            } else {
                vy
            }),
{
}

} // verus!
