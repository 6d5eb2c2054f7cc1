//! Collision resolution: the ball reflects off the top and bottom
//! walls (velocity only, no position correction), and bounces off
//! either paddle with a vertical velocity proportional to where it
//! struck, its x clamped so it cannot pass through the paddle.

use vstd::prelude::*;
use vstd::arithmetic::div_mod::{lemma_div_pos_is_pos, lemma_multiply_divide_lt};
use crate::config::{ConfigModel, VEL_SCALE};
use crate::state::{Ball, BallMode, BallModel, SimModel, SimState};

verus! {

/// Whether the ball's box pokes past the top or bottom field edge.
pub open spec fn wall_overlap(c: ConfigModel, b: BallModel) -> bool {
    b.y + c.ball_half_h > c.top_edge() || b.y - c.ball_half_h < c.bottom_edge()
}

/// The wall phase of a tick: a free ball lodged past the top or
/// bottom edge has its vertical velocity negated — a pure reflection,
/// the position is not corrected. Nothing else changes.
pub open spec fn wall_step(m: SimModel) -> SimModel {
    if m.ball.mode is Free && wall_overlap(m.config, m.ball) {
        SimModel { ball: BallModel { vy: -m.ball.vy, ..m.ball }, ..m }
    } else {
        m
    }
}

/// Reflects the ball off the top or bottom wall when it overlaps one.
pub fn resolve_walls(s: &mut SimState)
    requires
        old(s)@.config.valid(),
        -0x4000_0000_0000 <= old(s).ball.y <= 0x4000_0000_0000,
        -0x4000_0000_0000 <= old(s).ball.vy <= 0x4000_0000_0000,
    ensures
        final(s)@ == wall_step(old(s)@),
{
    match s.ball.mode {
        BallMode::Free => {
            if s.ball.y + s.config.ball_half_h > s.config.half_height
                || s.ball.y - s.config.ball_half_h < -s.config.half_height {
                s.ball = Ball { vy: -s.ball.vy, ..s.ball };
            }
        },
        BallMode::TrackingPaddle(_) => {},
    }
}

/// Whether the ball's box strictly overlaps a paddle's box centred at
/// `(px, py)`.
pub open spec fn paddle_overlap(c: ConfigModel, b: BallModel, px: int, py: int) -> bool {
    &&& -(c.ball_half_w + c.paddle_half_w) < b.x - px < c.ball_half_w + c.paddle_half_w
    &&& -(c.ball_half_h + c.paddle_half_h) < b.y - py < c.ball_half_h + c.paddle_half_h
}

/// The vertical velocity a bounce imparts: the contact offset mapped
/// linearly onto the velocity scale and truncated toward zero —
/// `offset * VEL_SCALE / halfsum`, where `halfsum` is half the summed
/// heights of ball and paddle.
pub open spec fn bounce_vy(offset: int, halfsum: int) -> int {
    if offset >= 0 {
        (offset * VEL_SCALE) / halfsum
    } else {
        -((-offset * VEL_SCALE) / halfsum)
    }
}

/// `v` clamped into `[lo, hi]`, upper bound applied last, as the
/// bounce's position correction does.
pub open spec fn spec_clamp_lo_hi(v: int, lo: int, hi: int) -> int {
    if (if v > lo { v } else { lo }) < hi {
        if v > lo {
            v
        } else {
            lo
        }
    } else {
        hi
    }
}

/// The ball after meeting one paddle centred at `(px, py)`: on
/// overlap, the horizontal velocity is negated, the vertical velocity
/// becomes the bounce mapping of the contact offset, and x is clamped
/// so the ball stands clear of either goal line; otherwise unchanged.
pub open spec fn bounce_ball(c: ConfigModel, b: BallModel, px: int, py: int) -> BallModel {
    if paddle_overlap(c, b, px, py) {
        BallModel {
            x: spec_clamp_lo_hi(
                b.x,
                c.left_edge() + 2 * c.paddle_half_w + c.ball_half_w,
                c.right_edge() - 2 * c.paddle_half_w - c.ball_half_w,
            ),
            vx: -b.vx,
            vy: bounce_vy(b.y - py, c.ball_half_h + c.paddle_half_h),
            ..b
        }
    } else {
        b
    }
}

/// The paddle phase of a tick: a free ball meets the left paddle,
/// then the right one, each overlap applied in turn. Nothing else
/// changes.
pub open spec fn paddle_bounce_step(m: SimModel) -> SimModel {
    if m.ball.mode is Free {
        let after_left = bounce_ball(m.config, m.ball, m.config.left_paddle_x(), m.left.y);
        SimModel {
            ball: bounce_ball(m.config, after_left, m.config.right_paddle_x(), m.right.y),
            ..m
        }
    } else {
        m
    }
}

/// The bounce mapping never reaches a full velocity unit: a contact
/// offset strictly inside the summed half heights maps strictly
/// inside `VEL_SCALE`.
pub proof fn lemma_bounce_vy_bounded(offset: int, halfsum: int)
    requires
        0 < halfsum,
        -halfsum < offset < halfsum,
    ensures
        -VEL_SCALE < bounce_vy(offset, halfsum) < VEL_SCALE,
{
    if offset >= 0 {
        lemma_div_pos_is_pos(offset * VEL_SCALE, halfsum);
        lemma_multiply_divide_lt(offset * VEL_SCALE, halfsum, VEL_SCALE as int);
    } else {
        lemma_div_pos_is_pos(-offset * VEL_SCALE, halfsum);
        lemma_multiply_divide_lt(-offset * VEL_SCALE, halfsum, VEL_SCALE as int);
    }
}

/// The truncated fixed-point quotient `offset * VEL_SCALE / halfsum`
/// of the bounce mapping.
pub fn bounce_velocity_y(offset: i64, halfsum: i64) -> (v: i64)
    requires
        0 < halfsum <= 0x8000_0000_0000,
        -0x4000_0000_0000_0000 <= offset * VEL_SCALE <= 0x4000_0000_0000_0000,
    ensures
        v == bounce_vy(offset as int, halfsum as int),
{
    if offset >= 0 {
        proof {
            lemma_div_pos_is_pos(offset * VEL_SCALE, halfsum as int);
        }
        (offset * VEL_SCALE) / halfsum
    } else {
        proof {
            lemma_div_pos_is_pos(-offset * VEL_SCALE, halfsum as int);
        }
        -((-offset * VEL_SCALE) / halfsum)
    }
}

/// Applies the left paddle's bounce, then the right one's, to a free
/// ball.
pub fn resolve_paddles(s: &mut SimState)
    requires
        old(s)@.config.valid(),
        old(s)@.paddle_wf(old(s)@.left),
        old(s)@.paddle_wf(old(s)@.right),
        -0x4000_0000_0000 <= old(s).ball.x <= 0x4000_0000_0000,
        -0x4000_0000_0000 <= old(s).ball.y <= 0x4000_0000_0000,
        -0x4000_0000_0000 <= old(s).ball.vx <= 0x4000_0000_0000,
        -0x4000_0000_0000 <= old(s).ball.vy <= 0x4000_0000_0000,
    ensures
        final(s)@ == paddle_bounce_step(old(s)@),
{
    match s.ball.mode {
        BallMode::Free => {
            let left_x: i64 = -s.config.half_width + s.config.paddle_half_w;
            let right_x: i64 = s.config.half_width - s.config.paddle_half_w;
            bounce_off_paddle(s, left_x, s.left.y, Ghost(s@.config.left_paddle_x()));
            bounce_off_paddle(s, right_x, s.right.y, Ghost(s@.config.right_paddle_x()));
        },
        BallMode::TrackingPaddle(_) => {},
    }
}

/// One paddle's bounce applied to the ball.
fn bounce_off_paddle(s: &mut SimState, px: i64, py: i64, Ghost(gpx): Ghost<int>)
    requires
        old(s)@.config.valid(),
        px == gpx,
        -old(s)@.config.half_width <= px <= old(s)@.config.half_width,
        old(s)@.config.paddle_y_min() <= py <= old(s)@.config.paddle_y_max(),
        -0x4000_0000_0000 <= old(s).ball.x <= 0x4000_0000_0000,
        -0x4000_0000_0000 <= old(s).ball.y <= 0x4000_0000_0000,
        -0x4000_0000_0000 <= old(s).ball.vx <= 0x4000_0000_0000,
        -0x4000_0000_0000 <= old(s).ball.vy <= 0x4000_0000_0000,
    ensures
        final(s)@ == (SimModel {
            ball: bounce_ball(old(s)@.config, old(s)@.ball, gpx, py as int),
            ..old(s)@
        }),
{
    let dx: i64 = s.ball.x - px;
    let dy: i64 = s.ball.y - py;
    let reach_x: i64 = s.config.ball_half_w + s.config.paddle_half_w;
    let reach_y: i64 = s.config.ball_half_h + s.config.paddle_half_h;
    if -reach_x < dx && dx < reach_x && -reach_y < dy && dy < reach_y {
        let vy: i64 = bounce_velocity_y(dy, reach_y);
        let lo: i64 = -s.config.half_width + 2 * s.config.paddle_half_w + s.config.ball_half_w;
        let hi: i64 = s.config.half_width - 2 * s.config.paddle_half_w - s.config.ball_half_w;
        let raised: i64 = if s.ball.x > lo {
            s.ball.x
        } else {
            lo
        };
        let clamped: i64 = if raised < hi {
            raised
        } else {
            hi
        };
        s.ball = Ball { x: clamped, vx: -s.ball.vx, vy, ..s.ball };
    }
}

} // verus!
