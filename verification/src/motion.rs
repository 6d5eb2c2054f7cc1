//! Motion integration: every tick each paddle advances by its velocity
//! and is then clamped into its bounds, and the ball either advances
//! freely or is pinned to the paddle it tracks.

use vstd::prelude::*;
use crate::config::{ConfigModel, STEP_PER_VEL};
use crate::state::{Ball, BallMode, BallModel, Paddle, PaddleModel, Side, SimModel, SimState};

verus! {

/// `v` clamped into `[lo, hi]`, lower bound applied last, as the
/// integrator does.
pub open spec fn spec_clamp(v: int, lo: int, hi: int) -> int {
    if (if v < hi { v } else { hi }) > lo {
        if v < hi {
            v
        } else {
            hi
        }
    } else {
        lo
    }
}

/// One paddle after integration: it moves by velocity times the tick
/// step and is then clamped into its bounds; the velocity itself is
/// left unchanged.
pub open spec fn paddle_motion(c: ConfigModel, p: PaddleModel) -> PaddleModel {
    PaddleModel {
        y: spec_clamp(p.y + STEP_PER_VEL * p.vy, c.paddle_y_min(), c.paddle_y_max()),
        vy: p.vy,
    }
}

/// The paddle-motion phase of a tick: both paddles advance and are
/// clamped; nothing else changes.
pub open spec fn paddle_motion_step(m: SimModel) -> SimModel {
    SimModel {
        left: paddle_motion(m.config, m.left),
        right: paddle_motion(m.config, m.right),
        ..m
    }
}

/// Advances one paddle and clamps it: after this phase the paddle's
/// centre lies between its configured bounds, whatever it was before.
pub(crate) fn integrate_paddle(p: &mut Paddle, y_min: i64, y_max: i64, Ghost(c): Ghost<ConfigModel>)
    requires
        y_min == c.paddle_y_min(),
        y_max == c.paddle_y_max(),
        y_min <= y_max,
        -0x4000_0000_0000 <= old(p).y <= 0x4000_0000_0000,
        -0x4000_0000_0000 <= old(p).vy <= 0x4000_0000_0000,
    ensures
        final(p)@ == paddle_motion(c, old(p)@),
        y_min <= final(p).y <= y_max,
{
    let moved: i64 = p.y + STEP_PER_VEL * p.vy;
    let upper: i64 = if moved < y_max {
        moved
    } else {
        y_max
    };
    let clamped: i64 = if upper > y_min {
        upper
    } else {
        y_min
    };
    p.y = clamped;
}

/// The ball-motion phase of a tick: a free ball advances by its
/// velocity times the tick step; a pinned ball is placed on the centre
/// line level with the paddle it tracks. Nothing else changes.
pub open spec fn ball_motion_step(m: SimModel) -> SimModel {
    match m.ball.mode {
        BallMode::Free => SimModel {
            ball: BallModel {
                x: m.ball.x + STEP_PER_VEL * m.ball.vx,
                y: m.ball.y + STEP_PER_VEL * m.ball.vy,
                ..m.ball
            },
            ..m
        },
        BallMode::TrackingPaddle(side) => SimModel {
            ball: BallModel { x: 0, y: m.paddle(side).y, ..m.ball },
            ..m
        },
    }
}

/// Moves the ball: free flight by one tick step, or the pin onto the
/// tracked paddle.
pub fn integrate_ball(s: &mut SimState)
    requires
        -0x4000_0000_0000 <= old(s).ball.x <= 0x4000_0000_0000,
        -0x4000_0000_0000 <= old(s).ball.y <= 0x4000_0000_0000,
        -0x4000_0000_0000 <= old(s).ball.vx <= 0x4000_0000_0000,
        -0x4000_0000_0000 <= old(s).ball.vy <= 0x4000_0000_0000,
    ensures
        final(s)@ == ball_motion_step(old(s)@),
{
    match s.ball.mode {
        BallMode::Free => {
            s.ball = Ball {
                x: s.ball.x + STEP_PER_VEL * s.ball.vx,
                y: s.ball.y + STEP_PER_VEL * s.ball.vy,
                ..s.ball
            };
        },
        BallMode::TrackingPaddle(side) => {
            let paddle_y: i64 = match side {
                Side::Left => s.left.y,
                Side::Right => s.right.y,
            };
            s.ball = Ball { x: 0, y: paddle_y, ..s.ball };
        },
    }
}

} // verus!
