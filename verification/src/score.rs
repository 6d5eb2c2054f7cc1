//! Scoring: a free ball that has fully crossed the left goal line
//! gives the right player a point, and symmetrically on the right;
//! the ball is then pinned to the paddle of the goal it crossed and a
//! fresh serve timer starts.

use vstd::prelude::*;
use crate::config::ConfigModel;
use crate::state::{
    Ball, BallMode, BallModel, Score, ScoreModel, ServeTimer, Side, SimModel, SimState, TimerModel,
};

verus! {

/// Whether the ball pokes past the left goal line.
pub open spec fn crossed_left(c: ConfigModel, b: BallModel) -> bool {
    b.x - c.ball_half_w < c.left_edge()
}

/// Whether the ball pokes past the right goal line.
pub open spec fn crossed_right(c: ConfigModel, b: BallModel) -> bool {
    b.x + c.ball_half_w > c.right_edge()
}

/// The scoring phase of a tick: only a free ball is inspected. Past
/// the left line, the second player's counter alone rises by one and
/// the next rally serves from the left paddle; past the right line,
/// the first player's counter and the right paddle, symmetrically.
/// The ball is stopped and pinned, and a fresh timer holds the whole
/// configured delay.
pub open spec fn score_step(m: SimModel) -> SimModel {
    if m.ball.mode is Free {
        if crossed_left(m.config, m.ball) {
            SimModel {
                score: ScoreModel { p1: m.score.p1, p2: m.score.p2 + 1 },
                ball: BallModel {
                    vx: 0,
                    vy: 0,
                    mode: BallMode::TrackingPaddle(Side::Left),
                    ..m.ball
                },
                timer: Some(
                    TimerModel { remaining_ms: m.config.serve_delay_ms, side: Side::Left },
                ),
                ..m
            }
        } else if crossed_right(m.config, m.ball) {
            SimModel {
                score: ScoreModel { p1: m.score.p1 + 1, p2: m.score.p2 },
                ball: BallModel {
                    vx: 0,
                    vy: 0,
                    mode: BallMode::TrackingPaddle(Side::Right),
                    ..m.ball
                },
                timer: Some(
                    TimerModel { remaining_ms: m.config.serve_delay_ms, side: Side::Right },
                ),
                ..m
            }
        } else {
            m
        }
    } else {
        m
    }
}

/// Checks the goal lines and awards at most one point; the counters
/// never move otherwise, and never decrease.
pub fn check_scoring(s: &mut SimState)
    requires
        old(s)@.config.valid(),
        old(s).score.p1 < u32::MAX,
        old(s).score.p2 < u32::MAX,
        -0x4000_0000_0000 <= old(s).ball.x <= 0x4000_0000_0000,
    ensures
        final(s)@ == score_step(old(s)@),
        final(s).score.p1 >= old(s).score.p1,
        final(s).score.p2 >= old(s).score.p2,
{
    match s.ball.mode {
        BallMode::Free => {
            if s.ball.x - s.config.ball_half_w < -s.config.half_width {
                s.score = Score { p1: s.score.p1, p2: s.score.p2 + 1 };
                s.ball = Ball { vx: 0, vy: 0, mode: BallMode::TrackingPaddle(Side::Left), ..s.ball };
                s.timer = Some(
                    ServeTimer { remaining_ms: s.config.serve_delay_ms, side: Side::Left },
                );
            } else if s.ball.x + s.config.ball_half_w > s.config.half_width {
                s.score = Score { p1: s.score.p1 + 1, p2: s.score.p2 };
                s.ball = Ball {
                    vx: 0,
                    vy: 0,
                    mode: BallMode::TrackingPaddle(Side::Right),
                    ..s.ball
                };
                s.timer = Some(
                    ServeTimer { remaining_ms: s.config.serve_delay_ms, side: Side::Right },
                );
            }
        },
        BallMode::TrackingPaddle(_) => {},
    }
}

} // verus!
