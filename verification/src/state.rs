//! The simulation's entities — two paddles, one ball, the serve timer
//! and the score — their mathematical models, and the well-formedness
//! invariant that every tick preserves.

use vstd::prelude::*;
use crate::config::{ConfigModel, SimConfig, MAX_STEP, STEP_PER_VEL, VEL_LIMIT, VEL_SCALE};

verus! {

/// Which half of the field a paddle defends.
#[derive(Clone, Copy, PartialEq, Eq, Structural, Debug)]
pub enum Side {
    Left,
    Right,
}

/// Whether the ball flies freely or sits pinned to a paddle awaiting
/// the serve.
#[derive(Clone, Copy, PartialEq, Eq, Structural, Debug)]
pub enum BallMode {
    Free,
    TrackingPaddle(Side),
}

/// A paddle: x is fixed at spawn (see the configuration), y moves.
#[derive(Clone, Copy)]
pub struct Paddle {
    pub y: i64,
    pub vy: i64,
}

/// Model of a paddle over unbounded integers.
pub struct PaddleModel {
    pub y: int,
    pub vy: int,
}

impl View for Paddle {
    type V = PaddleModel;

    open spec fn view(&self) -> PaddleModel {
        PaddleModel { y: self.y as int, vy: self.vy as int }
    }
}

/// The ball.
#[derive(Clone, Copy)]
pub struct Ball {
    pub x: i64,
    pub y: i64,
    pub vx: i64,
    pub vy: i64,
    pub mode: BallMode,
}

/// Model of the ball over unbounded integers.
pub struct BallModel {
    pub x: int,
    pub y: int,
    pub vx: int,
    pub vy: int,
    pub mode: BallMode,
}

impl View for Ball {
    type V = BallModel;

    open spec fn view(&self) -> BallModel {
        BallModel {
            x: self.x as int,
            y: self.y as int,
            vx: self.vx as int,
            vy: self.vy as int,
            mode: self.mode,
        }
    }
}

/// The respawn delay before a serve; lives exactly while the ball is
/// pinned, and serves toward `side`.
#[derive(Clone, Copy)]
pub struct ServeTimer {
    pub remaining_ms: u64,
    pub side: Side,
}

/// Model of the serve timer.
pub struct TimerModel {
    pub remaining_ms: int,
    pub side: Side,
}

impl View for ServeTimer {
    type V = TimerModel;

    open spec fn view(&self) -> TimerModel {
        TimerModel { remaining_ms: self.remaining_ms as int, side: self.side }
    }
}

/// The running point tally; non-decreasing, mutated only by scoring.
#[derive(Clone, Copy)]
pub struct Score {
    pub p1: u32,
    pub p2: u32,
}

/// Model of the score.
pub struct ScoreModel {
    pub p1: int,
    pub p2: int,
}

impl View for Score {
    type V = ScoreModel;

    open spec fn view(&self) -> ScoreModel {
        ScoreModel { p1: self.p1 as int, p2: self.p2 as int }
    }
}

/// The four held-key flags sampled once per tick.
#[derive(Clone, Copy, PartialEq, Eq, Structural, Debug)]
pub struct InputSnapshot {
    pub p1_up: bool,
    pub p1_down: bool,
    pub p2_up: bool,
    pub p2_down: bool,
}

/// The whole simulation: configuration and every live entity, owned by
/// one tick loop.
#[derive(Clone, Copy)]
pub struct SimState {
    pub config: SimConfig,
    pub left: Paddle,
    pub right: Paddle,
    pub ball: Ball,
    pub timer: Option<ServeTimer>,
    pub score: Score,
}

/// Model of the whole simulation.
pub struct SimModel {
    pub config: ConfigModel,
    pub left: PaddleModel,
    pub right: PaddleModel,
    pub ball: BallModel,
    pub timer: Option<TimerModel>,
    pub score: ScoreModel,
}

impl View for SimState {
    type V = SimModel;

    open spec fn view(&self) -> SimModel {
        SimModel {
            config: self.config@,
            left: self.left@,
            right: self.right@,
            ball: self.ball@,
            timer: match self.timer {
                Some(t) => Some(t@),
                None => None,
            },
            score: self.score@,
        }
    }
}

impl SimModel {
    /// The paddle defending the given side.
    pub open spec fn paddle(self, side: Side) -> PaddleModel {
        match side {
            Side::Left => self.left,
            Side::Right => self.right,
        }
    }

    /// A paddle stays between its clamp bounds and moves at full
    /// speed, at rest, or at full speed the other way.
    pub open spec fn paddle_wf(self, p: PaddleModel) -> bool {
        &&& self.config.paddle_y_min() <= p.y <= self.config.paddle_y_max()
        &&& (p.vy == -VEL_SCALE || p.vy == 0 || p.vy == VEL_SCALE)
    }

    /// Bounds that hold of a free ball: it never strays further than
    /// one tick's travel past an edge, and when it is lodged beyond
    /// the top or bottom wall, its next move stays within that margin.
    pub open spec fn free_ball_wf(self) -> bool {
        let c = self.config;
        let b = self.ball;
        &&& -(c.half_width + c.ball_half_w + MAX_STEP) <= b.x <= c.half_width + c.ball_half_w
            + MAX_STEP
        &&& -(c.half_height + c.ball_half_h + MAX_STEP) <= b.y <= c.half_height + c.ball_half_h
            + MAX_STEP
        &&& b.y > c.half_height - c.ball_half_h ==> b.y - STEP_PER_VEL * b.vy <= c.half_height
            + c.ball_half_h + MAX_STEP
        &&& b.y < -(c.half_height - c.ball_half_h) ==> b.y - STEP_PER_VEL * b.vy >= -(
        c.half_height + c.ball_half_h + MAX_STEP)
    }

    /// A pinned ball sits still at the field's centre line, level with
    /// the paddle it tracks.
    pub open spec fn tracking_ball_wf(self, side: Side) -> bool {
        &&& self.ball.vx == 0
        &&& self.ball.vy == 0
        &&& self.ball.x == 0
        &&& self.ball.y == self.paddle(side).y
    }

    /// Well-formedness of the whole state: the configuration is
    /// validated, paddles sit within their bounds, velocities are in
    /// range, the ball respects the mode it is in, and the serve timer
    /// lives exactly while the ball is pinned, on the same side.
    pub open spec fn wf(self) -> bool {
        &&& self.config.valid()
        &&& self.paddle_wf(self.left)
        &&& self.paddle_wf(self.right)
        &&& -VEL_LIMIT <= self.ball.vx <= VEL_LIMIT
        &&& -VEL_LIMIT <= self.ball.vy <= VEL_LIMIT
        &&& match self.ball.mode {
            BallMode::Free => self.free_ball_wf(),
            BallMode::TrackingPaddle(side) => self.tracking_ball_wf(side),
        }
        &&& match self.timer {
            Some(t) => {
                &&& 0 <= t.remaining_ms
                &&& self.ball.mode == BallMode::TrackingPaddle(t.side)
            },
            None => self.ball.mode == BallMode::Free,
        }
    }
}

impl SimState {
    /// The session's starting state: paddles centred and at rest, the
    /// ball pinned to the left paddle, a fresh serve timer toward the
    /// left, and no points on the board.
    pub fn new(config: SimConfig) -> (s: SimState)
        requires
            config@.valid(),
        ensures
            s@.wf(),
            s@.config == config@,
            s@.left.y == 0 && s@.left.vy == 0,
            s@.right.y == 0 && s@.right.vy == 0,
            s@.ball.x == 0 && s@.ball.y == 0 && s@.ball.vx == 0 && s@.ball.vy == 0,
            s@.ball.mode == BallMode::TrackingPaddle(Side::Left),
            s@.timer == Some(
                TimerModel { remaining_ms: config@.serve_delay_ms, side: Side::Left },
            ),
            s@.score.p1 == 0 && s@.score.p2 == 0,
    {
        SimState {
            config,
            left: Paddle { y: 0, vy: 0 },
            right: Paddle { y: 0, vy: 0 },
            ball: Ball { x: 0, y: 0, vx: 0, vy: 0, mode: BallMode::TrackingPaddle(Side::Left) },
            timer: Some(ServeTimer { remaining_ms: config.serve_delay_ms, side: Side::Left }),
            score: Score { p1: 0, p2: 0 },
        }
    }
}

} // verus!
