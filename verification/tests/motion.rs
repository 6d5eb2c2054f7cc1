use pong::config::{COORD_SCALE, STEP_PER_VEL, VEL_SCALE};
use pong::{Ball, BallMode, InputSnapshot, Paddle, Score, SimConfig, SimState};

fn px(n: i64) -> i64 {
    n * COORD_SCALE
}

fn standard_config() -> SimConfig {
    SimConfig::new(px(800), px(600), px(40), px(200), px(40), px(40), 2000).unwrap()
}

fn no_keys() -> InputSnapshot {
    InputSnapshot { p1_up: false, p1_down: false, p2_up: false, p2_down: false }
}

fn free_ball_state(ball: Ball) -> SimState {
    SimState {
        config: standard_config(),
        left: Paddle { y: 0, vy: 0 },
        right: Paddle { y: 0, vy: 0 },
        ball,
        timer: None,
        score: Score { p1: 0, p2: 0 },
    }
}

#[test]
fn paddle_advances_by_velocity_times_step() {
    let mut s = SimState::new(standard_config());
    let input = InputSnapshot { p1_up: true, p1_down: false, p2_up: false, p2_down: true };
    s.tick(input, 16);
    assert_eq!(s.left.y, VEL_SCALE * STEP_PER_VEL);
    assert_eq!(s.right.y, -VEL_SCALE * STEP_PER_VEL);
}

#[test]
fn paddle_is_clamped_at_the_top_without_losing_velocity() {
    let y_max = px(300) - px(100);
    let mut s = SimState::new(standard_config());
    s.left = Paddle { y: y_max, vy: 0 };
    let input = InputSnapshot { p1_up: true, p1_down: false, p2_up: false, p2_down: false };
    s.tick(input, 16);
    assert_eq!(s.left.y, y_max);
    assert_eq!(s.left.vy, VEL_SCALE);
}

#[test]
fn paddle_is_clamped_at_the_bottom() {
    let y_min = -(px(300) - px(100));
    let mut s = SimState::new(standard_config());
    s.right = Paddle { y: y_min + 10_000, vy: 0 };
    let input = InputSnapshot { p1_up: false, p1_down: false, p2_up: false, p2_down: true };
    s.tick(input, 16);
    assert_eq!(s.right.y, y_min);
}

#[test]
fn free_ball_advances_by_velocity_times_step() {
    let mut s = free_ball_state(Ball { x: 0, y: 0, vx: 2000, vy: -500, mode: BallMode::Free });
    s.tick(no_keys(), 16);
    assert_eq!(s.ball.x, 2000 * STEP_PER_VEL);
    assert_eq!(s.ball.y, -500 * STEP_PER_VEL);
}

#[test]
fn pinned_ball_follows_its_paddle() {
    let mut s = SimState::new(standard_config());
    let input = InputSnapshot { p1_up: true, p1_down: false, p2_up: false, p2_down: false };
    s.tick(input, 16);
    assert_eq!(s.ball.x, 0);
    assert_eq!(s.ball.y, s.left.y);
    assert_eq!(s.ball.vx, 0);
    assert_eq!(s.ball.vy, 0);
}
