use pong::collision::{bounce_velocity_y, resolve_walls};
use pong::config::COORD_SCALE;
use pong::{Ball, BallMode, InputSnapshot, Paddle, Score, SimConfig, SimState};

fn px(n: i64) -> i64 {
    n * COORD_SCALE
}

fn standard_config() -> SimConfig {
    SimConfig::new(px(800), px(600), px(40), px(200), px(40), px(40), 2000).unwrap()
}

fn no_keys() -> InputSnapshot {
    InputSnapshot { p1_up: false, p1_down: false, p2_up: false, p2_down: false }
}

fn free_ball_state(ball: Ball) -> SimState {
    SimState {
        config: standard_config(),
        left: Paddle { y: 0, vy: 0 },
        right: Paddle { y: 0, vy: 0 },
        ball,
        timer: None,
        score: Score { p1: 0, p2: 0 },
    }
}

#[test]
fn wall_overlap_negates_vertical_velocity() {
    // Ball poking past the top edge: top is 300 px, ball half 20 px.
    let mut s = free_ball_state(
        Ball { x: 0, y: px(295), vx: 0, vy: 700, mode: BallMode::Free },
    );
    resolve_walls(&mut s);
    assert_eq!(s.ball.vy, -700);
    // The position was not corrected, so a second immediate pass
    // flips the sign back: the reflection is an involution.
    resolve_walls(&mut s);
    assert_eq!(s.ball.vy, 700);
}

#[test]
fn wall_reflection_leaves_position_alone() {
    let mut s = free_ball_state(
        Ball { x: px(10), y: -px(295), vx: 123, vy: -700, mode: BallMode::Free },
    );
    resolve_walls(&mut s);
    assert_eq!(s.ball.vy, 700);
    assert_eq!(s.ball.y, -px(295));
    assert_eq!(s.ball.x, px(10));
    assert_eq!(s.ball.vx, 123);
}

#[test]
fn two_overlapping_ticks_restore_the_vertical_velocity() {
    // A ball lodged past the top edge flips each tick it stays
    // lodged: after two such ticks the vertical velocity is back.
    let mut s = free_ball_state(
        Ball { x: 0, y: px(290), vx: 0, vy: 100, mode: BallMode::Free },
    );
    s.tick(no_keys(), 16);
    assert_eq!(s.ball.vy, -100);
    assert!(s.ball.y + px(20) > px(300), "still lodged past the top edge");
    s.tick(no_keys(), 16);
    assert_eq!(s.ball.vy, 100);
}

#[test]
fn bounce_mapping_at_three_offsets() {
    // Half the summed heights of ball (40 px) and paddle (200 px).
    let halfsum = px(120);
    // Dead centre leaves no vertical velocity.
    assert_eq!(bounce_velocity_y(0, halfsum), 0);
    // Offset by half the paddle height: 100/120 of full scale,
    // truncated toward zero — symmetric for the lower edge.
    assert_eq!(bounce_velocity_y(px(100), halfsum), 833);
    assert_eq!(bounce_velocity_y(-px(100), halfsum), -833);
}

#[test]
fn centred_hit_bounces_straight_back() {
    // Ball overlapping the right paddle at the paddle's own height.
    let mut s = free_ball_state(
        Ball { x: px(350), y: 0, vx: 5000, vy: 0, mode: BallMode::Free },
    );
    s.tick(no_keys(), 16);
    assert_eq!(s.ball.vx, -5000);
    assert_eq!(s.ball.vy, 0);
}

#[test]
fn offset_hit_leaves_at_an_angle() {
    // Ball centre 100 px above the right paddle's centre.
    let mut s = free_ball_state(
        Ball { x: px(350), y: px(100), vx: 5000, vy: 0, mode: BallMode::Free },
    );
    s.tick(no_keys(), 16);
    assert_eq!(s.ball.vx, -5000);
    assert_eq!(s.ball.vy, 833);
}

#[test]
fn approach_is_reflected_and_clamped_clear_of_the_paddle() {
    // Field 800 by 600, paddle 200 tall at the right edge (x = 380),
    // ball 40 wide approaching at velocity (5, 0) from (350, 0): once
    // contact resolves, the horizontal velocity is negative and x is
    // clamped to at most 380 - 20 - 20 = 340 px.
    let mut s = free_ball_state(
        Ball { x: px(350), y: 0, vx: 5000, vy: 0, mode: BallMode::Free },
    );
    let mut ticks = 0;
    while s.ball.vx > 0 && ticks < 10 {
        s.tick(no_keys(), 16);
        ticks += 1;
    }
    assert_eq!(s.ball.vx, -5000);
    assert!(s.ball.x <= px(340));
}

#[test]
fn approach_from_a_distance_reaches_contact_and_reflects() {
    let mut s = free_ball_state(
        Ball { x: px(300), y: 0, vx: 5000, vy: 0, mode: BallMode::Free },
    );
    let mut ticks = 0;
    while s.ball.vx > 0 && ticks < 30 {
        s.tick(no_keys(), 16);
        ticks += 1;
    }
    assert_eq!(s.ball.vx, -5000);
    assert!(s.ball.x <= px(340));
}
