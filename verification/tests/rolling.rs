//! Collision reflection, containment, state transitions and the full
//! hole-shot scenario.

use paga::ball::{Ball, BallVelocity};
use paga::controls::{AdjustmentType, Controls, Direction, PowerLevel};
use paga::game::{GameState, GolfState};
use paga::geo::Point;
use paga::map::GameMap;
use paga::tiles::{TileGrid, GRID_H, GRID_W};

fn neutral() -> Controls {
    Controls {
        aiming: Direction::Still,
        power: PowerLevel::Same,
        adj: AdjustmentType::Min,
        hit: false,
    }
}

fn hit_now() -> Controls {
    Controls { hit: true, ..neutral() }
}

/// A course with the usual wall perimeter and one cup.
fn course_with_hole(cx: usize, cy: usize) -> GameMap {
    let mut codes = vec![0u8; GRID_W * GRID_H];
    for x in 0..GRID_W {
        codes[x] = 1;
        codes[(GRID_H - 1) * GRID_W + x] = 1;
    }
    for y in 0..GRID_H {
        codes[y * GRID_W] = 1;
        codes[y * GRID_W + GRID_W - 1] = 1;
    }
    codes[cy * GRID_W + cx] = 3;
    GameMap { point: Point::new(0, 0), width: 640, height: 368, tile_grid: TileGrid::from_codes(&codes) }
}

#[test]
fn collision_restores_position_and_negates_velocity_exactly() {
    let map = GameMap::new();
    // rolling rightward, its leading probe inside the wall column
    let mut ball = Ball::new_at_loc(616, 100);
    ball.old_point = Point::new(614, 100);
    ball.velocity = BallVelocity::new(2_000_000, 0);
    ball.handle_collision(&map);
    assert_eq!(ball.point().x, 614, "position restored from last tick");
    assert_eq!(ball.velocity.x(), -2_000_000, "velocity exactly negated");
    assert_eq!(ball.velocity.y(), 0);
}

#[test]
fn a_full_roll_off_the_wall_bounces_back() {
    let map = GameMap::new();
    let mut ball = Ball::new_at_loc(616, 100);
    ball.old_point = Point::new(614, 100);
    ball.velocity = BallVelocity::new(2_000_000, 0);
    ball.roll(&map);
    // the restored pixel is re-derived from the continuous position,
    // which moved one reflected tick leftward
    assert_eq!(ball.point().x, 614);
    assert_eq!(ball.velocity.x(), -1_996_000, "reflected, then one tick of friction");
    assert_eq!(ball.old_point.x, 614);
}

#[test]
fn rolling_keeps_the_ball_inside_the_course() {
    let mut gs = GameState::new();
    let mut shots = 0u32;
    for tick in 0..4000u32 {
        if matches!(gs.state, GolfState::Aiming) && shots < 8 {
            // fire off shots in assorted directions
            gs.ball.angle.theta = 700_000 + (shots as i64) * 900_000;
            gs.update(&hit_now());
            shots += 1;
        } else {
            gs.update(&neutral());
        }
        let p = gs.ball.point();
        assert!(p.x + 8 <= 640, "right edge escaped at tick {tick}");
        assert!(p.y + 8 <= 368, "bottom edge escaped at tick {tick}");
    }
}

#[test]
fn aimed_shot_into_the_cup_sinks_and_respawns() {
    // ball centered on a ground cell, aimed at the diagonally adjacent
    // cup, at a power well under the sink gate
    let mut gs = GameState::new();
    gs.map = course_with_hole(7, 7);
    gs.ball = Ball::new_at_loc(100, 100);
    gs.ball.angle.theta = 3_926_991;  // 5*pi/4: down-right diagonal
    gs.update(&hit_now());
    assert!(matches!(gs.state, GolfState::Hitting));
    let mut sunk_at = None;
    for tick in 0..50u32 {
        gs.update(&neutral());
        if matches!(gs.state, GolfState::InHole) {
            sunk_at = Some(tick);
            break;
        }
    }
    assert!(sunk_at.is_some(), "the shot must reach the cup");
    assert_eq!(gs.ball.point(), Point::new(28, 30), "reset to the respawn point");
    assert_eq!(gs.ball.velocity.x(), 0);
    assert_eq!(gs.ball.velocity.y(), 0);
    // leaving the hole: one tick later the session aims again
    gs.update(&neutral());
    assert!(matches!(gs.state, GolfState::Aiming));
    assert_eq!(gs.ball.point(), Point::new(32, 48));
}

#[test]
fn fast_ball_passes_over_the_cup() {
    // same shot, but past the sink gate: the hole is ignored
    let mut gs = GameState::new();
    gs.map = course_with_hole(7, 7);
    gs.ball = Ball::new_at_loc(100, 100);
    gs.ball.angle.theta = 3_926_991;
    gs.ball.velocity = BallVelocity::new(0, 0);
    gs.state = GolfState::Rolling;
    gs.ball.velocity.update(paga::geo::Vec2::new(12_000_000, 12_000_000));
    for _ in 0..4 {
        gs.update(&neutral());
        assert!(!matches!(gs.state, GolfState::InHole));
    }
}

#[test]
fn stop_returns_to_aiming_without_touching_the_ball() {
    let mut gs = GameState::new();
    gs.state = GolfState::Stop;
    let before = gs.ball.point();
    gs.update_state();
    assert!(matches!(gs.state, GolfState::Aiming));
    assert_eq!(gs.ball.point(), before);
}

#[test]
fn hit_arms_the_shot_and_rolls_next_tick() {
    let mut gs = GameState::new();
    gs.update(&hit_now());
    assert!(matches!(gs.state, GolfState::Hitting));
    gs.update(&neutral());
    assert!(matches!(gs.state, GolfState::Rolling));
    assert_eq!(gs.ball.velocity.x(), 2_017_689);
    assert_eq!(gs.ball.velocity.y(), 995_670);
}

#[test]
fn aim_input_adjusts_only_while_aiming() {
    let mut gs = GameState::new();
    let theta0 = gs.ball.angle.theta;
    let left = Controls { aiming: Direction::Left, ..neutral() };
    gs.update(&left);
    assert_eq!(gs.ball.angle.theta, theta0 + 10_000, "fine step applied while aiming");
    // set the ball rolling; input must now be ignored
    gs.ball.velocity.update(paga::geo::Vec2::new(1_000_000, 1_000_000));
    gs.state = GolfState::Rolling;
    let theta1 = gs.ball.angle.theta;
    let power1 = gs.ball.power.power;
    gs.update(&Controls { aiming: Direction::Left, power: PowerLevel::Up, ..neutral() });
    assert!(matches!(gs.state, GolfState::Rolling));
    assert_eq!(gs.ball.angle.theta, theta1);
    assert_eq!(gs.ball.power.power, power1);
}

#[test]
fn every_rolling_tick_slows_the_ball() {
    let mut gs = GameState::new();
    gs.update(&hit_now());
    gs.update(&neutral());
    let mut l1 = gs.ball.velocity.x().abs() + gs.ball.velocity.y().abs();
    while matches!(gs.state, GolfState::Rolling) {
        gs.update(&neutral());
        let next = gs.ball.velocity.x().abs() + gs.ball.velocity.y().abs();
        if matches!(gs.state, GolfState::Rolling) {
            assert!(next < l1, "the rolling measure must strictly decrease");
        }
        l1 = next;
    }
    assert!(matches!(gs.state, GolfState::Aiming | GolfState::InHole));
}
