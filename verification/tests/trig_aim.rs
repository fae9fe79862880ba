//! Direction components, launch velocities and the aim projection.

use paga::ball::{plan_ball_velocity, Ball, BallAngle, BallPower};
use paga::fixed::PI_FP;
use paga::map::GameMap;

fn angle_at(theta: i64) -> BallAngle {
    let mut a = BallAngle::new();
    a.theta = theta;
    a
}

#[test]
fn direction_components_of_the_default_heading() {
    let a = BallAngle::new();  // 3.6 radians
    assert_eq!(a.xv(), 896_751);
    assert_eq!(a.yv(), 442_520);
}

#[test]
fn direction_components_of_the_cardinal_headings() {
    // heading pi points straight right, with a one-millionth of drift
    // from the rounded circle constants
    let a = angle_at(PI_FP);
    assert_eq!(a.xv(), 999_844);
    assert_eq!(a.yv(), -1);
    // heading zero points straight left
    let b = angle_at(0);
    assert_eq!(b.xv(), -999_844);
    assert_eq!(b.yv(), 1);
}

#[test]
fn direction_is_periodic_in_full_turns() {
    let a = angle_at(PI_FP);
    let b = angle_at(PI_FP + 6_283_186);
    let c = angle_at(PI_FP - 6_283_186);
    assert_eq!(a.xv(), b.xv());
    assert_eq!(a.xv(), c.xv());
    assert_eq!(a.yv(), b.yv());
}

#[test]
fn launch_velocity_of_the_default_shot() {
    let v = plan_ball_velocity(BallAngle::new(), BallPower::new());
    assert_eq!(v.x, 2_017_689);
    assert_eq!(v.y, 995_670);
}

#[test]
fn launch_velocity_scales_with_power() {
    let mut p = BallPower::new();
    p.power = 5_000_000;
    let v = plan_ball_velocity(angle_at(PI_FP), p);
    // scaler (5/4)*0.9 = 1.125, times the near-unit direction
    assert_eq!(v.x, 1_124_824);
    assert_eq!(v.y, -1);
}

#[test]
fn aim_line_of_a_mid_course_ball() {
    let map = GameMap::new();
    let ball = Ball::new_at_loc(320, 48);
    let line = ball.aim_path(&map);
    assert_eq!(line.p1.x, 333);
    assert_eq!(line.p1.y, 56);
    assert_eq!(line.p2.x, 432);
    assert_eq!(line.p2.y, 105);
}

#[test]
fn aim_far_point_clamps_to_the_right_edge() {
    let map = GameMap::new();
    let mut ball = Ball::new_at_loc(600, 100);
    ball.angle.theta = PI_FP;  // aiming straight right
    let line = ball.aim_path(&map);
    assert_eq!(line.p2.x, map.right());
    assert_eq!(line.p2.x, 640);
}

#[test]
fn aim_far_point_clamps_to_the_left_edge() {
    let map = GameMap::new();
    let mut ball = Ball::new_at_loc(16, 100);
    ball.angle.theta = 0;  // aiming straight left
    let line = ball.aim_path(&map);
    assert_eq!(line.p2.x, map.left());
    assert_eq!(line.p2.x, 0);
    assert_eq!(line.p1.x, 10);
}
