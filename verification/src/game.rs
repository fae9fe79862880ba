//! The play state machine: one authoritative update per tick drives
//! Aiming, Hitting, Rolling, InHole and Stop, interprets the tick's
//! `Controls`, and owns the course and the ball.

use crate::ball::{
    cell_clamped, clamped_cell, Ball, BallAngle, BallPower, BallVelocity, InputAdjustment,
    MinMaxAdj, FRICTION_FP, INTERIOR_MAX_X_PX, INTERIOR_MAX_Y_PX, INTERIOR_MIN_PX, SINK_GATE_FP,
};
use crate::controls::{Controls, Direction, PowerLevel};
use crate::fixed::{abs_i64, fp_to_px, iabs, SCALE};
use crate::geo::{Point, Vec2};
use crate::map::GameMap;
use crate::tiles::{TileType, GRID_H, GRID_W};
use vstd::prelude::*;

verus! {

/// Pixel position the ball is reset to the moment it sinks.
pub const SINK_RESET_PX_X: usize = 28;

/// Pixel position the ball is reset to the moment it sinks.
pub const SINK_RESET_PX_Y: usize = 30;

/// Pixel position the ball is shown at while leaving the hole.
pub const RESTART_PX_X: usize = 32;

/// Pixel position the ball is shown at while leaving the hole.
pub const RESTART_PX_Y: usize = 48;

/// The authoritative mode of the play session.
#[derive(Clone, Copy, Debug, PartialEq, Eq, Structural)]
pub enum GolfState {
    Aiming,
    Rolling,
    Hitting,
    InHole,
    Stop,
}

/// The heading after one tick of aim input.
pub open spec fn aim_adjusted(a: BallAngle, c: Controls) -> BallAngle {
    match c.aiming {
        Direction::Left => a.adjusted(true, c.adj is Max),
        Direction::Right => a.adjusted(false, c.adj is Max),
        Direction::Still => a,
    }
}

/// The power after one tick of power input.
pub open spec fn power_adjusted_by(p: BallPower, c: Controls) -> BallPower {
    match c.power {
        PowerLevel::Up => p.adjusted(true, c.adj is Max),
        PowerLevel::Down => p.adjusted(false, c.adj is Max),
        PowerLevel::Same => p,
    }
}

/// Whether a just-rolled ball sinks: its center cell is a hole tile
/// and both velocity components are at or under the sink gate.
pub open spec fn sink_condition(b: Ball, m: GameMap) -> bool {
    &&& m.tile_grid.cell(
        cell_clamped(b.point.x + b.sprite.width / 2, GRID_W - 1),
        cell_clamped(b.point.y + b.sprite.height / 2, GRID_H - 1),
    ) == TileType::Hole
    &&& iabs(b.velocity.vec.x as int) <= SINK_GATE_FP
    &&& iabs(b.velocity.vec.y as int) <= SINK_GATE_FP
}

/// The ball the instant it sinks: at rest at the reset position.
pub open spec fn sunk_ball(b: Ball) -> Ball {
    Ball {
        old_point: Point { x: SINK_RESET_PX_X, y: SINK_RESET_PX_Y },
        point: Point { x: SINK_RESET_PX_X, y: SINK_RESET_PX_Y },
        fpos: Vec2 {
            x: (SINK_RESET_PX_X * SCALE) as i64,
            y: (SINK_RESET_PX_Y * SCALE) as i64,
        },
        velocity: BallVelocity { vec: Vec2 { x: 0i64, y: 0i64 }, friction: FRICTION_FP },
        ..b
    }
}

/// The full simulation world.
pub struct GameState {
    pub map: GameMap,
    pub state: GolfState,
    pub ball: Ball,
}

impl GameState {
    /// The session invariant: a valid walled course, a valid contained
    /// ball, and — while the ball is leaving the hole — a continuous
    /// position safely in the interior.
    pub open spec fn inv(self) -> bool {
        &&& self.map.wf()
        &&& self.map.walled()
        &&& self.ball.wf_core()
        &&& self.ball.contained()
        &&& (self.state is InHole ==> INTERIOR_MIN_PX <= fp_to_px(self.ball.fpos.x as int)
            <= INTERIOR_MAX_X_PX && INTERIOR_MIN_PX <= fp_to_px(self.ball.fpos.y as int)
            <= INTERIOR_MAX_Y_PX)
    }

    /// The state-machine step of one tick, before input handling.
    pub open spec fn step_state(self) -> GameState {
        match self.state {
            GolfState::Aiming => self,
            GolfState::Hitting => GameState {
                state: GolfState::Rolling,
                ball: self.ball.hit_spec(),
                ..self
            },
            GolfState::Stop => GameState { state: GolfState::Aiming, ..self },
            GolfState::InHole => GameState {
                state: GolfState::Aiming,
                ball: Ball {
                    point: Point { x: RESTART_PX_X, y: RESTART_PX_Y },
                    ..self.ball
                },
                ..self
            },
            GolfState::Rolling => {
                // the exit test is an OR across the axes by design: a
                // roll ends as soon as either component settles, even
                // if the other still carries motion
                let b2 = self.ball.roll_spec(self.map);
                if sink_condition(b2, self.map) {
                    GameState { state: GolfState::InHole, ball: sunk_ball(b2), ..self }
                } else if b2.velocity.vec.x == 0 || b2.velocity.vec.y == 0 {
                    GameState { state: GolfState::Aiming, ball: b2, ..self }
                } else {
                    GameState { state: GolfState::Rolling, ball: b2, ..self }
                }
            },
        }
    }

    /// The input-handling step of one tick: while aiming, the heading
    /// and power take their adjustments and a hit request arms the
    /// shot; in every other state input is ignored.
    pub open spec fn apply_controls(self, c: Controls) -> GameState {
        let ball = if self.state is Aiming {
            Ball {
                angle: aim_adjusted(self.ball.angle, c),
                power: power_adjusted_by(self.ball.power, c),
                ..self.ball
            }
        } else {
            self.ball
        };
        let state = if c.hit && self.state is Aiming {
            GolfState::Hitting
        } else {
            self.state
        };
        GameState { state, ball, ..self }
    }

    /// A fresh session: aiming on the built-in course.
    pub fn new() -> (g: GameState)
        ensures
            g.state is Aiming,
            g.ball.point.x == 320,
            g.ball.point.y == 48,
            g.ball.old_point == g.ball.point,
            g.ball.fpos.x == 320 * SCALE,
            g.ball.fpos.y == 48 * SCALE,
            g.ball.velocity.vec.x == 0,
            g.ball.velocity.vec.y == 0,
            g.ball.velocity.friction == FRICTION_FP,
            g.ball.power == (BallPower {
                speed: crate::ball::SPEED_FP,
                power: crate::ball::POWER_START_FP,
                min_power_step: crate::ball::POWER_STEP_MIN_FP,
                max_power_step: crate::ball::POWER_STEP_MAX_FP,
            }),
            g.ball.angle == (BallAngle {
                theta: crate::ball::THETA_START_FP,
                min_theta_step: crate::ball::THETA_STEP_MIN_FP,
                max_theta_step: crate::ball::THETA_STEP_MAX_FP,
            }),
            g.map.wf(),
            g.map.walled(),
            forall|x: int, y: int|
                0 <= x < GRID_W && 0 <= y < GRID_H ==> #[trigger] g.map.tile_grid.cell(x, y)
                    == crate::tiles::course_tile(x, y),
            g.inv(),
    {
        GameState { state: GolfState::Aiming, ball: Ball::new_at_loc(320, 48), map: GameMap::new() }
    }

    fn update_aiming(&mut self, controls: &Controls)
        ensures
            final(self).ball.angle == aim_adjusted(old(self).ball.angle, *controls),
            *final(self) == (GameState {
                ball: Ball { angle: final(self).ball.angle, ..old(self).ball },
                ..*old(self)
            }),
    {
        match controls.aiming {
            Direction::Left => {
                self.ball.angle.increase(controls.adj);
            },
            Direction::Right => {
                self.ball.angle.decrease(controls.adj);
            },
            Direction::Still => {},
        }
    }

    fn update_power_level(&mut self, controls: &Controls)
        ensures
            final(self).ball.power == power_adjusted_by(old(self).ball.power, *controls),
            *final(self) == (GameState {
                ball: Ball { power: final(self).ball.power, ..old(self).ball },
                ..*old(self)
            }),
    {
        match controls.power {
            PowerLevel::Up => {
                self.ball.power.increase(controls.adj);
            },
            PowerLevel::Down => {
                self.ball.power.decrease(controls.adj);
            },
            PowerLevel::Same => {},
        }
    }

    fn update_hitting(&mut self, controls: &Controls)
        ensures
            final(self).state == (if controls.hit && old(self).state is Aiming {
                GolfState::Hitting
            } else {
                old(self).state
            }),
            *final(self) == (GameState { state: final(self).state, ..*old(self) }),
    {
        if controls.hit == true && self.state == GolfState::Aiming {
            self.state = GolfState::Hitting;
        }
    }

    fn update_controls(&mut self, controls: &Controls)
        ensures
            *final(self) == old(self).apply_controls(*controls),
    {
        if self.state == GolfState::Aiming {
            self.update_aiming(controls);
            self.update_power_level(controls);
        }
        self.update_hitting(controls);
    }

    /// One whole tick: advance the state machine, then handle input.
    pub fn update(&mut self, controls: &Controls)
        requires
            old(self).ball.wf_core(),
            old(self).map.wf(),
    ensures
            *final(self) == old(self).step_state().apply_controls(*controls),
            final(self).ball.wf_core(),
            final(self).map == old(self).map,
            old(self).inv() && (old(self).state is Hitting ==> old(self).ball.launch_clear())
                ==> final(self).inv(),
            old(self).state is Rolling && final(self).state is Rolling
                ==> final(self).ball.velocity.l1() < old(self).ball.velocity.l1(),
    {
        self.update_state();
        self.update_controls(controls);
    }

    /// Advance the state machine one tick.  While Rolling, the L1 norm
    /// of the velocity is a strictly decreasing variant: every tick
    /// that stays Rolling shrinks it, so the roll reaches Aiming or
    /// InHole in finitely many ticks.
    ///
    /// The session invariant survives every tick, with one carve-out:
    /// a shot struck while the ball rests overlapping the far wall
    /// tiles and aimed back into them can overshoot the course edge
    /// for a single tick before the bounds check recovers it, so the
    /// Hitting step asks for launch room.
    pub fn update_state(&mut self)
        requires
            old(self).ball.wf_core(),
            old(self).map.wf(),
        ensures
            *final(self) == old(self).step_state(),
            final(self).ball.wf_core(),
            final(self).map == old(self).map,
            old(self).inv() && (old(self).state is Hitting ==> old(self).ball.launch_clear())
                ==> final(self).inv(),
            old(self).state is Rolling && final(self).state is Rolling
                ==> final(self).ball.velocity.l1() < old(self).ball.velocity.l1(),
    {
        match self.state {
            GolfState::Aiming => {},
            GolfState::Rolling => {
                proof {
                    lemma_roll_slows(self.ball, self.map);
                }
                self.ball.roll(&self.map);
                let p = self.ball.point();
                let (w, h) = self.ball.size();
                let col = clamped_cell(p.x, w / 2, GRID_W - 1);
                let row = clamped_cell(p.y, h / 2, GRID_H - 1);
                let is_ball_velocity_in_range = abs_i64(self.ball.velocity.x()) <= SINK_GATE_FP
                    && abs_i64(self.ball.velocity.y()) <= SINK_GATE_FP;
                let is_ball_in_hole = self.map.tile_grid.tile_at(col, row) == TileType::Hole
                    && is_ball_velocity_in_range;
                if is_ball_in_hole {
                    self.state = GolfState::InHole;
                    let reset_point = Point::new(SINK_RESET_PX_X, SINK_RESET_PX_Y);
                    self.ball.reset_at(reset_point);
                } else if self.ball.velocity.x() == 0 || self.ball.velocity.y() == 0 {
                    self.state = GolfState::Aiming;
                }
            },
            GolfState::Hitting => {
                self.ball.hit();
                self.state = GolfState::Rolling;
            },
            GolfState::Stop => {
                self.state = GolfState::Aiming;
            },
            GolfState::InHole => {
                self.ball.loc_x(RESTART_PX_X);
                self.ball.loc_y(RESTART_PX_Y);
                self.state = GolfState::Aiming;
            },
        }
    }

    /// Read-only view of the ball for a renderer.
    pub fn ball_ref(&self) -> (b: &Ball)
        ensures
            *b == self.ball,
    {
        &self.ball
    }
}

/// The session after `n` ticks of the state machine, input aside.
pub open spec fn ticks(g: GameState, n: nat) -> GameState
    decreases n,
{
    if n == 0 {
        g
    } else {
        ticks(g, (n - 1) as nat).step_state()
    }
}

/// Ticking once more is ticking from the once-stepped session.
proof fn lemma_ticks_shift(g: GameState, n: nat)
    ensures
        ticks(g, n + 1) == ticks(g.step_state(), n),
    decreases n,
{
    if n == 0 {
        assert(ticks(g, 0) == g);
        assert(ticks(g.step_state(), 0) == g.step_state());
        assert(ticks(g, 1) == g.step_state());
    } else {
        lemma_ticks_shift(g, (n - 1) as nat);
        assert(ticks(g, n + 1) == ticks(g, n).step_state());
        assert(ticks(g.step_state(), n) == ticks(g.step_state(), (n - 1) as nat).step_state());
    }
}

/// One state-machine tick keeps the ball's velocity and power domains.
pub proof fn lemma_step_keeps_wf_core(g: GameState)
    requires
        g.ball.wf_core(),
    ensures
        g.step_state().ball.wf_core(),
{
    match g.state {
        GolfState::Rolling => {
            lemma_roll_slows(g.ball, g.map);
            let c = g.ball.after_collision(g.map);
            crate::ball::lemma_friction_shrinks(
                c.velocity.vec.x as int,
                c.velocity.friction as int,
            );
            crate::ball::lemma_friction_shrinks(
                c.velocity.vec.y as int,
                c.velocity.friction as int,
            );
        },
        GolfState::Hitting => {
            let p = g.ball.power;
            let a = g.ball.angle;
            crate::trig::lemma_mul_bound(
                p.power as int,
                p.speed as int,
                crate::ball::POWER_MAX_FP as int,
                SCALE as int,
            );
            crate::fixed::lemma_tdiv_bound(
                p.power * p.speed,
                4 * (SCALE as int),
                10_300_000_000_000,
            );
            crate::trig::lemma_mul_bound(p.scaler_of(), a.xv_spec(), 2_575_000, SCALE as int);
            crate::trig::lemma_mul_bound(p.scaler_of(), a.yv_spec(), 2_575_000, SCALE as int);
            crate::fixed::lemma_tdiv_bound(
                p.scaler_of() * a.xv_spec(),
                SCALE as int,
                2_575_000_000_000,
            );
            crate::fixed::lemma_tdiv_bound(
                p.scaler_of() * a.yv_spec(),
                SCALE as int,
                2_575_000_000_000,
            );
        },
        _ => {},
    }
}

/// A roll always ends: from any session, some finite number of ticks
/// reaches a state other than Rolling — friction strictly shrinks the
/// velocity's L1 norm every tick spent Rolling, walls or not.
pub proof fn lemma_rolling_terminates(g: GameState)
    requires
        g.ball.wf_core(),
    ensures
        exists|n: nat| !((#[trigger] ticks(g, n)).state is Rolling),
    decreases g.ball.velocity.l1(),
{
    if !(g.state is Rolling) {
        assert(ticks(g, 0) == g);
        assert(!(ticks(g, 0).state is Rolling));
    } else {
        let g1 = g.step_state();
        if !(g1.state is Rolling) {
            assert(ticks(g, 1) == ticks(g, 0).step_state());
            assert(ticks(g, 0) == g);
            assert(!(ticks(g, 1).state is Rolling));
        } else {
            lemma_roll_slows(g.ball, g.map);
            lemma_step_keeps_wf_core(g);
            assert(g1.ball.velocity.l1() < g.ball.velocity.l1());
            lemma_rolling_terminates(g1);
            let n0 = choose|n: nat| !((#[trigger] ticks(g1, n)).state is Rolling);
            lemma_ticks_shift(g, n0);
            assert(!(ticks(g, n0 + 1).state is Rolling));
        }
    }
}

/// Rolling never speeds the ball up: the collision response only
/// reflects components, and friction then shrinks every moving one.
pub proof fn lemma_roll_slows(b: Ball, m: GameMap)
    requires
        b.wf_core(),
    ensures
        b.roll_spec(m).velocity.l1() <= b.velocity.l1(),
        b.velocity.l1() > 0 ==> b.roll_spec(m).velocity.l1() < b.velocity.l1(),
        b.roll_spec(m).velocity.vec.x != 0 ==> b.velocity.vec.x != 0,
        b.roll_spec(m).velocity.vec.y != 0 ==> b.velocity.vec.y != 0,
{
    let c = b.after_collision(m);
    let f = c.velocity.friction as int;
    let cvx = c.velocity.vec.x as int;
    let cvy = c.velocity.vec.y as int;
    assert(iabs(cvx) == iabs(b.velocity.vec.x as int));
    assert(iabs(cvy) == iabs(b.velocity.vec.y as int));
    crate::ball::lemma_friction_shrinks(cvx, f);
    crate::ball::lemma_friction_shrinks(cvy, f);
}

} // verus!
