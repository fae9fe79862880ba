//! Ball kinematics: velocity with friction, aim angle, shot power, the
//! launch computation, per-tick integration and collision resolution
//! against the course map, and the aim-line projection.

use crate::fixed::{
    fp_floor_px, fp_to_px, iabs, lemma_fp_px_range, lemma_px_round_trip, lemma_tdiv_bound,
    sat_add, sat_add_i64, tdiv, tdiv_i64, HALF_PI_FP, HALF_SCALE, SCALE,
};
use crate::geo::{Point, Vec2};
use crate::map::GameMap;
use crate::sprites::{ball_asset, map_color_to_rgba, Sprite};
use crate::tiles::{TileType, GRID_H, GRID_W, TILE_SIZE_PX};
use crate::trig::{cos_fp, cos_i64, lemma_mod_congruent_shift, lemma_mul_bound, rem_two_pi, sin_fp, sin_i64};
use vstd::arithmetic::div_mod::{
    lemma_div_is_ordered, lemma_div_pos_is_pos, lemma_multiply_divide_lt, lemma_small_mod,
};
use vstd::prelude::*;

verus! {

/// Side of the ball's square sprite box, in pixels.
pub const BALL_SIZE_PX: usize = 8;

/// Per-tick velocity decay factor, in millionths (0.998).
pub const FRICTION_FP: i64 = 998_000;

/// Once the L1 norm of the velocity drops below this, the ball settles
/// to an exact stop (0.1 of a pixel per tick).
pub const SETTLE_THRESHOLD_FP: i64 = 100_000;

/// Lower shot-power bound, exclusive (0.7).
pub const POWER_MIN_FP: i64 = 700_000;

/// Upper shot-power bound, exclusive (10.3).
pub const POWER_MAX_FP: i64 = 10_300_000;

/// Power a fresh ball starts with (10.0).
pub const POWER_START_FP: i64 = 10_000_000;

/// Fine power step (0.5).
pub const POWER_STEP_MIN_FP: i64 = 500_000;

/// Coarse power step (1.0).
pub const POWER_STEP_MAX_FP: i64 = 1_000_000;

/// Fixed launch-speed multiplier (0.9).
pub const SPEED_FP: i64 = 900_000;

/// Heading a fresh ball starts with (3.6 radians).
pub const THETA_START_FP: i64 = 3_600_000;

/// Fine angle step (0.01 radians).
pub const THETA_STEP_MIN_FP: i64 = 10_000;

/// Coarse angle step (0.05 radians).
pub const THETA_STEP_MAX_FP: i64 = 50_000;

/// Largest velocity component a shot can produce:
/// `(POWER_MAX / 4) * speed` with a unit direction component.
pub const LAUNCH_MAX_FP: i64 = 2_575_000;

/// Velocity domain bound: no component of a valid velocity ever
/// exceeds sixteen pixels per tick (shots launch under 2.6).
pub const VMAX_FP: i64 = 16_000_000;

/// Largest x pixel at which the ball's box still fits the course.
pub const BALL_MAX_PX_X: usize = 632;

/// Largest y pixel at which the ball's box still fits the course.
pub const BALL_MAX_PX_Y: usize = 360;

/// A contained ball's continuous x coordinate stays below this.
pub const FPOS_LIMIT_X_FP: i64 = 633_000_000;

/// A contained ball's continuous y coordinate stays below this.
pub const FPOS_LIMIT_Y_FP: i64 = 361_000_000;

/// First pixel clear of the perimeter wall tiles on either low edge.
pub const INTERIOR_MIN_PX: usize = 16;

/// Last x pixel whose rightward probe still misses the wall column.
pub const INTERIOR_MAX_X_PX: usize = 615;

/// Last y pixel whose downward probe still misses the wall row.
pub const INTERIOR_MAX_Y_PX: usize = 343;

/// A ball faster than this on either axis passes over a hole instead
/// of sinking (10.0 pixels per tick).
pub const SINK_GATE_FP: i64 = 10_000_000;

/// One application of friction to one velocity component.
pub open spec fn friction_step(v: int, friction: int) -> int {
    tdiv(v * friction, SCALE as int)
}

/// L1 norm of a velocity pair.
pub open spec fn l1_of(vx: int, vy: int) -> int {
    iabs(vx) + iabs(vy)
}

/// L1 norm of a velocity pair given as a tuple.
pub open spec fn l1_pair(v: (int, int)) -> int {
    l1_of(v.0, v.1)
}

/// The ball's velocity vector together with its decay factor.
#[derive(Clone, Copy, Debug)]
pub struct BallVelocity {
    pub vec: Vec2<i64>,
    pub friction: i64,
}

impl BallVelocity {
    /// A valid velocity decays (factor strictly below one) and lies in
    /// the library's velocity domain.
    pub open spec fn wf(self) -> bool {
        &&& 0 <= self.friction < SCALE
        &&& iabs(self.vec.x as int) <= VMAX_FP
        &&& iabs(self.vec.y as int) <= VMAX_FP
    }

    /// L1 norm of this velocity.
    pub open spec fn l1(self) -> int {
        l1_of(self.vec.x as int, self.vec.y as int)
    }

    pub fn new(x: i64, y: i64) -> (v: BallVelocity)
        requires
            iabs(x as int) <= VMAX_FP,
            iabs(y as int) <= VMAX_FP,
        ensures
            v.vec.x == x,
            v.vec.y == y,
            v.friction == FRICTION_FP,
            v.wf(),
    {
        BallVelocity { vec: Vec2::new(x, y), friction: FRICTION_FP }
    }

    pub fn x(&self) -> (r: i64)
        ensures
            r == self.vec.x,
    {
        self.vec.x
    }

    pub fn y(&self) -> (r: i64)
        ensures
            r == self.vec.y,
    {
        self.vec.y
    }

    pub fn update(&mut self, vel: Vec2<i64>)
        ensures
            final(self).vec == vel,
            final(self).friction == old(self).friction,
    {
        self.vec = vel;
    }

    pub fn invert_x(&mut self)
        requires
            old(self).wf(),
        ensures
            final(self).vec.x as int == -(old(self).vec.x as int),
            final(self).vec.y == old(self).vec.y,
            final(self).friction == old(self).friction,
            final(self).wf(),
    {
        self.vec.x = -self.vec.x;
    }

    pub fn invert_y(&mut self)
        requires
            old(self).wf(),
        ensures
            final(self).vec.y as int == -(old(self).vec.y as int),
            final(self).vec.x == old(self).vec.x,
            final(self).friction == old(self).friction,
            final(self).wf(),
    {
        self.vec.y = -self.vec.y;
    }

    pub fn stop(&mut self)
        ensures
            final(self).vec.x == 0,
            final(self).vec.y == 0,
            final(self).friction == old(self).friction,
            old(self).wf() ==> final(self).wf(),
    {
        self.vec.x = 0;
        self.vec.y = 0;
    }

    /// Apply one tick of friction.  Each moving component strictly
    /// shrinks in magnitude and never reverses its sign, so repeated
    /// friction alone drives any velocity toward zero.
    pub fn slow(&mut self)
        requires
            old(self).wf(),
        ensures
            final(self).friction == old(self).friction,
            final(self).vec.x as int == friction_step(
                old(self).vec.x as int,
                old(self).friction as int,
            ),
            final(self).vec.y as int == friction_step(
                old(self).vec.y as int,
                old(self).friction as int,
            ),
            final(self).wf(),
            iabs(final(self).vec.x as int) <= iabs(old(self).vec.x as int),
            iabs(final(self).vec.y as int) <= iabs(old(self).vec.y as int),
            old(self).vec.x != 0 ==> iabs(final(self).vec.x as int) < iabs(old(self).vec.x as int),
            old(self).vec.y != 0 ==> iabs(final(self).vec.y as int) < iabs(old(self).vec.y as int),
            old(self).vec.x >= 0 ==> final(self).vec.x >= 0,
            old(self).vec.x <= 0 ==> final(self).vec.x <= 0,
            old(self).vec.y >= 0 ==> final(self).vec.y >= 0,
            old(self).vec.y <= 0 ==> final(self).vec.y <= 0,
    {
        proof {
            lemma_mul_bound(self.vec.x as int, self.friction as int, VMAX_FP as int, SCALE as int);
            lemma_mul_bound(self.vec.y as int, self.friction as int, VMAX_FP as int, SCALE as int);
            lemma_friction_shrinks(self.vec.x as int, self.friction as int);
            lemma_friction_shrinks(self.vec.y as int, self.friction as int);
        }
        self.vec.x = tdiv_i64(self.vec.x * self.friction, SCALE);
        self.vec.y = tdiv_i64(self.vec.y * self.friction, SCALE);
    }

    /// Whether the L1 norm of the velocity is below a threshold.
    pub fn velocity_below(&self, threshold: i64) -> (r: bool)
        requires
            self.wf(),
        ensures
            r == (self.l1() < threshold),
    {
        let ax = if self.vec.x < 0 {
            -self.vec.x
        } else {
            self.vec.x
        };
        let ay = if self.vec.y < 0 {
            -self.vec.y
        } else {
            self.vec.y
        };
        ax + ay < threshold
    }

    /// The velocity read as a pixel position (whole units, clamped to
    /// the unsigned range).
    pub fn to_map_point(self) -> (p: Point)
        ensures
            p.x as int == fp_to_px(self.vec.x as int),
            p.y as int == fp_to_px(self.vec.y as int),
    {
        Point::new(crate::fixed::fp_floor_px(self.vec.x), crate::fixed::fp_floor_px(self.vec.y))
    }

    /// A copy of the raw vector.
    pub fn vec2(&self) -> (v: Vec2<i64>)
        ensures
            v == self.vec,
    {
        Vec2::new(self.vec.x, self.vec.y)
    }
}

/// Friction shrinks a component's magnitude, strictly so while the
/// component is nonzero, and never flips its sign.
pub proof fn lemma_friction_shrinks(v: int, f: int)
    requires
        0 <= f < SCALE,
        iabs(v) <= VMAX_FP,
    ensures
        iabs(friction_step(v, f)) <= iabs(v),
        v != 0 ==> iabs(friction_step(v, f)) < iabs(v),
        v >= 0 ==> friction_step(v, f) >= 0,
        v <= 0 ==> friction_step(v, f) <= 0,
        iabs(friction_step(v, f)) <= VMAX_FP,
{
    let a = iabs(v);
    assert(0 <= a * f) by (nonlinear_arith)
        requires
            0 <= a,
            0 <= f,
    ;
    lemma_div_pos_is_pos(a * f, SCALE as int);
    if v >= 0 {
        assert(v * f == a * f);
    } else {
        assert(v * f == -(a * f)) by (nonlinear_arith)
            requires
                a == -v,
        ;
    }
    assert(iabs(friction_step(v, f)) == (a * f) / (SCALE as int));
    if a > 0 {
        assert(a * f < (SCALE as int) * a) by (nonlinear_arith)
            requires
                0 < a,
                0 <= f < SCALE,
        ;
        lemma_multiply_divide_lt(a * f, SCALE as int, a);
    } else {
        assert(a == 0);
        assert(a * f == 0) by (nonlinear_arith)
            requires
                a == 0,
        ;
        assert((a * f) / (SCALE as int) == 0);
    }
}

/// Applying friction `n` times to a velocity pair.
pub open spec fn slow_iter(v: (int, int), f: int, n: nat) -> (int, int)
    decreases n,
{
    if n == 0 {
        v
    } else {
        let p = slow_iter(v, f, (n - 1) as nat);
        (friction_step(p.0, f), friction_step(p.1, f))
    }
}

/// Iterating friction one more time is iterating from the once-slowed
/// velocity.
proof fn lemma_slow_iter_shift(v: (int, int), f: int, n: nat)
    ensures
        slow_iter(v, f, n + 1) == slow_iter((friction_step(v.0, f), friction_step(v.1, f)), f, n),
    decreases n,
{
    let w = (friction_step(v.0, f), friction_step(v.1, f));
    if n == 0 {
        assert(slow_iter(v, f, 0) == v);
        assert(slow_iter(w, f, 0) == w);
        assert(slow_iter(v, f, 1) == w);
    } else {
        lemma_slow_iter_shift(v, f, (n - 1) as nat);
        assert(slow_iter(v, f, n + 1) == (
            friction_step(slow_iter(v, f, n).0, f),
            friction_step(slow_iter(v, f, n).1, f),
        ));
        assert(slow_iter(w, f, n) == (
            friction_step(slow_iter(w, f, (n - 1) as nat).0, f),
            friction_step(slow_iter(w, f, (n - 1) as nat).1, f),
        ));
    }
}

/// Friction alone settles the ball: from any velocity in the domain,
/// finitely many friction ticks push the L1 norm below the settle
/// threshold.
pub proof fn lemma_friction_settles(v: (int, int), f: int)
    requires
        0 <= f < SCALE,
        iabs(v.0) <= VMAX_FP,
        iabs(v.1) <= VMAX_FP,
    ensures
        exists|n: nat| l1_pair(#[trigger] slow_iter(v, f, n)) < SETTLE_THRESHOLD_FP,
    decreases iabs(v.0) + iabs(v.1),
{
    if l1_pair(v) < SETTLE_THRESHOLD_FP {
        assert(slow_iter(v, f, 0) == v);
        assert(l1_pair(slow_iter(v, f, 0)) < SETTLE_THRESHOLD_FP);
    } else {
        let w = (friction_step(v.0, f), friction_step(v.1, f));
        lemma_friction_shrinks(v.0, f);
        lemma_friction_shrinks(v.1, f);
        lemma_friction_settles(w, f);
        let n0 = choose|n: nat| l1_pair(#[trigger] slow_iter(w, f, n)) < SETTLE_THRESHOLD_FP;
        lemma_slow_iter_shift(v, f, n0);
        assert(l1_pair(slow_iter(v, f, n0 + 1)) < SETTLE_THRESHOLD_FP);
    }
}

/// Capability shared by the adjustable shot parameters: four stepped
/// mutations, all described by one `adjusted` model.
pub trait MinMaxAdj: Sized {
    /// The value after one adjustment step: `up` picks the direction,
    /// `coarse` the step size.
    spec fn adjusted(self, up: bool, coarse: bool) -> Self;

    fn min_increase(&mut self)
        ensures
            *final(self) == (*old(self)).adjusted(true, false),
    ;

    fn max_increase(&mut self)
        ensures
            *final(self) == (*old(self)).adjusted(true, true),
    ;

    fn min_decrease(&mut self)
        ensures
            *final(self) == (*old(self)).adjusted(false, false),
    ;

    fn max_decrease(&mut self)
        ensures
            *final(self) == (*old(self)).adjusted(false, true),
    ;
}

/// Input-facing dispatcher over `MinMaxAdj`: one entry point per
/// direction, keyed by the adjustment mode.
pub trait InputAdjustment: MinMaxAdj {
    fn increase(&mut self, by: crate::controls::AdjustmentType)
        ensures
            *final(self) == (*old(self)).adjusted(true, by is Max),
    ;

    fn decrease(&mut self, by: crate::controls::AdjustmentType)
        ensures
            *final(self) == (*old(self)).adjusted(false, by is Max),
    ;
}

impl<I: MinMaxAdj> InputAdjustment for I {
    fn increase(&mut self, by: crate::controls::AdjustmentType) {
        match by {
            crate::controls::AdjustmentType::Max => self.max_increase(),
            crate::controls::AdjustmentType::Min => self.min_increase(),
        }
    }

    fn decrease(&mut self, by: crate::controls::AdjustmentType) {
        match by {
            crate::controls::AdjustmentType::Max => self.max_decrease(),
            crate::controls::AdjustmentType::Min => self.min_decrease(),
        }
    }
}

/// Shot power with its fixed launch multiplier and two step sizes.
/// Power lives strictly between `POWER_MIN_FP` and `POWER_MAX_FP`: a
/// step that would cross either bound is dropped entirely.
#[derive(Clone, Copy, Debug)]
pub struct BallPower {
    pub speed: i64,
    pub power: i64,
    pub min_power_step: i64,
    pub max_power_step: i64,
}

impl MinMaxAdj for BallPower {
    /// A step is applied only if the result stays strictly inside the
    /// power bounds; otherwise the power is left unchanged.
    open spec fn adjusted(self, up: bool, coarse: bool) -> BallPower {
        let step = if coarse {
            self.max_power_step as int
        } else {
            self.min_power_step as int
        };
        let next = if up {
            self.power + step
        } else {
            self.power - step
        };
        let allowed = if up {
            i64::MIN <= next && next < POWER_MAX_FP
        } else {
            POWER_MIN_FP < next && next <= i64::MAX
        };
        if allowed {
            BallPower { power: next as i64, ..self }
        } else {
            self
        }
    }

    fn min_increase(&mut self) {
        match self.power.checked_add(self.min_power_step) {
            Some(next) => {
                if next < POWER_MAX_FP {
                    self.power = next;
                }
            },
            None => {},
        }
    }

    fn max_increase(&mut self) {
        match self.power.checked_add(self.max_power_step) {
            Some(next) => {
                if next < POWER_MAX_FP {
                    self.power = next;
                }
            },
            None => {},
        }
    }

    fn min_decrease(&mut self) {
        match self.power.checked_sub(self.min_power_step) {
            Some(next) => {
                if next > POWER_MIN_FP {
                    self.power = next;
                }
            },
            None => {},
        }
    }

    fn max_decrease(&mut self) {
        match self.power.checked_sub(self.max_power_step) {
            Some(next) => {
                if next > POWER_MIN_FP {
                    self.power = next;
                }
            },
            None => {},
        }
    }
}

impl BallPower {
    /// Valid power: strictly inside the bounds, positive steps, and a
    /// launch multiplier of at most one.
    pub open spec fn wf(self) -> bool {
        &&& POWER_MIN_FP < self.power < POWER_MAX_FP
        &&& 0 < self.speed <= SCALE
        &&& 0 < self.min_power_step
        &&& 0 < self.max_power_step
    }

    pub fn new() -> (p: BallPower)
        ensures
            p.speed == SPEED_FP,
            p.power == POWER_START_FP,
            p.min_power_step == POWER_STEP_MIN_FP,
            p.max_power_step == POWER_STEP_MAX_FP,
            p.wf(),
    {
        BallPower {
            speed: SPEED_FP,
            power: POWER_START_FP,
            min_power_step: POWER_STEP_MIN_FP,
            max_power_step: POWER_STEP_MAX_FP,
        }
    }

    /// The launch scaler `(power / 4) * speed`.
    pub open spec fn scaler_of(self) -> int {
        tdiv(self.power * self.speed, 4 * (SCALE as int))
    }

    pub fn scalers(self) -> (r: i64)
        requires
            self.wf(),
        ensures
            r as int == self.scaler_of(),
            0 <= r <= LAUNCH_MAX_FP,
    {
        proof {
            lemma_mul_bound(self.power as int, self.speed as int, POWER_MAX_FP as int, SCALE as int);
            lemma_tdiv_bound(self.power * self.speed, 4 * (SCALE as int), 10_300_000_000_000);
            assert(0 <= self.power * self.speed) by (nonlinear_arith)
                requires
                    0 < self.power,
                    0 < self.speed,
            ;
        }
        tdiv_i64(self.power * self.speed, 4 * SCALE)
    }
}

/// One adjustment step keeps a valid power valid, so the bounds can
/// never be crossed.
pub proof fn lemma_power_adjusted_keeps_bounds(p: BallPower, up: bool, coarse: bool)
    requires
        p.wf(),
    ensures
        p.adjusted(up, coarse).wf(),
{
}

/// Power after a whole sequence of adjustment steps, each given as
/// (direction, step size).
pub open spec fn power_after(p: BallPower, ops: Seq<(bool, bool)>) -> BallPower
    decreases ops.len(),
{
    if ops.len() == 0 {
        p
    } else {
        power_after(p.adjusted(ops[0].0, ops[0].1), ops.skip(1))
    }
}

/// No sequence of adjustment steps ever drives a valid power to or
/// past either bound.
pub proof fn lemma_power_never_leaves_bounds(p: BallPower, ops: Seq<(bool, bool)>)
    requires
        p.wf(),
    ensures
        POWER_MIN_FP < power_after(p, ops).power < POWER_MAX_FP,
    decreases ops.len(),
{
    if ops.len() > 0 {
        lemma_power_adjusted_keeps_bounds(p, ops[0].0, ops[0].1);
        lemma_power_never_leaves_bounds(p.adjusted(ops[0].0, ops[0].1), ops.skip(1));
    }
}

/// The aim heading and its two step sizes.  The heading accumulates
/// without wraparound; a step that would leave the machine range is
/// clamped to it.
#[derive(Clone, Copy, Debug)]
pub struct BallAngle {
    pub theta: i64,
    pub min_theta_step: i64,
    pub max_theta_step: i64,
}

impl MinMaxAdj for BallAngle {
    /// A step moves the heading by the chosen step size, saturating at
    /// the ends of the machine range.
    open spec fn adjusted(self, up: bool, coarse: bool) -> BallAngle {
        let step = if coarse {
            self.max_theta_step as int
        } else {
            self.min_theta_step as int
        };
        let next = if up {
            sat_add(self.theta as int, step)
        } else {
            sat_add(self.theta as int, -step)
        };
        BallAngle { theta: next as i64, ..self }
    }

    fn min_increase(&mut self) {
        self.theta = sat_add_i64(self.theta, self.min_theta_step);
    }

    fn max_increase(&mut self) {
        self.theta = sat_add_i64(self.theta, self.max_theta_step);
    }

    fn min_decrease(&mut self) {
        self.theta = crate::fixed::sat_sub_i64(self.theta, self.min_theta_step);
    }

    fn max_decrease(&mut self) {
        self.theta = crate::fixed::sat_sub_i64(self.theta, self.max_theta_step);
    }
}

impl BallAngle {
    pub fn new() -> (a: BallAngle)
        ensures
            a.theta == THETA_START_FP,
            a.min_theta_step == THETA_STEP_MIN_FP,
            a.max_theta_step == THETA_STEP_MAX_FP,
    {
        BallAngle {
            theta: THETA_START_FP,
            min_theta_step: THETA_STEP_MIN_FP,
            max_theta_step: THETA_STEP_MAX_FP,
        }
    }

    /// The horizontal direction component of the heading.
    pub open spec fn xv_spec(self) -> int {
        sin_fp(self.theta - HALF_PI_FP)
    }

    /// The vertical direction component of the heading.
    pub open spec fn yv_spec(self) -> int {
        cos_fp(self.theta + HALF_PI_FP)
    }

    /// Horizontal direction component, `sin(theta - pi/2)`.
    pub fn xv(&self) -> (r: i64)
        ensures
            r as int == self.xv_spec(),
            -SCALE <= r <= SCALE,
    {
        let m = rem_two_pi(self.theta);
        proof {
            lemma_small_mod(m as nat, crate::fixed::TWO_PI_FP as nat);
            lemma_mod_congruent_shift(
                m as int,
                self.theta as int,
                -(HALF_PI_FP as int),
                crate::fixed::TWO_PI_FP as int,
            );
        }
        sin_i64(m - HALF_PI_FP)
    }

    /// Vertical direction component, `cos(theta + pi/2)`.
    pub fn yv(&self) -> (r: i64)
        ensures
            r as int == self.yv_spec(),
            -SCALE <= r <= SCALE,
    {
        let m = rem_two_pi(self.theta);
        proof {
            lemma_small_mod(m as nat, crate::fixed::TWO_PI_FP as nat);
            lemma_mod_congruent_shift(
                m as int,
                self.theta as int,
                2 * (HALF_PI_FP as int),
                crate::fixed::TWO_PI_FP as int,
            );
        }
        cos_i64(m + HALF_PI_FP)
    }
}

/// Horizontal launch velocity of a shot: the scaler times the
/// horizontal direction component.
pub open spec fn launch_vx(angle: BallAngle, power: BallPower) -> int {
    tdiv(power.scaler_of() * angle.xv_spec(), SCALE as int)
}

/// Vertical launch velocity of a shot.
pub open spec fn launch_vy(angle: BallAngle, power: BallPower) -> int {
    tdiv(power.scaler_of() * angle.yv_spec(), SCALE as int)
}

/// Map polar aim (heading, power) to the launch velocity vector.
pub fn plan_ball_velocity(angle: BallAngle, power: BallPower) -> (v: Vec2<i64>)
    requires
        power.wf(),
    ensures
        v.x as int == launch_vx(angle, power),
        v.y as int == launch_vy(angle, power),
        iabs(v.x as int) <= LAUNCH_MAX_FP,
        iabs(v.y as int) <= LAUNCH_MAX_FP,
{
    let scalers = power.scalers();
    let xd = angle.xv();
    let yd = angle.yv();
    proof {
        lemma_mul_bound(scalers as int, xd as int, LAUNCH_MAX_FP as int, SCALE as int);
        lemma_mul_bound(scalers as int, yd as int, LAUNCH_MAX_FP as int, SCALE as int);
        lemma_tdiv_bound(scalers * xd, SCALE as int, 2_575_000_000_000);
        lemma_tdiv_bound(scalers * yd, SCALE as int, 2_575_000_000_000);
    }
    let x_vel = tdiv_i64(scalers * xd, SCALE);
    let y_vel = tdiv_i64(scalers * yd, SCALE);
    Vec2::new(x_vel, y_vel)
}

/// Whether the ball is in motion.
#[derive(Clone, Copy, Debug)]
pub enum BallState {
    Rolling,
    Stopped,
}

/// The projected aim segment, from just ahead of the ball to the
/// clamped far point.
#[derive(Clone, Copy, Debug)]
pub struct AimLine {
    pub p1: Point,
    pub p2: Point,
}

impl AimLine {
    pub fn new(x1: usize, y1: usize, x2: usize, y2: usize) -> (line: AimLine)
        ensures
            line.p1.x == x1,
            line.p1.y == y1,
            line.p2.x == x2,
            line.p2.y == y2,
    {
        AimLine { p1: Point::new(x1, y1), p2: Point::new(x2, y2) }
    }
}

/// The tile column or row holding a pixel coordinate, clamped into the
/// grid.  The clamp never engages while the ball is contained in the
/// course; it keeps every lookup total outside that proven regime.
pub open spec fn cell_clamped(px: int, maxc: int) -> int {
    if px / (TILE_SIZE_PX as int) > maxc {
        maxc
    } else {
        px / (TILE_SIZE_PX as int)
    }
}

/// Clamped grid cell of the pixel coordinate `base + offset`.
pub fn clamped_cell(base: usize, offset: usize, maxc: usize) -> (c: usize)
    requires
        0 < maxc < 1000,
        offset <= 16,
    ensures
        c as int == cell_clamped(base + offset, maxc as int),
        c <= maxc,
{
    let probe = base.saturating_add(offset);
    proof {
        if base + offset > usize::MAX {
            lemma_div_is_ordered(usize::MAX as int, base + offset, TILE_SIZE_PX as int);
            lemma_div_is_ordered(16_000, usize::MAX as int, TILE_SIZE_PX as int);
        }
        lemma_div_pos_is_pos(probe as int, TILE_SIZE_PX as int);
    }
    let cell = probe / TILE_SIZE_PX;
    if cell > maxc {
        maxc
    } else {
        cell
    }
}

/// The simulated golf ball: its pixel position this tick and last
/// tick, its sprite box, and its velocity, power and heading.  The
/// continuous position `fpos` is authoritative; `point` is recomputed
/// from it on every roll.
#[derive(Clone, Debug)]
pub struct Ball {
    pub old_point: Point,
    pub point: Point,
    pub sprite: Sprite,
    pub velocity: BallVelocity,
    pub fpos: Vec2<i64>,
    pub power: BallPower,
    pub angle: BallAngle,
}

impl Ball {
    /// Structural validity: velocity and power in their domains and
    /// the fixed sprite box.  This is what every kinematic entry point
    /// needs; it is preserved unconditionally.
    pub open spec fn wf_core(self) -> bool {
        &&& self.velocity.wf()
        &&& self.power.wf()
        &&& self.sprite.width == BALL_SIZE_PX
        &&& self.sprite.height == BALL_SIZE_PX
    }

    /// Containment in the course: both pixel positions keep the box
    /// inside the map, the continuous position stays below the far
    /// edges, each axis is either freshly coupled (`point` is the pixel
    /// of `fpos`) or at least one tile clear of the perimeter, and a
    /// motion away from the low edges leaves room to be reflected
    /// without crossing the far edge.
    pub open spec fn contained(self) -> bool {
        &&& self.point.x <= BALL_MAX_PX_X && self.point.y <= BALL_MAX_PX_Y
        &&& self.old_point.x <= BALL_MAX_PX_X && self.old_point.y <= BALL_MAX_PX_Y
        &&& self.fpos.x < FPOS_LIMIT_X_FP && self.fpos.y < FPOS_LIMIT_Y_FP
        &&& (self.point.x as int == fp_to_px(self.fpos.x as int) || (INTERIOR_MIN_PX <= fp_to_px(
            self.fpos.x as int,
        ) <= INTERIOR_MAX_X_PX))
        &&& (self.point.y as int == fp_to_px(self.fpos.y as int) || (INTERIOR_MIN_PX <= fp_to_px(
            self.fpos.y as int,
        ) <= INTERIOR_MAX_Y_PX))
        &&& (self.velocity.vec.x < 0 ==> self.fpos.x - self.velocity.vec.x < FPOS_LIMIT_X_FP)
        &&& (self.velocity.vec.y < 0 ==> self.fpos.y - self.velocity.vec.y < FPOS_LIMIT_Y_FP)
    }

    /// Room for any shot's launch velocity without the reflection of an
    /// immediate wall bounce crossing the far edge.
    pub open spec fn launch_clear(self) -> bool {
        &&& self.fpos.x < FPOS_LIMIT_X_FP - LAUNCH_MAX_FP
        &&& self.fpos.y < FPOS_LIMIT_Y_FP - LAUNCH_MAX_FP
    }

    /// Whether the ball's box lies within the map's horizontal bounds.
    pub open spec fn within_x_bounds(self, m: GameMap) -> bool {
        self.point.x >= m.point.x && self.point.x + self.sprite.width <= m.point.x + m.width
    }

    /// Whether the ball's box lies within the map's vertical bounds.
    pub open spec fn within_y_bounds(self, m: GameMap) -> bool {
        self.point.y >= m.point.y && self.point.y + self.sprite.height <= m.point.y + m.height
    }

    /// The horizontal collision test: the inward margin probe on the
    /// leading side sits on a wall tile, or the box has left the
    /// horizontal bounds.
    pub open spec fn x_collides_with(self, m: GameMap) -> bool {
        let row = cell_clamped(self.point.y + self.sprite.height / 2, GRID_H - 1);
        let hi = cell_clamped(self.point.x + 8, GRID_W - 1);
        let lo = cell_clamped(self.point.x + self.sprite.width - 8, GRID_W - 1);
        ||| (m.tile_grid.cell(hi, row) == TileType::Wall && self.velocity.vec.x > 0)
        ||| (m.tile_grid.cell(lo, row) == TileType::Wall && self.velocity.vec.x < 0)
        ||| !self.within_x_bounds(m)
    }

    /// The vertical collision test, the mirror of the horizontal one.
    pub open spec fn y_collides_with(self, m: GameMap) -> bool {
        let col = cell_clamped(self.point.x + self.sprite.width / 2, GRID_W - 1);
        let hi = cell_clamped(self.point.y + 8, GRID_H - 1);
        let lo = cell_clamped(self.point.y + self.sprite.height - 8, GRID_H - 1);
        ||| (m.tile_grid.cell(col, hi) == TileType::Wall && self.velocity.vec.y > 0)
        ||| (m.tile_grid.cell(col, lo) == TileType::Wall && self.velocity.vec.y < 0)
        ||| !self.within_y_bounds(m)
    }

    /// The ball after the horizontal collision response: on a hit, the
    /// x position is restored from last tick and the x velocity
    /// reflected.
    pub open spec fn x_resolved(self, m: GameMap) -> Ball {
        if self.x_collides_with(m) {
            Ball {
                point: Point { x: self.old_point.x, y: self.point.y },
                velocity: BallVelocity {
                    vec: Vec2 { x: (-(self.velocity.vec.x as int)) as i64, y: self.velocity.vec.y },
                    friction: self.velocity.friction,
                },
                ..self
            }
        } else {
            self
        }
    }

    /// The ball after the vertical collision response.  The horizontal
    /// axis resolves first, so the vertical probes read the restored x.
    pub open spec fn y_resolved(self, m: GameMap) -> Ball {
        if self.y_collides_with(m) {
            Ball {
                point: Point { x: self.point.x, y: self.old_point.y },
                velocity: BallVelocity {
                    vec: Vec2 { x: self.velocity.vec.x, y: (-(self.velocity.vec.y as int)) as i64 },
                    friction: self.velocity.friction,
                },
                ..self
            }
        } else {
            self
        }
    }

    /// The whole collision response of one tick.
    pub open spec fn after_collision(self, m: GameMap) -> Ball {
        self.x_resolved(m).y_resolved(m)
    }

    /// The ball after one whole tick of rolling: resolve collisions,
    /// snapshot the position, integrate the continuous position, floor
    /// it to pixels, apply friction, and settle if slow enough.
    pub open spec fn roll_spec(self, m: GameMap) -> Ball {
        let c = self.after_collision(m);
        let fx = sat_add(c.fpos.x as int, c.velocity.vec.x as int) as i64;
        let fy = sat_add(c.fpos.y as int, c.velocity.vec.y as int) as i64;
        let nvx = friction_step(c.velocity.vec.x as int, c.velocity.friction as int) as i64;
        let nvy = friction_step(c.velocity.vec.y as int, c.velocity.friction as int) as i64;
        let settled = l1_of(nvx as int, nvy as int) < SETTLE_THRESHOLD_FP;
        Ball {
            old_point: c.point,
            point: Point { x: fp_to_px(fx as int) as usize, y: fp_to_px(fy as int) as usize },
            fpos: Vec2 { x: fx, y: fy },
            velocity: BallVelocity {
                vec: Vec2 {
                    x: if settled {
                        0i64
                    } else {
                        nvx
                    },
                    y: if settled {
                        0i64
                    } else {
                        nvy
                    },
                },
                friction: c.velocity.friction,
            },
            ..self
        }
    }

    /// A fresh ball resting at the given pixel position.
    pub fn new_at_loc(x: usize, y: usize) -> (b: Ball)
        requires
            x <= BALL_MAX_PX_X,
            y <= BALL_MAX_PX_Y,
        ensures
            b.point.x == x,
            b.point.y == y,
            b.old_point == b.point,
            b.fpos.x == x * SCALE,
            b.fpos.y == y * SCALE,
            b.velocity.vec.x == 0,
            b.velocity.vec.y == 0,
            b.velocity.friction == FRICTION_FP,
            b.power == (BallPower {
                speed: SPEED_FP,
                power: POWER_START_FP,
                min_power_step: POWER_STEP_MIN_FP,
                max_power_step: POWER_STEP_MAX_FP,
            }),
            b.angle == (BallAngle {
                theta: THETA_START_FP,
                min_theta_step: THETA_STEP_MIN_FP,
                max_theta_step: THETA_STEP_MAX_FP,
            }),
            b.wf_core(),
            b.contained(),
    {
        let template = map_color_to_rgba(ball_asset().as_slice());
        let point = Point::new(x, y);
        let sprite = Sprite { width: BALL_SIZE_PX, height: BALL_SIZE_PX, pixels: template };
        proof {
            lemma_px_round_trip(x as int);
            lemma_px_round_trip(y as int);
        }
        Ball {
            old_point: point,
            point,
            sprite,
            velocity: BallVelocity::new(0, 0),
            fpos: Vec2::new((x as i64) * SCALE, (y as i64) * SCALE),
            power: BallPower::new(),
            angle: BallAngle::new(),
        }
    }

    /// A fresh ball at the default free-play position.
    pub fn new() -> (b: Ball)
        ensures
            b.point.x == 100,
            b.point.y == 100,
            b.wf_core(),
            b.contained(),
    {
        Ball::new_at_loc(100, 100)
    }

    /// Near point of the aim line, in fixed point: half a pixel past
    /// the ball center, one power unit along the heading.
    pub open spec fn aim_near_x_fp(self) -> int {
        (self.point.x + self.sprite.width / 2) * (SCALE as int) + HALF_SCALE + tdiv(
            self.power.power * self.angle.xv_spec(),
            SCALE as int,
        )
    }

    pub open spec fn aim_near_y_fp(self) -> int {
        (self.point.y + self.sprite.height / 2) * (SCALE as int) + HALF_SCALE + tdiv(
            self.power.power * self.angle.yv_spec(),
            SCALE as int,
        )
    }

    /// Far point of the aim line before clamping: twelve power units
    /// along the heading.
    pub open spec fn aim_far_x_fp(self) -> int {
        (self.point.x + self.sprite.width / 2) * (SCALE as int) + HALF_SCALE + tdiv(
            self.power.power * 12 * self.angle.xv_spec(),
            SCALE as int,
        )
    }

    pub open spec fn aim_far_y_fp(self) -> int {
        (self.point.y + self.sprite.height / 2) * (SCALE as int) + HALF_SCALE + tdiv(
            self.power.power * 12 * self.angle.yv_spec(),
            SCALE as int,
        )
    }

    /// The clamped x pixel of the aim line's far point: used verbatim
    /// inside the map's horizontal extent, clamped to the width past
    /// the far bound, clamped to the origin behind the near bound, and
    /// falling back to the ball's own x in the contradictory fourth
    /// case, a deliberate fallback.
    pub open spec fn aim_x2_px(self, m: GameMap) -> int {
        let far = self.aim_far_x_fp();
        if far > m.point.x * (SCALE as int) && far < m.width * (SCALE as int) {
            fp_to_px(far)
        } else if far > m.point.x * (SCALE as int) {
            m.width as int
        } else if far < m.width * (SCALE as int) {
            m.point.x as int
        } else {
            self.point.x as int
        }
    }

    /// The clamped y pixel of the aim line's far point.
    pub open spec fn aim_y2_px(self, m: GameMap) -> int {
        let far = self.aim_far_y_fp();
        if far > m.point.y * (SCALE as int) && far < m.height * (SCALE as int) {
            fp_to_px(far)
        } else if far > m.point.y * (SCALE as int) {
            m.height as int
        } else if far < m.height * (SCALE as int) {
            m.point.y as int
        } else {
            self.point.y as int
        }
    }

    /// Project the aim line for the current heading and power: a short
    /// segment from just ahead of the ball toward the clamped far
    /// point.  Pure; callable in any state.
    pub fn aim_path(&self, playground: &GameMap) -> (line: AimLine)
        requires
            self.wf_core(),
            self.point.x <= BALL_MAX_PX_X,
            self.point.y <= BALL_MAX_PX_Y,
            playground.wf(),
        ensures
            line.p1.x as int == fp_to_px(self.aim_near_x_fp()),
            line.p1.y as int == fp_to_px(self.aim_near_y_fp()),
            line.p2.x as int == self.aim_x2_px(*playground),
            line.p2.y as int == self.aim_y2_px(*playground),
    {
        let cx = self.point.x + self.sprite.width / 2;
        let cy = self.point.y + self.sprite.height / 2;
        let cx_fp: i64 = (cx as i64) * SCALE + HALF_SCALE;
        let cy_fp: i64 = (cy as i64) * SCALE + HALF_SCALE;
        let xd = self.angle.xv();
        let yd = self.angle.yv();
        proof {
            lemma_mul_bound(self.power.power as int, xd as int, POWER_MAX_FP as int, SCALE as int);
            lemma_mul_bound(self.power.power as int, yd as int, POWER_MAX_FP as int, SCALE as int);
            lemma_tdiv_bound(self.power.power * xd, SCALE as int, 10_300_000_000_000);
            lemma_tdiv_bound(self.power.power * yd, SCALE as int, 10_300_000_000_000);
            lemma_mul_bound(
                (self.power.power * 12) as int,
                xd as int,
                124_000_000,
                SCALE as int,
            );
            lemma_mul_bound(
                (self.power.power * 12) as int,
                yd as int,
                124_000_000,
                SCALE as int,
            );
            lemma_tdiv_bound(self.power.power * 12 * xd, SCALE as int, 124_000_000_000_000);
            lemma_tdiv_bound(self.power.power * 12 * yd, SCALE as int, 124_000_000_000_000);
        }
        let near_x: i64 = cx_fp + tdiv_i64(self.power.power * xd, SCALE);
        let near_y: i64 = cy_fp + tdiv_i64(self.power.power * yd, SCALE);
        let far_x: i64 = cx_fp + tdiv_i64(self.power.power * 12 * xd, SCALE);
        let far_y: i64 = cy_fp + tdiv_i64(self.power.power * 12 * yd, SCALE);
        let x1 = fp_floor_px(near_x);
        let y1 = fp_floor_px(near_y);
        let x2: usize = if far_x > (playground.point.x as i64) * SCALE && far_x < (
        playground.width as i64) * SCALE {
            fp_floor_px(far_x)
        } else if far_x > (playground.point.x as i64) * SCALE {
            playground.width
        } else if far_x < (playground.width as i64) * SCALE {
            playground.point.x
        } else {
            self.point.x
        };
        let y2: usize = if far_y > (playground.point.y as i64) * SCALE && far_y < (
        playground.height as i64) * SCALE {
            fp_floor_px(far_y)
        } else if far_y > (playground.point.y as i64) * SCALE {
            playground.height
        } else if far_y < (playground.height as i64) * SCALE {
            playground.point.y
        } else {
            self.point.y
        };
        AimLine::new(x1, y1, x2, y2)
    }

    /// The ball just after a strike: the launch velocity of the
    /// current heading and power, everything else untouched.
    pub open spec fn hit_spec(self) -> Ball {
        Ball {
            velocity: BallVelocity {
                vec: Vec2 {
                    x: launch_vx(self.angle, self.power) as i64,
                    y: launch_vy(self.angle, self.power) as i64,
                },
                friction: self.velocity.friction,
            },
            ..self
        }
    }

    /// Strike the ball: replace its velocity with the launch vector of
    /// the current heading and power.
    pub fn hit(&mut self)
        requires
            old(self).wf_core(),
        ensures
            *final(self) == old(self).hit_spec(),
            final(self).wf_core(),
            iabs(final(self).velocity.vec.x as int) <= LAUNCH_MAX_FP,
            iabs(final(self).velocity.vec.y as int) <= LAUNCH_MAX_FP,
            old(self).contained() && old(self).launch_clear() ==> final(self).contained(),
    {
        let v = plan_ball_velocity(self.angle, self.power);
        self.velocity.update(v);
    }

    /// Advance the ball one tick against the course.
    pub fn roll(&mut self, playground: &GameMap)
        requires
            old(self).wf_core(),
            playground.wf(),
        ensures
            *final(self) == old(self).roll_spec(*playground),
            final(self).wf_core(),
            old(self).contained() && playground.walled() ==> final(self).contained(),
    {
        proof {
            if old(self).contained() && playground.walled() {
                lemma_roll_preserves_containment(*old(self), *playground);
            }
        }
        self.handle_collision(playground);
        self.old_point = self.point;
        self.fpos.x = sat_add_i64(self.fpos.x, self.velocity.x());
        self.fpos.y = sat_add_i64(self.fpos.y, self.velocity.y());
        self.point = Point::new(fp_floor_px(self.fpos.x), fp_floor_px(self.fpos.y));
        self.velocity.slow();
        if self.velocity.velocity_below(SETTLE_THRESHOLD_FP) {
            self.velocity.stop();
        }
    }

    /// Resolve this tick's collisions against the course, axis by
    /// axis: on a hit the position on that axis is restored from last
    /// tick and the velocity on that axis reflected.  The two axes are
    /// deliberately independent; a corner hit fires both.
    pub fn handle_collision(&mut self, map: &GameMap)
        requires
            old(self).wf_core(),
            map.wf(),
        ensures
            *final(self) == old(self).after_collision(*map),
            final(self).wf_core(),
    {
        if self.x_collides(map) {
            self.point.x = self.old_point.x;
            self.velocity.invert_x();
        }
        proof {
            assert(*self == old(self).x_resolved(*map));
        }
        if self.y_collides(map) {
            self.point.y = self.old_point.y;
            self.velocity.invert_y();
        }
    }

    /// The horizontal collision test on the current position.
    fn x_collides(&self, map: &GameMap) -> (r: bool)
        requires
            self.wf_core(),
            map.wf(),
        ensures
            r == self.x_collides_with(*map),
    {
        let row = clamped_cell(self.point.y, self.sprite.height / 2, GRID_H - 1);
        let hi = clamped_cell(self.point.x, 8, GRID_W - 1);
        let lo = clamped_cell(self.point.x, self.sprite.width - 8, GRID_W - 1);
        let hi_wall = map.tile_grid.tile_at(hi, row) == TileType::Wall && self.velocity.x() > 0;
        let lo_wall = map.tile_grid.tile_at(lo, row) == TileType::Wall && self.velocity.x() < 0;
        hi_wall || lo_wall || !self.is_within_x_bounds(map)
    }

    /// The vertical collision test on the current position.
    fn y_collides(&self, map: &GameMap) -> (r: bool)
        requires
            self.wf_core(),
            map.wf(),
        ensures
            r == self.y_collides_with(*map),
    {
        let col = clamped_cell(self.point.x, self.sprite.width / 2, GRID_W - 1);
        let hi = clamped_cell(self.point.y, 8, GRID_H - 1);
        let lo = clamped_cell(self.point.y, self.sprite.height - 8, GRID_H - 1);
        let hi_wall = map.tile_grid.tile_at(col, hi) == TileType::Wall && self.velocity.y() > 0;
        let lo_wall = map.tile_grid.tile_at(col, lo) == TileType::Wall && self.velocity.y() < 0;
        hi_wall || lo_wall || !self.is_within_y_bounds(map)
    }

    fn is_within_x_bounds(&self, playground: &GameMap) -> (r: bool)
        requires
            self.wf_core(),
            playground.wf(),
        ensures
            r == self.within_x_bounds(*playground),
    {
        if self.point.x < playground.point.x || self.point.x > playground.point.x
            + playground.width - self.sprite.width {
            false
        } else {
            true
        }
    }

    fn is_within_y_bounds(&self, playground: &GameMap) -> (r: bool)
        requires
            self.wf_core(),
            playground.wf(),
        ensures
            r == self.within_y_bounds(*playground),
    {
        if self.point.y < playground.point.y || self.point.y > playground.point.y
            + playground.height - self.sprite.height {
            false
        } else {
            true
        }
    }

    /// The current pixel position.
    pub fn point(&self) -> (p: Point)
        ensures
            p == self.point,
    {
        self.point
    }

    /// Place the x pixel directly, leaving the continuous position as
    /// it is.
    pub fn loc_x(&mut self, x: usize)
        ensures
            final(self).point.x == x,
            final(self).point.y == old(self).point.y,
            *final(self) == (Ball { point: Point { x, y: old(self).point.y }, ..*old(self) }),
    {
        self.point.x = x;
    }

    /// Place the y pixel directly.
    pub fn loc_y(&mut self, y: usize)
        ensures
            final(self).point.y == y,
            final(self).point.x == old(self).point.x,
            *final(self) == (Ball { point: Point { x: old(self).point.x, y }, ..*old(self) }),
    {
        self.point.y = y;
    }

    /// The sprite box size.
    pub fn size(&self) -> (s: (usize, usize))
        ensures
            s.0 == self.sprite.width,
            s.1 == self.sprite.height,
    {
        (self.sprite.width, self.sprite.height)
    }

    /// The center pixel of the sprite box.
    pub fn center(&self) -> (c: Vec2<usize>)
        requires
            self.point.x + self.sprite.width / 2 <= usize::MAX,
            self.point.y + self.sprite.height / 2 <= usize::MAX,
        ensures
            c.x == self.point.x + self.sprite.width / 2,
            c.y == self.point.y + self.sprite.height / 2,
    {
        Vec2::new(self.point.x + self.sprite.width / 2, self.point.y + self.sprite.height / 2)
    }

    /// The left edge of the sprite box.
    pub fn left(&self) -> (e: usize)
        ensures
            e == self.point.x,
    {
        self.point.x
    }

    /// The right edge of the sprite box (exclusive).
    pub fn right(&self) -> (e: usize)
        requires
            self.point.x + self.sprite.width <= usize::MAX,
        ensures
            e == self.point.x + self.sprite.width,
    {
        self.point.x + self.sprite.width
    }

    /// The top edge of the sprite box.
    pub fn top(&self) -> (e: usize)
        ensures
            e == self.point.y,
    {
        self.point.y
    }

    /// The bottom edge of the sprite box (exclusive).
    pub fn bottom(&self) -> (e: usize)
        requires
            self.point.y + self.sprite.height <= usize::MAX,
        ensures
            e == self.point.y + self.sprite.height,
    {
        self.point.y + self.sprite.height
    }

    /// Move the pixel position, leaving the continuous position as it
    /// is.
    pub fn move_to(&mut self, destination: Point)
        ensures
            final(self).point == destination,
            *final(self) == (Ball { point: destination, ..*old(self) }),
    {
        self.point.x = destination.x;
        self.point.y = destination.y;
    }

    /// Put the ball at rest at a pixel position: both pixel positions,
    /// the continuous position and the velocity are reset together.
    pub fn reset_at(&mut self, point: Point)
        requires
            point.x <= BALL_MAX_PX_X,
            point.y <= BALL_MAX_PX_Y,
        ensures
            final(self).point == point,
            final(self).old_point == point,
            final(self).fpos.x == point.x * SCALE,
            final(self).fpos.y == point.y * SCALE,
            final(self).velocity.vec.x == 0,
            final(self).velocity.vec.y == 0,
            final(self).velocity.friction == FRICTION_FP,
            final(self).power == old(self).power,
            final(self).angle == old(self).angle,
            final(self).sprite == old(self).sprite,
            old(self).wf_core() ==> final(self).wf_core(),
            final(self).contained(),
    {
        proof {
            lemma_px_round_trip(point.x as int);
            lemma_px_round_trip(point.y as int);
        }
        self.old_point = point;
        self.point = point;
        self.velocity = BallVelocity::new(0, 0);
        self.fpos = Vec2::new((point.x as i64) * SCALE, (point.y as i64) * SCALE);
    }
}

/// Hitting a wall reflects exactly: when the horizontal test fires,
/// the collision response restores the x position from last tick and
/// negates the x velocity, touching nothing else on that axis.
pub proof fn lemma_wall_reflection_x(b: Ball, m: GameMap)
    requires
        b.wf_core(),
        b.x_collides_with(m),
    ensures
        b.x_resolved(m).point.x == b.old_point.x,
        b.x_resolved(m).velocity.vec.x as int == -(b.velocity.vec.x as int),
        b.x_resolved(m).velocity.vec.y == b.velocity.vec.y,
        b.x_resolved(m).fpos == b.fpos,
        b.x_resolved(m).point.y == b.point.y,
{
}

/// The vertical mirror of the exact wall reflection.
pub proof fn lemma_wall_reflection_y(b: Ball, m: GameMap)
    requires
        b.wf_core(),
        b.y_collides_with(m),
    ensures
        b.y_resolved(m).point.y == b.old_point.y,
        b.y_resolved(m).velocity.vec.y as int == -(b.velocity.vec.y as int),
        b.y_resolved(m).velocity.vec.x == b.velocity.vec.x,
        b.y_resolved(m).fpos == b.fpos,
        b.y_resolved(m).point.x == b.point.x,
{
}

/// A contained ball's box lies entirely inside the course rectangle:
/// left at or past the map's left edge, right at most its right edge,
/// and the same vertically.
pub proof fn lemma_contained_box_inside(b: Ball, m: GameMap)
    requires
        b.wf_core(),
        m.wf(),
        b.contained(),
    ensures
        b.point.x >= m.point.x,
        b.point.x + b.sprite.width <= m.point.x + m.width,
        b.point.y >= m.point.y,
        b.point.y + b.sprite.height <= m.point.y + m.height,
{
}

/// One tick of rolling keeps a contained ball contained, provided the
/// course keeps its perimeter ring of wall tiles.
pub proof fn lemma_roll_preserves_containment(b: Ball, m: GameMap)
    requires
        b.wf_core(),
        m.wf(),
        m.walled(),
        b.contained(),
    ensures
        b.roll_spec(m).contained(),
{
    let s = SCALE as int;
    let c = b.after_collision(m);
    let r = b.roll_spec(m);
    let f = c.velocity.friction as int;
    let cvx = c.velocity.vec.x as int;
    let cvy = c.velocity.vec.y as int;
    let fx = sat_add(c.fpos.x as int, cvx);
    let fy = sat_add(c.fpos.y as int, cvy);

    // The collision step only moves pixel positions between the two
    // stored points and reflects velocity components.
    assert(c.fpos == b.fpos);
    assert(c.old_point == b.old_point);
    assert(iabs(cvx) <= VMAX_FP && iabs(cvy) <= VMAX_FP);
    assert(c.point.x == b.point.x || c.point.x == b.old_point.x);
    assert(c.point.y == b.point.y || c.point.y == b.old_point.y);

    // x axis: the integrated coordinate stays below the limit.
    if cvx > 0 {
        if b.x_collides_with(m) {
            // the reflection of a leftward motion; the motion clause
            // bounds exactly this
            assert(b.velocity.vec.x < 0);
            assert(cvx == -(b.velocity.vec.x as int));
            assert(c.fpos.x + cvx < FPOS_LIMIT_X_FP);
        } else {
            // moving right without a hit: the rightward probe misses
            // the wall column, so the ball is left of the wall zone
            if b.point.x >= INTERIOR_MAX_X_PX + 1 {
                lemma_div_is_ordered(624, b.point.x + 8, TILE_SIZE_PX as int);
                assert(cell_clamped(b.point.x + 8, GRID_W - 1) == GRID_W - 1);
                assert(m.tile_grid.cell(
                    GRID_W - 1,
                    cell_clamped(b.point.y + b.sprite.height / 2, GRID_H - 1),
                ) == TileType::Wall);
                assert(b.x_collides_with(m));
                assert(false);
            }
            lemma_fp_px_range(b.fpos.x as int, INTERIOR_MAX_X_PX as int);
            assert(b.fpos.x < 616_000_000);
            assert(c.fpos.x + cvx < 632_000_000);
        }
    }
    assert(fx < FPOS_LIMIT_X_FP);

    // y axis, the mirror image.
    if cvy > 0 {
        if b.x_resolved(m).y_collides_with(m) {
            assert(b.velocity.vec.y < 0);
            assert(cvy == -(b.velocity.vec.y as int));
            assert(c.fpos.y + cvy < FPOS_LIMIT_Y_FP);
        } else {
            if b.point.y >= INTERIOR_MAX_Y_PX + 1 {
                lemma_div_is_ordered(352, b.point.y + 8, TILE_SIZE_PX as int);
                assert(cell_clamped(b.point.y + 8, GRID_H - 1) == GRID_H - 1);
                assert(m.tile_grid.cell(
                    cell_clamped(b.x_resolved(m).point.x + b.sprite.width / 2, GRID_W - 1),
                    GRID_H - 1,
                ) == TileType::Wall);
                assert(b.x_resolved(m).y_collides_with(m));
                assert(false);
            }
            lemma_fp_px_range(b.fpos.y as int, INTERIOR_MAX_Y_PX as int);
            assert(b.fpos.y < 344_000_000);
            assert(c.fpos.y + cvy < 360_000_000);
        }
    }
    assert(fy < FPOS_LIMIT_Y_FP);

    // the new pixel position follows the continuous one
    lemma_fp_px_range(fx, BALL_MAX_PX_X as int);
    lemma_fp_px_range(fy, BALL_MAX_PX_Y as int);
    assert(r.point.x as int == fp_to_px(fx));
    assert(r.point.y as int == fp_to_px(fy));
    assert(r.point.x <= BALL_MAX_PX_X && r.point.y <= BALL_MAX_PX_Y);

    // friction keeps signs and magnitudes, giving the motion clauses
    lemma_friction_shrinks(cvx, f);
    lemma_friction_shrinks(cvy, f);
    if r.velocity.vec.x < 0 {
        assert(r.velocity.vec.x as int == friction_step(cvx, f));
        assert(cvx < 0);
        assert(iabs(friction_step(cvx, f)) <= iabs(cvx));
        assert(fx - r.velocity.vec.x < FPOS_LIMIT_X_FP);
    }
    if r.velocity.vec.y < 0 {
        assert(r.velocity.vec.y as int == friction_step(cvy, f));
        assert(cvy < 0);
        assert(fy - r.velocity.vec.y < FPOS_LIMIT_Y_FP);
    }
}

} // verus!
