//! Per-tick input intent handed to the state machine by a driver.

use vstd::prelude::*;

verus! {

/// Fine or coarse step selection for angle and power adjustment.
#[derive(Clone, Copy, Debug)]
pub enum AdjustmentType {
    Min,
    Max,
}

/// Aim direction input: turn the shot line left or right, or hold it.
#[derive(Clone, Copy, Debug)]
pub enum Direction {
    Still,
    Left,
    Right,
}

/// Power input: raise or lower the shot power, or keep it.
#[derive(Clone, Copy, Debug)]
pub enum PowerLevel {
    Same,
    Up,
    Down,
}

/// One tick of player intent: how to adjust the aim and power, which
/// step size to use, and whether to strike the ball.
#[derive(Clone, Copy, Debug)]
pub struct Controls {
    pub aiming: Direction,
    pub power: PowerLevel,
    pub adj: AdjustmentType,
    pub hit: bool,
}

impl Default for AdjustmentType {
    fn default() -> (a: AdjustmentType)
        ensures
            a is Min,
    {
        AdjustmentType::Min
    }
}

impl Default for Direction {
    fn default() -> (d: Direction)
        ensures
            d is Still,
    {
        Direction::Still
    }
}

impl Default for PowerLevel {
    fn default() -> (p: PowerLevel)
        ensures
            p is Same,
    {
        PowerLevel::Same
    }
}

impl Default for Controls {
    /// A neutral tick: no adjustment, fine step, no hit.
    fn default() -> (c: Controls)
        ensures
            c.aiming is Still,
            c.power is Same,
            c.adj is Min,
            !c.hit,
    {
        Controls { aiming: Direction::Still, power: PowerLevel::Same, adj: AdjustmentType::Min, hit: false }
    }
}

} // verus!
