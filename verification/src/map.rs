//! The course map: a bounding rectangle owning the tile grid.

use crate::geo::{Point, Vec2};
use crate::tiles::{course_tile, TileGrid, TileType, GRID_H, GRID_W};
use vstd::prelude::*;

verus! {

/// Course width in pixels (`GRID_W` tiles of sixteen pixels).
pub const MAP_W: usize = 640;

/// Course height in pixels (`GRID_H` tiles of sixteen pixels).
pub const MAP_H: usize = 368;

/// A course: its origin, pixel extents, and the owned tile grid.
pub struct GameMap {
    pub point: Point,
    pub width: usize,
    pub height: usize,
    pub tile_grid: TileGrid,
}

impl GameMap {
    /// A valid course sits at the origin, spans exactly the pixel
    /// extents of the grid, and owns a fully populated grid.
    pub open spec fn wf(self) -> bool {
        &&& self.point.x == 0
        &&& self.point.y == 0
        &&& self.width == MAP_W
        &&& self.height == MAP_H
        &&& self.tile_grid.wf()
    }

    /// Every cell of the outermost ring is a wall, so the ball meets a
    /// reflecting tile before its probes can leave the grid.
    pub open spec fn walled(self) -> bool {
        forall|x: int, y: int|
            0 <= x < GRID_W && 0 <= y < GRID_H && (x == 0 || x == GRID_W - 1 || y == 0 || y
                == GRID_H - 1) ==> #[trigger] self.tile_grid.cell(x, y) == TileType::Wall
    }

    /// Build the built-in course.
    pub fn new() -> (m: GameMap)
        ensures
            m.wf(),
            m.walled(),
            forall|x: int, y: int|
                0 <= x < GRID_W && 0 <= y < GRID_H ==> #[trigger] m.tile_grid.cell(x, y)
                    == course_tile(x, y),
    {
        let m = GameMap {
            point: Point::new(0, 0),
            width: MAP_W,
            height: MAP_H,
            tile_grid: TileGrid::new(),
        };
        m
    }

    /// The origin corner, as a vector.
    pub fn point(&self) -> (p: Vec2<usize>)
        ensures
            p.x == self.point.x,
            p.y == self.point.y,
    {
        Vec2::new(self.point.x, self.point.y)
    }

    /// The pixel extents.
    pub fn size(&self) -> (s: Vec2<usize>)
        ensures
            s.x == self.width,
            s.y == self.height,
    {
        Vec2::new(self.width, self.height)
    }

    /// The center pixel.
    pub fn center(&self) -> (c: Vec2<usize>)
        requires
            self.wf(),
        ensures
            c.x == self.point.x + self.width / 2,
            c.y == self.point.y + self.height / 2,
    {
        Vec2::new(self.point.x + self.width / 2, self.point.y + self.height / 2)
    }

    /// The left edge.
    pub fn left(&self) -> (e: usize)
        ensures
            e == self.point.x,
    {
        self.point.x
    }

    /// The right edge (exclusive).
    pub fn right(&self) -> (e: usize)
        requires
            self.wf(),
        ensures
            e == self.point.x + self.width,
    {
        self.point.x + self.width
    }

    /// The top edge.
    pub fn top(&self) -> (e: usize)
        ensures
            e == self.point.y,
    {
        self.point.y
    }

    /// The bottom edge (exclusive).
    pub fn bottom(&self) -> (e: usize)
        requires
            self.wf(),
        ensures
            e == self.point.y + self.height,
    {
        self.point.y + self.height
    }
}

} // verus!
