//! The course grid: a fixed-size 2D array of typed tiles.
//!
//! Cell coordinates are pixel coordinates divided by the tile side of
//! sixteen pixels.  The grid is fully populated at construction and
//! never mutated afterwards; a lookup outside the grid is a caller
//! contract violation, so `tile_at` demands in-bounds coordinates.

use vstd::prelude::*;

verus! {

/// Side of one square tile, in pixels.
pub const TILE_SIZE_PX: usize = 16;

/// Number of tile columns of a course.
pub const GRID_W: usize = 40;

/// Number of tile rows of a course.
pub const GRID_H: usize = 23;

/// Tile column holding the cup of the built-in course.
pub const HOLE_CELL_X: usize = 33;

/// Tile row holding the cup of the built-in course.
pub const HOLE_CELL_Y: usize = 11;

/// What a tile is made of.
#[derive(Clone, Copy, Debug, PartialEq, Eq, Structural)]
pub enum TileType {
    Ground,
    Wall,
    Hole,
    Portal,
}

/// The tile a layout code denotes when a course is loaded from a flat
/// grid of small integers; codes outside the mapping read as ground.
pub open spec fn tile_of_code(c: u8) -> TileType {
    if c == 1 {
        TileType::Wall
    } else if c == 2 {
        TileType::Portal
    } else if c == 3 {
        TileType::Hole
    } else {
        TileType::Ground
    }
}

/// The built-in course layout: a wall around the full perimeter, the
/// cup at one fixed cell, ground everywhere else.
pub open spec fn course_tile(x: int, y: int) -> TileType {
    if x == 0 || x == GRID_W - 1 || y == 0 || y == GRID_H - 1 {
        TileType::Wall
    } else if x == HOLE_CELL_X && y == HOLE_CELL_Y {
        TileType::Hole
    } else {
        TileType::Ground
    }
}

/// A fully populated rectangular grid of tiles.
pub struct TileGrid {
    cells: Vec<Vec<TileType>>,
}

impl TileGrid {
    /// The type of the cell at column `x`, row `y`.
    pub closed spec fn cell(self, x: int, y: int) -> TileType {
        self.cells@[y]@[x]
    }

    /// The grid holds exactly its fixed dimensions.
    pub closed spec fn wf(self) -> bool {
        &&& self.cells@.len() == GRID_H
        &&& forall|y: int| 0 <= y < GRID_H ==> (#[trigger] self.cells@[y])@.len() == GRID_W
    }

    /// Build the built-in course.
    pub fn new() -> (g: TileGrid)
        ensures
            g.wf(),
            forall|x: int, y: int|
                0 <= x < GRID_W && 0 <= y < GRID_H ==> #[trigger] g.cell(x, y) == course_tile(x, y),
    {
        let mut cells: Vec<Vec<TileType>> = Vec::new();
        let mut y: usize = 0;
        while y < GRID_H
            invariant
                y <= GRID_H,
                cells@.len() == y,
                forall|j: int| 0 <= j < y ==> (#[trigger] cells@[j])@.len() == GRID_W,
                forall|i: int, j: int|
                    0 <= i < GRID_W && 0 <= j < y ==> #[trigger] cells@[j]@[i] == course_tile(i, j),
            decreases GRID_H - y,
        {
            let mut row: Vec<TileType> = Vec::new();
            let mut x: usize = 0;
            while x < GRID_W
                invariant
                    x <= GRID_W,
                    row@.len() == x,
                    forall|i: int| 0 <= i < x ==> #[trigger] row@[i] == course_tile(i, y as int),
                decreases GRID_W - x,
            {
                let t = if x == 0 || x == GRID_W - 1 || y == 0 || y == GRID_H - 1 {
                    TileType::Wall
                } else if x == HOLE_CELL_X && y == HOLE_CELL_Y {
                    TileType::Hole
                } else {
                    TileType::Ground
                };
                row.push(t);
                x = x + 1;
            }
            cells.push(row);
            y = y + 1;
        }
        TileGrid { cells }
    }

    /// Build a course from a flat row-major grid of layout codes, one
    /// byte per tile, mapped as ground 0, wall 1, portal 2, hole 3.
    pub fn from_codes(codes: &Vec<u8>) -> (g: TileGrid)
        requires
            codes@.len() == GRID_W * GRID_H,
        ensures
            g.wf(),
            forall|x: int, y: int|
                0 <= x < GRID_W && 0 <= y < GRID_H ==> #[trigger] g.cell(x, y) == tile_of_code(
                    codes@[y * GRID_W + x],
                ),
    {
        let mut cells: Vec<Vec<TileType>> = Vec::new();
        let mut y: usize = 0;
        while y < GRID_H
            invariant
                y <= GRID_H,
                codes@.len() == GRID_W * GRID_H,
                cells@.len() == y,
                forall|j: int| 0 <= j < y ==> (#[trigger] cells@[j])@.len() == GRID_W,
                forall|i: int, j: int|
                    0 <= i < GRID_W && 0 <= j < y ==> #[trigger] cells@[j]@[i] == tile_of_code(
                        codes@[j * GRID_W + i],
                    ),
            decreases GRID_H - y,
        {
            let mut row: Vec<TileType> = Vec::new();
            let mut x: usize = 0;
            while x < GRID_W
                invariant
                    x <= GRID_W,
                    y < GRID_H,
                    codes@.len() == GRID_W * GRID_H,
                    row@.len() == x,
                    forall|i: int| 0 <= i < x ==> #[trigger] row@[i] == tile_of_code(
                        codes@[y * GRID_W + i],
                    ),
                decreases GRID_W - x,
            {
                proof {
                    assert(0 <= y * GRID_W + x < GRID_W * GRID_H) by (nonlinear_arith)
                        requires
                            0 <= x < GRID_W,
                            0 <= y < GRID_H,
                            GRID_W == 40,
                            GRID_H == 23,
                    ;
                }
                let code = codes[y * GRID_W + x];
                let t = if code == 1 {
                    TileType::Wall
                } else if code == 2 {
                    TileType::Portal
                } else if code == 3 {
                    TileType::Hole
                } else {
                    TileType::Ground
                };
                row.push(t);
                x = x + 1;
            }
            cells.push(row);
            y = y + 1;
        }
        TileGrid { cells }
    }

    /// Look up one cell; the coordinates must be inside the grid.
    pub fn tile_at(&self, x: usize, y: usize) -> (t: TileType)
        requires
            self.wf(),
            x < GRID_W,
            y < GRID_H,
        ensures
            t == self.cell(x as int, y as int),
    {
        self.cells[y][x]
    }
}

} // verus!
