//! The world grid: a fixed-size rectangle of tiles addressed by `(x, y)`.

use vstd::prelude::*;
use crate::tile::Tile;

verus! {

/// The one explicit error of the grid: a coordinate query outside its extent.
#[derive(Clone, Copy, Debug, PartialEq, Eq, Structural)]
pub enum MapError {
    OutOfBounds,
}

/// A rectangular grid of tiles. `tiles[x][y]` is the cell at column `x`,
/// row `y`; the grid is created once and never resized.
pub struct GameMap {
    pub width: i32,
    pub height: i32,
    pub tiles: Vec<Vec<Tile>>,
}

impl GameMap {
    /// The grid really is `width` columns of `height` tiles each.
    pub open spec fn wf(self) -> bool {
        &&& 0 <= self.width
        &&& 0 <= self.height
        &&& self.tiles@.len() == self.width as int
        &&& forall|x: int|
            0 <= x < self.width ==> (#[trigger] self.tiles@[x])@.len() == self.height as int
    }

    pub open spec fn in_bounds(self, x: int, y: int) -> bool {
        0 <= x < self.width && 0 <= y < self.height
    }

    pub open spec fn spec_tile_at(self, x: int, y: int) -> Tile {
        self.tiles@[x]@[y]
    }

    /// Bounds-checked lookup: the tile at `(x, y)`, or `OutOfBounds`
    /// exactly when the coordinate lies outside the grid.
    pub fn tile_at(&self, x: i32, y: i32) -> (r: Result<Tile, MapError>)
        requires
            self.wf(),
        ensures
            self.in_bounds(x as int, y as int) ==> r == Ok::<Tile, MapError>(
                self.spec_tile_at(x as int, y as int),
            ),
            !self.in_bounds(x as int, y as int) ==> r == Err::<Tile, MapError>(
                MapError::OutOfBounds,
            ),
    {
        if 0 <= x && x < self.width && 0 <= y && y < self.height {
            Ok(self.tiles[x as usize][y as usize])
        } else {
            Err(MapError::OutOfBounds)
        }
    }

    /// Whether the tile at `(x, y)` blocks movement.
    pub fn is_blocked(&self, x: i32, y: i32) -> (r: bool)
        requires
            self.wf(),
            self.in_bounds(x as int, y as int),
        ensures
            r == self.spec_tile_at(x as int, y as int).blocked,
    {
        self.tiles[x as usize][y as usize].blocked
    }

    /// Whether the tile at `(x, y)` blocks line of sight.
    pub fn blocks_sight(&self, x: i32, y: i32) -> (r: bool)
        requires
            self.wf(),
            self.in_bounds(x as int, y as int),
        ensures
            r == self.spec_tile_at(x as int, y as int).block_sight,
    {
        self.tiles[x as usize][y as usize].block_sight
    }

    /// Replace the tile at `(x, y)`, for world generation. Out of bounds
    /// coordinates are reported and leave the grid unchanged.
    pub fn set_tile(&mut self, x: i32, y: i32, t: Tile) -> (r: Result<(), MapError>)
        requires
            old(self).wf(),
        ensures
            final(self).wf(),
            final(self).width == old(self).width,
            final(self).height == old(self).height,
            old(self).in_bounds(x as int, y as int) ==> {
                &&& r == Ok::<(), MapError>(())
                &&& final(self).spec_tile_at(x as int, y as int) == t
                &&& forall|i: int, j: int|
                    old(self).in_bounds(i, j) && !(i == x as int && j == y as int)
                        ==> #[trigger] final(self).spec_tile_at(i, j) == old(self).spec_tile_at(
                        i,
                        j,
                    )
            },
            !old(self).in_bounds(x as int, y as int) ==> {
                &&& r == Err::<(), MapError>(MapError::OutOfBounds)
                &&& forall|i: int, j: int|
                    old(self).in_bounds(i, j) ==> #[trigger] final(self).spec_tile_at(i, j) == old(
                        self,
                    ).spec_tile_at(i, j)
            },
    {
        if 0 <= x && x < self.width && 0 <= y && y < self.height {
            self.tiles[x as usize][y as usize] = t;
            Ok(())
        } else {
            Err(MapError::OutOfBounds)
        }
    }
}

/// Build a `width` by `height` grid filled entirely with empty tiles.
/// World generation beyond that is a deliberate stub: no walls are placed.
#[verifier::loop_isolation(false)]
pub fn make_map(width: i32, height: i32) -> (m: GameMap)
    requires
        0 <= width,
        0 <= height,
    ensures
        m.wf(),
        m.width == width,
        m.height == height,
        forall|x: int, y: int|
            m.in_bounds(x, y) ==> !(#[trigger] m.spec_tile_at(x, y)).blocked
                && !m.spec_tile_at(x, y).block_sight,
{
    let mut tiles: Vec<Vec<Tile>> = Vec::new();
    let mut x: i32 = 0;
    while x < width
        invariant
            0 <= x <= width,
            tiles@.len() == x as int,
            forall|i: int| 0 <= i < x ==> (#[trigger] tiles@[i])@.len() == height as int,
            forall|i: int, j: int|
                0 <= i < x && 0 <= j < height ==> !(#[trigger] tiles@[i]@[j]).blocked
                    && !tiles@[i]@[j].block_sight,
        decreases width - x,
    {
        let mut column: Vec<Tile> = Vec::new();
        let mut y: i32 = 0;
        while y < height
            invariant
                0 <= y <= height,
                column@.len() == y as int,
                forall|j: int|
                    0 <= j < y ==> !(#[trigger] column@[j]).blocked && !column@[j].block_sight,
            decreases height - y,
        {
            column.push(Tile::empty());
            y = y + 1;
        }
        tiles.push(column);
        x = x + 1;
    }
    GameMap { width, height, tiles }
}

} // verus!
