//! A tile of the map and its properties.

use vstd::prelude::*;

verus! {

/// One cell of the world grid. `blocked` stops movement, `block_sight`
/// stops line of sight. The two flags are independent in general; the
/// two provided constructors happen to set them equal.
#[derive(Clone, Copy, Debug, PartialEq, Eq, Structural)]
pub struct Tile {
    pub blocked: bool,
    pub block_sight: bool,
}

impl Tile {
    /// A walkable, see-through tile.
    pub fn empty() -> (t: Tile)
        ensures
            !t.blocked,
            !t.block_sight,
    {
        Tile { blocked: false, block_sight: false }
    }

    /// A tile that blocks both movement and sight.
    pub fn wall() -> (t: Tile)
        ensures
            t.blocked,
            t.block_sight,
    {
        Tile { blocked: true, block_sight: true }
    }
}

} // verus!
