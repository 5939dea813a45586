use vstd::prelude::*;

verus! {

/// What kind of tile a map tile is.
#[derive(Debug, Clone, Copy, PartialEq, Eq, Structural)]
pub enum TileType {
    /// Collidable, static terrain. Doesn't move.
    StaticTile,
    /// Spawn a player here.
    PlayerStart,
    Key,
    MobSpawner,
    Door,
    Ladder,
}

} // verus!
