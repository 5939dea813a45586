use crate::components::movement::Pos;
use crate::pos_map::PosMap;
use crate::resources::assets::AssetType;
use vstd::prelude::*;

verus! {

/// A map made of layers of tiles. The first layer is the one tiles are put on.
pub struct LevelMap {
    pub layers: Vec<TileLayer>,
}

impl Default for LevelMap {
    /// A map with a single, empty layer.
    fn default() -> (res: Self)
        ensures
            res.layers@.len() == 1,
            res.layers@[0].tiles@ == Map::<Pos, TileType>::empty(),
    {
        let mut layers = Vec::new();
        layers.push(TileLayer::default());
        LevelMap { layers }
    }
}

impl LevelMap {
    /// Puts the tile at the position on the first layer, replacing what was there.
    pub fn put_tile(&mut self, pos: Pos, tile: TileType)
        requires
            old(self).layers@.len() > 0,
        ensures
            final(self).layers@.len() == old(self).layers@.len(),
            final(self).layers@[0].tiles@ == old(self).layers@[0].tiles@.insert(pos, tile),
            forall|i: int|
                0 < i < old(self).layers@.len() ==> #[trigger] final(self).layers@[i] == old(
                    self,
                ).layers@[i],
    {
        let mut layer = self.layers.remove(0);
        layer.tiles.insert(pos, tile);
        self.layers.insert(0, layer);
    }
}

pub struct TileLayer {
    pub tiles: PosMap<TileType>,
}

impl Default for TileLayer {
    fn default() -> (res: Self)
        ensures
            res.tiles@ == Map::<Pos, TileType>::empty(),
    {
        TileLayer { tiles: PosMap::new() }
    }
}

pub struct Tile {
    /// The position of the tile in tile coordinates. For a tile of more than 1x1, the
    /// bottom-left block of the tile.
    pub pos: Pos,
    pub tile_type: TileType,
}

#[derive(Debug, Clone, Copy, PartialEq, Eq, Structural)]
pub struct TileType {
    /// The width and height of the tile in tile coordinates.
    pub dimens: Pos,
    /// Which asset to draw, stretched to fit the width and height set in 'dimens'.
    pub asset: AssetType,
    /// What kind of tile is this?
    pub entity_type: EntityType,
}

#[derive(Debug, Clone, Copy, PartialEq, Eq, Structural)]
pub enum EntityType {
    /// Collidable, static terrain. Doesn't move. Can be destroyed.
    DestructableTerrain,
    /// Collidable, static terrain. Doesn't move. Cannot be destroyed.
    IndestructableTerrain,
    /// Spawn a player here. Each level should contain exactly one of these.
    Player,
    /// Level key. The objective is to collect them all. Each level should contain at least one.
    Key,
    /// Spawns mobs from this location.
    MobSpawner,
    /// After collecting all keys, finish level by reaching this door.
    Door,
    /// Use these to climb up or down.
    Ladder,
}

} // verus!
