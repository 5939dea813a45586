use crate::components::movement::Pos;
use crate::pos_map::PosMap;
use crate::resources::assets::{AssetType, SpriteType};
use vstd::hash_map::StringHashMap;
use vstd::prelude::*;

verus! {

/// Describes a complete level: a map of positions to tile definition keys.
/// The keys can be used to look up the corresponding TileDefinition.
pub struct Level {
    /// The bottom-left corner of the level's bounds.
    pub pos: Pos,
    /// The width and height of the level's bounds.
    pub dimens: Pos,
    /// Mapping of (x,y) position in the world to a TileDefinition key.
    pub tile_defs: PosMap<String>,
}

impl Level {
    /// The tile definition key at each position.
    pub open spec fn keys(&self) -> Map<Pos, Seq<char>> {
        self.tile_defs@.map_values(|k: String| k@)
    }

    /// The placed tiles in iteration order, each a position and a key.
    pub open spec fn placements(&self) -> Seq<(Pos, Seq<char>)> {
        self.tile_defs.entry_seq().map_values(|e: (Pos, String)| (e.0, e.1@))
    }
}

impl Default for Level {
    fn default() -> (res: Self)
        ensures
            res.pos == (Pos { x: 0, y: 0 }),
            res.dimens == (Pos { x: 0, y: 0 }),
            res.tile_defs@ == Map::<Pos, String>::empty(),
            res.tile_defs.entry_seq().len() == 0,
    {
        Level { pos: Pos::new(0, 0), dimens: Pos::new(0, 0), tile_defs: PosMap::new() }
    }
}

/// All known tile definitions, by key.
pub struct TileDefinitions {
    pub map: StringHashMap<TileDefinition>,
}

/// The definition that a key stands for: the stored one, or the fallback where the key is
/// unknown.
pub open spec fn spec_definition(defs: Map<Seq<char>, TileDefinition>, key: Seq<char>) -> TileDefinition {
    if defs.contains_key(key) {
        defs[key]
    } else {
        spec_fallback()
    }
}

impl TileDefinitions {
    pub fn new() -> (res: Self)
        ensures
            res.map@ == Map::<Seq<char>, TileDefinition>::empty(),
    {
        TileDefinitions { map: StringHashMap::new() }
    }

    pub fn insert(&mut self, key: String, def: TileDefinition)
        ensures
            final(self).map@ == old(self).map@.insert(key@, def),
    {
        self.map.insert(key, def);
    }

    /// Looks up a definition by key. Unknown keys give the fallback definition, so that a
    /// slightly corrupted or outdated level file need not stop the game.
    pub fn get(&self, key: &str) -> (res: TileDefinition)
        ensures
            res == spec_definition(self.map@, key@),
    {
        match self.map.get(key) {
            Some(def) => *def,
            None => TileDefinition::fallback(),
        }
    }
}

impl Default for TileDefinitions {
    fn default() -> (res: Self)
        ensures
            res.map@ == Map::<Seq<char>, TileDefinition>::empty(),
    {
        TileDefinitions::new()
    }
}

#[derive(Debug, Clone, Copy, PartialEq, Eq, Structural)]
pub struct TileDefinition {
    /// How wide and high is the tile?
    pub dimens: Pos,
    /// Only one tile with this definition can appear in the level.
    pub unique: bool,
    /// A level cannot be played without at least one tile with this definition.
    pub mandatory: bool,
    /// Collision data for the tile. Not all tiles collide.
    pub collision: Option<CollisionDefinition>,
    /// The graphical asset to use for this tile. Not all tiles have an asset.
    pub asset: Option<AssetType>,
    pub archetype: Archetype,
}

pub open spec fn spec_fallback() -> TileDefinition {
    TileDefinition {
        dimens: Pos { x: 1, y: 1 },
        unique: false,
        mandatory: false,
        collision: None,
        asset: Some(AssetType::Still(SpriteType::NotFound, 0)),
        archetype: Archetype::NotFound,
    }
}

impl TileDefinition {
    /// Use the fallback if the real TileDefinition could not be found.
    pub fn fallback() -> (res: Self)
        ensures
            res == spec_fallback(),
    {
        TileDefinition {
            dimens: Pos::new(1, 1),
            unique: false,
            mandatory: false,
            collision: None,
            asset: Some(AssetType::Still(SpriteType::NotFound, 0)),
            archetype: Archetype::NotFound,
        }
    }

    /// Entities can stand on this tile: it collides at the top.
    pub open spec fn spec_provides_platform(&self) -> bool {
        match self.collision {
            Some(c) => c.collides_top,
            None => false,
        }
    }

    /// Entities cannot move through this tile horizontally: it collides at the sides.
    pub open spec fn spec_collides_horizontally(&self) -> bool {
        match self.collision {
            Some(c) => c.collides_side,
            None => false,
        }
    }

    /// Entities can climb this tile: it is a ladder.
    pub open spec fn spec_climbable(&self) -> bool {
        self.archetype == Archetype::Ladder
    }

    /// Tools can break this tile: it is an ordinary block.
    pub open spec fn spec_is_breakable(&self) -> bool {
        self.archetype == Archetype::Block
    }

    pub fn is_breakable(&self) -> (res: bool)
        ensures
            res == self.spec_is_breakable(),
    {
        matches!(self.archetype, Archetype::Block)
    }

    pub fn provides_platform(&self) -> (res: bool)
        ensures
            res == self.spec_provides_platform(),
    {
        match self.collision {
            Some(c) => c.collides_top,
            None => false,
        }
    }

    pub fn collides_horizontally(&self) -> (res: bool)
        ensures
            res == self.spec_collides_horizontally(),
    {
        match self.collision {
            Some(c) => c.collides_side,
            None => false,
        }
    }

    pub fn climbable(&self) -> (res: bool)
        ensures
            res == self.spec_climbable(),
    {
        matches!(self.archetype, Archetype::Ladder)
    }
}

/// If there are any special rules that apply to this tile, the archetype signals this.
#[derive(Debug, Clone, Copy, PartialEq, Eq, Structural)]
pub enum Archetype {
    /// ordinary block. Does nothing.
    Block,
    /// Spawn a player here.
    Player,
    /// Level key. The objective is to collect them all.
    Key,
    /// After collecting all keys, finish level by reaching this door.
    Door,
    /// Use these to climb up or down.
    Ladder,
    /// A one-time-use tool that the player picks up by moving through it.
    Tool(ToolType),
    /// Spawns mobs from this location.
    MobSpawner,
    /// A fallback archetype used when an archetype lookup failed.
    NotFound,
}

#[derive(Debug, Clone, Copy, PartialEq, Eq, Structural)]
pub struct CollisionDefinition {
    /// Player can stand on these tiles. Examples include regular blocks and ladders.
    pub collides_top: bool,
    /// Player cannot move through these tiles horizontally. Examples include blocks.
    pub collides_side: bool,
    /// When standing underneath a two-high ledge of these tiles, the player cannot jump.
    pub collides_bottom: bool,
}

/// A one-time-use tool. It breaks blocks next to or below its user, up to the given depth.
#[derive(Debug, Clone, Copy, PartialEq, Eq, Structural)]
pub enum ToolType {
    BreakBlocksHorizontally(u8),
    BreakBlocksBelow(u8),
}

} // verus!
