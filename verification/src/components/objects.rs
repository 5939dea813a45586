use crate::components::movement::Pos;
use crate::levels::tile_definition::ToolType;
use crate::resources::assets::SpriteType;
use vstd::prelude::*;

verus! {

/// A level key, at its position. The objective is to collect them all.
#[derive(Debug, Clone, Copy, PartialEq, Eq, Structural)]
pub struct Key {
    pub pos: Pos,
}

impl Key {
    pub fn new(pos: Pos) -> (res: Self)
        ensures
            res.pos == pos,
    {
        Key { pos }
    }
}

/// A tool lying in the level, with the sprite that shows it.
#[derive(Debug, Clone, Copy, PartialEq, Eq, Structural)]
pub struct Tool {
    pub tool_type: ToolType,
    pub sprite: SpriteType,
    pub sprite_nr: usize,
}

impl Tool {
    pub fn new(tool_type: ToolType, sprite: SpriteType, sprite_nr: usize) -> (res: Self)
        ensures
            res.tool_type == tool_type,
            res.sprite == sprite,
            res.sprite_nr == sprite_nr,
    {
        Tool { tool_type, sprite, sprite_nr }
    }
}

/// All destructible entities have this component; it is how they are found and deleted.
#[derive(Debug, Clone, Copy, PartialEq, Eq, Structural)]
pub struct Block {
    pub pos: Pos,
}

/// A miniature version of a key, shown on the exit door.
#[derive(Debug, Clone, Copy, PartialEq, Eq, Structural)]
pub struct KeyDisplay {
    /// The position of the corresponding key in the world, not of the display itself.
    pub pos: Pos,
}

impl KeyDisplay {
    pub fn new(pos: Pos) -> (res: Self)
        ensures
            res.pos == pos,
    {
        KeyDisplay { pos }
    }
}

/// Marks the exit door.
#[derive(Debug, Clone, Copy, Default)]
pub struct ExitDoor;

/// Marks the background sprite.
#[derive(Debug, Clone, Copy, Default)]
pub struct Background;

} // verus!
