use crate::levels::tile_definition::ToolType;
use vstd::prelude::*;

verus! {

/// The player, with the tool it carries, if any.
#[derive(Debug, Clone, Copy, PartialEq, Eq, Structural)]
pub struct Player {
    pub equipped: Option<ToolType>,
}

impl Default for Player {
    fn default() -> (res: Self)
        ensures
            res.equipped == None::<ToolType>,
    {
        Player { equipped: None }
    }
}

/// Marks a tool equipped by the player.
#[derive(Debug, Clone, Copy, Default)]
pub struct EquippedTag;

/// Marks the debug entity that shows the player's current discrete position.
#[derive(Debug, Clone, Copy, Default)]
pub struct DebugPosGhostTag;

/// Marks the debug entity that shows the player's destination.
#[derive(Debug, Clone, Copy, Default)]
pub struct DebugSteeringGhostTag;

/// Marks the player entity.
#[derive(Debug, Clone, Copy, Default)]
pub struct PlayerTag;

} // verus!
