//! Game rules of a grid-based puzzle platformer: discrete positions and directions,
//! tile definitions and tile maps, the level editor's painting rules, the collision rules
//! that decide how an entity may move across the grid, and the decisions of the game states.

pub mod components;
pub mod levels;
pub mod pos_map;
pub mod resources;
pub mod states;
pub mod systems;
