pub mod load;
pub mod map;
pub mod tile_definition;
