pub mod editor;
pub mod player_steering;
pub mod rewind;
pub mod tools;
