pub mod editor;
pub mod movement;
pub mod movement_test;
pub mod objects;
pub mod player;
