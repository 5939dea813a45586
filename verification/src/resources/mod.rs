pub mod assets;
pub mod config;
pub mod editor;
pub mod gui;
pub mod history;
pub mod map;
pub mod resize;
pub mod tilemap;
pub mod win;
