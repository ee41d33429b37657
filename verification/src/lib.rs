//! Game rules, level data and pixel-art generation for the Orbital Escape game.
pub mod ammo;
pub mod cache;
pub mod game;
pub mod hud;
pub mod level;
pub mod palette;
pub mod raster;
pub mod sprites;
