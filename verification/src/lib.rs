//! Core of a tile-based roguelike: a grid world of tiles, movable objects
//! with collision against the map, an off-screen render pipeline, and a
//! keyboard-driven game loop, all stated in contracts and verified.

pub mod color;
pub mod console;
pub mod game;
pub mod input;
pub mod object;
pub mod render;
pub mod tile;
pub mod world;
