//! The logical core of a tile-based dungeon crawler: grid geometry, the level
//! model, the movement state machine and the interaction resolver.

pub mod controls;
pub mod level;
pub mod loading;
pub mod movement;
