//! The simulation, leaf first: geometry, the physics vocabulary, player
//! input, the objects on the field and the game that owns them.

pub mod geometry;
pub mod physics;
pub mod input;
pub mod game_objects;
pub mod graphics;
pub mod theorems;
