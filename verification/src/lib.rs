//! Behavioral core of a side-scrolling runner game.
//!
//! The crate models the game as plain data and verified transition
//! functions: axis-aligned geometry, a typestate machine for the playable
//! character, obstacles with a collision-resolution protocol, a procedural
//! segment generator, and a top-level game-phase machine.  Rendering, asset
//! loading, audio playback and input polling are collaborator capabilities:
//! the core emits draw commands and playback requests as values and consumes
//! input as plain key state.

pub mod character;
pub mod engine;
pub mod game;
pub mod geometry;
pub mod obstacle;
pub mod segment;
pub mod sheet;
