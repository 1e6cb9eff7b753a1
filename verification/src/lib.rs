//! The core of a small pointer-driven maze game.
//!
//! The player guides a square marker through a corridor maze with the
//! pointer. Touching a wall sends the marker back to the start; reaching the
//! goal raises the scare. This crate holds the game state and its rules and
//! nothing else: it never opens a window, loads an asset or plays a sound.
//! The platform shell feeds it pointer positions and frame ticks and carries
//! out the commands it hands back.

pub mod geometry;
pub mod level;
pub mod commands;
pub mod game;
pub mod laws;
