//! Core rules of a small gem tower-defense game.
//!
//! The library covers the parts of the game that are pure rules: the build
//! grid with its 2x2 tower footprints, hit points and damage, the gem and
//! quality tables, target acquisition and attack resolution, on-hit abilities
//! (poison, slow, crit, splash, auras) and the build/pick/spawn phase logic.
//! Rendering, input and scene management are left to the host application.

pub mod abilities;
pub mod creeps;
pub mod game;
pub mod grid;
mod rng;
pub mod targeting;
pub mod towers;

pub use grid::BuildGrid;
