//! Core game data: configuration, constants, events, state and world kinds.

pub mod config;
pub mod constants;
pub mod events;
pub mod game_state;
pub mod world;
