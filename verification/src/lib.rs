//! Offroad Frontier: the verified core of an off-road driving game.
//!
//! The library holds the game's discrete state and rules: configuration
//! choices, event routing, game-state control, menus, the HUD's toggles,
//! weather and audio classification, and profiling statistics. The
//! floating-point simulation (vehicle physics, terrain, particles, camera)
//! lives in the application around it.

pub mod game;
pub mod entities;
pub mod systems;
pub mod ui;
pub mod utils;
