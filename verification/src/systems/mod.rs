//! Game systems: audio, missions, weather and winch kinds and rules.

pub mod audio;
pub mod mission;
pub mod vehicle;
pub mod weather;
pub mod winch;
