//! User interface state: HUD, menus, minimap and notification kinds.

pub mod hud;
pub mod menu;
pub mod minimap;
pub mod notifications;
