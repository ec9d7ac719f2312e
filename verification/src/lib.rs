//! A terminal dashboard screensaver: a seeded random generator, a character-cell
//! rasterizer, the dashboard layout, a scripted command console and the
//! integer rules of a small bunny-hop game.

pub mod grid;
pub mod rng;
pub mod layout;
pub mod text;
pub mod console;
pub mod format;
pub mod game;
pub mod panel_console;
pub mod panel_bhop;
pub mod panel_sys_info;
pub mod dashboard;
