//! Verified core of a reactive live-wallpaper engine: command-line choices,
//! the scene list, session setup, update/version logic, shader wrapping, and
//! the small decision procedures that sit between the engine and the
//! operating system.

pub mod audio;
pub mod config;
pub mod nowplaying;
pub mod persist;
pub mod platform;
pub mod renderer;
pub mod scenes;
pub mod screenshot;
pub mod session;
pub mod shader;
pub mod startup;
pub mod text;
pub mod tray;
pub mod ui;
pub mod update;
