//! Window, tray, health and update logic of the Gutz Now Playing desktop
//! wrapper, and the settings it keeps.
pub mod config;
pub mod text;
pub mod web_url;
pub mod views;
pub mod tray;
pub mod state;
pub mod update;
