//! Decision logic of a system-tray network location monitor.

pub mod autostart;
pub mod cli;
pub mod coordinator;
pub mod geo;
pub mod icons;
pub mod network;
pub mod text;
pub mod tray;
pub mod updater;
