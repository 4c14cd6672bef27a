//! Wallpaper rotation daemon: command protocol, wallpaper queue, transition
//! synthesis and the control loop's decisions, with their contracts.

pub mod commands;
pub mod config;
pub mod daemon;
pub mod dirs;
pub mod queue;
pub mod text;
pub mod transition;
