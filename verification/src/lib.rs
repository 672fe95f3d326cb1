//! Verified core of the freepalette command palette: provider data types,
//! text handling, search ranking, built-in providers, and local state rules.

pub mod text;
pub mod config;
pub mod fuzzy;
pub mod plugin_api;
pub mod providers;
pub mod ranking;
pub mod registry;
pub mod hotkey;
pub mod daemon;
pub mod ipc;
pub mod palette;
pub mod cli;
pub mod console;
pub mod autostart;
pub mod icon;
