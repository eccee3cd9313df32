//! Decision logic of a desktop quick launcher: debounced global shortcuts,
//! punctuation typing, mouse overlay actions, clipboard forwarding and the
//! commands that open paths and run programs.
pub mod debounce;
pub mod hotkey;
pub mod keys;
pub mod overlay;
pub mod clipboard;
pub mod models;
pub mod commands;
pub mod switches;
