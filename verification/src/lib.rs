//! Verified core of a Wayland status bar's desktop integration: the
//! compositor IPC protocol, the tray item registry and watcher, and the
//! parsers behind the system monitors.
//!
//! The crate performs no I/O. Callers read sockets, the bus and command
//! output, hand the text to the functions here, and carry out what they
//! return.

pub mod config;
pub mod display;
pub mod hyprland;
pub mod json;
pub mod order;
pub mod system;
pub mod text;
pub mod tray;
