//! Verified core of a tray tool that types the clipboard out as individual
//! keystrokes: hotkey parsing, keystroke planning, tray menu state and the
//! text that the platform layers write.

pub mod app;
pub mod autostart;
pub mod clipboard;
pub mod config;
pub mod hotkey;
pub mod keystrokes;
pub mod notify;
pub mod single_instance;
pub mod text;
pub mod tray;
pub mod utf16;
