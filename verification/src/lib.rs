//! Core logic of a keyboard-layout indicator.
//!
//! The library holds the verified decision logic: the debounce filter and
//! detector state machine that turn raw layout samples into change events,
//! the per-window fade state machine, the coordinator that owns the window
//! set and drives show/fade/hide timing, configuration data with hot-reload
//! decisions, and screen-geometry computations. Platform surfaces, hooks,
//! threads and the tray live outside the library and only exchange plain
//! values with it.

pub mod config;
pub mod coordinator;
pub mod hotkeys;
pub mod indicator;
pub mod keyboard_hook;
pub mod monitors;
pub mod sound;
