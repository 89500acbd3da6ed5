//! Core of a rate-paced pointer-action automation tool.
//!
//! The library holds everything with algorithmic content: the key and
//! hotkey data model, the persisted configuration and its invariants, the
//! interface's input-mode state machine, the rate-paced action engine's
//! decisions, the event multiplexer's ordering model, and the statistics
//! counters. Terminal rendering, audio synthesis, desktop notifications,
//! tray wiring, config-file serialization and the OS hotkey hook are I/O
//! collaborators that live outside the library and consume plain values
//! from it.

pub mod audio;
pub mod config;
pub mod engine;
pub mod events;
pub mod interface;
pub mod keys;
pub mod theme;
