//! Core of a status/control bridge to a local VPN mesh daemon that is
//! reachable only through its command-line interface.
//!
//! The crate translates between the daemon's raw JSON vocabulary and a
//! stable internal model, reconciles the boolean flags that the daemon
//! encodes as side effects on a route list, and serializes mutating
//! commands through a single-writer coordinator.  Process execution and
//! UI rendering live outside; everything here works on plain values and
//! is verified.

pub mod config;
pub mod coordinator;
pub mod daemon;
pub mod display;
pub mod jsonio;
pub mod payload;
pub mod prefs;
pub mod settings_page;
pub mod status;
pub mod text;
