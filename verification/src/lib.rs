//! Startup lifecycle core for a desktop application: platform-aware log
//! directory resolution, month-based log retention, and the state machine that
//! drives one background self-update cycle (check, download, install).
//!
//! The host shell performs the actual filesystem work, log-sink installation
//! and network transfers; this crate holds the decisions those steps follow.

pub mod clock;
pub mod paths;
pub mod retention;
pub mod sinks;
pub mod update;
