//! A user-activity monitor: a two-state (active / idle) machine driven by
//! periodic samples of the global pointer position. When no movement has been
//! observed for strictly longer than a configured threshold, the monitor asks
//! its caller to emit a single inactivity notification; renewed movement
//! re-arms it for the next idle period.

pub mod laws;
pub mod monitor;
