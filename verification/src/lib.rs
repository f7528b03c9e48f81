//! Core engine of a local activity-tracking daemon.
//!
//! The library turns raw, noisy event streams (filesystem modifications,
//! keyboard/mouse input) into clean, debounced, session-scoped duration
//! measurements.  All clock readings enter as explicit millisecond
//! timestamps, so every accounting rule here is pure and fully verified;
//! the host process supplies real clocks, OS hooks and channels around it.

use vstd::prelude::*;

pub mod duration_map;
pub mod file_session;
pub mod file_watcher;
pub mod input_watcher;
pub mod manager;
pub mod path_text;
pub mod stats;
pub mod tracking_event;

verus! {

/// Minimum interval, in milliseconds, between two accepted modification
/// events for the same path.
pub const DEBOUNCE_WINDOW_MS: u64 = 100;

/// Duration of input inactivity, in milliseconds, after which the user is
/// considered idle.
pub const IDLE_THRESHOLD_MS: u64 = 20000;

} // verus!
