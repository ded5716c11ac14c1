//! Common constants used across the application. Centralizing these
//! prevents magic numbers and ensures consistency.

use vstd::prelude::*;

verus! {

/// Interval between idle detection polls (seconds).
pub const POLL_INTERVAL_SECS: u64 = 2;

/// Interval between API sync operations (seconds).
pub const SYNC_INTERVAL_SECS: u64 = 30;

/// Interval between checks of the retry queue (seconds).
pub const RETRY_CHECK_INTERVAL_SECS: u64 = 5;

/// Interval between timestamp recordings (seconds).
pub const TIMESTAMP_INTERVAL_SECS: u64 = 5;

/// Default idle threshold before stopping timer (seconds).
pub const DEFAULT_IDLE_THRESHOLD_SECS: u64 = 60;

/// Threshold for considering user active (seconds).
pub const ACTIVE_THRESHOLD_SECS: u64 = 3;

} // verus!
