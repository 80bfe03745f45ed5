//! The fixed values that shape a measurement.

use vstd::prelude::*;

verus! {

/// Workers started when a phase begins.
pub const INITIAL_WORKERS: u32 = 4;

/// Bytes one transfer session moves before a worker starts the next one.
pub const QUOTA_BYTES_PER_SESSION: u64 = 50 * 1024 * 1024;

/// Time between two readings of the byte counter, in milliseconds.
pub const TICK_INTERVAL_MS: u64 = 1000;

/// Length of a phase that is never extended, in seconds.
pub const BASE_PHASE_DURATION_SEC: u64 = 12;

/// Relative growth of the mean throughput, in percent, from which a phase
/// counts as still climbing.
pub const GROWTH_THRESHOLD_PERCENT: u64 = 20;

/// Number of samples a phase must exceed before the trend is consulted.
pub const HISTORY_WINDOW_FOR_TREND: usize = 6;

/// Consecutive ticks without a single byte after which a phase counts as
/// stalled.
pub const STALL_TICKS: usize = 3;

/// Seconds by which one scaling decision moves the deadline: one tick.
pub const DEADLINE_EXTENSION_SEC: u64 = 1;

/// Delay between the starts of two consecutive initial workers, in
/// milliseconds, so that they do not all land on the same remote front end.
pub const STAGGER_MS: u64 = 250;

/// Delay before a worker added by a scaling decision starts, in milliseconds.
pub const SCALE_UP_DELAY_MS: u64 = 250;

} // verus!
