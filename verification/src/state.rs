//! The shared trust state: the settings fixed at startup, the most recently
//! verified header, and the bookkeeping of the sync in flight.
//!
//! Times are nanoseconds on the daemon's monotonic clock, counted from an
//! origin the caller chooses once and keeps.

use vstd::prelude::*;

verus! {

/// Nanoseconds in one second.
pub const NANOS_PER_SEC: u128 = 1_000_000_000;

/// The name the daemon answers with on its root query.
pub const SERVICE_NAME: &'static str = "helios-light-client";

/// The daemon's version.
pub const SERVICE_VERSION: &'static str = "0.1.0";

/// Whole seconds as nanoseconds.
pub open spec fn nanos_of(secs: u64) -> int {
    secs * NANOS_PER_SEC
}

/// Whole seconds as nanoseconds.
pub fn secs_to_nanos(secs: u64) -> (nanos: u128)
    ensures
        nanos == nanos_of(secs),
{
    let wide: u128 = secs as u128;
    wide * NANOS_PER_SEC
}

/// The time of a block: seconds since the Unix epoch and the nanoseconds
/// within that second.
#[derive(Clone, Copy, Debug, PartialEq, Eq)]
pub struct Timestamp {
    pub secs: i64,
    pub nanos: u32,
}

/// A header that passed verification: its height, content hash and time.
/// It is replaced as a whole and never changed in place.
#[derive(Clone, Copy, Debug, PartialEq, Eq)]
pub struct TrustedHeader {
    pub height: u64,
    pub hash: [u8; 32],
    pub time: Timestamp,
}

/// What a status query answers with.
#[derive(Clone, Copy, Debug, PartialEq, Eq)]
pub struct StatusResponse {
    pub block_height: u64,
    pub block_hash: [u8; 32],
    pub block_timestamp: Timestamp,
}

/// What the root query answers with.
#[derive(Clone, Copy, Debug)]
pub struct RootResponse {
    pub name: &'static str,
    pub version: &'static str,
}

/// Settings fixed at startup, all in whole seconds.
#[derive(Clone, Copy, Debug, PartialEq, Eq)]
pub struct Config {
    /// Staleness tolerated before a query forces a sync.
    pub freshness_threshold: u64,
    /// Cadence of the periodic sync when nothing else asks for one.
    pub keep_warm_interval: u64,
    /// Cool-down after a detected fork.
    pub halt_duration_on_fork: u64,
    /// Longest time a query waits for the sync in flight.
    pub api_timeout: u64,
}

/// The one record that queries read and the coordinator writes.
#[derive(Clone, Copy, Debug, PartialEq, Eq)]
pub struct AppState {
    pub config: Config,
    /// The header last published; absent until the first sync succeeds.
    pub light_block: Option<TrustedHeader>,
    /// When a header was last published, or the state was created.
    pub last_sync: u128,
    /// Whether a sync attempt has been decided on and not yet finished.
    pub syncing: bool,
    /// Whether the last attempt that reached the primary ended in a
    /// published header.
    pub last_sync_success: bool,
}

impl AppState {
    /// The state a daemon starts in at time `now`: nothing trusted yet, and
    /// a sync counted as in flight so that the first one is not asked for
    /// twice.
    pub open spec fn initial(config: Config, now: u128) -> AppState {
        AppState {
            config,
            light_block: None,
            last_sync: now,
            syncing: true,
            last_sync_success: false,
        }
    }

    /// Creates the starting state.
    pub fn new(config: Config, now: u128) -> (state: AppState)
        ensures
            state == AppState::initial(config, now),
    {
        AppState {
            config,
            light_block: None,
            last_sync: now,
            syncing: true,
            last_sync_success: false,
        }
    }

    /// Time passed at `now` since the last publication; zero if `now` lies
    /// before it.
    pub open spec fn elapsed_at(&self, now: u128) -> int {
        if now >= self.last_sync {
            now - self.last_sync
        } else {
            0
        }
    }

    /// Time passed at `now` since the last publication.
    pub fn elapsed(&self, now: u128) -> (nanos: u128)
        ensures
            nanos == self.elapsed_at(now),
    {
        now.saturating_sub(self.last_sync)
    }

    /// Whether the state is older at `now` than `threshold` seconds allow.
    pub open spec fn stale_at(&self, now: u128, threshold: u64) -> bool {
        self.elapsed_at(now) > nanos_of(threshold)
    }

    /// Whether the state is older at `now` than `threshold` seconds allow.
    pub fn is_stale(&self, now: u128, threshold: u64) -> (stale: bool)
        ensures
            stale == self.stale_at(now, threshold),
    {
        self.elapsed(now) > secs_to_nanos(threshold)
    }
}

} // verus!
