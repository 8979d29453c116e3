//! Configuration constants consumed by the cache: refresh windows, the grace
//! period, and the relay operating mode.

use vstd::prelude::*;

verus! {

/// Operating mode of the relay.
///
/// Only `Proxy` changes admission behaviour in this library: in proxy mode
/// requests for unknown public keys are forwarded instead of rejected,
/// because keys are backfilled lazily.
#[derive(Clone, Copy, Debug, PartialEq, Eq, Structural)]
pub enum RelayMode {
    /// Managed by the upstream: strict key checks.
    Managed,
    /// Statically configured: strict key checks.
    Static,
    /// Transparent forwarding: unknown keys pass.
    Proxy,
    /// Capture mode for debugging: strict key checks.
    Capture,
}

/// Configuration constants for the project cache.
///
/// All durations are in seconds.
#[derive(Clone, Copy, Debug)]
pub struct Config {
    /// Refresh window for projects that have been seen upstream (cache hit).
    pub project_cache_expiry: u64,
    /// Refresh window for projects never seen upstream (cache miss).
    pub cache_miss_expiry: u64,
    /// Grace period after expiry during which a snapshot may still be served
    /// while a refresh runs in the background.
    pub project_grace_period: u64,
    /// The relay operating mode.
    pub relay_mode: RelayMode,
}

impl Config {
    /// Both refresh windows are refresh grids and must be positive.
    pub open spec fn wf(&self) -> bool {
        1 <= self.project_cache_expiry && 1 <= self.cache_miss_expiry
    }

    /// Builds a configuration from its four constants.
    pub fn new(
        relay_mode: RelayMode,
        project_cache_expiry: u64,
        cache_miss_expiry: u64,
        project_grace_period: u64,
    ) -> (r: Config)
        requires
            1 <= project_cache_expiry,
            1 <= cache_miss_expiry,
        ensures
            r.wf(),
            r.relay_mode == relay_mode,
            r.project_cache_expiry == project_cache_expiry,
            r.cache_miss_expiry == cache_miss_expiry,
            r.project_grace_period == project_grace_period,
    {
        Config { project_cache_expiry, cache_miss_expiry, project_grace_period, relay_mode }
    }
}

} // verus!
