//! Configuration consumed by the bootstrap layer.
//!
//! The configuration arrives already validated by the caller; this layer
//! reacts only to the per-pool thread counts and to the flag that selects the
//! storage backend.

use vstd::prelude::*;

verus! {

/// Worker-thread counts for the four runtime pools.
#[derive(Clone, Copy, Debug, PartialEq, Eq, Structural)]
pub struct RuntimeConfig {
    pub read_thread_num: usize,
    pub write_thread_num: usize,
    pub meta_thread_num: usize,
    pub background_thread_num: usize,
}

impl RuntimeConfig {
    /// A pool cannot run with zero worker threads.
    pub open spec fn valid(self) -> bool {
        &&& self.read_thread_num >= 1
        &&& self.write_thread_num >= 1
        &&& self.meta_thread_num >= 1
        &&& self.background_thread_num >= 1
    }
}

/// Configuration of the analytic storage engine, as far as this layer reads
/// it: only the flag that selects the replicated, log-backed backend over the
/// local-persistent one.
#[derive(Clone, Copy, Debug, PartialEq, Eq, Structural)]
pub struct AnalyticConfig {
    /// Whether durability is delegated to the external replication log.
    pub replicated_wal: bool,
}

/// The whole server configuration, as far as bootstrap reads it.
#[derive(Clone, Copy, Debug, PartialEq, Eq, Structural)]
pub struct Config {
    pub runtime: RuntimeConfig,
    pub analytic: AnalyticConfig,
}

impl Config {
    pub open spec fn valid(self) -> bool {
        self.runtime.valid()
    }
}

} // verus!
