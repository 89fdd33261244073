//! The runtime pool set: four independently sized concurrent-task execution
//! pools, one per workload class.
//!
//! Separating read, write, metadata, and background workloads into distinct
//! pools bounds interference: a burst of background compaction cannot starve
//! foreground reads, and low-volume, latency-sensitive metadata operations
//! are isolated from bulk write throughput. Each pool is sized from
//! configuration at construction and is immutable thereafter.

use vstd::prelude::*;
use crate::config::RuntimeConfig;

verus! {

/// The workload class a runtime pool serves.
#[derive(Clone, Copy, Debug, PartialEq, Eq, Structural)]
pub enum PoolKind {
    Read,
    Write,
    Meta,
    Background,
}

/// The diagnostic name each pool is created with.
pub open spec fn spec_pool_name(kind: PoolKind) -> Seq<char> {
    match kind {
        PoolKind::Read => "ceres-read"@,
        PoolKind::Write => "ceres-write"@,
        PoolKind::Meta => "ceres-meta"@,
        PoolKind::Background => "ceres-bg"@,
    }
}

/// The diagnostic name for a pool of the given workload class.
pub fn pool_name(kind: PoolKind) -> (r: &'static str)
    ensures
        r@ == spec_pool_name(kind),
{
    match kind {
        PoolKind::Read => "ceres-read",
        PoolKind::Write => "ceres-write",
        PoolKind::Meta => "ceres-meta",
        PoolKind::Background => "ceres-bg",
    }
}

/// One named, independently sized concurrent execution pool.
#[derive(Clone, Copy, Debug, PartialEq, Eq, Structural)]
pub struct Runtime {
    /// Which workload class this pool serves; determines its diagnostic name.
    pub kind: PoolKind,
    /// Number of worker threads the pool was created with; immutable.
    pub worker_threads: usize,
}

impl Runtime {
    pub open spec fn valid(self) -> bool {
        self.worker_threads >= 1
    }

    /// The name this pool reports in diagnostics.
    pub fn name(&self) -> (r: &'static str)
        ensures
            r@ == spec_pool_name(self.kind),
    {
        pool_name(self.kind)
    }
}

/// Create one runtime pool with the given workload class and thread count.
pub fn build_runtime(kind: PoolKind, threads_num: usize) -> (r: Runtime)
    requires
        threads_num >= 1,
    ensures
        r.kind == kind,
        r.worker_threads == threads_num,
{
    Runtime { kind, worker_threads: threads_num }
}

/// The four pools every component schedules its work on.
#[derive(Clone, Copy, Debug, PartialEq, Eq, Structural)]
pub struct EngineRuntimes {
    pub read_runtime: Runtime,
    pub write_runtime: Runtime,
    pub meta_runtime: Runtime,
    pub bg_runtime: Runtime,
}

impl EngineRuntimes {
    /// Exactly four pools, one per workload class, each with at least one
    /// worker thread.
    pub open spec fn well_formed(self) -> bool {
        &&& self.read_runtime.kind == PoolKind::Read
        &&& self.write_runtime.kind == PoolKind::Write
        &&& self.meta_runtime.kind == PoolKind::Meta
        &&& self.bg_runtime.kind == PoolKind::Background
        &&& self.read_runtime.valid()
        &&& self.write_runtime.valid()
        &&& self.meta_runtime.valid()
        &&& self.bg_runtime.valid()
    }

    /// The pool set built from the given configuration: each pool sized by
    /// its own entry, independent of the other three.
    pub open spec fn spec_built_from(self, config: RuntimeConfig) -> bool {
        &&& self.well_formed()
        &&& self.read_runtime.worker_threads == config.read_thread_num
        &&& self.write_runtime.worker_threads == config.write_thread_num
        &&& self.meta_runtime.worker_threads == config.meta_thread_num
        &&& self.bg_runtime.worker_threads == config.background_thread_num
    }

    /// The pool serving the given workload class: the four pools are
    /// independently addressable, and no class shares a pool with another.
    pub fn pool(&self, kind: PoolKind) -> (r: Runtime)
        ensures
            r == match kind {
                PoolKind::Read => self.read_runtime,
                PoolKind::Write => self.write_runtime,
                PoolKind::Meta => self.meta_runtime,
                PoolKind::Background => self.bg_runtime,
            },
    {
        match kind {
            PoolKind::Read => self.read_runtime,
            PoolKind::Write => self.write_runtime,
            PoolKind::Meta => self.meta_runtime,
            PoolKind::Background => self.bg_runtime,
        }
    }
}

/// Build the four runtime pools from configuration, each named for its
/// workload class and sized by its own thread count.
pub fn build_engine_runtimes(config: &RuntimeConfig) -> (r: EngineRuntimes)
    requires
        config.valid(),
    ensures
        r.spec_built_from(*config),
{
    EngineRuntimes {
        read_runtime: build_runtime(PoolKind::Read, config.read_thread_num),
        write_runtime: build_runtime(PoolKind::Write, config.write_thread_num),
        meta_runtime: build_runtime(PoolKind::Meta, config.meta_thread_num),
        bg_runtime: build_runtime(PoolKind::Background, config.background_thread_num),
    }
}

} // verus!
