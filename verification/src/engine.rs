//! Storage-engine selection and the table-engine proxy.
//!
//! Exactly one of two mutually exclusive storage-engine backends is
//! constructed per process run, selected by a single configuration flag
//! before any code generic over the builder interface executes. The proxy
//! then unifies the ephemeral in-memory engine and the selected analytic
//! engine behind one handle, routing every per-table operation by the
//! engine-identity tag carried with the table.

use vstd::prelude::*;
use crate::config::{AnalyticConfig, Config};
use crate::error::{EngineError, SetupError};
use crate::runtime::EngineRuntimes;

verus! {

/// The two mutually exclusive storage-engine backends.
#[derive(Clone, Copy, Debug, PartialEq, Eq, Structural)]
pub enum EngineBackendKind {
    /// Self-contained engine with no external replication dependency.
    LocalPersistent,
    /// Engine whose durability is delegated to an external replication log.
    Replicated,
}

/// The backend the configuration selects: replicated when the external
/// replication log is enabled, local-persistent otherwise.
pub open spec fn spec_selected_backend(config: Config) -> EngineBackendKind {
    if config.analytic.replicated_wal {
        EngineBackendKind::Replicated
    } else {
        EngineBackendKind::LocalPersistent
    }
}

/// Select the storage backend from configuration. Exactly one variant is
/// chosen; the rest of bootstrap is generic over the builder interface and
/// never inspects which one.
pub fn select_backend(config: &Config) -> (r: EngineBackendKind)
    ensures
        r == spec_selected_backend(*config),
{
    if config.analytic.replicated_wal {
        EngineBackendKind::Replicated
    } else {
        EngineBackendKind::LocalPersistent
    }
}

/// An opaque, shareable handle to the active analytic storage engine. The
/// variant is fixed at construction, before any table operation occurs.
#[derive(Clone, Copy, Debug, PartialEq, Eq, Structural)]
pub struct StorageEngineHandle {
    /// Which of the two backends this engine runs on; never switched.
    pub backend: EngineBackendKind,
}

/// The ephemeral in-memory table engine; it holds no state of interest to
/// the bootstrap layer.
#[derive(Clone, Copy, Debug, PartialEq, Eq, Structural)]
pub struct MemoryTableEngine;

/// Capability interface of a storage-engine builder: each backend variant
/// implements `build` once, and the bootstrap pipeline is written once,
/// generic over this interface.
pub trait EngineBuilder: Sized {
    /// The backend variant this builder constructs.
    spec fn backend_kind(&self) -> EngineBackendKind;

    /// Build the engine from its configuration and the shared runtime pools.
    /// `resources_ready` reports whether the resources this backend depends
    /// on are available at build time (the local store openable, or the
    /// external replication log reachable); construction succeeds exactly
    /// when they are, and any failure is fatal to bootstrap.
    fn build(
        &self,
        config: &AnalyticConfig,
        runtimes: &EngineRuntimes,
        resources_ready: bool,
    ) -> (r: Result<StorageEngineHandle, SetupError>)
        ensures
            resources_ready ==> (r matches Ok(h) && h.backend == self.backend_kind()),
            !resources_ready ==> r == Err::<StorageEngineHandle, SetupError>(SetupError::EngineBuild),
    ;
}

/// Builder of the local-persistent engine.
#[derive(Clone, Copy, Debug, PartialEq, Eq, Structural)]
pub struct RocksEngineBuilder;

impl EngineBuilder for RocksEngineBuilder {
    open spec fn backend_kind(&self) -> EngineBackendKind {
        EngineBackendKind::LocalPersistent
    }

    fn build(
        &self,
        config: &AnalyticConfig,
        runtimes: &EngineRuntimes,
        resources_ready: bool,
    ) -> (r: Result<StorageEngineHandle, SetupError>)
    {
        if resources_ready {
            Ok(StorageEngineHandle { backend: EngineBackendKind::LocalPersistent })
        } else {
            Err(SetupError::EngineBuild)
        }
    }
}

/// Builder of the replicated, log-backed engine; requires the external
/// replication service to be reachable at build time.
#[derive(Clone, Copy, Debug, PartialEq, Eq, Structural)]
pub struct ReplicatedEngineBuilder;

impl EngineBuilder for ReplicatedEngineBuilder {
    open spec fn backend_kind(&self) -> EngineBackendKind {
        EngineBackendKind::Replicated
    }

    fn build(
        &self,
        config: &AnalyticConfig,
        runtimes: &EngineRuntimes,
        resources_ready: bool,
    ) -> (r: Result<StorageEngineHandle, SetupError>)
    {
        if resources_ready {
            Ok(StorageEngineHandle { backend: EngineBackendKind::Replicated })
        } else {
            Err(SetupError::EngineBuild)
        }
    }
}

/// The engine-identity tag carried with a table. A table keeps one tag for
/// its whole lifetime; the proxy never infers it.
#[derive(Clone, Copy, Debug, PartialEq, Eq, Structural)]
pub enum EngineTag {
    /// The ephemeral in-memory engine.
    Memory,
    /// The selected analytic storage engine.
    Analytic,
    /// Any tag matching no supported engine.
    Unknown,
}

/// A per-table operation the proxy dispatches.
#[derive(Clone, Copy, Debug, PartialEq, Eq, Structural)]
pub enum TableOperation {
    CreateTable,
    OpenTable,
    DropTable,
    GetTable,
}

/// The backing engine an operation was routed to.
#[derive(Clone, Copy, Debug, PartialEq, Eq, Structural)]
pub enum RoutedEngine {
    /// The proxy's own in-memory engine instance.
    Memory,
    /// The active analytic engine handle.
    Analytic(StorageEngineHandle),
}

/// Dispatch facade unifying the in-memory engine and the analytic engine
/// under one handle. The proxy holds no table data of its own; it only
/// delegates to the engine the tag names.
#[derive(Clone, Copy, Debug, PartialEq, Eq, Structural)]
pub struct TableEngineProxy {
    pub memory: MemoryTableEngine,
    pub analytic: StorageEngineHandle,
}

impl TableEngineProxy {
    /// Where a tag routes: a function of the tag alone, with no hidden state
    /// and no fallback between engines.
    pub open spec fn spec_route(self, tag: EngineTag) -> Result<RoutedEngine, EngineError> {
        match tag {
            EngineTag::Memory => Ok(RoutedEngine::Memory),
            EngineTag::Analytic => Ok(RoutedEngine::Analytic(self.analytic)),
            EngineTag::Unknown => Err(EngineError::UnsupportedEngineType),
        }
    }

    /// Route one table operation to its backing engine by the supplied tag.
    /// Every operation routes alike: the result does not depend on `op`, and
    /// an unsupported tag always fails rather than silently defaulting.
    pub fn engine_for(&self, op: TableOperation, tag: EngineTag) -> (r: Result<
        RoutedEngine,
        EngineError,
    >)
        ensures
            r == self.spec_route(tag),
    {
        match tag {
            EngineTag::Memory => Ok(RoutedEngine::Memory),
            EngineTag::Analytic => Ok(RoutedEngine::Analytic(self.analytic)),
            EngineTag::Unknown => Err(EngineError::UnsupportedEngineType),
        }
    }
}

/// Routing is a pure function of the engine tag: the memory tag always
/// resolves to the in-memory engine, the analytic tag always resolves to the
/// proxy's analytic handle, and an unrecognized tag always yields the
/// unsupported-engine error — never a silent default.
pub proof fn lemma_routing_pure_in_tag(proxy: TableEngineProxy, tag: EngineTag)
    ensures
        tag is Memory ==> proxy.spec_route(tag) == Ok::<RoutedEngine, EngineError>(
            RoutedEngine::Memory,
        ),
        tag is Analytic ==> proxy.spec_route(tag) == Ok::<RoutedEngine, EngineError>(
            RoutedEngine::Analytic(proxy.analytic),
        ),
        tag is Unknown ==> proxy.spec_route(tag) == Err::<RoutedEngine, EngineError>(
            EngineError::UnsupportedEngineType,
        ),
{
}

/// Exactly one storage-engine backend is selected for any configuration:
/// the replicated backend when the replication log is enabled, the
/// local-persistent backend otherwise, and never both.
pub proof fn lemma_exactly_one_backend(config: Config)
    ensures
        config.analytic.replicated_wal <==> spec_selected_backend(config)
            == EngineBackendKind::Replicated,
        !config.analytic.replicated_wal <==> spec_selected_backend(config)
            == EngineBackendKind::LocalPersistent,
{
}

} // verus!
