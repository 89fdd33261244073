//! Errors that can abort server bootstrap.
//!
//! Every failure at this layer is fatal: the process aborts startup rather
//! than serving traffic from a partially built server. Each variant names the
//! bootstrap stage that failed.

use vstd::prelude::*;

verus! {

/// The dependency that server assembly found missing or inconsistent.
#[derive(Clone, Copy, Debug, PartialEq, Eq, Structural)]
pub enum ServerBuildFault {
    MissingRuntimes,
    MissingCatalogManager,
    MissingQueryExecutor,
    MissingTableEngine,
    MissingFunctionRegistry,
    /// The catalog manager's backing store does not live in the analytic
    /// engine that the table-engine proxy routes to.
    CatalogNotBackedByProxy,
}

/// A fatal bootstrap error, one variant per stage that can fail.
#[derive(Clone, Copy, Debug, PartialEq, Eq, Structural)]
pub enum SetupError {
    /// A runtime pool failed to allocate its worker threads.
    PoolAllocation,
    /// The selected storage-engine builder failed (for the replicated
    /// backend, typically the external log service was unreachable).
    EngineBuild,
    /// Catalog metadata could not be loaded or initialized from the engine.
    CatalogBuild,
    /// The built-in function set failed to populate.
    RegistryLoad,
    /// Server composition invariants were violated.
    ServerBuild(ServerBuildFault),
    /// The assembled server failed to begin serving.
    ServerStart,
}

impl SetupError {
    /// The stage name used in the fatal startup message.
    pub open spec fn spec_stage_name(self) -> Seq<char> {
        match self {
            SetupError::PoolAllocation => "runtime pool allocation"@,
            SetupError::EngineBuild => "storage engine build"@,
            SetupError::CatalogBuild => "catalog manager build"@,
            SetupError::RegistryLoad => "function registry load"@,
            SetupError::ServerBuild(_) => "server build"@,
            SetupError::ServerStart => "server start"@,
        }
    }

    /// Name of the stage this error aborted, for diagnostics.
    pub fn stage_name(&self) -> (r: &'static str)
        ensures
            r@ == self.spec_stage_name(),
    {
        match self {
            SetupError::PoolAllocation => "runtime pool allocation",
            SetupError::EngineBuild => "storage engine build",
            SetupError::CatalogBuild => "catalog manager build",
            SetupError::RegistryLoad => "function registry load",
            SetupError::ServerBuild(_) => "server build",
            SetupError::ServerStart => "server start",
        }
    }
}

/// An error from the function registry itself.
#[derive(Clone, Copy, Debug, PartialEq, Eq, Structural)]
pub enum RegistryError {
    /// A function with the same identifier was already registered.
    DuplicateFunction,
}

/// An error from the table-engine proxy.
#[derive(Clone, Copy, Debug, PartialEq, Eq, Structural)]
pub enum EngineError {
    /// The supplied engine tag matches no backing engine; the proxy never
    /// falls back to a default engine.
    UnsupportedEngineType,
}

} // verus!
