//! The server assembler and the assembled server.
//!
//! A builder accumulates the six parts of the server — configuration,
//! runtime pools, catalog manager, query executor, table-engine proxy and
//! function registry — and produces a `Server` only when all are present and
//! mutually consistent; otherwise it fails naming the missing or
//! inconsistent dependency. No partially initialized server is ever visible.

use vstd::prelude::*;
use crate::catalog::CatalogManagerImpl;
use crate::config::Config;
use crate::engine::TableEngineProxy;
use crate::error::{ServerBuildFault, SetupError};
use crate::registry::SharedFunctionRegistry;
use crate::runtime::EngineRuntimes;

verus! {

/// Stateless handle into the external query-execution subsystem.
#[derive(Clone, Copy, Debug, PartialEq, Eq, Structural)]
pub struct ExecutorImpl;

impl ExecutorImpl {
    pub fn new() -> (r: ExecutorImpl)
        ensures
            r == ExecutorImpl,
    {
        ExecutorImpl
    }
}

/// Where the server stands in its start → signal → stop lifecycle.
#[derive(Clone, Copy, Debug, PartialEq, Eq, Structural)]
pub enum ServerStatus {
    /// Fully assembled, not yet serving.
    Assembled,
    /// Serving; leaves this state only on the termination signal.
    Running,
    /// Stopped after running; terminal.
    Stopped,
}

/// The fully assembled server.
pub struct Server {
    pub config: Config,
    pub runtimes: EngineRuntimes,
    pub catalog_manager: CatalogManagerImpl,
    pub query_executor: ExecutorImpl,
    pub table_engine: TableEngineProxy,
    pub function_registry: SharedFunctionRegistry,
    pub status: ServerStatus,
}

impl Server {
    /// The parts the server was assembled from; start and stop never touch
    /// them.
    pub open spec fn same_components(self, other: Server) -> bool {
        &&& self.config == other.config
        &&& self.runtimes == other.runtimes
        &&& self.catalog_manager == other.catalog_manager
        &&& self.query_executor == other.query_executor
        &&& self.table_engine == other.table_engine
        &&& self.function_registry == other.function_registry
    }

    /// Begin serving. `bind_ok` reports whether the external serving layer
    /// could bind its listeners and register its handlers; the server runs
    /// exactly when it could, and a start failure is fatal to bootstrap.
    pub fn start(&mut self, bind_ok: bool) -> (r: Result<(), SetupError>)
        requires
            old(self).status is Assembled,
        ensures
            final(self).same_components(*old(self)),
            bind_ok ==> r == Ok::<(), SetupError>(()) && final(self).status is Running,
            !bind_ok ==> r == Err::<(), SetupError>(SetupError::ServerStart)
                && final(self).status is Assembled,
    {
        if bind_ok {
            self.status = ServerStatus::Running;
            Ok(())
        } else {
            Err(SetupError::ServerStart)
        }
    }

    /// Stop serving. Callable exactly once, after the server has started;
    /// in-flight draining is the serving layer's own affair.
    pub fn stop(&mut self)
        requires
            old(self).status is Running,
        ensures
            final(self).same_components(*old(self)),
            final(self).status is Stopped,
    {
        self.status = ServerStatus::Stopped;
    }
}

/// Accumulates the parts of a server; `build` checks that all are present
/// and consistent.
pub struct Builder {
    config: Config,
    runtimes: Option<EngineRuntimes>,
    catalog_manager: Option<CatalogManagerImpl>,
    query_executor: Option<ExecutorImpl>,
    table_engine: Option<TableEngineProxy>,
    function_registry: Option<SharedFunctionRegistry>,
}

impl Builder {
    pub closed spec fn spec_config(self) -> Config {
        self.config
    }

    pub closed spec fn spec_runtimes(self) -> Option<EngineRuntimes> {
        self.runtimes
    }

    pub closed spec fn spec_catalog_manager(self) -> Option<CatalogManagerImpl> {
        self.catalog_manager
    }

    pub closed spec fn spec_query_executor(self) -> Option<ExecutorImpl> {
        self.query_executor
    }

    pub closed spec fn spec_table_engine(self) -> Option<TableEngineProxy> {
        self.table_engine
    }

    pub closed spec fn spec_function_registry(self) -> Option<SharedFunctionRegistry> {
        self.function_registry
    }

    /// The first fault `build` reports for this accumulation, if any: a
    /// missing dependency, checked in a fixed order, or a catalog manager
    /// not backed by the proxy's analytic engine.
    pub open spec fn spec_build_fault(self) -> Option<ServerBuildFault> {
        if self.spec_runtimes() is None {
            Some(ServerBuildFault::MissingRuntimes)
        } else if self.spec_catalog_manager() is None {
            Some(ServerBuildFault::MissingCatalogManager)
        } else if self.spec_query_executor() is None {
            Some(ServerBuildFault::MissingQueryExecutor)
        } else if self.spec_table_engine() is None {
            Some(ServerBuildFault::MissingTableEngine)
        } else if self.spec_function_registry() is None {
            Some(ServerBuildFault::MissingFunctionRegistry)
        } else if !(self.spec_catalog_manager() matches Some(cm)
            && self.spec_table_engine() matches Some(te) && cm.backed_by(te)) {
            Some(ServerBuildFault::CatalogNotBackedByProxy)
        } else {
            None
        }
    }

    /// Start accumulating a server around the given configuration.
    pub fn new(config: Config) -> (b: Builder)
        ensures
            b.spec_config() == config,
            b.spec_runtimes() is None,
            b.spec_catalog_manager() is None,
            b.spec_query_executor() is None,
            b.spec_table_engine() is None,
            b.spec_function_registry() is None,
    {
        Builder {
            config,
            runtimes: None,
            catalog_manager: None,
            query_executor: None,
            table_engine: None,
            function_registry: None,
        }
    }

    pub fn runtimes(self, runtimes: EngineRuntimes) -> (b: Builder)
        ensures
            b.spec_runtimes() == Some(runtimes),
            b.spec_config() == self.spec_config(),
            b.spec_catalog_manager() == self.spec_catalog_manager(),
            b.spec_query_executor() == self.spec_query_executor(),
            b.spec_table_engine() == self.spec_table_engine(),
            b.spec_function_registry() == self.spec_function_registry(),
    {
        Builder { runtimes: Some(runtimes), ..self }
    }

    pub fn catalog_manager(self, catalog_manager: CatalogManagerImpl) -> (b: Builder)
        ensures
            b.spec_catalog_manager() == Some(catalog_manager),
            b.spec_config() == self.spec_config(),
            b.spec_runtimes() == self.spec_runtimes(),
            b.spec_query_executor() == self.spec_query_executor(),
            b.spec_table_engine() == self.spec_table_engine(),
            b.spec_function_registry() == self.spec_function_registry(),
    {
        Builder { catalog_manager: Some(catalog_manager), ..self }
    }

    pub fn query_executor(self, query_executor: ExecutorImpl) -> (b: Builder)
        ensures
            b.spec_query_executor() == Some(query_executor),
            b.spec_config() == self.spec_config(),
            b.spec_runtimes() == self.spec_runtimes(),
            b.spec_catalog_manager() == self.spec_catalog_manager(),
            b.spec_table_engine() == self.spec_table_engine(),
            b.spec_function_registry() == self.spec_function_registry(),
    {
        Builder { query_executor: Some(query_executor), ..self }
    }

    pub fn table_engine(self, table_engine: TableEngineProxy) -> (b: Builder)
        ensures
            b.spec_table_engine() == Some(table_engine),
            b.spec_config() == self.spec_config(),
            b.spec_runtimes() == self.spec_runtimes(),
            b.spec_catalog_manager() == self.spec_catalog_manager(),
            b.spec_query_executor() == self.spec_query_executor(),
            b.spec_function_registry() == self.spec_function_registry(),
    {
        Builder { table_engine: Some(table_engine), ..self }
    }

    pub fn function_registry(self, function_registry: SharedFunctionRegistry) -> (b: Builder)
        ensures
            b.spec_function_registry() == Some(function_registry),
            b.spec_config() == self.spec_config(),
            b.spec_runtimes() == self.spec_runtimes(),
            b.spec_catalog_manager() == self.spec_catalog_manager(),
            b.spec_query_executor() == self.spec_query_executor(),
            b.spec_table_engine() == self.spec_table_engine(),
    {
        Builder { function_registry: Some(function_registry), ..self }
    }

    /// Produce the server, or fail naming the first missing or inconsistent
    /// dependency. On success every accumulated part is present in the
    /// server, unchanged, and the server is assembled but not yet serving.
    pub fn build(self) -> (r: Result<Server, SetupError>)
        ensures
            self.spec_build_fault() matches Some(f) ==> r == Err::<Server, SetupError>(
                SetupError::ServerBuild(f),
            ),
            self.spec_build_fault() is None ==> (r matches Ok(s) && s.config == self.spec_config()
                && (self.spec_runtimes() matches Some(rt) && s.runtimes == rt)
                && (self.spec_catalog_manager() matches Some(cm) && s.catalog_manager == cm)
                && (self.spec_query_executor() matches Some(qe) && s.query_executor == qe)
                && (self.spec_table_engine() matches Some(te) && s.table_engine == te)
                && (self.spec_function_registry() matches Some(fr) && s.function_registry == fr)
                && s.status is Assembled),
    {
        let Builder { config, runtimes, catalog_manager, query_executor, table_engine,
            function_registry } = self;
        let runtimes = match runtimes {
            Some(rt) => rt,
            None => {
                return Err(SetupError::ServerBuild(ServerBuildFault::MissingRuntimes));
            },
        };
        let catalog_manager = match catalog_manager {
            Some(cm) => cm,
            None => {
                return Err(SetupError::ServerBuild(ServerBuildFault::MissingCatalogManager));
            },
        };
        let query_executor = match query_executor {
            Some(qe) => qe,
            None => {
                return Err(SetupError::ServerBuild(ServerBuildFault::MissingQueryExecutor));
            },
        };
        let table_engine = match table_engine {
            Some(te) => te,
            None => {
                return Err(SetupError::ServerBuild(ServerBuildFault::MissingTableEngine));
            },
        };
        let function_registry = match function_registry {
            Some(fr) => fr,
            None => {
                return Err(SetupError::ServerBuild(ServerBuildFault::MissingFunctionRegistry));
            },
        };
        if !(catalog_manager.inner.engine == table_engine.analytic) {
            return Err(SetupError::ServerBuild(ServerBuildFault::CatalogNotBackedByProxy));
        }
        Ok(
            Server {
                config,
                runtimes,
                catalog_manager,
                query_executor,
                table_engine,
                function_registry,
                status: ServerStatus::Assembled,
            },
        )
    }
}

} // verus!
