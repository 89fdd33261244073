//! The composition root: builds every component in dependency order and
//! drives the server's lifecycle from first pool to clean shutdown.
//!
//! Whether each piece of outside work succeeds — allocating pool threads,
//! opening the storage engine's resources, loading catalog metadata,
//! populating the function registry, binding the listeners — is an input
//! here, reported by the environment; every decision taken on those inputs
//! is verified. The first failure aborts the sequence at its own stage, and
//! no later stage is ever attempted.

use vstd::prelude::*;
use vstd::pervasive::unreached;
use crate::bootstrap::{spec_state_at, spec_valid_trace, BootstrapEvent, BootstrapState};
use crate::config::Config;
use crate::catalog::{CatalogManagerImpl, TableBasedManager};
use crate::engine::{
    EngineBuilder, MemoryTableEngine, ReplicatedEngineBuilder, RocksEngineBuilder,
    TableEngineProxy, spec_selected_backend,
};
use crate::error::SetupError;
use crate::registry::{FunctionRegistryImpl, SharedFunctionRegistry, spec_builtin_ids};
use crate::runtime::{EngineRuntimes, build_engine_runtimes};
use crate::server::{Builder, ExecutorImpl, Server, ServerStatus};

verus! {

/// What the environment reports for each piece of outside work bootstrap
/// depends on: `true` for a stage means its external resources were
/// available and the stage's work succeeded.
#[derive(Clone, Copy, Debug, PartialEq, Eq, Structural)]
pub struct StepOutcomes {
    /// The four runtime pools allocated their worker threads.
    pub pools_ok: bool,
    /// The selected engine backend's resources were available.
    pub engine_ok: bool,
    /// Catalog metadata loaded from the engine.
    pub catalog_ok: bool,
    /// The built-in function set populated fully.
    pub registry_ok: bool,
    /// The server bound its listeners and began serving.
    pub start_ok: bool,
}

/// What one server run did: how far bootstrap came, how it ended, and how
/// often the server was stopped.
pub struct BootstrapReport {
    /// The stopped server after a clean run, or the error of the stage that
    /// aborted bootstrap.
    pub result: Result<Server, SetupError>,
    /// The catalog build was attempted (so the engine build had succeeded).
    pub catalog_attempted: bool,
    /// The registry load was attempted.
    pub registry_attempted: bool,
    /// The server was assembled from its components.
    pub server_assembled: bool,
    /// How many times the server's stop was invoked.
    pub stop_calls: usize,
}

/// The stage at which a run with ready pools aborts, if any: the first
/// failing stage in bootstrap order.
pub open spec fn spec_first_failure_after_pools(outcomes: StepOutcomes) -> Option<SetupError> {
    if !outcomes.engine_ok {
        Some(SetupError::EngineBuild)
    } else if !outcomes.catalog_ok {
        Some(SetupError::CatalogBuild)
    } else if !outcomes.registry_ok {
        Some(SetupError::RegistryLoad)
    } else if !outcomes.start_ok {
        Some(SetupError::ServerStart)
    } else {
        None
    }
}

/// The stage at which a whole run aborts, if any.
pub open spec fn spec_first_failure(outcomes: StepOutcomes) -> Option<SetupError> {
    if !outcomes.pools_ok {
        Some(SetupError::PoolAllocation)
    } else {
        spec_first_failure_after_pools(outcomes)
    }
}

/// The events the environment reports for the given outcomes, in bootstrap
/// order: the script ends at the first failing stage, or runs through the
/// termination signal and the completed stop when every stage succeeds.
pub open spec fn spec_outcome_events(outcomes: StepOutcomes) -> Seq<BootstrapEvent> {
    if !outcomes.pools_ok {
        seq![BootstrapEvent::PoolsBuilt(false)]
    } else if !outcomes.engine_ok {
        seq![BootstrapEvent::PoolsBuilt(true), BootstrapEvent::EngineBuilt(false)]
    } else if !outcomes.catalog_ok {
        seq![
            BootstrapEvent::PoolsBuilt(true),
            BootstrapEvent::EngineBuilt(true),
            BootstrapEvent::CatalogBuilt(false),
        ]
    } else if !outcomes.registry_ok {
        seq![
            BootstrapEvent::PoolsBuilt(true),
            BootstrapEvent::EngineBuilt(true),
            BootstrapEvent::CatalogBuilt(true),
            BootstrapEvent::RegistryLoaded(false),
        ]
    } else if !outcomes.start_ok {
        seq![
            BootstrapEvent::PoolsBuilt(true),
            BootstrapEvent::EngineBuilt(true),
            BootstrapEvent::CatalogBuilt(true),
            BootstrapEvent::RegistryLoaded(true),
            BootstrapEvent::ServerAssembled(None),
            BootstrapEvent::ServerStarted(false),
        ]
    } else {
        seq![
            BootstrapEvent::PoolsBuilt(true),
            BootstrapEvent::EngineBuilt(true),
            BootstrapEvent::CatalogBuilt(true),
            BootstrapEvent::RegistryLoaded(true),
            BootstrapEvent::ServerAssembled(None),
            BootstrapEvent::ServerStarted(true),
            BootstrapEvent::TerminationSignal,
            BootstrapEvent::StopComplete,
        ]
    }
}

/// The bootstrap state machine agrees with the composition root: for any
/// outcomes, the script they induce is a well-behaved run of the machine,
/// and it ends stopped after a clean run, or aborted carrying exactly the
/// first failing stage's error — the same stage `run_server` reports.
pub proof fn lemma_machine_agrees_with_first_failure(outcomes: StepOutcomes)
    ensures
        spec_valid_trace(BootstrapState::Unstarted, spec_outcome_events(outcomes)),
        spec_state_at(
            BootstrapState::Unstarted,
            spec_outcome_events(outcomes),
            spec_outcome_events(outcomes).len() as int,
        ) == (match spec_first_failure(outcomes) {
            Some(e) => BootstrapState::Aborted(e),
            None => BootstrapState::Stopped,
        }),
{
    let evs = spec_outcome_events(outcomes);
    let init = BootstrapState::Unstarted;
    assert(spec_state_at(init, evs, 0) == init);
    if !outcomes.pools_ok {
        assert(spec_state_at(init, evs, 1) == BootstrapState::Aborted(SetupError::PoolAllocation));
    } else {
        assert(spec_state_at(init, evs, 1) == BootstrapState::BuildingEngine);
        if !outcomes.engine_ok {
            assert(spec_state_at(init, evs, 2) == BootstrapState::Aborted(
                SetupError::EngineBuild,
            ));
        } else {
            assert(spec_state_at(init, evs, 2) == BootstrapState::BuildingCatalog);
            if !outcomes.catalog_ok {
                assert(spec_state_at(init, evs, 3) == BootstrapState::Aborted(
                    SetupError::CatalogBuild,
                ));
            } else {
                assert(spec_state_at(init, evs, 3) == BootstrapState::LoadingRegistry);
                if !outcomes.registry_ok {
                    assert(spec_state_at(init, evs, 4) == BootstrapState::Aborted(
                        SetupError::RegistryLoad,
                    ));
                } else {
                    assert(spec_state_at(init, evs, 4) == BootstrapState::BuildingServer);
                    assert(spec_state_at(init, evs, 5) == BootstrapState::StartingServer);
                    if !outcomes.start_ok {
                        assert(spec_state_at(init, evs, 6) == BootstrapState::Aborted(
                            SetupError::ServerStart,
                        ));
                    } else {
                        assert(spec_state_at(init, evs, 6) == BootstrapState::Running);
                        assert(spec_state_at(init, evs, 7) == BootstrapState::Stopping);
                        assert(spec_state_at(init, evs, 8) == BootstrapState::Stopped);
                    }
                }
            }
        }
    }
}

/// Run the server on already-built runtime pools, with the given
/// storage-engine builder: build the engine, wrap it in the proxy, open the
/// catalog through the proxy, load the function registry, assemble the
/// server, start it, and — once the termination signal arrives — stop it
/// exactly once.
///
/// Server assembly itself can never fail here: by the time the builder runs,
/// every dependency is present and the catalog is backed by the proxy's own
/// analytic engine.
pub fn run_server_with_runtimes<T: EngineBuilder>(
    config: Config,
    runtimes: EngineRuntimes,
    builder: &T,
    outcomes: &StepOutcomes,
) -> (r: BootstrapReport)
    ensures
        r.catalog_attempted == outcomes.engine_ok,
        r.registry_attempted == (outcomes.engine_ok && outcomes.catalog_ok),
        r.server_assembled == (outcomes.engine_ok && outcomes.catalog_ok
            && outcomes.registry_ok),
        spec_first_failure_after_pools(*outcomes) matches Some(e) ==> r.result == Err::<
            Server,
            SetupError,
        >(e) && r.stop_calls == 0,
        spec_first_failure_after_pools(*outcomes) is None ==> r.stop_calls == 1 && (
        r.result matches Ok(s) && s.status is Stopped && s.config == config && s.runtimes
            == runtimes && s.table_engine.memory == MemoryTableEngine
            && s.table_engine.analytic.backend == builder.backend_kind()
            && s.catalog_manager.backed_by(s.table_engine) && s.function_registry.funcs()
            == spec_builtin_ids() && s.query_executor == ExecutorImpl),
{
    // Create the in-memory table engine; it needs no outside resources.
    let memory = MemoryTableEngine;

    // Build the analytic engine with the selected backend's builder.
    let analytic_config = config.analytic;
    let analytic = match builder.build(&analytic_config, &runtimes, outcomes.engine_ok) {
        Ok(handle) => handle,
        Err(e) => {
            return BootstrapReport {
                result: Err(e),
                catalog_attempted: false,
                registry_attempted: false,
                server_assembled: false,
                stop_calls: 0,
            };
        },
    };

    // Unify both engines behind the dispatch proxy.
    let engine_proxy = TableEngineProxy { memory, analytic };

    // Open the catalog manager on the analytic engine, through the proxy.
    if !outcomes.catalog_ok {
        return BootstrapReport {
            result: Err(SetupError::CatalogBuild),
            catalog_attempted: true,
            registry_attempted: false,
            server_assembled: false,
            stop_calls: 0,
        };
    }
    let catalog_manager = CatalogManagerImpl::new(TableBasedManager::new(analytic, &engine_proxy));

    // Load the built-in function set, then share the registry read-only.
    if !outcomes.registry_ok {
        return BootstrapReport {
            result: Err(SetupError::RegistryLoad),
            catalog_attempted: true,
            registry_attempted: true,
            server_assembled: false,
            stop_calls: 0,
        };
    }
    let mut function_registry = FunctionRegistryImpl::new();
    match function_registry.load_functions() {
        Ok(()) => (),
        Err(_) => unreached(),
    }
    let function_registry = SharedFunctionRegistry::share(function_registry);

    // Create the query executor handle.
    let query_executor = ExecutorImpl::new();

    // Assemble the server; every dependency is present and consistent.
    let mut server = match Builder::new(config)
        .runtimes(runtimes)
        .catalog_manager(catalog_manager)
        .query_executor(query_executor)
        .table_engine(engine_proxy)
        .function_registry(function_registry)
        .build() {
        Ok(server) => server,
        Err(_) => unreached(),
    };

    // Start serving.
    match server.start(outcomes.start_ok) {
        Ok(()) => (),
        Err(e) => {
            return BootstrapReport {
                result: Err(e),
                catalog_attempted: true,
                registry_attempted: true,
                server_assembled: true,
                stop_calls: 0,
            };
        },
    }

    // The termination signal has arrived: stop exactly once and report the
    // clean shutdown.
    server.stop();
    BootstrapReport {
        result: Ok(server),
        catalog_attempted: true,
        registry_attempted: true,
        server_assembled: true,
        stop_calls: 1,
    }
}

/// Run the server: build the four runtime pools, pick the storage backend
/// the configuration selects, and hand off to the backend-generic pipeline.
/// Returns once the server has shut down cleanly or a stage has aborted
/// bootstrap.
pub fn run_server(config: Config, outcomes: &StepOutcomes) -> (r: BootstrapReport)
    requires
        config.valid(),
    ensures
        r.catalog_attempted == (outcomes.pools_ok && outcomes.engine_ok),
        r.registry_attempted == (outcomes.pools_ok && outcomes.engine_ok && outcomes.catalog_ok),
        r.server_assembled == (outcomes.pools_ok && outcomes.engine_ok && outcomes.catalog_ok
            && outcomes.registry_ok),
        spec_first_failure(*outcomes) matches Some(e) ==> r.result == Err::<Server, SetupError>(e)
            && r.stop_calls == 0,
        spec_first_failure(*outcomes) is None ==> r.stop_calls == 1 && (r.result matches Ok(s)
            && s.status is Stopped && s.config == config && s.runtimes.spec_built_from(
            config.runtime,
        ) && s.table_engine.memory == MemoryTableEngine && s.table_engine.analytic.backend
            == spec_selected_backend(config) && s.catalog_manager.backed_by(s.table_engine)
            && s.function_registry.funcs() == spec_builtin_ids() && s.query_executor
            == ExecutorImpl),
{
    // The pools come first; without them nothing else can be scheduled.
    if !outcomes.pools_ok {
        return BootstrapReport {
            result: Err(SetupError::PoolAllocation),
            catalog_attempted: false,
            registry_attempted: false,
            server_assembled: false,
            stop_calls: 0,
        };
    }
    let runtimes = build_engine_runtimes(&config.runtime);

    // Select exactly one storage backend; the rest of the pipeline is
    // generic over the builder interface and never learns which one.
    if config.analytic.replicated_wal {
        run_server_with_runtimes(config, runtimes, &ReplicatedEngineBuilder, outcomes)
    } else {
        run_server_with_runtimes(config, runtimes, &RocksEngineBuilder, outcomes)
    }
}

} // verus!
