use ceres_setup::catalog::{CatalogManagerImpl, TableBasedManager};
use ceres_setup::config::{AnalyticConfig, Config, RuntimeConfig};
use ceres_setup::engine::{
    EngineBackendKind, MemoryTableEngine, StorageEngineHandle, TableEngineProxy,
};
use ceres_setup::error::{ServerBuildFault, SetupError};
use ceres_setup::registry::{FunctionRegistryImpl, SharedFunctionRegistry};
use ceres_setup::runtime::{build_engine_runtimes, EngineRuntimes};
use ceres_setup::server::{Builder, ExecutorImpl, ServerStatus};

fn test_config() -> Config {
    Config {
        runtime: RuntimeConfig {
            read_thread_num: 1,
            write_thread_num: 1,
            meta_thread_num: 1,
            background_thread_num: 1,
        },
        analytic: AnalyticConfig {
            replicated_wal: false,
        },
    }
}

fn test_runtimes() -> EngineRuntimes {
    build_engine_runtimes(&test_config().runtime)
}

fn test_proxy() -> TableEngineProxy {
    TableEngineProxy {
        memory: MemoryTableEngine,
        analytic: StorageEngineHandle {
            backend: EngineBackendKind::LocalPersistent,
        },
    }
}

fn test_catalog(proxy: &TableEngineProxy) -> CatalogManagerImpl {
    CatalogManagerImpl::new(TableBasedManager::new(proxy.analytic, proxy))
}

fn test_registry() -> SharedFunctionRegistry {
    let mut registry = FunctionRegistryImpl::new();
    registry.load_functions().unwrap();
    SharedFunctionRegistry::share(registry)
}

#[test]
fn build_with_all_parts_succeeds() {
    let proxy = test_proxy();
    let server = Builder::new(test_config())
        .runtimes(test_runtimes())
        .catalog_manager(test_catalog(&proxy))
        .query_executor(ExecutorImpl::new())
        .table_engine(proxy)
        .function_registry(test_registry())
        .build();
    let server = match server {
        Ok(s) => s,
        Err(e) => panic!("assembly failed: {:?}", e),
    };
    assert_eq!(server.status, ServerStatus::Assembled);
    assert_eq!(server.table_engine, proxy);
}

#[test]
fn missing_runtimes_is_named() {
    let proxy = test_proxy();
    let built = Builder::new(test_config())
        .catalog_manager(test_catalog(&proxy))
        .query_executor(ExecutorImpl::new())
        .table_engine(proxy)
        .function_registry(test_registry())
        .build();
    assert!(matches!(
        built,
        Err(SetupError::ServerBuild(ServerBuildFault::MissingRuntimes))
    ));
}

#[test]
fn missing_catalog_manager_is_named() {
    let built = Builder::new(test_config())
        .runtimes(test_runtimes())
        .query_executor(ExecutorImpl::new())
        .table_engine(test_proxy())
        .function_registry(test_registry())
        .build();
    assert!(matches!(
        built,
        Err(SetupError::ServerBuild(
            ServerBuildFault::MissingCatalogManager
        ))
    ));
}

#[test]
fn missing_query_executor_is_named() {
    let proxy = test_proxy();
    let built = Builder::new(test_config())
        .runtimes(test_runtimes())
        .catalog_manager(test_catalog(&proxy))
        .table_engine(proxy)
        .function_registry(test_registry())
        .build();
    assert!(matches!(
        built,
        Err(SetupError::ServerBuild(
            ServerBuildFault::MissingQueryExecutor
        ))
    ));
}

#[test]
fn missing_table_engine_is_named() {
    let proxy = test_proxy();
    let built = Builder::new(test_config())
        .runtimes(test_runtimes())
        .catalog_manager(test_catalog(&proxy))
        .query_executor(ExecutorImpl::new())
        .function_registry(test_registry())
        .build();
    assert!(matches!(
        built,
        Err(SetupError::ServerBuild(ServerBuildFault::MissingTableEngine))
    ));
}

#[test]
fn missing_function_registry_is_named() {
    let proxy = test_proxy();
    let built = Builder::new(test_config())
        .runtimes(test_runtimes())
        .catalog_manager(test_catalog(&proxy))
        .query_executor(ExecutorImpl::new())
        .table_engine(proxy)
        .build();
    assert!(matches!(
        built,
        Err(SetupError::ServerBuild(
            ServerBuildFault::MissingFunctionRegistry
        ))
    ));
}

#[test]
fn catalog_backed_by_other_engine_is_inconsistent() {
    let local_proxy = test_proxy();
    let catalog = test_catalog(&local_proxy);
    let replicated_proxy = TableEngineProxy {
        memory: MemoryTableEngine,
        analytic: StorageEngineHandle {
            backend: EngineBackendKind::Replicated,
        },
    };
    let built = Builder::new(test_config())
        .runtimes(test_runtimes())
        .catalog_manager(catalog)
        .query_executor(ExecutorImpl::new())
        .table_engine(replicated_proxy)
        .function_registry(test_registry())
        .build();
    assert!(matches!(
        built,
        Err(SetupError::ServerBuild(
            ServerBuildFault::CatalogNotBackedByProxy
        ))
    ));
}

#[test]
fn start_failure_keeps_server_assembled() {
    let proxy = test_proxy();
    let mut server = Builder::new(test_config())
        .runtimes(test_runtimes())
        .catalog_manager(test_catalog(&proxy))
        .query_executor(ExecutorImpl::new())
        .table_engine(proxy)
        .function_registry(test_registry())
        .build()
        .unwrap_or_else(|e| panic!("assembly failed: {:?}", e));
    assert_eq!(server.start(false), Err(SetupError::ServerStart));
    assert_eq!(server.status, ServerStatus::Assembled);
}

#[test]
fn start_then_stop_runs_the_lifecycle() {
    let proxy = test_proxy();
    let mut server = Builder::new(test_config())
        .runtimes(test_runtimes())
        .catalog_manager(test_catalog(&proxy))
        .query_executor(ExecutorImpl::new())
        .table_engine(proxy)
        .function_registry(test_registry())
        .build()
        .unwrap_or_else(|e| panic!("assembly failed: {:?}", e));
    assert_eq!(server.start(true), Ok(()));
    assert_eq!(server.status, ServerStatus::Running);
    server.stop();
    assert_eq!(server.status, ServerStatus::Stopped);
}
