use ceres_setup::config::{AnalyticConfig, Config, RuntimeConfig};
use ceres_setup::engine::{
    select_backend, EngineBackendKind, EngineBuilder, EngineTag, MemoryTableEngine,
    ReplicatedEngineBuilder, RocksEngineBuilder, RoutedEngine, StorageEngineHandle,
    TableEngineProxy, TableOperation,
};
use ceres_setup::error::{EngineError, SetupError};
use ceres_setup::runtime::build_engine_runtimes;

fn test_config(replicated_wal: bool) -> Config {
    Config {
        runtime: RuntimeConfig {
            read_thread_num: 1,
            write_thread_num: 1,
            meta_thread_num: 1,
            background_thread_num: 1,
        },
        analytic: AnalyticConfig { replicated_wal },
    }
}

#[test]
fn backend_selection_follows_wal_flag() {
    assert_eq!(
        select_backend(&test_config(false)),
        EngineBackendKind::LocalPersistent
    );
    assert_eq!(
        select_backend(&test_config(true)),
        EngineBackendKind::Replicated
    );
}

#[test]
fn local_builder_constructs_local_variant() {
    let config = test_config(false);
    let runtimes = build_engine_runtimes(&config.runtime);
    let built = RocksEngineBuilder.build(&config.analytic, &runtimes, true);
    assert_eq!(
        built,
        Ok(StorageEngineHandle {
            backend: EngineBackendKind::LocalPersistent
        })
    );
}

#[test]
fn replicated_builder_constructs_replicated_variant() {
    let config = test_config(true);
    let runtimes = build_engine_runtimes(&config.runtime);
    let built = ReplicatedEngineBuilder.build(&config.analytic, &runtimes, true);
    assert_eq!(
        built,
        Ok(StorageEngineHandle {
            backend: EngineBackendKind::Replicated
        })
    );
}

#[test]
fn unreachable_resources_fail_engine_build() {
    let config = test_config(true);
    let runtimes = build_engine_runtimes(&config.runtime);
    let built = ReplicatedEngineBuilder.build(&config.analytic, &runtimes, false);
    assert_eq!(built, Err(SetupError::EngineBuild));
    let built = RocksEngineBuilder.build(&config.analytic, &runtimes, false);
    assert_eq!(built, Err(SetupError::EngineBuild));
}

#[test]
fn memory_tag_routes_every_operation_to_memory_engine() {
    let proxy = TableEngineProxy {
        memory: MemoryTableEngine,
        analytic: StorageEngineHandle {
            backend: EngineBackendKind::LocalPersistent,
        },
    };
    for op in [
        TableOperation::CreateTable,
        TableOperation::OpenTable,
        TableOperation::DropTable,
        TableOperation::GetTable,
    ] {
        assert_eq!(
            proxy.engine_for(op, EngineTag::Memory),
            Ok(RoutedEngine::Memory)
        );
    }
}

#[test]
fn analytic_tag_routes_every_operation_to_analytic_engine() {
    let analytic = StorageEngineHandle {
        backend: EngineBackendKind::Replicated,
    };
    let proxy = TableEngineProxy {
        memory: MemoryTableEngine,
        analytic,
    };
    for op in [
        TableOperation::CreateTable,
        TableOperation::OpenTable,
        TableOperation::DropTable,
        TableOperation::GetTable,
    ] {
        assert_eq!(
            proxy.engine_for(op, EngineTag::Analytic),
            Ok(RoutedEngine::Analytic(analytic))
        );
    }
}

#[test]
fn unknown_tag_never_routes() {
    let proxy = TableEngineProxy {
        memory: MemoryTableEngine,
        analytic: StorageEngineHandle {
            backend: EngineBackendKind::LocalPersistent,
        },
    };
    for op in [
        TableOperation::CreateTable,
        TableOperation::OpenTable,
        TableOperation::DropTable,
        TableOperation::GetTable,
    ] {
        assert_eq!(
            proxy.engine_for(op, EngineTag::Unknown),
            Err(EngineError::UnsupportedEngineType)
        );
    }
}
