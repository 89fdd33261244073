use ceres_setup::config::RuntimeConfig;
use ceres_setup::runtime::{build_engine_runtimes, build_runtime, pool_name, PoolKind};

#[test]
fn pool_names_follow_workload_class() {
    assert_eq!(pool_name(PoolKind::Read), "ceres-read");
    assert_eq!(pool_name(PoolKind::Write), "ceres-write");
    assert_eq!(pool_name(PoolKind::Meta), "ceres-meta");
    assert_eq!(pool_name(PoolKind::Background), "ceres-bg");
}

#[test]
fn build_runtime_keeps_kind_and_threads() {
    let rt = build_runtime(PoolKind::Write, 7);
    assert_eq!(rt.kind, PoolKind::Write);
    assert_eq!(rt.worker_threads, 7);
    assert_eq!(rt.name(), "ceres-write");
}

#[test]
fn pool_set_has_four_independent_pools() {
    let config = RuntimeConfig {
        read_thread_num: 2,
        write_thread_num: 3,
        meta_thread_num: 1,
        background_thread_num: 4,
    };
    let runtimes = build_engine_runtimes(&config);
    assert_eq!(runtimes.read_runtime.kind, PoolKind::Read);
    assert_eq!(runtimes.write_runtime.kind, PoolKind::Write);
    assert_eq!(runtimes.meta_runtime.kind, PoolKind::Meta);
    assert_eq!(runtimes.bg_runtime.kind, PoolKind::Background);
    assert_eq!(runtimes.read_runtime.worker_threads, 2);
    assert_eq!(runtimes.write_runtime.worker_threads, 3);
    assert_eq!(runtimes.meta_runtime.worker_threads, 1);
    assert_eq!(runtimes.bg_runtime.worker_threads, 4);
}

#[test]
fn pool_accessor_routes_by_kind() {
    let config = RuntimeConfig {
        read_thread_num: 5,
        write_thread_num: 6,
        meta_thread_num: 7,
        background_thread_num: 8,
    };
    let runtimes = build_engine_runtimes(&config);
    assert_eq!(runtimes.pool(PoolKind::Read), runtimes.read_runtime);
    assert_eq!(runtimes.pool(PoolKind::Write), runtimes.write_runtime);
    assert_eq!(runtimes.pool(PoolKind::Meta), runtimes.meta_runtime);
    assert_eq!(runtimes.pool(PoolKind::Background), runtimes.bg_runtime);
}

#[test]
fn minimal_pool_set_one_thread_each() {
    let config = RuntimeConfig {
        read_thread_num: 1,
        write_thread_num: 1,
        meta_thread_num: 1,
        background_thread_num: 1,
    };
    let runtimes = build_engine_runtimes(&config);
    assert_eq!(runtimes.read_runtime.worker_threads, 1);
    assert_eq!(runtimes.bg_runtime.worker_threads, 1);
}
