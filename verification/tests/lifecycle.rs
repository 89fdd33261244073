use ceres_setup::bootstrap::{
    apply_event, initial_state, next_action, BootstrapAction, BootstrapEvent, BootstrapState,
};
use ceres_setup::error::{ServerBuildFault, SetupError};

#[test]
fn happy_path_walks_every_stage_in_order() {
    let mut state = initial_state();
    assert_eq!(state, BootstrapState::Unstarted);

    assert_eq!(next_action(state), BootstrapAction::BuildPools);
    state = apply_event(state, BootstrapEvent::PoolsBuilt(true)).unwrap();
    assert_eq!(state, BootstrapState::BuildingEngine);

    assert_eq!(next_action(state), BootstrapAction::BuildEngine);
    state = apply_event(state, BootstrapEvent::EngineBuilt(true)).unwrap();
    assert_eq!(state, BootstrapState::BuildingCatalog);

    assert_eq!(next_action(state), BootstrapAction::BuildCatalog);
    state = apply_event(state, BootstrapEvent::CatalogBuilt(true)).unwrap();
    assert_eq!(state, BootstrapState::LoadingRegistry);

    assert_eq!(next_action(state), BootstrapAction::LoadRegistry);
    state = apply_event(state, BootstrapEvent::RegistryLoaded(true)).unwrap();
    assert_eq!(state, BootstrapState::BuildingServer);

    assert_eq!(next_action(state), BootstrapAction::AssembleServer);
    state = apply_event(state, BootstrapEvent::ServerAssembled(None)).unwrap();
    assert_eq!(state, BootstrapState::StartingServer);

    assert_eq!(next_action(state), BootstrapAction::StartServer);
    state = apply_event(state, BootstrapEvent::ServerStarted(true)).unwrap();
    assert_eq!(state, BootstrapState::Running);

    assert_eq!(next_action(state), BootstrapAction::WaitForSignal);
    state = apply_event(state, BootstrapEvent::TerminationSignal).unwrap();
    assert_eq!(state, BootstrapState::Stopping);

    assert_eq!(next_action(state), BootstrapAction::StopServer);
    state = apply_event(state, BootstrapEvent::StopComplete).unwrap();
    assert_eq!(state, BootstrapState::Stopped);

    assert_eq!(next_action(state), BootstrapAction::ExitSuccess);
}

#[test]
fn engine_failure_aborts_before_catalog() {
    let mut state = initial_state();
    state = apply_event(state, BootstrapEvent::PoolsBuilt(true)).unwrap();
    state = apply_event(state, BootstrapEvent::EngineBuilt(false)).unwrap();
    assert_eq!(state, BootstrapState::Aborted(SetupError::EngineBuild));
    assert_eq!(
        next_action(state),
        BootstrapAction::AbortProcess(SetupError::EngineBuild)
    );
    // The aborted state accepts no further outcome: the catalog build is
    // never demanded.
    assert!(apply_event(state, BootstrapEvent::CatalogBuilt(true)).is_none());
}

#[test]
fn pool_failure_aborts_first() {
    let state = apply_event(initial_state(), BootstrapEvent::PoolsBuilt(false)).unwrap();
    assert_eq!(state, BootstrapState::Aborted(SetupError::PoolAllocation));
}

#[test]
fn catalog_failure_aborts_at_catalog_stage() {
    let mut state = initial_state();
    state = apply_event(state, BootstrapEvent::PoolsBuilt(true)).unwrap();
    state = apply_event(state, BootstrapEvent::EngineBuilt(true)).unwrap();
    state = apply_event(state, BootstrapEvent::CatalogBuilt(false)).unwrap();
    assert_eq!(state, BootstrapState::Aborted(SetupError::CatalogBuild));
}

#[test]
fn registry_failure_aborts_at_registry_stage() {
    let mut state = initial_state();
    state = apply_event(state, BootstrapEvent::PoolsBuilt(true)).unwrap();
    state = apply_event(state, BootstrapEvent::EngineBuilt(true)).unwrap();
    state = apply_event(state, BootstrapEvent::CatalogBuilt(true)).unwrap();
    state = apply_event(state, BootstrapEvent::RegistryLoaded(false)).unwrap();
    assert_eq!(state, BootstrapState::Aborted(SetupError::RegistryLoad));
}

#[test]
fn assembly_fault_aborts_with_its_fault() {
    let mut state = initial_state();
    state = apply_event(state, BootstrapEvent::PoolsBuilt(true)).unwrap();
    state = apply_event(state, BootstrapEvent::EngineBuilt(true)).unwrap();
    state = apply_event(state, BootstrapEvent::CatalogBuilt(true)).unwrap();
    state = apply_event(state, BootstrapEvent::RegistryLoaded(true)).unwrap();
    state = apply_event(
        state,
        BootstrapEvent::ServerAssembled(Some(ServerBuildFault::MissingRuntimes)),
    )
    .unwrap();
    assert_eq!(
        state,
        BootstrapState::Aborted(SetupError::ServerBuild(
            ServerBuildFault::MissingRuntimes
        ))
    );
}

#[test]
fn start_failure_aborts_without_stop() {
    let mut state = initial_state();
    state = apply_event(state, BootstrapEvent::PoolsBuilt(true)).unwrap();
    state = apply_event(state, BootstrapEvent::EngineBuilt(true)).unwrap();
    state = apply_event(state, BootstrapEvent::CatalogBuilt(true)).unwrap();
    state = apply_event(state, BootstrapEvent::RegistryLoaded(true)).unwrap();
    state = apply_event(state, BootstrapEvent::ServerAssembled(None)).unwrap();
    state = apply_event(state, BootstrapEvent::ServerStarted(false)).unwrap();
    assert_eq!(state, BootstrapState::Aborted(SetupError::ServerStart));
    assert_ne!(next_action(state), BootstrapAction::StopServer);
}

#[test]
fn out_of_turn_events_are_refused() {
    let state = initial_state();
    assert!(apply_event(state, BootstrapEvent::EngineBuilt(true)).is_none());
    assert!(apply_event(state, BootstrapEvent::TerminationSignal).is_none());
    assert!(apply_event(BootstrapState::Stopped, BootstrapEvent::StopComplete).is_none());
    assert!(apply_event(BootstrapState::Running, BootstrapEvent::ServerStarted(true)).is_none());
}

#[test]
fn stage_names_identify_failures() {
    assert_eq!(
        SetupError::PoolAllocation.stage_name(),
        "runtime pool allocation"
    );
    assert_eq!(SetupError::EngineBuild.stage_name(), "storage engine build");
    assert_eq!(
        SetupError::CatalogBuild.stage_name(),
        "catalog manager build"
    );
    assert_eq!(
        SetupError::RegistryLoad.stage_name(),
        "function registry load"
    );
    assert_eq!(
        SetupError::ServerBuild(ServerBuildFault::MissingRuntimes).stage_name(),
        "server build"
    );
    assert_eq!(SetupError::ServerStart.stage_name(), "server start");
}
