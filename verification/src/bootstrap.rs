//! The process-level bootstrap state machine.
//!
//! Bootstrap is a strict sequence: build the runtime pools, build the
//! storage engine, open the catalog through the proxy, load the function
//! registry, assemble the server, start it, run until the termination
//! signal, then stop exactly once. Every stage either succeeds, enabling the
//! next, or aborts the process; there is no retry and no fallback.
//!
//! The machine separates decisions from effects: `next_action` says what
//! outside work the current state calls for, the driver performs it, and
//! `apply_event` consumes the reported outcome. The driver that performs the
//! real effects lives outside this crate; everything it may do is fixed
//! here.

use vstd::prelude::*;
use crate::error::{ServerBuildFault, SetupError};

verus! {

/// Where the bootstrap sequence stands.
#[derive(Clone, Copy, Debug, PartialEq, Eq, Structural)]
pub enum BootstrapState {
    /// Nothing has happened yet; the runtime pools are built first.
    Unstarted,
    /// The selected storage-engine builder is running.
    BuildingEngine,
    /// The catalog manager is being opened through the engine proxy.
    BuildingCatalog,
    /// The built-in function set is being loaded.
    LoadingRegistry,
    /// The server is being assembled from the built components.
    BuildingServer,
    /// The assembled server is binding its listeners.
    StartingServer,
    /// Serving; waiting for the termination signal.
    Running,
    /// The signal arrived; the server is being stopped.
    Stopping,
    /// Clean shutdown; terminal.
    Stopped,
    /// A stage failed; terminal, the process exits abnormally.
    Aborted(SetupError),
}

/// The outcome of one piece of outside work, reported back to the machine.
#[derive(Clone, Copy, Debug, PartialEq, Eq, Structural)]
pub enum BootstrapEvent {
    /// Whether the four runtime pools allocated their worker threads.
    PoolsBuilt(bool),
    /// Whether the selected storage-engine builder succeeded.
    EngineBuilt(bool),
    /// Whether catalog metadata could be loaded from the engine.
    CatalogBuilt(bool),
    /// Whether the built-in function set populated fully.
    RegistryLoaded(bool),
    /// `None` when assembly succeeded, else the fault it reported.
    ServerAssembled(Option<ServerBuildFault>),
    /// Whether the server began serving.
    ServerStarted(bool),
    /// The OS termination signal arrived.
    TerminationSignal,
    /// The stop call returned.
    StopComplete,
}

/// The outside work a state calls for.
#[derive(Clone, Copy, Debug, PartialEq, Eq, Structural)]
pub enum BootstrapAction {
    BuildPools,
    BuildEngine,
    BuildCatalog,
    LoadRegistry,
    AssembleServer,
    StartServer,
    WaitForSignal,
    StopServer,
    /// Terminate the process on the standard success path.
    ExitSuccess,
    /// Terminate the process abnormally, naming the failed stage.
    AbortProcess(SetupError),
}

/// The single action each state calls for. Every state demands exactly one
/// piece of work; in particular, only `Stopping` ever demands a stop call.
pub open spec fn spec_next_action(state: BootstrapState) -> BootstrapAction {
    match state {
        BootstrapState::Unstarted => BootstrapAction::BuildPools,
        BootstrapState::BuildingEngine => BootstrapAction::BuildEngine,
        BootstrapState::BuildingCatalog => BootstrapAction::BuildCatalog,
        BootstrapState::LoadingRegistry => BootstrapAction::LoadRegistry,
        BootstrapState::BuildingServer => BootstrapAction::AssembleServer,
        BootstrapState::StartingServer => BootstrapAction::StartServer,
        BootstrapState::Running => BootstrapAction::WaitForSignal,
        BootstrapState::Stopping => BootstrapAction::StopServer,
        BootstrapState::Stopped => BootstrapAction::ExitSuccess,
        BootstrapState::Aborted(e) => BootstrapAction::AbortProcess(e),
    }
}

/// The transition the machine takes on an event, or `None` when the event
/// does not answer the state's pending action (a protocol violation by the
/// driver). Terminal states accept no event.
pub open spec fn spec_apply(state: BootstrapState, event: BootstrapEvent) -> Option<
    BootstrapState,
> {
    match (state, event) {
        (BootstrapState::Unstarted, BootstrapEvent::PoolsBuilt(ok)) => Some(
            if ok {
                BootstrapState::BuildingEngine
            } else {
                BootstrapState::Aborted(SetupError::PoolAllocation)
            },
        ),
        (BootstrapState::BuildingEngine, BootstrapEvent::EngineBuilt(ok)) => Some(
            if ok {
                BootstrapState::BuildingCatalog
            } else {
                BootstrapState::Aborted(SetupError::EngineBuild)
            },
        ),
        (BootstrapState::BuildingCatalog, BootstrapEvent::CatalogBuilt(ok)) => Some(
            if ok {
                BootstrapState::LoadingRegistry
            } else {
                BootstrapState::Aborted(SetupError::CatalogBuild)
            },
        ),
        (BootstrapState::LoadingRegistry, BootstrapEvent::RegistryLoaded(ok)) => Some(
            if ok {
                BootstrapState::BuildingServer
            } else {
                BootstrapState::Aborted(SetupError::RegistryLoad)
            },
        ),
        (BootstrapState::BuildingServer, BootstrapEvent::ServerAssembled(fault)) => Some(
            match fault {
                None => BootstrapState::StartingServer,
                Some(f) => BootstrapState::Aborted(SetupError::ServerBuild(f)),
            },
        ),
        (BootstrapState::StartingServer, BootstrapEvent::ServerStarted(ok)) => Some(
            if ok {
                BootstrapState::Running
            } else {
                BootstrapState::Aborted(SetupError::ServerStart)
            },
        ),
        (BootstrapState::Running, BootstrapEvent::TerminationSignal) => Some(
            BootstrapState::Stopping,
        ),
        (BootstrapState::Stopping, BootstrapEvent::StopComplete) => Some(BootstrapState::Stopped),
        _ => None,
    }
}

/// A state from which no event is accepted and no further stage runs.
pub open spec fn spec_is_terminal(state: BootstrapState) -> bool {
    state is Stopped || state is Aborted
}

/// The state every bootstrap run begins in.
pub fn initial_state() -> (r: BootstrapState)
    ensures
        r == BootstrapState::Unstarted,
{
    BootstrapState::Unstarted
}

/// The outside work the current state calls for.
pub fn next_action(state: BootstrapState) -> (r: BootstrapAction)
    ensures
        r == spec_next_action(state),
{
    match state {
        BootstrapState::Unstarted => BootstrapAction::BuildPools,
        BootstrapState::BuildingEngine => BootstrapAction::BuildEngine,
        BootstrapState::BuildingCatalog => BootstrapAction::BuildCatalog,
        BootstrapState::LoadingRegistry => BootstrapAction::LoadRegistry,
        BootstrapState::BuildingServer => BootstrapAction::AssembleServer,
        BootstrapState::StartingServer => BootstrapAction::StartServer,
        BootstrapState::Running => BootstrapAction::WaitForSignal,
        BootstrapState::Stopping => BootstrapAction::StopServer,
        BootstrapState::Stopped => BootstrapAction::ExitSuccess,
        BootstrapState::Aborted(e) => BootstrapAction::AbortProcess(e),
    }
}

/// Consume one reported outcome; `None` means the driver answered with an
/// event the state was not waiting for.
pub fn apply_event(state: BootstrapState, event: BootstrapEvent) -> (r: Option<BootstrapState>)
    ensures
        r == spec_apply(state, event),
{
    match (state, event) {
        (BootstrapState::Unstarted, BootstrapEvent::PoolsBuilt(ok)) => Some(
            if ok {
                BootstrapState::BuildingEngine
            } else {
                BootstrapState::Aborted(SetupError::PoolAllocation)
            },
        ),
        (BootstrapState::BuildingEngine, BootstrapEvent::EngineBuilt(ok)) => Some(
            if ok {
                BootstrapState::BuildingCatalog
            } else {
                BootstrapState::Aborted(SetupError::EngineBuild)
            },
        ),
        (BootstrapState::BuildingCatalog, BootstrapEvent::CatalogBuilt(ok)) => Some(
            if ok {
                BootstrapState::LoadingRegistry
            } else {
                BootstrapState::Aborted(SetupError::CatalogBuild)
            },
        ),
        (BootstrapState::LoadingRegistry, BootstrapEvent::RegistryLoaded(ok)) => Some(
            if ok {
                BootstrapState::BuildingServer
            } else {
                BootstrapState::Aborted(SetupError::RegistryLoad)
            },
        ),
        (BootstrapState::BuildingServer, BootstrapEvent::ServerAssembled(fault)) => Some(
            match fault {
                None => BootstrapState::StartingServer,
                Some(f) => BootstrapState::Aborted(SetupError::ServerBuild(f)),
            },
        ),
        (BootstrapState::StartingServer, BootstrapEvent::ServerStarted(ok)) => Some(
            if ok {
                BootstrapState::Running
            } else {
                BootstrapState::Aborted(SetupError::ServerStart)
            },
        ),
        (BootstrapState::Running, BootstrapEvent::TerminationSignal) => Some(
            BootstrapState::Stopping,
        ),
        (BootstrapState::Stopping, BootstrapEvent::StopComplete) => Some(BootstrapState::Stopped),
        _ => None,
    }
}

/// The state a run has reached after the first `i` events, starting from
/// `init`. An event the current state refuses leaves the state unchanged.
pub open spec fn spec_state_at(
    init: BootstrapState,
    events: Seq<BootstrapEvent>,
    i: int,
) -> BootstrapState
    recommends
        0 <= i <= events.len(),
    decreases i,
{
    if i <= 0 {
        init
    } else {
        match spec_apply(spec_state_at(init, events, i - 1), events[i - 1]) {
            Some(s) => s,
            None => spec_state_at(init, events, i - 1),
        }
    }
}

/// A well-behaved run: every event answers the action its state was waiting
/// for.
pub open spec fn spec_valid_trace(init: BootstrapState, events: Seq<BootstrapEvent>) -> bool {
    forall|i: int|
        0 <= i < events.len() ==> spec_apply(
            #[trigger] spec_state_at(init, events, i),
            events[i],
        ) is Some
}

/// Over any well-behaved run of the whole machine: whenever the run stands
/// in the catalog-building state — the only state that demands the catalog
/// build — the step just before it was a successful engine build. No
/// catalog build ever happens before the engine build has succeeded.
pub proof fn lemma_trace_catalog_after_engine_success(events: Seq<BootstrapEvent>, j: int)
    requires
        spec_valid_trace(BootstrapState::Unstarted, events),
        0 <= j <= events.len(),
        spec_state_at(BootstrapState::Unstarted, events, j) == BootstrapState::BuildingCatalog,
    ensures
        1 <= j,
        spec_state_at(BootstrapState::Unstarted, events, j - 1)
            == BootstrapState::BuildingEngine,
        events[j - 1] == BootstrapEvent::EngineBuilt(true),
{
    assert(spec_state_at(BootstrapState::Unstarted, events, 0) == BootstrapState::Unstarted);
    assert(spec_apply(spec_state_at(BootstrapState::Unstarted, events, j - 1), events[j - 1])
        is Some);
}

/// Over any well-behaved run of the whole machine: the run stands in the
/// stopping state — the only state that demands the stop call — at most
/// once, so the server is stopped at most once, and exactly once on the
/// clean path that reaches it.
pub proof fn lemma_trace_stops_at_most_once(events: Seq<BootstrapEvent>, i: int, j: int)
    requires
        spec_valid_trace(BootstrapState::Unstarted, events),
        0 <= i <= j <= events.len(),
        spec_state_at(BootstrapState::Unstarted, events, i) == BootstrapState::Stopping,
        spec_state_at(BootstrapState::Unstarted, events, j) == BootstrapState::Stopping,
    ensures
        i == j,
{
    if i < j {
        // The only event the stopping state accepts moves the run to the
        // terminal stopped state,
        assert(spec_apply(spec_state_at(BootstrapState::Unstarted, events, i), events[i])
            is Some);
        assert(spec_state_at(BootstrapState::Unstarted, events, i + 1)
            == BootstrapState::Stopped);
        // and the stopped state accepts nothing, so a well-behaved run ends
        // there: no later step can stand in the stopping state again.
        if i + 1 < events.len() {
            assert(spec_apply(
                spec_state_at(BootstrapState::Unstarted, events, i + 1),
                events[i + 1],
            ) is Some);
            assert(false);
        }
        assert(j == i + 1);
        assert(false);
    }
}

/// The catalog build is never attempted before the engine build has
/// returned success: the only transition into the catalog-building state is
/// from the engine-building state on a successful engine outcome, and only
/// the catalog-building state ever demands the catalog build.
pub proof fn lemma_catalog_only_after_engine_success(state: BootstrapState, event: BootstrapEvent)
    ensures
        spec_apply(state, event) == Some(BootstrapState::BuildingCatalog) ==> state
            == BootstrapState::BuildingEngine && event == BootstrapEvent::EngineBuilt(true),
        spec_next_action(state) == BootstrapAction::BuildCatalog ==> state
            == BootstrapState::BuildingCatalog,
{
}

/// A failed stage aborts the whole sequence: the machine moves to the
/// terminal aborted state carrying that stage's error, from which no event
/// is accepted and the only action left is the abnormal process exit.
pub proof fn lemma_failure_is_fatal(state: BootstrapState, event: BootstrapEvent, e: SetupError)
    ensures
        spec_apply(BootstrapState::BuildingEngine, BootstrapEvent::EngineBuilt(false)) == Some(
            BootstrapState::Aborted(SetupError::EngineBuild),
        ),
        spec_apply(BootstrapState::Aborted(e), event) is None,
        spec_apply(BootstrapState::Stopped, event) is None,
        spec_next_action(BootstrapState::Aborted(e)) == BootstrapAction::AbortProcess(e),
{
}

/// The stop call happens exactly once per run: the server only ever stops
/// from the stopping state, which is entered only from the running state on
/// the termination signal; the running state is entered only by a
/// successful start; and once stopped, the machine is terminal and never
/// runs or stops again.
pub proof fn lemma_stop_follows_signal_once(state: BootstrapState, event: BootstrapEvent)
    ensures
        spec_next_action(state) == BootstrapAction::StopServer ==> state
            == BootstrapState::Stopping,
        spec_apply(state, event) == Some(BootstrapState::Stopping) ==> state
            == BootstrapState::Running && event == BootstrapEvent::TerminationSignal,
        spec_apply(state, event) == Some(BootstrapState::Running) ==> state
            == BootstrapState::StartingServer && event == BootstrapEvent::ServerStarted(true),
        spec_apply(state, event) == Some(BootstrapState::Stopped) ==> state
            == BootstrapState::Stopping && event == BootstrapEvent::StopComplete,
        spec_is_terminal(BootstrapState::Stopped) && spec_apply(BootstrapState::Stopped, event)
            is None,
{
}

} // verus!
