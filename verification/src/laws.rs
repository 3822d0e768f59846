//! What holds of every startup sequence, whatever the driver reports and in
//! whatever order.

use crate::error::StartupError;
use crate::launcher::{lemma_step_preserves_wf, Action, Event, LauncherState, Phase};
use crate::mode::BuildMode;
use crate::port::DEV_PORT;
use vstd::prelude::*;

verus! {

/// A sequence of events leads from a state that a launcher can be in to
/// another, and leaves the operating mode as it was.
pub proof fn lemma_run_preserves_wf(state: LauncherState, events: Seq<Event>)
    requires
        state.wf(),
    ensures
        state.run(events).wf(),
        state.run(events).mode == state.mode,
    decreases events.len(),
{
    if events.len() > 0 {
        lemma_step_preserves_wf(state, events.first());
        lemma_run_preserves_wf(state.next(events.first()), events.drop_first());
    }
}

/// The port is written once: when it is known, no sequence of events
/// changes it. A query before the backend is started and one after it give
/// the same port.
pub proof fn lemma_port_is_write_once(state: LauncherState, events: Seq<Event>)
    requires
        state.wf(),
        state.port is Some,
    ensures
        state.run(events).port == state.port,
    decreases events.len(),
{
    if events.len() > 0 {
        lemma_step_preserves_wf(state, events.first());
        lemma_port_is_write_once(state.next(events.first()), events.drop_first());
    }
}

/// A development build reports the fixed port and no other: whatever
/// happens, its port is either not yet known or the fixed one, and it is
/// the fixed one from the moment the process has started.
pub proof fn lemma_development_port_is_fixed(events: Seq<Event>)
    ensures
        ({
            let end = LauncherState::initial(BuildMode::Development).run(events);
            &&& end.port is None || end.port == Some(DEV_PORT)
            &&& events.len() > 0 && events.first() is Start ==> end.port == Some(DEV_PORT)
        }),
{
    let start = LauncherState::initial(BuildMode::Development);
    lemma_run_preserves_wf(start, events);
    if events.len() > 0 && events.first() is Start {
        lemma_port_is_write_once(start.next(events.first()), events.drop_first());
    }
}

/// A production build reports no port but one that the operating system
/// assigned: the port that an end state holds was held before or has come
/// in with one of the events.
pub proof fn lemma_port_comes_from_assignment(state: LauncherState, events: Seq<Event>, port: u16)
    requires
        state.wf(),
        state.mode is Production,
        state.run(events).port == Some(port),
    ensures
        state.port == Some(port) || events.contains(Event::PortAssigned(port)),
    decreases events.len(),
{
    if events.len() > 0 {
        let first = events.first();
        let rest = events.drop_first();
        lemma_step_preserves_wf(state, first);
        lemma_port_comes_from_assignment(state.next(first), rest, port);
        if rest.contains(Event::PortAssigned(port)) {
            let i = choose|i: int| 0 <= i < rest.len() && rest[i] == Event::PortAssigned(port);
            assert(events[i + 1] == Event::PortAssigned(port));
        } else if state.port != Some(port) {
            assert(first == Event::PortAssigned(port));
            assert(events[0] == first);
        }
    }
}

/// The port that a production build reports after startup is one that the
/// operating system assigned.
pub proof fn lemma_production_port_is_assigned(events: Seq<Event>, port: u16)
    requires
        LauncherState::initial(BuildMode::Production).run(events).port == Some(port),
    ensures
        events.contains(Event::PortAssigned(port)),
{
    lemma_port_comes_from_assignment(LauncherState::initial(BuildMode::Production), events, port);
}

/// The backend is started only in answer to the report that a port was
/// assigned and its socket released, and on that very port, which is also
/// the port that queries are answered with from then on.
pub proof fn lemma_sidecar_gets_reported_port(state: LauncherState, event: Event, port: u16)
    requires
        state.action(event) == (Action::SpawnSidecar { port }),
    ensures
        event == Event::PortAssigned(port),
        state.phase is Probing,
        state.next(event).port == Some(port),
{
}

/// A backend that cannot be located or started ends startup: the launcher
/// aborts with the matching failure instead of going on.
pub proof fn lemma_sidecar_failure_is_fatal(state: LauncherState, event: Event)
    requires
        state.phase is Launching,
        event is SidecarCommandFailed || event is SidecarSpawnFailed,
    ensures
        state.next(event).phase is Aborted,
        state.action(event) is Abort,
        event is SidecarCommandFailed ==> state.action(event) == Action::Abort(
            StartupError::SidecarCommand,
        ),
        event is SidecarSpawnFailed ==> state.action(event) == Action::Abort(
            StartupError::SidecarSpawn,
        ),
        state.next(event).phase == Phase::Aborted(state.action(event)->Abort_0),
{
}

/// Nothing follows an abort: the state stays as it is and the driver is
/// asked for nothing more.
pub proof fn lemma_abort_is_final(state: LauncherState, events: Seq<Event>)
    requires
        state.phase is Aborted,
    ensures
        state.run(events) == state,
        forall|i: int| 0 <= i < events.len() ==> state.action(#[trigger] events[i]) == Action::Nothing,
    decreases events.len(),
{
    if events.len() > 0 {
        lemma_abort_is_final(state.next(events.first()), events.drop_first());
    }
}

/// A production build is not running unless the backend was reported as
/// started.
pub proof fn lemma_running_needs_sidecar(state: LauncherState, events: Seq<Event>)
    requires
        state.mode is Production,
        !(state.phase is Running),
        state.run(events).phase is Running,
    ensures
        events.contains(Event::SidecarSpawned),
    decreases events.len(),
{
    if events.len() > 0 {
        let first = events.first();
        let rest = events.drop_first();
        if state.next(first).phase is Running {
            assert(events[0] == Event::SidecarSpawned);
        } else {
            lemma_running_needs_sidecar(state.next(first), rest);
            let i = choose|i: int| 0 <= i < rest.len() && rest[i] == Event::SidecarSpawned;
            assert(events[i + 1] == Event::SidecarSpawned);
        }
    }
}

/// From any state, the driver is asked to look for updates at most once,
/// and only by a production build that is still on its way to running.
pub proof fn lemma_update_checks_bounded(state: LauncherState, events: Seq<Event>)
    requires
        state.wf(),
    ensures
        state.update_checks(events) <= 1,
        state.mode is Development ==> state.update_checks(events) == 0,
        state.phase is Running || state.phase is Aborted ==> state.update_checks(events) == 0,
    decreases events.len(),
{
    if events.len() > 0 {
        lemma_step_preserves_wf(state, events.first());
        lemma_update_checks_bounded(state.next(events.first()), events.drop_first());
    }
}

/// The update service is asked at most once in the life of a process, and
/// never by a development build.
pub proof fn lemma_update_check_at_most_once(mode: BuildMode, events: Seq<Event>)
    ensures
        LauncherState::initial(mode).update_checks(events) <= 1,
        mode is Development ==> LauncherState::initial(mode).update_checks(events) == 0,
{
    lemma_update_checks_bounded(LauncherState::initial(mode), events);
}

} // verus!
