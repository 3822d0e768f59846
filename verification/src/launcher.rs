//! The startup sequence as a state machine.
//!
//! The program that drives the shell hands each thing that happened to
//! [`Launcher::step`] and performs the action that comes back. All work that
//! touches the operating system is the driver's; every decision is made
//! here.

use crate::error::StartupError;
use crate::mode::BuildMode;
use crate::port::{BackendPort, DEV_PORT};
use vstd::prelude::*;

verus! {

/// How far startup has come.
#[derive(Clone, Copy, Debug, PartialEq, Eq, Structural)]
pub enum Phase {
    /// Nothing has happened yet.
    Idle,
    /// A production build waits for the operating system to assign a port.
    Probing,
    /// The port is known and the backend has been asked to start on it.
    Launching,
    /// Startup is complete and the port can be queried.
    Running,
    /// Startup has failed for good.
    Aborted(StartupError),
}

/// What the driver reports to the launcher.
#[derive(Clone, Copy, Debug, PartialEq, Eq, Structural)]
pub enum Event {
    /// The process has started.
    Start,
    /// The operating system assigned this port on the loopback address, and
    /// the socket that was bound to find it has been released.
    PortAssigned(u16),
    /// No socket could be bound on the loopback address.
    PortBindFailed,
    /// The backend process is running.
    SidecarSpawned,
    /// The backend executable could not be located.
    SidecarCommandFailed,
    /// The backend executable was located and did not start.
    SidecarSpawnFailed,
}

/// What the launcher asks of the driver in answer to an event.
#[derive(Clone, Copy, Debug, PartialEq, Eq, Structural)]
pub enum Action {
    /// There is nothing to do.
    Nothing,
    /// Bind a listening socket to the loopback address with port 0, read
    /// the assigned port, release the socket, and report
    /// [`Event::PortAssigned`] or [`Event::PortBindFailed`].
    ProbePort,
    /// Start the bundled backend with `port` on its command line, and report
    /// [`Event::SidecarSpawned`] or one of the two failures.
    SpawnSidecar { port: u16 },
    /// Ask the update service for a newer release, in the background. The
    /// outcome is logged and never reported back to the launcher.
    CheckForUpdates,
    /// Stop the process with the diagnostic of this failure.
    Abort(StartupError),
}

/// The state of the startup sequence.
#[derive(Clone, Copy, Debug)]
pub struct LauncherState {
    /// The operating mode, fixed when the launcher is made.
    pub mode: BuildMode,
    /// How far startup has come.
    pub phase: Phase,
    /// The port of the backend, once it is known.
    pub port: Option<u16>,
}

impl LauncherState {
    /// The state before anything has happened.
    pub open spec fn initial(mode: BuildMode) -> LauncherState {
        LauncherState { mode, phase: Phase::Idle, port: None }
    }

    /// The states that a launcher can be in. The port is unknown until the
    /// phase in which it is chosen has passed, and known ever after; a
    /// development build knows no port but the fixed one; only a production
    /// build probes, launches or aborts.
    pub open spec fn wf(self) -> bool {
        &&& self.mode is Development ==> self.port is None || self.port == Some(DEV_PORT)
        &&& match self.phase {
            Phase::Idle => self.port is None,
            Phase::Probing => self.mode is Production && self.port is None,
            Phase::Launching => self.mode is Production && self.port is Some,
            Phase::Running => self.port is Some,
            Phase::Aborted(StartupError::PortBind) => self.mode is Production
                && self.port is None,
            Phase::Aborted(_) => self.mode is Production && self.port is Some,
        }
    }

    /// The transition relation: the state after `event`, and the action that
    /// the driver is to perform.
    ///
    /// A development build is running as soon as it has started, on the
    /// fixed port. A production build probes for a port, then starts the
    /// backend on the port it was assigned, then looks for updates; a
    /// failure on the way aborts. An event that the phase does not wait for
    /// changes nothing.
    pub open spec fn step(self, event: Event) -> (LauncherState, Action) {
        match (self.phase, event) {
            (Phase::Idle, Event::Start) => match self.mode {
                BuildMode::Development => (
                    LauncherState { mode: self.mode, phase: Phase::Running, port: Some(DEV_PORT) },
                    Action::Nothing,
                ),
                BuildMode::Production => (
                    LauncherState { mode: self.mode, phase: Phase::Probing, port: None },
                    Action::ProbePort,
                ),
            },
            (Phase::Probing, Event::PortAssigned(port)) => (
                LauncherState { mode: self.mode, phase: Phase::Launching, port: Some(port) },
                Action::SpawnSidecar { port },
            ),
            (Phase::Probing, Event::PortBindFailed) => (
                self.aborted(StartupError::PortBind),
                Action::Abort(StartupError::PortBind),
            ),
            (Phase::Launching, Event::SidecarSpawned) => (
                LauncherState { mode: self.mode, phase: Phase::Running, port: self.port },
                Action::CheckForUpdates,
            ),
            (Phase::Launching, Event::SidecarCommandFailed) => (
                self.aborted(StartupError::SidecarCommand),
                Action::Abort(StartupError::SidecarCommand),
            ),
            (Phase::Launching, Event::SidecarSpawnFailed) => (
                self.aborted(StartupError::SidecarSpawn),
                Action::Abort(StartupError::SidecarSpawn),
            ),
            _ => (self, Action::Nothing),
        }
    }

    /// This state, with startup given up because of `error`.
    pub open spec fn aborted(self, error: StartupError) -> LauncherState {
        LauncherState { mode: self.mode, phase: Phase::Aborted(error), port: self.port }
    }

    /// The state after `event`.
    pub open spec fn next(self, event: Event) -> LauncherState {
        self.step(event).0
    }

    /// The action in answer to `event`.
    pub open spec fn action(self, event: Event) -> Action {
        self.step(event).1
    }

    /// The state after a whole sequence of events, taken in order.
    pub open spec fn run(self, events: Seq<Event>) -> LauncherState
        decreases events.len(),
    {
        if events.len() == 0 {
            self
        } else {
            self.next(events.first()).run(events.drop_first())
        }
    }

    /// How often the driver is asked to look for updates while `events`
    /// come in.
    pub open spec fn update_checks(self, events: Seq<Event>) -> nat
        decreases events.len(),
    {
        if events.len() == 0 {
            0
        } else {
            let asked: nat = if self.action(events.first()) is CheckForUpdates {
                1
            } else {
                0
            };
            asked + self.next(events.first()).update_checks(events.drop_first())
        }
    }
}

/// The launcher: the startup state, changed only by [`Launcher::step`].
#[derive(Debug)]
pub struct Launcher {
    state: LauncherState,
}

impl View for Launcher {
    type V = LauncherState;

    closed spec fn view(&self) -> LauncherState {
        self.state
    }
}

impl Launcher {
    #[verifier::type_invariant]
    spec fn inv(self) -> bool {
        self.state.wf()
    }

    /// A launcher for a build of the given mode, before anything has
    /// happened.
    pub fn new(mode: BuildMode) -> (launcher: Launcher)
        ensures
            launcher@ == LauncherState::initial(mode),
            launcher@.wf(),
    {
        Launcher { state: LauncherState { mode, phase: Phase::Idle, port: None } }
    }

    /// Takes note of `event` and returns what the driver is to do next.
    pub fn step(&mut self, event: Event) -> (action: Action)
        ensures
            final(self)@ == old(self)@.next(event),
            action == old(self)@.action(event),
            old(self)@.wf(),
            final(self)@.wf(),
    {
        proof {
            use_type_invariant(&*self);
            lemma_step_preserves_wf(self.state, event);
        }
        let mode = self.state.mode;
        let port = self.state.port;
        let (phase, port, action) = match (self.state.phase, event) {
            (Phase::Idle, Event::Start) => match mode {
                BuildMode::Development => (Phase::Running, Some(DEV_PORT), Action::Nothing),
                BuildMode::Production => (Phase::Probing, None, Action::ProbePort),
            },
            (Phase::Probing, Event::PortAssigned(assigned)) => (
                Phase::Launching,
                Some(assigned),
                Action::SpawnSidecar { port: assigned },
            ),
            (Phase::Probing, Event::PortBindFailed) => (
                Phase::Aborted(StartupError::PortBind),
                port,
                Action::Abort(StartupError::PortBind),
            ),
            (Phase::Launching, Event::SidecarSpawned) => (
                Phase::Running,
                port,
                Action::CheckForUpdates,
            ),
            (Phase::Launching, Event::SidecarCommandFailed) => (
                Phase::Aborted(StartupError::SidecarCommand),
                port,
                Action::Abort(StartupError::SidecarCommand),
            ),
            (Phase::Launching, Event::SidecarSpawnFailed) => (
                Phase::Aborted(StartupError::SidecarSpawn),
                port,
                Action::Abort(StartupError::SidecarSpawn),
            ),
            (phase, _) => (phase, port, Action::Nothing),
        };
        self.state = LauncherState { mode, phase, port };
        action
    }

    /// The operating mode.
    pub fn mode(&self) -> (mode: BuildMode)
        ensures
            mode == self@.mode,
    {
        self.state.mode
    }

    /// How far startup has come.
    pub fn phase(&self) -> (phase: Phase)
        ensures
            phase == self@.phase,
    {
        self.state.phase
    }

    /// The port of the backend, once it is known.
    pub fn port(&self) -> (port: Option<u16>)
        ensures
            port == self@.port,
    {
        self.state.port
    }

    /// The state to hold for the queries of the user interface, once the
    /// port is known.
    pub fn backend_port(&self) -> (state: Option<BackendPort>)
        ensures
            state is Some <==> self@.port is Some,
            state matches Some(s) ==> Some(s@) == self@.port,
    {
        match self.state.port {
            Some(port) => Some(BackendPort::new(port)),
            None => None,
        }
    }
}

/// Every step leads from a state that a launcher can be in to another.
pub proof fn lemma_step_preserves_wf(state: LauncherState, event: Event)
    requires
        state.wf(),
    ensures
        state.next(event).wf(),
{
}

} // verus!
