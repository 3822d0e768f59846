use backend_launcher::error::StartupError;
use backend_launcher::launcher::{Action, Event, Launcher, Phase};
use backend_launcher::mode::BuildMode;
use backend_launcher::port::{get_backend_port, BackendPort, DEV_PORT};

fn started_production(port: u16) -> Launcher {
    let mut launcher = Launcher::new(BuildMode::Production);
    assert_eq!(launcher.step(Event::Start), Action::ProbePort);
    assert_eq!(
        launcher.step(Event::PortAssigned(port)),
        Action::SpawnSidecar { port }
    );
    launcher
}

#[test]
fn debug_build_is_development() {
    assert_eq!(
        BuildMode::from_debug_assertions(true),
        BuildMode::Development
    );
    assert_eq!(
        BuildMode::from_debug_assertions(false),
        BuildMode::Production
    );
}

#[test]
fn fixed_port_is_8000() {
    assert_eq!(DEV_PORT, 8000);
}

#[test]
fn new_launcher_is_idle_without_port() {
    for mode in [BuildMode::Development, BuildMode::Production] {
        let launcher = Launcher::new(mode);
        assert_eq!(launcher.mode(), mode);
        assert_eq!(launcher.phase(), Phase::Idle);
        assert_eq!(launcher.port(), None);
        assert!(launcher.backend_port().is_none());
    }
}

#[test]
fn development_reports_fixed_port() {
    let mut launcher = Launcher::new(BuildMode::Development);
    assert_eq!(launcher.step(Event::Start), Action::Nothing);
    assert_eq!(launcher.phase(), Phase::Running);
    assert_eq!(launcher.port(), Some(8000));
    let state = launcher.backend_port().unwrap();
    assert_eq!(get_backend_port(&state), 8000);
}

#[test]
fn development_ignores_production_events() {
    let mut launcher = Launcher::new(BuildMode::Development);
    launcher.step(Event::Start);
    for event in [
        Event::Start,
        Event::PortAssigned(50123),
        Event::PortBindFailed,
        Event::SidecarSpawned,
        Event::SidecarCommandFailed,
        Event::SidecarSpawnFailed,
    ] {
        assert_eq!(launcher.step(event), Action::Nothing);
        assert_eq!(launcher.phase(), Phase::Running);
        assert_eq!(launcher.port(), Some(8000));
    }
}

#[test]
fn development_keeps_fixed_port_when_port_is_reported_first() {
    let mut launcher = Launcher::new(BuildMode::Development);
    assert_eq!(launcher.step(Event::PortAssigned(50123)), Action::Nothing);
    assert_eq!(launcher.port(), None);
    assert_eq!(launcher.step(Event::Start), Action::Nothing);
    assert_eq!(launcher.port(), Some(8000));
}

#[test]
fn production_probes_for_port_on_start() {
    let mut launcher = Launcher::new(BuildMode::Production);
    assert_eq!(launcher.step(Event::Start), Action::ProbePort);
    assert_eq!(launcher.phase(), Phase::Probing);
    assert_eq!(launcher.port(), None);
}

#[test]
fn production_reports_assigned_port() {
    let launcher = started_production(49733);
    assert_eq!(launcher.phase(), Phase::Launching);
    assert_eq!(launcher.port(), Some(49733));
    let state = launcher.backend_port().unwrap();
    assert_eq!(get_backend_port(&state), 49733);
}

#[test]
fn production_accepts_any_assigned_port() {
    for port in [1u16, 1024, 32768, 49152, 60999, 65535] {
        let launcher = started_production(port);
        assert_eq!(launcher.port(), Some(port));
    }
}

#[test]
fn production_runs_after_sidecar_is_spawned() {
    let mut launcher = started_production(51000);
    assert_eq!(launcher.step(Event::SidecarSpawned), Action::CheckForUpdates);
    assert_eq!(launcher.phase(), Phase::Running);
    assert_eq!(launcher.port(), Some(51000));
}

#[test]
fn port_is_the_same_before_and_after_launch() {
    let mut launcher = started_production(40404);
    let before = get_backend_port(&launcher.backend_port().unwrap());
    launcher.step(Event::SidecarSpawned);
    let after = get_backend_port(&launcher.backend_port().unwrap());
    assert_eq!(before, 40404);
    assert_eq!(after, 40404);
}

#[test]
fn second_assignment_does_not_change_port() {
    let mut launcher = started_production(40404);
    assert_eq!(launcher.step(Event::PortAssigned(50505)), Action::Nothing);
    assert_eq!(launcher.port(), Some(40404));
    launcher.step(Event::SidecarSpawned);
    assert_eq!(launcher.step(Event::PortAssigned(50505)), Action::Nothing);
    assert_eq!(launcher.step(Event::Start), Action::Nothing);
    assert_eq!(launcher.port(), Some(40404));
}

#[test]
fn recorded_port_answers_every_query_alike() {
    let state = BackendPort::new(61234);
    assert_eq!(get_backend_port(&state), 61234);
    assert_eq!(get_backend_port(&state), 61234);
}

#[test]
fn bind_failure_aborts() {
    let mut launcher = Launcher::new(BuildMode::Production);
    launcher.step(Event::Start);
    assert_eq!(
        launcher.step(Event::PortBindFailed),
        Action::Abort(StartupError::PortBind)
    );
    assert_eq!(launcher.phase(), Phase::Aborted(StartupError::PortBind));
    assert_eq!(launcher.port(), None);
}

#[test]
fn missing_sidecar_aborts() {
    let mut launcher = started_production(50001);
    assert_eq!(
        launcher.step(Event::SidecarCommandFailed),
        Action::Abort(StartupError::SidecarCommand)
    );
    assert_eq!(
        launcher.phase(),
        Phase::Aborted(StartupError::SidecarCommand)
    );
}

#[test]
fn sidecar_that_does_not_start_aborts() {
    let mut launcher = started_production(50001);
    assert_eq!(
        launcher.step(Event::SidecarSpawnFailed),
        Action::Abort(StartupError::SidecarSpawn)
    );
    assert_eq!(launcher.phase(), Phase::Aborted(StartupError::SidecarSpawn));
}

#[test]
fn nothing_follows_an_abort() {
    let mut launcher = started_production(50001);
    launcher.step(Event::SidecarCommandFailed);
    for event in [
        Event::Start,
        Event::PortAssigned(50002),
        Event::PortBindFailed,
        Event::SidecarSpawned,
        Event::SidecarCommandFailed,
        Event::SidecarSpawnFailed,
    ] {
        assert_eq!(launcher.step(event), Action::Nothing);
        assert_eq!(
            launcher.phase(),
            Phase::Aborted(StartupError::SidecarCommand)
        );
        assert_eq!(launcher.port(), Some(50001));
    }
}

#[test]
fn events_out_of_turn_change_nothing() {
    let mut launcher = Launcher::new(BuildMode::Production);
    for event in [
        Event::PortAssigned(50002),
        Event::PortBindFailed,
        Event::SidecarSpawned,
        Event::SidecarCommandFailed,
        Event::SidecarSpawnFailed,
    ] {
        assert_eq!(launcher.step(event), Action::Nothing);
        assert_eq!(launcher.phase(), Phase::Idle);
        assert_eq!(launcher.port(), None);
    }
    launcher.step(Event::Start);
    for event in [
        Event::Start,
        Event::SidecarSpawned,
        Event::SidecarCommandFailed,
        Event::SidecarSpawnFailed,
    ] {
        assert_eq!(launcher.step(event), Action::Nothing);
        assert_eq!(launcher.phase(), Phase::Probing);
    }
}

#[test]
fn update_check_is_asked_for_once() {
    let mut launcher = started_production(50001);
    let mut asked = 0;
    for event in [
        Event::SidecarSpawned,
        Event::SidecarSpawned,
        Event::Start,
        Event::PortAssigned(50001),
        Event::SidecarSpawned,
    ] {
        if launcher.step(event) == Action::CheckForUpdates {
            asked += 1;
        }
    }
    assert_eq!(asked, 1);
}

#[test]
fn development_never_asks_for_update_check() {
    let events = [
        Event::Start,
        Event::PortAssigned(50001),
        Event::SidecarSpawned,
        Event::PortBindFailed,
        Event::SidecarCommandFailed,
        Event::SidecarSpawnFailed,
    ];
    for first in events {
        for second in events {
            for third in events {
                let mut launcher = Launcher::new(BuildMode::Development);
                for event in [first, second, third] {
                    let action = launcher.step(event);
                    assert_eq!(action, Action::Nothing);
                }
                assert!(launcher.port().is_none() || launcher.port() == Some(8000));
            }
        }
    }
}

#[test]
fn diagnostics_of_fatal_errors() {
    assert_eq!(StartupError::PortBind.diagnostic(), "无法绑定端口");
    assert_eq!(
        StartupError::SidecarCommand.diagnostic(),
        "无法创建 sidecar 命令"
    );
    assert_eq!(
        StartupError::SidecarSpawn.diagnostic(),
        "无法启动后端 sidecar"
    );
}
