use safebox_client::context::cleanup_processes;
use safebox_client::context::AppContext;
use safebox_client::error::worker_name;
use safebox_client::error::CoreError;
use safebox_client::error::WorkerRole;
use safebox_client::platform::failure_notice;
use safebox_client::platform::os_kind_of;
use safebox_client::platform::remediation_text;
use safebox_client::platform::OsKind;
use safebox_client::ports::PortRegistry;
use safebox_client::relay::start_websocket_server;
use safebox_client::relay::RelayAction;
use safebox_client::relay::RelayState;
use safebox_client::supervisor::classify_spawn_failure;
use safebox_client::supervisor::output_event_name;
use safebox_client::supervisor::role_after;
use safebox_client::supervisor::worker_args;
use safebox_client::supervisor::RoleState;
use safebox_client::supervisor::StartPhase;
use safebox_client::supervisor::Supervisor;
use safebox_client::supervisor::SupervisorAction;
use safebox_client::supervisor::SupervisorEvent;
use safebox_client::supervisor::Workers;
use safebox_client::text::decimal;

fn stopped() -> Workers {
    Workers { node: RoleState::Stopped, gateway: RoleState::Stopped, web_server: RoleState::Stopped }
}

fn started() -> Supervisor {
    let ports = PortRegistry::new();
    let mut s = Supervisor::new(ports);
    assert_eq!(
        s.start_all(&ports),
        SupervisorAction::Probe { role: WorkerRole::Node, port: 8081 }
    );
    assert_eq!(
        s.step(SupervisorEvent::PortProbed { in_use: false }),
        SupervisorAction::Probe { role: WorkerRole::Gateway, port: 18888 }
    );
    assert_eq!(
        s.step(SupervisorEvent::PortProbed { in_use: false }),
        SupervisorAction::Probe { role: WorkerRole::WebServer, port: 5537 }
    );
    assert_eq!(
        s.step(SupervisorEvent::PortProbed { in_use: false }),
        SupervisorAction::Spawn { role: WorkerRole::Node, port: 8081 }
    );
    assert!(!s.is_any_running());
    assert_eq!(
        s.step(SupervisorEvent::Spawned { pid: 11 }),
        SupervisorAction::Spawn { role: WorkerRole::Gateway, port: 18888 }
    );
    assert!(s.is_any_running());
    assert_eq!(
        s.step(SupervisorEvent::Spawned { pid: 22 }),
        SupervisorAction::Spawn { role: WorkerRole::WebServer, port: 5537 }
    );
    assert_eq!(s.step(SupervisorEvent::Spawned { pid: 33 }), SupervisorAction::Started);
    s
}

fn running() -> Workers {
    Workers {
        node: RoleState::Running { pid: 11 },
        gateway: RoleState::Running { pid: 22 },
        web_server: RoleState::Running { pid: 33 },
    }
}

#[test]
fn a_clean_start_runs_all_three_workers() {
    let s = started();
    assert_eq!(s.workers, running());
    assert_eq!(s.phase, StartPhase::Idle);
    assert!(s.is_any_running());
    assert_eq!(s.workers.get(WorkerRole::Gateway), RoleState::Running { pid: 22 });
}

#[test]
fn second_start_fails_and_leaves_the_first_running() {
    let mut s = started();
    let before = s;
    let mut other = PortRegistry::new();
    other.set(safebox_client::ports::PortSlot::Node, 9000).unwrap();
    let action = s.start_all(&other);
    assert_eq!(
        action,
        SupervisorAction::Failed { error: CoreError::AlreadyRunning, kill: stopped() }
    );
    assert_eq!(s, before);
    assert_eq!(s.workers, running());
}

#[test]
fn start_during_a_start_fails() {
    let ports = PortRegistry::new();
    let mut s = Supervisor::new(ports);
    s.start_all(&ports);
    let before = s;
    assert_eq!(
        s.start_all(&ports),
        SupervisorAction::Failed { error: CoreError::AlreadyRunning, kill: stopped() }
    );
    assert_eq!(s, before);
}

#[test]
fn occupied_port_of_any_role_leaves_nothing_running() {
    let roles = [WorkerRole::Node, WorkerRole::Gateway, WorkerRole::WebServer];
    let ports_of = [8081u16, 18888, 5537];
    for free in 0..3 {
        let ports = PortRegistry::new();
        let mut s = Supervisor::new(ports);
        s.start_all(&ports);
        for _ in 0..free {
            s.step(SupervisorEvent::PortProbed { in_use: false });
        }
        let action = s.step(SupervisorEvent::PortProbed { in_use: true });
        assert_eq!(
            action,
            SupervisorAction::Failed {
                error: CoreError::PortInUse(roles[free], ports_of[free]),
                kill: stopped(),
            }
        );
        assert!(!s.is_any_running());
        assert_eq!(s.workers, stopped());
        assert_eq!(s.phase, StartPhase::Idle);
    }
}

#[test]
fn failed_spawn_hands_out_the_started_workers_to_kill() {
    let ports = PortRegistry::new();
    let mut s = Supervisor::new(ports);
    s.start_all(&ports);
    for _ in 0..3 {
        s.step(SupervisorEvent::PortProbed { in_use: false });
    }
    s.step(SupervisorEvent::Spawned { pid: 5 });
    s.step(SupervisorEvent::Spawned { pid: 6 });
    let action = s.step(SupervisorEvent::SpawnFailed { detail: "No such file".to_string() });
    assert_eq!(
        action,
        SupervisorAction::Failed {
            error: CoreError::SpawnFailed(WorkerRole::WebServer, "No such file".to_string()),
            kill: Workers {
                node: RoleState::Running { pid: 5 },
                gateway: RoleState::Running { pid: 6 },
                web_server: RoleState::Stopped,
            },
        }
    );
    assert!(!s.is_any_running());
    assert_eq!(s.phase, StartPhase::Idle);
}

#[test]
fn permission_failures_are_told_apart() {
    assert_eq!(
        classify_spawn_failure(WorkerRole::Node, "Permission denied (os error 13)".to_string()),
        CoreError::PermissionDenied(WorkerRole::Node)
    );
    assert_eq!(
        classify_spawn_failure(WorkerRole::Gateway, "x: operation not permitted".to_string()),
        CoreError::PermissionDenied(WorkerRole::Gateway)
    );
    assert_eq!(
        classify_spawn_failure(WorkerRole::WebServer, "permission denied".to_string()),
        CoreError::SpawnFailed(WorkerRole::WebServer, "permission denied".to_string())
    );
    assert_eq!(
        classify_spawn_failure(WorkerRole::Node, "".to_string()),
        CoreError::SpawnFailed(WorkerRole::Node, "".to_string())
    );
}

#[test]
fn permission_failure_during_start_rolls_back() {
    let ports = PortRegistry::new();
    let mut s = Supervisor::new(ports);
    s.start_all(&ports);
    for _ in 0..3 {
        s.step(SupervisorEvent::PortProbed { in_use: false });
    }
    let action = s.step(SupervisorEvent::SpawnFailed { detail: "Permission denied".to_string() });
    assert_eq!(
        action,
        SupervisorAction::Failed {
            error: CoreError::PermissionDenied(WorkerRole::Node),
            kill: stopped(),
        }
    );
    assert!(!s.is_any_running());
}

#[test]
fn stop_all_is_idempotent() {
    let mut s = started();
    assert_eq!(s.stop_all(), running());
    assert!(!s.is_any_running());
    assert_eq!(s.stop_all(), stopped());
    assert!(!s.is_any_running());
    let ports = PortRegistry::new();
    assert_eq!(
        s.start_all(&ports),
        SupervisorAction::Probe { role: WorkerRole::Node, port: 8081 }
    );
}

#[test]
fn events_that_answer_nothing_are_set_aside() {
    let ports = PortRegistry::new();
    let mut s = Supervisor::new(ports);
    assert_eq!(s.step(SupervisorEvent::PortProbed { in_use: true }), SupervisorAction::Ignored);
    assert_eq!(s.step(SupervisorEvent::Spawned { pid: 9 }), SupervisorAction::Orphan { pid: 9 });
    assert_eq!(
        s.step(SupervisorEvent::SpawnFailed { detail: "x".to_string() }),
        SupervisorAction::Ignored
    );
    assert_eq!(s, Supervisor::new(ports));
}

#[test]
fn start_uses_the_ports_it_was_given() {
    let mut ports = PortRegistry::new();
    ports.set(safebox_client::ports::PortSlot::Gateway, 4000).unwrap();
    let mut s = Supervisor::new(PortRegistry::new());
    s.start_all(&ports);
    assert_eq!(
        s.step(SupervisorEvent::PortProbed { in_use: false }),
        SupervisorAction::Probe { role: WorkerRole::Gateway, port: 4000 }
    );
}

#[test]
fn worker_names_arguments_and_events() {
    assert_eq!(worker_name(WorkerRole::Node), "ant");
    assert_eq!(worker_name(WorkerRole::Gateway), "anttp");
    assert_eq!(worker_name(WorkerRole::WebServer), "dweb");
    assert_eq!(output_event_name(WorkerRole::Node), "ant-message");
    assert_eq!(output_event_name(WorkerRole::Gateway), "anttp-message");
    assert_eq!(output_event_name(WorkerRole::WebServer), "dweb-message");
    assert_eq!(worker_args(WorkerRole::Node, 8081), vec!["-l", "127.0.0.1:8081"]);
    assert_eq!(worker_args(WorkerRole::Gateway, 18888), vec!["-l", "127.0.0.1:18888"]);
    assert_eq!(worker_args(WorkerRole::WebServer, 5537), vec!["serve", "--port", "5537"]);
    assert_eq!(role_after(WorkerRole::Node), Some(WorkerRole::Gateway));
    assert_eq!(role_after(WorkerRole::WebServer), None);
}

#[test]
fn decimal_numerals() {
    assert_eq!(decimal(0), "0");
    assert_eq!(decimal(9), "9");
    assert_eq!(decimal(10), "10");
    assert_eq!(decimal(65535), "65535");
    assert_eq!(decimal(u64::MAX), "18446744073709551615");
    assert_eq!(decimal(1002003), "1002003");
}

#[test]
fn remediation_advice_by_system() {
    assert_eq!(
        remediation_text(OsKind::Linux, "ant"),
        Some(
            "Linux blocked the 'ant' binary from executing.\n\nTry running:\n  chmod +x ant\nOr ensure it has the correct execution permissions."
                .to_string()
        )
    );
    assert_eq!(
        remediation_text(OsKind::MacOs, "dweb"),
        Some(
            "macOS blocked the 'dweb' binary from running.\n\nTo fix:\n1. Open System Settings > Privacy & Security\n2. Scroll down to 'Security'\n3. Click 'Allow Anyway' next to 'dweb'\n4. Then restart the app."
                .to_string()
        )
    );
    assert_eq!(
        remediation_text(OsKind::Windows, "anttp"),
        Some(
            "Windows prevented the 'anttp' binary from running.\n\nTry:\n1. Right-click the binary\n2. Choose 'Properties'\n3. Under the 'General' tab, click 'Unblock' if available\n4. Apply and try again."
                .to_string()
        )
    );
    assert_eq!(remediation_text(OsKind::Other, "ant"), None);
}

#[test]
fn teardown_stops_workers_and_relay() {
    let mut context = AppContext::new();
    context.supervisor = started();
    let ports = context.ports;
    start_websocket_server(&mut context.relay, &ports);
    let teardown = cleanup_processes(&mut context);
    assert_eq!(teardown.kill, running());
    assert_eq!(teardown.relay, RelayAction::ShutdownAndAwait { port: 8084 });
    assert!(!context.supervisor.is_any_running());
    assert_eq!(context.relay.state, RelayState::Draining { port: 8084, next: None });
    let again = cleanup_processes(&mut context);
    assert_eq!(again.kill, stopped());
    assert_eq!(again.relay, RelayAction::Nothing);
}

#[test]
fn systems_by_name() {
    assert_eq!(os_kind_of("macos"), OsKind::MacOs);
    assert_eq!(os_kind_of("linux"), OsKind::Linux);
    assert_eq!(os_kind_of("windows"), OsKind::Windows);
    assert_eq!(os_kind_of("freebsd"), OsKind::Other);
    assert_eq!(os_kind_of("Linux"), OsKind::Other);
}

#[test]
fn notices_for_failed_starts() {
    assert_eq!(
        failure_notice(OsKind::Linux, &CoreError::PortInUse(WorkerRole::Gateway, 18888)),
        Some(
            "Port 18888 is already in use by another process. Cannot start 'anttp'.".to_string()
        )
    );
    assert_eq!(
        failure_notice(OsKind::Linux, &CoreError::PermissionDenied(WorkerRole::Node)),
        remediation_text(OsKind::Linux, "ant")
    );
    assert_eq!(failure_notice(OsKind::Other, &CoreError::PermissionDenied(WorkerRole::Node)), None);
    assert_eq!(failure_notice(OsKind::Linux, &CoreError::AlreadyRunning), None);
    assert_eq!(
        failure_notice(
            OsKind::Windows,
            &CoreError::SpawnFailed(WorkerRole::Node, "x".to_string())
        ),
        None
    );
}

#[test]
fn a_fresh_context_is_at_rest() {
    let context = AppContext::new();
    let ports = PortRegistry::new();
    assert_eq!(context.ports, ports);
    assert_eq!(context.supervisor, Supervisor::new(ports));
    assert_eq!(context.supervisor.ports, context.ports);
    assert_eq!(context.relay.state, RelayState::Down);
    assert_eq!(context.sessions.len(), 0);
}
