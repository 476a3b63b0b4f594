use safebox_client::error::CoreError;
use safebox_client::ports::get_ports;
use safebox_client::ports::set_ant_port;
use safebox_client::ports::set_anttp_port;
use safebox_client::ports::set_dweb_port;
use safebox_client::ports::set_port;
use safebox_client::ports::PortRegistry;
use safebox_client::ports::PortSlot;
use safebox_client::relay::set_websocket_port;
use safebox_client::relay::start_websocket_server;
use safebox_client::relay::stop_websocket_server;
use safebox_client::relay::RelayAction;
use safebox_client::relay::RelayEvent;
use safebox_client::relay::RelayLifecycle;
use safebox_client::relay::RelayState;
use safebox_client::routes::port_query;
use safebox_client::routes::route_of;
use safebox_client::routes::route_segment;
use safebox_client::routes::Route;
use safebox_client::error::WorkerRole;

#[test]
fn default_ports() {
    let ports = PortRegistry::new();
    assert_eq!(get_ports(&ports), (8081, 18888, 5537, 8084));
    assert_eq!(ports.get_all(), (8081, 18888, 5537, 8084));
    assert_eq!(ports.get(PortSlot::Relay), 8084);
    assert_eq!(ports.port_of(WorkerRole::WebServer), 5537);
}

#[test]
fn port_zero_is_invalid_and_changes_nothing() {
    let mut ports = PortRegistry::new();
    for slot in [PortSlot::Node, PortSlot::Gateway, PortSlot::WebServer, PortSlot::Relay] {
        assert_eq!(ports.set(slot, 0), Err(CoreError::InvalidPort));
    }
    assert_eq!(ports, PortRegistry::new());
    let mut value: u16 = 7;
    assert_eq!(set_port(&mut value, 0), Err(CoreError::InvalidPort));
    assert_eq!(value, 7);
    assert_eq!(set_port(&mut value, 65535), Ok(()));
    assert_eq!(value, 65535);
}

#[test]
fn setting_one_port_leaves_the_others() {
    let mut ports = PortRegistry::new();
    assert_eq!(set_ant_port(&mut ports, 1), Ok(()));
    assert_eq!(get_ports(&ports), (1, 18888, 5537, 8084));
    assert_eq!(set_anttp_port(&mut ports, 2), Ok(()));
    assert_eq!(get_ports(&ports), (1, 2, 5537, 8084));
    assert_eq!(set_dweb_port(&mut ports, 3), Ok(()));
    assert_eq!(get_ports(&ports), (1, 2, 3, 8084));
    assert_eq!(ports.set(PortSlot::Relay, 4), Ok(()));
    assert_eq!(get_ports(&ports), (1, 2, 3, 4));
    assert_eq!(set_ant_port(&mut ports, 0), Err(CoreError::InvalidPort));
    assert_eq!(get_ports(&ports), (1, 2, 3, 4));
}

#[test]
fn setting_the_relay_port_in_the_registry_restarts_nothing() {
    let mut ports = PortRegistry::new();
    let mut relay = RelayLifecycle::new();
    start_websocket_server(&mut relay, &ports);
    ports.set(PortSlot::Relay, 9999).unwrap();
    assert_eq!(relay.state, RelayState::Serving { port: 8084 });
}

#[test]
fn first_start_binds_at_once() {
    let ports = PortRegistry::new();
    let mut relay = RelayLifecycle::new();
    assert_eq!(relay.serving_port(), None);
    assert_eq!(start_websocket_server(&mut relay, &ports), RelayAction::Bind { port: 8084 });
    assert_eq!(relay.serving_port(), Some(8084));
}

#[test]
fn restart_drains_the_old_instance_before_binding_the_new() {
    let mut ports = PortRegistry::new();
    let mut relay = RelayLifecycle::new();
    start_websocket_server(&mut relay, &ports);
    let asked = set_websocket_port(&mut ports, &mut relay, 9000);
    assert_eq!(asked, Ok(RelayAction::ShutdownAndAwait { port: 8084 }));
    assert_eq!(ports.relay, 9000);
    assert_eq!(relay.state, RelayState::Draining { port: 8084, next: Some(9000) });
    assert_eq!(relay.serving_port(), None);
    let done = relay.step(RelayEvent::Drained { clean: true });
    assert_eq!(done, RelayAction::Bind { port: 9000 });
    assert_eq!(relay.state, RelayState::Serving { port: 9000 });
}

#[test]
fn relay_port_zero_is_refused_without_a_restart() {
    let mut ports = PortRegistry::new();
    let mut relay = RelayLifecycle::new();
    start_websocket_server(&mut relay, &ports);
    assert_eq!(set_websocket_port(&mut ports, &mut relay, 0), Err(CoreError::InvalidPort));
    assert_eq!(ports.relay, 8084);
    assert_eq!(relay.state, RelayState::Serving { port: 8084 });
}

#[test]
fn failed_join_binds_nothing() {
    let mut ports = PortRegistry::new();
    let mut relay = RelayLifecycle::new();
    start_websocket_server(&mut relay, &ports);
    set_websocket_port(&mut ports, &mut relay, 9000).unwrap();
    assert_eq!(relay.step(RelayEvent::Drained { clean: false }), RelayAction::JoinFailed);
    assert_eq!(relay.state, RelayState::Down);
}

#[test]
fn restart_while_draining_only_changes_the_target() {
    let mut ports = PortRegistry::new();
    let mut relay = RelayLifecycle::new();
    start_websocket_server(&mut relay, &ports);
    set_websocket_port(&mut ports, &mut relay, 9000).unwrap();
    assert_eq!(set_websocket_port(&mut ports, &mut relay, 9001), Ok(RelayAction::Nothing));
    assert_eq!(relay.step(RelayEvent::Drained { clean: true }), RelayAction::Bind { port: 9001 });
    assert_eq!(relay.step(RelayEvent::Drained { clean: true }), RelayAction::Nothing);
    assert_eq!(relay.state, RelayState::Serving { port: 9001 });
}

#[test]
fn stop_drains_and_ends_down() {
    let ports = PortRegistry::new();
    let mut relay = RelayLifecycle::new();
    assert_eq!(stop_websocket_server(&mut relay), RelayAction::Nothing);
    start_websocket_server(&mut relay, &ports);
    assert_eq!(stop_websocket_server(&mut relay), RelayAction::ShutdownAndAwait { port: 8084 });
    assert_eq!(stop_websocket_server(&mut relay), RelayAction::Nothing);
    assert_eq!(relay.step(RelayEvent::Drained { clean: true }), RelayAction::Nothing);
    assert_eq!(relay.state, RelayState::Down);
}

#[test]
fn routes_by_first_segment() {
    assert_eq!(route_of(None), Route::Root);
    assert_eq!(route_of(Some("upload")), Route::Upload);
    assert_eq!(route_of(Some("download")), Route::Download);
    assert_eq!(route_of(Some("getNodePort")), Route::NodePort);
    assert_eq!(route_of(Some("getGatewayPort")), Route::GatewayPort);
    assert_eq!(route_of(Some("getnodeport")), Route::NotFound);
    assert_eq!(route_of(Some("")), Route::NotFound);
    for route in [Route::Upload, Route::Download, Route::NodePort, Route::GatewayPort] {
        assert_eq!(route_of(route_segment(route)), route);
    }
    assert_eq!(route_segment(Route::Root), None);
    assert_eq!(route_segment(Route::NotFound), None);
}

#[test]
fn port_queries_read_the_registry() {
    let mut ports = PortRegistry::new();
    ports.set(PortSlot::Node, 1234).unwrap();
    assert_eq!(port_query(Route::NodePort, &ports), Some(1234));
    assert_eq!(port_query(Route::GatewayPort, &ports), Some(18888));
    assert_eq!(port_query(Route::Upload, &ports), None);
    assert_eq!(port_query(Route::Root, &ports), None);
}
