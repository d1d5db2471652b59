use backend_sidecar::state::BackendState;
use backend_sidecar::watcher::{SidecarEvent, Watcher};

fn published(ports: &[u16]) -> BackendState {
    let mut watcher = Watcher::new();
    let mut cell = BackendState::new();
    watcher.on_event(&mut cell, SidecarEvent::CommandCreated);
    watcher.on_event(&mut cell, SidecarEvent::Spawned);
    for port in ports {
        watcher.on_stdout(&mut cell, format!("SERVER_PORT={}", port));
    }
    cell
}

#[test]
fn new_cell_is_empty() {
    let cell = BackendState::new();
    assert_eq!(cell.read(), None);
}

#[test]
fn default_cell_is_empty() {
    let cell = BackendState::default();
    assert_eq!(cell.read(), None);
    assert_eq!(cell.get_backend_port(), Err("Backend not ready".to_string()));
}

#[test]
fn query_before_readiness_is_not_ready() {
    let cell = published(&[]);
    assert_eq!(cell.get_backend_port(), Err("Backend not ready".to_string()));
    assert_eq!(cell.get_backend_port(), Err("Backend not ready".to_string()));
    assert_eq!(cell.read(), None);
}

#[test]
fn query_after_readiness_gives_the_port() {
    let cell = published(&[8080]);
    assert_eq!(cell.read(), Some(8080));
    assert_eq!(cell.get_backend_port(), Ok(8080));
}

#[test]
fn query_after_readiness_is_the_same_every_time() {
    let cell = published(&[49152]);
    for _ in 0..100 {
        assert_eq!(cell.get_backend_port(), Ok(49152));
    }
    assert_eq!(cell.read(), Some(49152));
}

#[test]
fn port_zero_is_a_port() {
    let cell = published(&[0]);
    assert_eq!(cell.read(), Some(0));
    assert_eq!(cell.get_backend_port(), Ok(0));
}

#[test]
fn largest_port_is_stored() {
    let cell = published(&[u16::MAX]);
    assert_eq!(cell.get_backend_port(), Ok(65535));
}

#[test]
fn second_port_replaces_the_first() {
    let cell = published(&[3000, 4000]);
    assert_eq!(cell.read(), Some(4000));
    assert_eq!(cell.get_backend_port(), Ok(4000));
}
