use sidecar::commands::get_sidecar_port;
use sidecar::registry::{NotReady, SidecarState};

#[test]
fn new_registry_is_not_ready() {
    let state = SidecarState::new();
    assert_eq!(state.port, None);
    assert_eq!(state.get(), Err(NotReady));
    assert_ne!(state.get(), Ok(0));
}

#[test]
fn get_returns_what_was_set() {
    let mut state = SidecarState::new();
    state.set(54321);
    assert_eq!(state.get(), Ok(54321));
    assert_eq!(state.get(), Ok(54321));
    assert_eq!(state.port, Some(54321));
}

#[test]
fn port_zero_is_a_port() {
    let mut state = SidecarState::new();
    state.set(0);
    assert_eq!(state.get(), Ok(0));
    assert_eq!(get_sidecar_port(&state), Ok(0));
}

#[test]
fn later_set_replaces_earlier() {
    let mut state = SidecarState { port: Some(1) };
    state.set(2);
    assert_eq!(state.get(), Ok(2));
    state.set(65535);
    assert_eq!(state.get(), Ok(65535));
}

#[test]
fn not_ready_message() {
    assert_eq!(NotReady.message(), "Sidecar not ready");
}

#[test]
fn command_reports_not_ready_in_words() {
    let state = SidecarState::new();
    assert_eq!(get_sidecar_port(&state), Err("Sidecar not ready".to_string()));
}

#[test]
fn command_returns_the_port() {
    let state = SidecarState { port: Some(8080) };
    assert_eq!(get_sidecar_port(&state), Ok(8080));
    assert_eq!(get_sidecar_port(&state), Ok(8080));
}
