use sidecar::commands::{get_sidecar_port, kill_result, kill_sidecar, store_child, KillFailure};
use sidecar::drain::{drain_line, Channel};
use sidecar::registry::{NotReady, SidecarState};

#[test]
fn discovery_line_on_stdout_sets_the_port() {
    let mut state = SidecarState::new();
    assert_eq!(drain_line(Channel::Stdout, &mut state, "PORT:8080"), Some(8080));
    assert_eq!(state.get(), Ok(8080));
}

#[test]
fn every_port_is_registered_from_its_line() {
    for port in [0u16, 1, 9, 10, 80, 443, 1024, 8080, 32768, 54321, 65534, 65535] {
        let mut state = SidecarState::new();
        let line = format!("PORT:{}", port);
        assert_eq!(drain_line(Channel::Stdout, &mut state, &line), Some(port));
        assert_eq!(state.get(), Ok(port));
    }
}

#[test]
fn other_lines_on_stdout_leave_the_registry() {
    let lines = ["", "starting", "PORT:", "PORT:abc", "PORT:65536", "port:80", " PORT:80", "PORT:-1"];
    for line in lines {
        let mut empty = SidecarState::new();
        assert_eq!(drain_line(Channel::Stdout, &mut empty, line), None);
        assert_eq!(empty.get(), Err(NotReady));
        let mut set = SidecarState { port: Some(4000) };
        assert_eq!(drain_line(Channel::Stdout, &mut set, line), None);
        assert_eq!(set.get(), Ok(4000));
    }
}

#[test]
fn stderr_is_never_read_for_a_port() {
    let mut state = SidecarState::new();
    assert_eq!(drain_line(Channel::Stderr, &mut state, "PORT:8080"), None);
    assert_eq!(state.get(), Err(NotReady));
    let mut set = SidecarState { port: Some(4000) };
    assert_eq!(drain_line(Channel::Stderr, &mut set, "PORT:8080"), None);
    assert_eq!(set.get(), Ok(4000));
}

#[test]
fn last_announcement_stands() {
    let mut state = SidecarState::new();
    assert_eq!(drain_line(Channel::Stdout, &mut state, "PORT:1111"), Some(1111));
    assert_eq!(drain_line(Channel::Stdout, &mut state, "PORT:2222"), Some(2222));
    assert_eq!(state.get(), Ok(2222));
    assert_eq!(drain_line(Channel::Stdout, &mut state, "PORT:99999"), None);
    assert_eq!(state.get(), Ok(2222));
}

#[test]
fn flood_on_stderr_with_one_announcement_near_the_end() {
    let mut state = SidecarState::new();
    for i in 0..100_000u32 {
        let noise = format!("PORT:{} warning number {}", i % 65536, i);
        assert_eq!(drain_line(Channel::Stderr, &mut state, &noise), None);
        if i % 1000 == 0 {
            assert_eq!(drain_line(Channel::Stdout, &mut state, "still starting"), None);
        }
        if i == 99_990 {
            assert_eq!(state.get(), Err(NotReady));
            assert_eq!(drain_line(Channel::Stdout, &mut state, "PORT:54321"), Some(54321));
        }
    }
    assert_eq!(state.get(), Ok(54321));
}

#[test]
fn worker_announces_then_is_killed() {
    let mut state = SidecarState::new();
    let mut slot: Option<u32> = None;
    store_child(&mut slot, 4242);
    assert_eq!(get_sidecar_port(&state), Err("Sidecar not ready".to_string()));
    assert_eq!(drain_line(Channel::Stderr, &mut state, "loading"), None);
    assert_eq!(get_sidecar_port(&state), Err("Sidecar not ready".to_string()));
    assert_eq!(drain_line(Channel::Stdout, &mut state, "PORT:54321"), Some(54321));
    assert_eq!(get_sidecar_port(&state), Ok(54321));
    let target = kill_sidecar(&mut slot);
    assert_eq!(target, Some(4242));
    assert_eq!(kill_result(target.map(|_| Ok(()))), Ok(()));
    assert_eq!(slot, None);
    assert_eq!(get_sidecar_port(&state), Ok(54321));
    assert_eq!(state.get(), Ok(54321));
}

#[test]
fn worker_exits_without_announcing() {
    let mut state = SidecarState::new();
    let mut slot: Option<u32> = None;
    store_child(&mut slot, 7);
    for _ in 0..100 {
        assert_eq!(state.get(), Err(NotReady));
        assert_eq!(get_sidecar_port(&state), Err("Sidecar not ready".to_string()));
    }
    let target = kill_sidecar(&mut slot);
    assert_eq!(target, Some(7));
    let gone = target.map(|_| Err(KillFailure::AlreadyGone));
    assert_eq!(kill_result(gone), Ok(()));
    assert_eq!(slot, None);
    assert_eq!(kill_sidecar(&mut slot), None);
    assert_eq!(kill_result(None), Ok(()));
    assert_eq!(state.get(), Err(NotReady));
}
