use tunnlto::state::WiresockState;

#[test]
fn a_new_state_is_stopped() {
    let state = WiresockState::new();
    assert_eq!(state.tunnel_id, "");
    assert_eq!(state.wiresock_status, "STOPPED");
    assert_eq!(state.tunnel_status, "DISCONNECTED");
    assert!(state.logs.is_empty());
    assert!(state.is_stopped());
}

#[test]
fn beginning_clears_the_log() {
    let mut state = WiresockState::new();
    state.logs.push("old".to_string());
    state.begin("t1");
    assert_eq!(state.tunnel_id, "t1");
    assert_eq!(state.wiresock_status, "STARTING");
    assert_eq!(state.tunnel_status, "DISCONNECTED");
    assert!(state.logs.is_empty());
    assert!(!state.is_stopped());
    state.mark_running();
    assert_eq!(state.wiresock_status, "RUNNING");
}

#[test]
fn the_announcement_connects_the_tunnel() {
    let mut state = WiresockState::new();
    state.begin("t1");
    state.mark_running();
    assert!(state.record_line("Tunnel has", 50));
    assert_eq!(state.tunnel_status, "DISCONNECTED");
    assert!(state.record_line("12:00 Tunnel has started.", 50));
    assert_eq!(state.tunnel_status, "CONNECTED");
    assert!(state.record_line("later", 50));
    assert_eq!(state.tunnel_status, "CONNECTED");
}

#[test]
fn the_log_keeps_the_latest_lines() {
    let mut state = WiresockState::new();
    for line in ["a", "", "b", "c", "", "d", "e"] {
        assert_eq!(state.record_line(line, 3), !line.is_empty());
    }
    assert_eq!(state.logs, vec!["c", "d", "e"]);
}

#[test]
fn a_lowered_limit_does_not_shorten_the_log() {
    let mut state = WiresockState::new();
    for line in ["a", "b", "c"] {
        state.record_line(line, 3);
    }
    state.record_line("d", 1);
    assert_eq!(state.logs, vec!["b", "c", "d"]);
    state.record_line("e", 0);
    assert_eq!(state.logs, vec!["c", "d", "e"]);
}

#[test]
fn lines_without_room_are_told() {
    let mut state = WiresockState::new();
    assert!(state.can_record("a", 1));
    assert!(!state.can_record("a", 0));
    assert!(!state.can_record("a", -1));
    assert!(state.can_record("", -1));
    state.logs.push("x".to_string());
    assert!(state.can_record("a", 0));
    assert!(!state.can_record("a", -1));
}

#[test]
fn stopping_is_logged_beyond_the_limit() {
    let mut state = WiresockState::new();
    state.begin("t1");
    state.mark_running();
    state.record_line("Tunnel has started", 1);
    state.mark_stopped();
    assert_eq!(state.tunnel_id, "t1");
    assert_eq!(state.wiresock_status, "STOPPED");
    assert_eq!(state.tunnel_status, "DISCONNECTED");
    assert_eq!(
        state.logs,
        vec!["Tunnel has started", "Tunnel Disabled. Wiresock process stopped"]
    );
}

#[test]
fn releasing_keeps_the_log() {
    let mut state = WiresockState::new();
    state.begin("t1");
    state.mark_running();
    state.record_line("Tunnel has started", 5);
    state.release();
    assert_eq!(state.wiresock_status, "STOPPED");
    assert_eq!(state.tunnel_status, "DISCONNECTED");
    assert_eq!(state.tunnel_id, "t1");
    assert_eq!(state.logs, vec!["Tunnel has started"]);
}
