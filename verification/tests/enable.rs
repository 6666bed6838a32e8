use tunnlto::config::tunnel_config;
use tunnlto::enable::{
    enable_wiresock, EnableAction, EnableEvent, EnablePhase, EnableReply, EnableSession,
};
use tunnlto::state::WiresockState;
use tunnlto::tunnel::{Interface, Peer, RuleSet, Rules, Tunnel};

fn s(text: &str) -> String {
    text.to_string()
}

fn tunnel(id: &str) -> Tunnel {
    Tunnel {
        id: s(id),
        interface: Interface {
            privateKey: s("k"),
            ipv4Address: s("10.0.0.2"),
            ipv6Address: s(""),
            port: s(""),
            dns: s(""),
            mtu: s(""),
        },
        peer: Peer {
            publicKey: s("p"),
            presharedKey: s(""),
            endpoint: s("h"),
            port: s("1"),
            persistentKeepalive: s(""),
        },
        rules: Rules {
            allowed: RuleSet { apps: s(""), folders: s(""), ipAddresses: s("") },
            disallowed: RuleSet { apps: s(""), folders: s(""), ipAddresses: s("") },
        },
    }
}

fn session(id: &str) -> EnableSession {
    EnableSession::new(tunnel(id), s("debug"))
}

fn shows(reply: &EnableReply, shown: bool) {
    assert_eq!(reply.shown, shown);
}

fn advance_to_reading(session: &mut EnableSession, state: &mut WiresockState) {
    let _ = enable_wiresock(session, state, EnableEvent::Requested);
    let _ = enable_wiresock(session, state, EnableEvent::HomeFound);
    let _ = enable_wiresock(session, state, EnableEvent::ConfigWritten { path: s("c") });
    let _ = enable_wiresock(session, state, EnableEvent::InstallationFound { location: s("w") });
    let _ = enable_wiresock(session, state, EnableEvent::Spawned);
    let _ = enable_wiresock(session, state, EnableEvent::ProcessTracked);
    assert_eq!(session.phase, EnablePhase::Reading);
}

#[test]
fn a_tunnel_is_enabled_step_by_step() {
    let mut state = WiresockState::new();
    let mut run = session("t1");
    let reply = enable_wiresock(&mut run, &mut state, EnableEvent::Requested);
    shows(&reply, true);
    assert!(matches!(reply.action, EnableAction::FindHome));
    assert_eq!(state.wiresock_status, "STARTING");
    assert_eq!(state.tunnel_id, "t1");

    let reply = enable_wiresock(&mut run, &mut state, EnableEvent::HomeFound);
    shows(&reply, false);
    match reply.action {
        EnableAction::WriteConfig { directory, file_name, text } => {
            assert_eq!(directory, vec!["AppData", "Local", "TunnlTo"]);
            assert_eq!(file_name, "tunnel.conf");
            assert_eq!(text, tunnel_config(&tunnel("t1")));
        }
        other => panic!("{:?}", other),
    }

    let written = EnableEvent::ConfigWritten { path: s("C:\\u\\tunnel.conf") };
    let reply = enable_wiresock(&mut run, &mut state, written);
    assert!(matches!(reply.action, EnableAction::FindInstallation));

    let found = EnableEvent::InstallationFound { location: s("C:\\WireSock") };
    let reply = enable_wiresock(&mut run, &mut state, found);
    match reply.action {
        EnableAction::Launch { program, arguments } => {
            assert_eq!(program, "C:\\WireSock/bin/wiresock-client.exe");
            assert_eq!(
                arguments,
                vec!["run", "-config", "C:\\u\\tunnel.conf", "-log-level", "debug"]
            );
        }
        other => panic!("{:?}", other),
    }

    let reply = enable_wiresock(&mut run, &mut state, EnableEvent::Spawned);
    shows(&reply, true);
    assert!(matches!(reply.action, EnableAction::TrackProcess));
    assert_eq!(state.wiresock_status, "RUNNING");
    assert_eq!(state.tunnel_status, "DISCONNECTED");

    let reply = enable_wiresock(&mut run, &mut state, EnableEvent::ProcessTracked);
    shows(&reply, false);
    assert!(matches!(reply.action, EnableAction::ReadLine));

    for (text, shown) in [("", false), ("Tunnel has started", true), ("x", true)] {
        let line = EnableEvent::Line { text: s(text), log_limit: 50 };
        let reply = enable_wiresock(&mut run, &mut state, line);
        shows(&reply, shown);
        assert!(matches!(reply.action, EnableAction::ReadLine));
    }
    assert_eq!(state.tunnel_status, "CONNECTED");
    assert_eq!(state.logs, vec!["Tunnel has started", "x"]);

    let reply = enable_wiresock(&mut run, &mut state, EnableEvent::OutputEnded);
    shows(&reply, false);
    assert!(matches!(reply.action, EnableAction::WaitForExit));

    let reply = enable_wiresock(&mut run, &mut state, EnableEvent::Exited);
    shows(&reply, true);
    assert!(matches!(reply.action, EnableAction::Return(Ok(()))));
    assert_eq!(run.phase, EnablePhase::Finished);
    assert_eq!(state.wiresock_status, "STOPPED");
    assert_eq!(state.tunnel_status, "DISCONNECTED");
    assert_eq!(state.logs.len(), 3);
    assert_eq!(state.logs[2], "Tunnel Disabled. Wiresock process stopped");
}

#[test]
fn a_second_request_is_refused() {
    let mut state = WiresockState::new();
    let mut first = session("t1");
    let _ = enable_wiresock(&mut first, &mut state, EnableEvent::Requested);
    let mut second = session("t2");
    let reply = enable_wiresock(&mut second, &mut state, EnableEvent::Requested);
    shows(&reply, false);
    match reply.action {
        EnableAction::Return(Err(text)) => assert_eq!(text, "enable_wiresock is already running"),
        other => panic!("{:?}", other),
    }
    assert_eq!(state.tunnel_id, "t1");
    assert_eq!(state.wiresock_status, "STARTING");
}

#[test]
fn without_a_home_directory_nothing_is_enabled() {
    let mut state = WiresockState::new();
    let mut run = session("t1");
    let _ = enable_wiresock(&mut run, &mut state, EnableEvent::Requested);
    let reply = enable_wiresock(&mut run, &mut state, EnableEvent::HomeMissing);
    shows(&reply, false);
    match reply.action {
        EnableAction::Return(Err(text)) => {
            assert_eq!(text, "Unable to retrieve the user home directory.")
        }
        other => panic!("{:?}", other),
    }
    assert!(state.is_stopped());
    let mut next = session("t2");
    let reply = enable_wiresock(&mut next, &mut state, EnableEvent::Requested);
    assert!(matches!(reply.action, EnableAction::FindHome));
}

#[test]
fn a_failed_wait_still_releases_the_state() {
    let mut state = WiresockState::new();
    let mut run = session("t1");
    advance_to_reading(&mut run, &mut state);
    let line = EnableEvent::Line { text: s("Tunnel has started"), log_limit: 5 };
    let _ = enable_wiresock(&mut run, &mut state, line);
    let _ = enable_wiresock(&mut run, &mut state, EnableEvent::OutputEnded);
    let reply = enable_wiresock(&mut run, &mut state, EnableEvent::WaitFailed);
    shows(&reply, false);
    assert!(matches!(reply.action, EnableAction::Return(Ok(()))));
    assert_eq!(state.wiresock_status, "STOPPED");
    assert_eq!(state.tunnel_status, "DISCONNECTED");
    assert_eq!(state.logs, vec!["Tunnel has started"]);
}

#[test]
fn a_session_logs_what_the_process_prints() {
    let mut state = WiresockState::new();
    let mut run = session("t1");
    advance_to_reading(&mut run, &mut state);
    for text in ["1", "2", "", "3"] {
        let line = EnableEvent::Line { text: s(text), log_limit: 2 };
        let _ = enable_wiresock(&mut run, &mut state, line);
    }
    assert_eq!(state.logs, vec!["2", "3"]);
    assert_eq!(state.wiresock_status, "RUNNING");
    assert_eq!(state.tunnel_status, "DISCONNECTED");
}
