use tunnlto::text::parse_i32;
use tunnlto::tray::{
    change_icon, connect_to_tunnel, menu_click, CloseAction, ConnectAction, MenuAction, Settings,
    TrayIcon,
};

fn s(text: &str) -> String {
    text.to_string()
}

#[test]
fn the_settings_have_their_defaults() {
    assert_eq!(Settings::new(), Settings { minimize_to_tray: true, log_limit: 50 });
}

#[test]
fn settings_are_changed_one_by_one() {
    let mut settings = Settings::new();
    settings.set_minimize_to_tray(false);
    assert_eq!(settings, Settings { minimize_to_tray: false, log_limit: 50 });
    assert!(parse_i32("120").is_some());
    settings.set_log_limit("120");
    assert_eq!(settings, Settings { minimize_to_tray: false, log_limit: 120 });
    settings.set_log_limit("-3");
    assert_eq!(settings.log_limit, -3);
}

#[test]
fn closing_the_window_hides_it_in_the_tray() {
    let mut settings = Settings::new();
    assert_eq!(settings.close_action(), CloseAction::Hide);
    settings.set_minimize_to_tray(false);
    assert_eq!(settings.close_action(), CloseAction::Close);
}

#[test]
fn menu_entries_ask_for_their_actions() {
    let tunnels = vec![s("t1"), s("exit"), s("t2")];
    assert_eq!(menu_click("minimize", &tunnels), MenuAction::Hide);
    assert_eq!(menu_click("exit", &tunnels), MenuAction::Exit);
    assert_eq!(menu_click("disconnect", &tunnels), MenuAction::Disconnect);
    assert_eq!(menu_click("t1", &tunnels), MenuAction::Connect);
    assert_eq!(menu_click("t2", &tunnels), MenuAction::Connect);
    assert_eq!(menu_click("t3", &tunnels), MenuAction::Ignore);
    assert_eq!(menu_click("t1", &vec![]), MenuAction::Ignore);
}

#[test]
fn the_icon_shows_whether_a_tunnel_is_enabled() {
    assert_eq!(change_icon(true), TrayIcon::Enabled);
    assert_eq!(change_icon(false), TrayIcon::Default);
}

#[test]
fn a_picked_tunnel_is_sent_to_the_window() {
    match connect_to_tunnel(Ok(()), "t1") {
        ConnectAction::Emit { event, tunnel_id } => {
            assert_eq!(event, "systray_connect_menu_clicked");
            assert_eq!(tunnel_id, "t1");
        }
        other => panic!("{:?}", other),
    }
}

#[test]
fn a_picked_tunnel_waits_for_the_others_to_stop() {
    match connect_to_tunnel(Err(s("busy")), "t1") {
        ConnectAction::Report(text) => assert_eq!(text, "Failed to disable WireSock: busy"),
        other => panic!("{:?}", other),
    }
}
