use tunnlto::json::{json_or_empty, lines_to_json};
use tunnlto::wiresock::{
    disable_wiresock, get_wiresock_install_path, get_wiresock_version, install_command,
    install_wiresock, names_wiresock, stop_command, StopStatus, UninstallEntry,
    CREATE_NO_WINDOW,
};

fn s(text: &str) -> String {
    text.to_string()
}

fn program(name: Option<&str>, version: Option<&str>) -> UninstallEntry {
    UninstallEntry::Program { display_name: name.map(s), display_version: version.map(s) }
}

#[test]
fn the_install_path_is_the_registered_one() {
    assert_eq!(get_wiresock_install_path(Some(s("C:\\W"))), Ok(s("C:\\W")));
    assert_eq!(get_wiresock_install_path(None), Err(s("WIRESOCK_NOT_INSTALLED")));
}

#[test]
fn the_version_is_that_of_the_first_wiresock_entry() {
    let entries = vec![
        program(None, Some("9")),
        program(Some("My WireSock VPN Client"), Some("8")),
        program(Some("WireSock VPN Client"), None),
        program(Some("WireSock VPN Client x64"), Some("1.4.7.1")),
        program(Some("WireSock VPN Client"), Some("2")),
        UninstallEntry::Unreadable(s("denied")),
    ];
    assert_eq!(get_wiresock_version(Ok(entries)), Ok(s("1.4.7.1")));
}

#[test]
fn an_unreadable_entry_ends_the_search() {
    let entries = vec![
        program(Some("Other"), Some("1")),
        UninstallEntry::Unreadable(s("denied")),
        program(Some("WireSock VPN Client"), Some("2")),
    ];
    assert_eq!(get_wiresock_version(Ok(entries)), Err(s("denied")));
    assert_eq!(get_wiresock_version(Err(s("no key"))), Err(s("no key")));
}

#[test]
fn without_an_entry_wiresock_is_not_installed() {
    assert_eq!(get_wiresock_version(Ok(vec![])), Ok(s("wiresock_not_installed")));
    let entries = vec![program(Some("wiresock vpn client"), Some("1"))];
    assert_eq!(get_wiresock_version(Ok(entries)), Ok(s("wiresock_not_installed")));
}

#[test]
fn entries_tell_whether_they_end_the_search() {
    assert!(names_wiresock("WireSock VPN Client 1"));
    assert!(!names_wiresock("WireSock"));
    assert_eq!(program(Some("WireSock VPN Client"), None).verdict(), None);
    assert_eq!(program(None, Some("1")).verdict(), None);
    assert_eq!(program(Some("WireSock VPN Client"), Some("1")).verdict(), Some(Ok(s("1"))));
    assert_eq!(UninstallEntry::Unreadable(s("e")).verdict(), Some(Err(s("e"))));
}

#[test]
fn wiresock_is_stopped_by_its_name() {
    let command = stop_command();
    assert_eq!(command.program, "taskkill");
    assert_eq!(command.arguments, vec!["/F", "/IM", "wiresock-client.exe", "/T"]);
    assert_eq!(CREATE_NO_WINDOW, 0x08000000);
}

#[test]
fn stopping_succeeds_where_nothing_runs() {
    assert_eq!(disable_wiresock(StopStatus::Exited(Some(0))), Ok(()));
    assert_eq!(disable_wiresock(StopStatus::Exited(Some(128))), Ok(()));
}

#[test]
fn stopping_fails_with_a_reason() {
    assert_eq!(
        disable_wiresock(StopStatus::Exited(Some(1))),
        Err(s("Failed to stop WireSock, exit code: 1"))
    );
    assert_eq!(
        disable_wiresock(StopStatus::Exited(Some(-1073741510))),
        Err(s("Failed to stop WireSock, exit code: -1073741510"))
    );
    assert_eq!(
        disable_wiresock(StopStatus::Exited(None)),
        Err(s("Failed to stop WireSock, no exit code available."))
    );
    assert_eq!(
        disable_wiresock(StopStatus::NotRun(s("not found"))),
        Err(s("Failed to execute taskkill command: not found"))
    );
}

#[test]
fn the_installer_is_run_by_powershell() {
    let command = install_command("C:\\App");
    assert_eq!(command.program, "powershell");
    let script = "(Start-Process -FilePath \"msiexec.exe\" -ArgumentList \"/i\", '\"C:\\App\
                  \\wiresock\\wiresock-vpn-client-x64-1.4.7.1.msi\"', \"/qr\" -Wait -Passthru)\
                  .ExitCode";
    assert_eq!(command.arguments, vec!["-command", script]);
}

#[test]
fn the_output_of_the_installer_is_reported_as_json() {
    let output = vec![Some(s("0")), None, Some(s("say \"hi\""))];
    assert_eq!(install_wiresock(Ok(output)), Ok(s("[\"0\",\"say \\\"hi\\\"\"]")));
    assert_eq!(install_wiresock(Ok(vec![])), Ok(s("[]")));
    assert_eq!(install_wiresock(Ok(vec![None])), Ok(s("[]")));
    assert_eq!(
        install_wiresock(Err(s("not found"))),
        Err(s("Failed to start powershell: not found"))
    );
}

#[test]
fn json_escapes_what_it_must() {
    let lines = vec![s("a\\b\"c"), s("\u{8}\t\n\u{c}\r"), s("\u{0}\u{1f}\u{7f} é/"), s("")];
    let expected =
        "[\"a\\\\b\\\"c\",\"\\b\\t\\n\\f\\r\",\"\\u0000\\u001f\u{7f} é/\",\"\"]";
    assert_eq!(lines_to_json(&lines), expected);
    for code in 0u32..0x20 {
        let c = char::from_u32(code).unwrap();
        let text = lines_to_json(&vec![c.to_string()]);
        let back: Vec<String> = serde_json::from_str(&text).unwrap();
        assert_eq!(back, vec![c.to_string()]);
        if !"\u{8}\t\n\u{c}\r".contains(c) {
            assert_eq!(text, format!("[\"\\u00{:02x}\"]", code));
        }
    }
}

#[test]
fn json_tells_lines_apart() {
    let one = vec![s("a"), s("b")];
    let other = vec![s("a\",\"b")];
    assert_ne!(lines_to_json(&one), lines_to_json(&other));
}

#[test]
fn json_falls_back_to_an_empty_list() {
    assert_eq!(json_or_empty(None), "[]");
    assert_eq!(json_or_empty(Some(s("[\"x\"]"))), "[\"x\"]");
}
