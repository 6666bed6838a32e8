//! The WireSock software on this machine: where it is, which version it is, how it is installed
//! and how it is stopped.
use crate::json::{json_list, lines_to_json};
use crate::text::{
    decimal, has_prefix, law_decimal_reads_back, law_has_prefix, push_signed_decimal,
    text_starts_with, texts,
};
use vstd::prelude::*;
use vstd::string::*;

verus! {

/// The flag that starts a process without a window of its own.
pub const CREATE_NO_WINDOW: u32 = 0x0800_0000;

/// A program and what it is started with.
#[derive(Debug)]
pub struct CommandLine {
    pub program: String,
    pub arguments: Vec<String>,
}

/// What the registry says of one installed program.
#[derive(Debug)]
pub enum UninstallEntry {
    /// The entry could not be opened, for this reason.
    Unreadable(String),
    /// The entry was opened, and holds this name and this version, as far as they could be read.
    Program { display_name: Option<String>, display_version: Option<String> },
}

/// How the command went that stops WireSock.
#[derive(Debug)]
pub enum StopStatus {
    /// It ran, and exited with this code if with any.
    Exited(Option<i32>),
    /// It could not be run, for this reason.
    NotRun(String),
}

/// The texts of an answer.
pub open spec fn answer_texts(answer: Result<String, String>) -> Result<Seq<char>, Seq<char>> {
    match answer {
        Ok(text) => Ok(text@),
        Err(text) => Err(text@),
    }
}

/// A program of this name is WireSock.
pub open spec fn is_wiresock_name(name: Seq<char>) -> bool {
    has_prefix(name, "WireSock VPN Client"@)
}

/// The entry ends the search for WireSock: it could not be opened, or it is that of WireSock and
/// says which version it is.
pub open spec fn decides(entry: UninstallEntry) -> bool {
    match entry {
        UninstallEntry::Unreadable(_) => true,
        UninstallEntry::Program { display_name, display_version } => {
            &&& display_name matches Some(name) && is_wiresock_name(name@)
            &&& display_version is Some
        },
    }
}

/// What an entry that ends the search answers.
pub open spec fn entry_answer(entry: UninstallEntry) -> Result<Seq<char>, Seq<char>> {
    match entry {
        UninstallEntry::Unreadable(error) => Err(error@),
        UninstallEntry::Program { display_name, display_version } => Ok(display_version->Some_0@),
    }
}

/// What the first entry answers that ends the search; where none does, WireSock is not installed.
pub open spec fn version_answer(entries: Seq<UninstallEntry>) -> Result<Seq<char>, Seq<char>>
    decreases entries.len(),
{
    if entries.len() == 0 {
        Ok("wiresock_not_installed"@)
    } else if decides(entries[0]) {
        entry_answer(entries[0])
    } else {
        version_answer(entries.drop_first())
    }
}

/// The answer to the command that stops WireSock. The code 128 says that it was not running.
pub open spec fn stop_answer(status: StopStatus) -> Result<(), Seq<char>> {
    match status {
        StopStatus::Exited(Some(code)) => if code == 0 || code == 128 {
            Ok(())
        } else {
            Err("Failed to stop WireSock, exit code: "@ + decimal(code as int))
        },
        StopStatus::Exited(None) => Err("Failed to stop WireSock, no exit code available."@),
        StopStatus::NotRun(error) => Err("Failed to execute taskkill command: "@ + error@),
    }
}

/// Whether a program of this name is WireSock.
pub fn names_wiresock(display_name: &str) -> (found: bool)
    ensures
        found == is_wiresock_name(display_name@),
        found == "WireSock VPN Client"@.is_prefix_of(display_name@),
{
    proof {
        law_has_prefix(display_name@, "WireSock VPN Client"@);
    }
    text_starts_with(display_name, "WireSock VPN Client")
}

impl UninstallEntry {
    /// What the entry answers, where it ends the search for WireSock.
    pub fn verdict(&self) -> (answer: Option<Result<String, String>>)
        ensures
            answer is Some == decides(*self),
            answer matches Some(given) ==> answer_texts(given) == entry_answer(*self),
            match *self {
                UninstallEntry::Unreadable(error) => {
                    &&& answer matches Some(Err(text)) && text@ == error@
                },
                UninstallEntry::Program {
                    display_name: Some(name),
                    display_version: Some(version),
                } => if "WireSock VPN Client"@.is_prefix_of(name@) {
                    &&& answer matches Some(Ok(text)) && text@ == version@
                } else {
                    answer is None
                },
                _ => answer is None,
            },
    {
        match self {
            UninstallEntry::Unreadable(error) => Some(Err(error.clone())),
            UninstallEntry::Program { display_name, display_version } => {
                match (display_name, display_version) {
                    (Some(name), Some(version)) => {
                        if names_wiresock(name.as_str()) {
                            Some(Ok(version.clone()))
                        } else {
                            None
                        }
                    },
                    _ => None,
                }
            },
        }
    }
}

/// Where WireSock is installed, given the location in its registry key, or nothing where it has
/// no key.
pub fn get_wiresock_install_path(location: Option<String>) -> (answer: Result<String, String>)
    ensures
        location matches Some(path) ==> answer == Ok::<String, String>(path),
        location is None ==> (answer matches Err(text) && text@ == "WIRESOCK_NOT_INSTALLED"@),
        location is None ==> answer_texts(answer) == Err::<Seq<char>, Seq<char>>(
            "WIRESOCK_NOT_INSTALLED"@,
        ),
{
    match location {
        Some(path) => Ok(path),
        None => Err("WIRESOCK_NOT_INSTALLED".to_owned()),
    }
}

/// Which version of WireSock is installed, given the entries of the installed programs, or why
/// they cannot be had.
pub fn get_wiresock_version(entries: Result<Vec<UninstallEntry>, String>) -> (answer: Result<
    String,
    String,
>)
    ensures
        answer_texts(answer) == (match entries {
            Ok(list) => version_answer(list@),
            Err(error) => Err(error@),
        }),
        entries matches Err(error) ==> answer == Err::<String, String>(error),
        entries matches Ok(list) ==> match answer {
            Ok(text) => version_answer(list@) == Ok::<Seq<char>, Seq<char>>(text@),
            Err(text) => version_answer(list@) == Err::<Seq<char>, Seq<char>>(text@),
        },
{
    let list = match entries {
        Ok(list) => list,
        Err(error) => {
            return Err(error);
        },
    };
    let mut i: usize = 0;
    assert(list@.skip(0) =~= list@);
    while i < list.len()
        invariant
            entries == Ok::<Vec<UninstallEntry>, String>(list),
            i <= list@.len(),
            version_answer(list@.skip(i as int)) == version_answer(list@),
        decreases list@.len() - i,
    {
        let ghost rest = list@.skip(i as int);
        assert(rest[0] == list@[i as int]);
        assert(rest.drop_first() =~= list@.skip(i + 1));
        match list[i].verdict() {
            Some(answer) => {
                return answer;
            },
            None => {},
        }
        i += 1;
    }
    Ok("wiresock_not_installed".to_owned())
}

/// The command that stops WireSock.
pub fn stop_command() -> (command: CommandLine)
    ensures
        command.program@ == "taskkill"@,
        texts(command.arguments@) == seq!["/F"@, "/IM"@, "wiresock-client.exe"@, "/T"@],
        command.arguments@.len() == 4,
        command.arguments@[0]@ == "/F"@,
        command.arguments@[1]@ == "/IM"@,
        command.arguments@[2]@ == "wiresock-client.exe"@,
        command.arguments@[3]@ == "/T"@,
{
    let arguments: Vec<String> = vec![
        "/F".to_owned(),
        "/IM".to_owned(),
        "wiresock-client.exe".to_owned(),
        "/T".to_owned(),
    ];
    assert(texts(arguments@) =~= seq!["/F"@, "/IM"@, "wiresock-client.exe"@, "/T"@]);
    CommandLine { program: "taskkill".to_owned(), arguments }
}

/// The answer to the command that stops WireSock.
pub fn disable_wiresock(status: StopStatus) -> (answer: Result<(), String>)
    ensures
        (match answer {
            Ok(()) => Ok(()),
            Err(text) => Err(text@),
        }) == stop_answer(status),
        match status {
            StopStatus::Exited(Some(code)) => if code == 0 || code == 128 {
                answer is Ok
            } else {
                answer matches Err(text) && text@ == "Failed to stop WireSock, exit code: "@
                    + decimal(code as int)
            },
            StopStatus::Exited(None) => {
                answer matches Err(text) && text@
                    == "Failed to stop WireSock, no exit code available."@
            },
            StopStatus::NotRun(error) => {
                answer matches Err(text) && text@ == "Failed to execute taskkill command: "@
                    + error@
            },
        },
{
    match status {
        StopStatus::Exited(Some(code)) => {
            if code == 0 || code == 128 {
                Ok(())
            } else {
                let mut text: String = "Failed to stop WireSock, exit code: ".to_owned();
                push_signed_decimal(&mut text, code);
                Err(text)
            }
        },
        StopStatus::Exited(None) => Err(
            "Failed to stop WireSock, no exit code available.".to_owned(),
        ),
        StopStatus::NotRun(error) => {
            let mut text: String = "Failed to execute taskkill command: ".to_owned();
            text.append(error.as_str());
            Err(text)
        },
    }
}

/// Where the WireSock installer stands, from the directory of the application.
pub open spec fn installer_path(current_dir: Seq<char>) -> Seq<char> {
    current_dir + "\\wiresock\\wiresock-vpn-client-x64-1.4.7.1.msi"@
}

/// What PowerShell is told, to run an installer and print its exit code.
pub open spec fn installer_script(path: Seq<char>) -> Seq<char> {
    "(Start-Process -FilePath \"msiexec.exe\" -ArgumentList \"/i\", '\""@ + path
        + "\"', \"/qr\" -Wait -Passthru).ExitCode"@
}

/// The lines that could be read.
pub open spec fn readable(lines: Seq<Option<String>>) -> Seq<Seq<char>>
    decreases lines.len(),
{
    if lines.len() == 0 {
        Seq::empty()
    } else {
        match lines.last() {
            Some(line) => readable(lines.drop_last()).push(line@),
            None => readable(lines.drop_last()),
        }
    }
}

/// The command that installs WireSock, for an application in `current_dir`.
pub fn install_command(current_dir: &str) -> (command: CommandLine)
    ensures
        command.program@ == "powershell"@,
        texts(command.arguments@) == seq![
            "-command"@,
            installer_script(installer_path(current_dir@)),
        ],
        command.arguments@.len() == 2,
        command.arguments@[0]@ == "-command"@,
        command.arguments@[1]@
            == "(Start-Process -FilePath \"msiexec.exe\" -ArgumentList \"/i\", '\""@ + current_dir@
            + "\\wiresock\\wiresock-vpn-client-x64-1.4.7.1.msi"@
            + "\"', \"/qr\" -Wait -Passthru).ExitCode"@,
{
    let mut script: String =
        "(Start-Process -FilePath \"msiexec.exe\" -ArgumentList \"/i\", '\"".to_owned();
    script.append(current_dir);
    script.append("\\wiresock\\wiresock-vpn-client-x64-1.4.7.1.msi");
    script.append("\"', \"/qr\" -Wait -Passthru).ExitCode");
    assert(script@ =~= installer_script(installer_path(current_dir@)));
    let arguments: Vec<String> = vec!["-command".to_owned(), script];
    assert(texts(arguments@) =~= seq![
        "-command"@,
        installer_script(installer_path(current_dir@)),
    ]);
    CommandLine { program: "powershell".to_owned(), arguments }
}

/// The answer to the command that installs WireSock: the lines that it printed and that could be
/// read, as JSON. It is given the lines, or why the command could not be started.
pub fn install_wiresock(output: Result<Vec<Option<String>>, String>) -> (answer: Result<
    String,
    String,
>)
    ensures
        answer_texts(answer) == (match output {
            Ok(lines) => Ok(json_list(readable(lines@))),
            Err(error) => Err("Failed to start powershell: "@ + error@),
        }),
        output matches Err(error) ==> (answer matches Err(text) && text@
            == "Failed to start powershell: "@ + error@),
        output matches Ok(lines) ==> (answer matches Ok(text) && text@ == json_list(
            lines@.filter_map(|line: Option<String>|
                match line {
                    Some(read) => Some(read@),
                    None => None,
                }),
        )),
{
    let lines = match output {
        Ok(lines) => lines,
        Err(error) => {
            let mut text: String = "Failed to start powershell: ".to_owned();
            text.append(error.as_str());
            return Err(text);
        },
    };
    let mut kept: Vec<String> = Vec::new();
    let mut i: usize = 0;
    assert(texts(kept@) =~= readable(lines@.take(0)));
    while i < lines.len()
        invariant
            i <= lines@.len(),
            texts(kept@) == readable(lines@.take(i as int)),
        decreases lines@.len() - i,
    {
        assert(lines@.take(i + 1).drop_last() =~= lines@.take(i as int));
        match &lines[i] {
            Some(line) => {
                let ghost before = kept@;
                kept.push(line.clone());
                assert(texts(kept@) =~= texts(before).push(line@));
            },
            None => {},
        }
        i += 1;
    }
    assert(lines@.take(i as int) =~= lines@);
    proof {
        lemma_readable_is_filter_map(lines@);
    }
    Ok(lines_to_json(&kept))
}

/// The first entry that ends the search gives the version, whatever entries follow it.
pub proof fn law_first_deciding_entry_answers(entries: Seq<UninstallEntry>, first: int)
    requires
        0 <= first < entries.len(),
        decides(entries[first]),
        forall|i: int| 0 <= i < first ==> !decides(#[trigger] entries[i]),
    ensures
        version_answer(entries) == entry_answer(entries[first]),
        version_answer(entries.take(first + 1)) == version_answer(entries),
    decreases first,
{
    let seen = entries.take(first + 1);
    assert(seen[0] == entries[0]);
    if first > 0 {
        let rest = entries.drop_first();
        assert(!decides(entries[0]));
        assert forall|i: int| 0 <= i < first - 1 implies !decides(#[trigger] rest[i]) by {
            assert(rest[i] == entries[i + 1]);
        }
        law_first_deciding_entry_answers(rest, first - 1);
        assert(seen.drop_first() =~= rest.take(first));
    }
}

/// Where no entry ends the search, WireSock is not installed.
pub proof fn law_no_deciding_entry(entries: Seq<UninstallEntry>)
    requires
        forall|i: int| 0 <= i < entries.len() ==> !decides(#[trigger] entries[i]),
    ensures
        version_answer(entries) == Ok::<Seq<char>, Seq<char>>("wiresock_not_installed"@),
    decreases entries.len(),
{
    if entries.len() > 0 {
        let rest = entries.drop_first();
        assert(!decides(entries[0]));
        assert forall|i: int| 0 <= i < rest.len() implies !decides(#[trigger] rest[i]) by {
            assert(rest[i] == entries[i + 1]);
        }
        law_no_deciding_entry(rest);
    }
}

proof fn lemma_readable_is_filter_map(lines: Seq<Option<String>>)
    ensures
        readable(lines) == lines.filter_map(|line: Option<String>|
            match line {
                Some(read) => Some(read@),
                None => None,
            }),
    decreases lines.len(),
{
    let read = |line: Option<String>|
        match line {
            Some(read) => Some(read@),
            None => None,
        };
    if lines.len() > 0 {
        let before = lines.drop_last();
        lemma_readable_is_filter_map(before);
        assert(before.filter_map(read) == readable(before));
        match lines.last() {
            Some(line) => {
                assert(read(lines.last()) == Some(line@));
                assert(readable(before).push(line@) =~= readable(before) + seq![line@]);
            },
            None => {
                assert(read(lines.last()) is None);
            },
        }
    }
    assert(readable(lines) =~= lines.filter_map(read));
}

/// The version is the one that the registry gives for the first WireSock entry that gives one,
/// character by character, unless an entry before it could not be opened: then the reason for
/// that is the answer.
pub proof fn law_version_is_as_registered(entries: Seq<UninstallEntry>, first: int)
    requires
        0 <= first < entries.len(),
        forall|i: int|
            0 <= i < first ==> match #[trigger] entries[i] {
                UninstallEntry::Unreadable(_) => false,
                UninstallEntry::Program {
                    display_name: Some(name),
                    display_version: Some(_),
                } => !"WireSock VPN Client"@.is_prefix_of(name@),
                _ => true,
            },
    ensures
        match entries[first] {
            UninstallEntry::Unreadable(error) => version_answer(entries) == Err::<
                Seq<char>,
                Seq<char>,
            >(error@),
            UninstallEntry::Program { display_name: Some(name), display_version: Some(version) } =>
            "WireSock VPN Client"@.is_prefix_of(name@) ==> version_answer(entries) == Ok::<
                Seq<char>,
                Seq<char>,
            >(version@),
            _ => true,
        },
{
    assert forall|i: int| 0 <= i < entries.len() implies match #[trigger] entries[i] {
        UninstallEntry::Program { display_name: Some(name), display_version: _ } =>
        is_wiresock_name(name@) == "WireSock VPN Client"@.is_prefix_of(name@),
        _ => true,
    } by {
        match entries[i] {
            UninstallEntry::Program { display_name: Some(name), display_version: _ } => {
                law_has_prefix(name@, "WireSock VPN Client"@);
            },
            _ => {},
        }
    }
    if decides(entries[first]) {
        assert forall|i: int| 0 <= i < first implies !decides(#[trigger] entries[i]) by {}
        law_first_deciding_entry_answers(entries, first);
    }
}

/// Where every entry could be opened and none is that of WireSock with a version, WireSock is not
/// installed.
pub proof fn law_version_without_wiresock(entries: Seq<UninstallEntry>)
    requires
        forall|i: int|
            0 <= i < entries.len() ==> match #[trigger] entries[i] {
                UninstallEntry::Unreadable(_) => false,
                UninstallEntry::Program {
                    display_name: Some(name),
                    display_version: Some(_),
                } => !"WireSock VPN Client"@.is_prefix_of(name@),
                _ => true,
            },
    ensures
        version_answer(entries) == Ok::<Seq<char>, Seq<char>>("wiresock_not_installed"@),
{
    assert forall|i: int| 0 <= i < entries.len() implies !decides(#[trigger] entries[i]) by {
        match entries[i] {
            UninstallEntry::Program { display_name: Some(name), display_version: _ } => {
                law_has_prefix(name@, "WireSock VPN Client"@);
            },
            _ => {},
        }
    }
    law_no_deciding_entry(entries);
}

/// What is reported of a failed stop tells its exit code: two codes with one report are one code.
/// Only the codes 0 and 128 are no failure.
pub proof fn law_stop_tells_code(a: i32, b: i32)
    ensures
        stop_answer(StopStatus::Exited(Some(a))) is Ok <==> a == 0 || a == 128,
        stop_answer(StopStatus::Exited(Some(a))) is Err && stop_answer(StopStatus::Exited(Some(a)))
            == stop_answer(StopStatus::Exited(Some(b))) ==> a == b,
{
    let head = "Failed to stop WireSock, exit code: "@;
    law_decimal_reads_back(a);
    law_decimal_reads_back(b);
    let left = head + decimal(a as int);
    let right = head + decimal(b as int);
    assert(decimal(a as int) =~= left.skip(head.len() as int));
    assert(decimal(b as int) =~= right.skip(head.len() as int));
}

/// The list that is reported holds every line that could be read, unchanged and in order, and
/// nothing else.
pub proof fn law_report_keeps_lines(lines: Seq<Option<String>>, line: Option<String>)
    ensures
        readable(Seq::empty()) == Seq::<Seq<char>>::empty(),
        readable(lines.push(line)) == (match line {
            Some(read) => readable(lines) + seq![read@],
            None => readable(lines),
        }),
        readable(lines) == lines.filter_map(|line: Option<String>|
            match line {
                Some(read) => Some(read@),
                None => None,
            }),
{
    assert(lines.push(line).drop_last() =~= lines);
    match line {
        Some(read) => {
            assert(readable(lines).push(read@) =~= readable(lines) + seq![read@]);
        },
        None => {},
    }
    lemma_readable_is_filter_map(lines);
}

/// Where every line could be read, the list that is reported is those lines, one for one.
pub proof fn law_report_of_readable_lines(lines: Seq<Option<String>>)
    requires
        forall|k: int| 0 <= k < lines.len() ==> #[trigger] lines[k] is Some,
    ensures
        readable(lines).len() == lines.len(),
        forall|k: int| 0 <= k < lines.len() ==> #[trigger] readable(lines)[k] == lines[k]->Some_0@,
    decreases lines.len(),
{
    if lines.len() > 0 {
        let before = lines.drop_last();
        assert forall|k: int| 0 <= k < before.len() implies #[trigger] before[k] is Some by {
            assert(before[k] == lines[k]);
        }
        law_report_of_readable_lines(before);
        assert(lines[lines.len() - 1] is Some);
        assert forall|k: int| 0 <= k < lines.len() implies #[trigger] readable(lines)[k]
            == lines[k]->Some_0@ by {
            if k < before.len() {
                assert(readable(before)[k] == before[k]->Some_0@);
            }
        }
    }
}

/// Every line that could be read is in the list that is reported.
pub proof fn law_no_line_is_dropped(lines: Seq<Option<String>>, k: int)
    requires
        0 <= k < lines.len(),
        lines[k] is Some,
    ensures
        readable(lines).contains(lines[k]->Some_0@),
    decreases lines.len(),
{
    let before = lines.drop_last();
    if k == lines.len() - 1 {
        assert(readable(lines).last() == lines[k]->Some_0@);
    } else {
        assert(before[k] == lines[k]);
        law_no_line_is_dropped(before, k);
        let at = choose|at: int|
            0 <= at < readable(before).len() && readable(before)[at] == lines[k]->Some_0@;
        assert(readable(lines)[at] == readable(before)[at]);
    }
}

/// The installer is run from the directory that is given, and from no other: two directories with
/// one script are one directory.
pub proof fn law_installer_stands_in_directory(a: Seq<char>, b: Seq<char>)
    ensures
        installer_path(a) == a + "\\wiresock\\wiresock-vpn-client-x64-1.4.7.1.msi"@,
        installer_script(a) == "(Start-Process -FilePath \"msiexec.exe\" -ArgumentList \"/i\", '\""@
            + a + "\"', \"/qr\" -Wait -Passthru).ExitCode"@,
        installer_script(installer_path(a)) == installer_script(installer_path(b)) ==> a == b,
{
    let head = "(Start-Process -FilePath \"msiexec.exe\" -ArgumentList \"/i\", '\""@;
    let file = "\\wiresock\\wiresock-vpn-client-x64-1.4.7.1.msi"@;
    let tail = "\"', \"/qr\" -Wait -Passthru).ExitCode"@;
    let left = head + (a + file) + tail;
    let right = head + (b + file) + tail;
    if left == right {
        assert(a =~= left.subrange(head.len() as int, left.len() - tail.len() - file.len()));
        assert(b =~= right.subrange(head.len() as int, right.len() - tail.len() - file.len()));
    }
}

} // verus!
