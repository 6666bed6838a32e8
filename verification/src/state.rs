//! What the application knows of the WireSock process and its tunnel, and the log that it keeps
//! of the process.
use crate::text::{has_text, same_text, text_contains, texts};
use vstd::prelude::*;
use vstd::string::*;

verus! {

/// The state of the WireSock process, as the window shows it.
#[derive(Debug)]
pub struct WiresockState {
    pub tunnel_id: String,
    pub wiresock_status: String,
    pub tunnel_status: String,
    pub logs: Vec<String>,
}

/// The texts that a `WiresockState` holds.
#[verifier::ext_equal]
pub struct StateView {
    pub tunnel_id: Seq<char>,
    pub wiresock_status: Seq<char>,
    pub tunnel_status: Seq<char>,
    pub logs: Seq<Seq<char>>,
}

impl View for WiresockState {
    type V = StateView;

    open spec fn view(&self) -> StateView {
        StateView {
            tunnel_id: self.tunnel_id@,
            wiresock_status: self.wiresock_status@,
            tunnel_status: self.tunnel_status@,
            logs: texts(self.logs@),
        }
    }
}

/// The state before any tunnel was enabled.
pub open spec fn initial_state() -> StateView {
    StateView {
        tunnel_id: Seq::empty(),
        wiresock_status: "STOPPED"@,
        tunnel_status: "DISCONNECTED"@,
        logs: Seq::empty(),
    }
}

/// The state once a tunnel is to be enabled: its log starts anew.
pub open spec fn starting_state(tunnel_id: Seq<char>) -> StateView {
    StateView {
        tunnel_id,
        wiresock_status: "STARTING"@,
        tunnel_status: "DISCONNECTED"@,
        logs: Seq::empty(),
    }
}

/// The state once the WireSock process runs.
pub open spec fn running_state(s: StateView) -> StateView {
    StateView { wiresock_status: "RUNNING"@, ..s }
}

/// The state with the process stopped and the tunnel down.
pub open spec fn released_state(s: StateView) -> StateView {
    StateView { wiresock_status: "STOPPED"@, tunnel_status: "DISCONNECTED"@, ..s }
}

/// The state once the process has exited: the log says so.
pub open spec fn stopped_state(s: StateView) -> StateView {
    StateView {
        logs: s.logs.push("Tunnel Disabled. Wiresock process stopped"@),
        ..released_state(s)
    }
}

/// The line that the process prints when the tunnel is up says this.
pub open spec fn announces_tunnel(line: Seq<char>) -> bool {
    has_text(line, "Tunnel has started"@)
}

/// A log with one line more. A log that holds `limit` lines or more loses its oldest line first.
pub open spec fn extended_log(logs: Seq<Seq<char>>, line: Seq<char>, limit: int) -> Seq<Seq<char>> {
    if logs.len() >= limit {
        logs.drop_first().push(line)
    } else {
        logs.push(line)
    }
}

/// The state once the process has printed a line. An empty line changes nothing.
pub open spec fn logged_state(s: StateView, line: Seq<char>, limit: int) -> StateView {
    if line.len() == 0 {
        s
    } else {
        StateView {
            tunnel_status: if announces_tunnel(line) {
                "CONNECTED"@
            } else {
                s.tunnel_status
            },
            logs: extended_log(s.logs, line, limit),
            ..s
        }
    }
}

/// A log of `length` lines has room for a line under `limit`, if need be in place of its oldest
/// line.
pub open spec fn has_room(length: nat, limit: int) -> bool {
    limit >= 0 && (limit > 0 || length > 0)
}

impl WiresockState {
    /// The state before any tunnel was enabled.
    pub fn new() -> (state: Self)
        ensures
            state@ == initial_state(),
            state.tunnel_id@.len() == 0,
            state.wiresock_status@ == "STOPPED"@,
            state.tunnel_status@ == "DISCONNECTED"@,
            state.logs@.len() == 0,
    {
        let state = WiresockState {
            tunnel_id: String::new(),
            wiresock_status: "STOPPED".to_owned(),
            tunnel_status: "DISCONNECTED".to_owned(),
            logs: Vec::new(),
        };
        assert(state@ =~= initial_state());
        state
    }

    /// Whether the WireSock process is stopped.
    pub fn is_stopped(&self) -> (stopped: bool)
        ensures
            stopped == (self@.wiresock_status == "STOPPED"@),
            stopped == (self.wiresock_status@ == "STOPPED"@),
    {
        same_text(self.wiresock_status.as_str(), "STOPPED")
    }

    /// A tunnel is about to be enabled.
    pub fn begin(&mut self, tunnel_id: &str)
        ensures
            final(self)@ == starting_state(tunnel_id@),
            final(self).tunnel_id@ == tunnel_id@,
            final(self).wiresock_status@ == "STARTING"@,
            final(self).tunnel_status@ == "DISCONNECTED"@,
            final(self).logs@.len() == 0,
    {
        self.tunnel_id = tunnel_id.to_owned();
        self.wiresock_status = "STARTING".to_owned();
        self.tunnel_status = "DISCONNECTED".to_owned();
        self.logs = Vec::new();
        assert(self@ =~= starting_state(tunnel_id@));
    }

    /// The WireSock process was started.
    pub fn mark_running(&mut self)
        ensures
            final(self)@ == running_state(old(self)@),
            final(self).tunnel_id@ == old(self).tunnel_id@,
            final(self).wiresock_status@ == "RUNNING"@,
            final(self).tunnel_status@ == old(self).tunnel_status@,
            final(self).logs@ == old(self).logs@,
    {
        self.wiresock_status = "RUNNING".to_owned();
        assert(self@ =~= running_state(old(self)@));
    }

    /// Whether `line` can be recorded under this limit.
    pub fn can_record(&self, line: &str, log_limit: i32) -> (can: bool)
        ensures
            can == (line@.len() > 0 ==> has_room(self@.logs.len(), log_limit as int)),
            can == (line@.len() == 0 || log_limit > 0 || (log_limit == 0 && self.logs@.len() > 0)),
    {
        line.is_empty() || log_limit > 0 || (log_limit == 0 && self.logs.len() > 0)
    }

    /// The WireSock process printed `line`. Returns whether the state is to be shown again.
    pub fn record_line(&mut self, line: &str, log_limit: i32) -> (shown: bool)
        requires
            line@.len() > 0 ==> has_room(old(self)@.logs.len(), log_limit as int),
        ensures
            final(self)@ == logged_state(old(self)@, line@, log_limit as int),
            shown == (line@.len() > 0),
            final(self).tunnel_id@ == old(self).tunnel_id@,
            final(self).wiresock_status@ == old(self).wiresock_status@,
            final(self).tunnel_status@ == (if has_text(line@, "Tunnel has started"@) {
                "CONNECTED"@
            } else {
                old(self).tunnel_status@
            }),
            line@.len() == 0 ==> final(self).logs@ == old(self).logs@,
            line@.len() > 0 ==> ({
                let before = old(self).logs@;
                let after = final(self).logs@;
                let dropped: int = if before.len() >= log_limit {
                    1
                } else {
                    0
                };
                &&& after.len() == before.len() - dropped + 1
                &&& after.last()@ == line@
                &&& forall|i: int|
                    0 <= i < after.len() - 1 ==> #[trigger] after[i] == before[i + dropped]
            }),
    {
        proof {
            reveal_strlit("Tunnel has started");
        }
        if line.is_empty() {
            return false;
        }
        if text_contains(line, "Tunnel has started") {
            self.tunnel_status = "CONNECTED".to_owned();
        }
        let limit: u64 = log_limit as u64;
        if self.logs.len() as u64 >= limit {
            let _oldest: String = self.logs.remove(0);
        }
        self.logs.push(line.to_owned());
        assert(self@ =~= logged_state(old(self)@, line@, log_limit as int));
        true
    }

    /// The WireSock process exited.
    pub fn mark_stopped(&mut self)
        ensures
            final(self)@ == stopped_state(old(self)@),
            final(self).tunnel_id@ == old(self).tunnel_id@,
            final(self).wiresock_status@ == "STOPPED"@,
            final(self).tunnel_status@ == "DISCONNECTED"@,
            final(self).logs@.len() == old(self).logs@.len() + 1,
            final(self).logs@.drop_last() == old(self).logs@,
            final(self).logs@.last()@ == "Tunnel Disabled. Wiresock process stopped"@,
    {
        self.release();
        self.logs.push("Tunnel Disabled. Wiresock process stopped".to_owned());
        assert(self@ =~= stopped_state(old(self)@));
    }

    /// The attempt to enable a tunnel is over, however it went.
    pub fn release(&mut self)
        ensures
            final(self)@ == released_state(old(self)@),
            final(self).tunnel_id@ == old(self).tunnel_id@,
            final(self).wiresock_status@ == "STOPPED"@,
            final(self).tunnel_status@ == "DISCONNECTED"@,
            final(self).logs@ == old(self).logs@,
    {
        self.wiresock_status = "STOPPED".to_owned();
        self.tunnel_status = "DISCONNECTED".to_owned();
        assert(self@ =~= released_state(old(self)@));
    }
}

/// The states that a tunnel goes through: at rest, being enabled, with the process running, given
/// up, and with the process ended. Only the last leaves a line in the log; being enabled clears
/// it.
pub proof fn law_states(s: StateView, tunnel_id: Seq<char>)
    ensures
        initial_state().tunnel_id.len() == 0,
        initial_state().wiresock_status == "STOPPED"@,
        initial_state().tunnel_status == "DISCONNECTED"@,
        initial_state().logs.len() == 0,
        starting_state(tunnel_id).tunnel_id == tunnel_id,
        starting_state(tunnel_id).wiresock_status == "STARTING"@,
        starting_state(tunnel_id).tunnel_status == "DISCONNECTED"@,
        starting_state(tunnel_id).logs.len() == 0,
        running_state(s).tunnel_id == s.tunnel_id,
        running_state(s).wiresock_status == "RUNNING"@,
        running_state(s).tunnel_status == s.tunnel_status,
        running_state(s).logs == s.logs,
        released_state(s).tunnel_id == s.tunnel_id,
        released_state(s).wiresock_status == "STOPPED"@,
        released_state(s).tunnel_status == "DISCONNECTED"@,
        released_state(s).logs == s.logs,
        stopped_state(s).tunnel_id == s.tunnel_id,
        stopped_state(s).wiresock_status == "STOPPED"@,
        stopped_state(s).tunnel_status == "DISCONNECTED"@,
        stopped_state(s).logs == s.logs + seq!["Tunnel Disabled. Wiresock process stopped"@],
{
    assert(stopped_state(s).logs =~= s.logs + seq![
        "Tunnel Disabled. Wiresock process stopped"@,
    ]);
}

/// The state once the process has printed these lines.
pub open spec fn lines_logged(s: StateView, lines: Seq<Seq<char>>, limit: int) -> StateView
    decreases lines.len(),
{
    if lines.len() == 0 {
        s
    } else {
        logged_state(lines_logged(s, lines.drop_last(), limit), lines.last(), limit)
    }
}

/// The lines that are not empty, in their order.
pub open spec fn printed(lines: Seq<Seq<char>>) -> Seq<Seq<char>>
    decreases lines.len(),
{
    if lines.len() == 0 {
        Seq::empty()
    } else if lines.last().len() == 0 {
        printed(lines.drop_last())
    } else {
        printed(lines.drop_last()).push(lines.last())
    }
}

/// The last `limit` of these lines, or all of them where there are no more.
pub open spec fn latest(lines: Seq<Seq<char>>, limit: int) -> Seq<Seq<char>> {
    if lines.len() <= limit {
        lines
    } else {
        lines.skip(lines.len() - limit)
    }
}

/// A line never makes a log longer than its limit, and where the log was longer already, no
/// longer than it was.
pub proof fn law_log_stays_within_limit(logs: Seq<Seq<char>>, line: Seq<char>, limit: int)
    requires
        has_room(logs.len(), limit),
    ensures
        logs.len() < limit ==> extended_log(logs, line, limit).len() == logs.len() + 1 <= limit,
        logs.len() >= limit ==> extended_log(logs, line, limit).len() == logs.len(),
        extended_log(logs, line, limit).last() == line,
{
}

/// The log holds the latest lines that are not empty, as many as the limit allows, in the order
/// in which they were printed.
pub proof fn law_log_keeps_the_latest_lines(s: StateView, lines: Seq<Seq<char>>, limit: int)
    requires
        limit > 0,
        s.logs.len() <= limit,
    ensures
        lines_logged(s, lines, limit).logs == latest(s.logs + printed(lines), limit),
    decreases lines.len(),
{
    if lines.len() == 0 {
        assert(s.logs + printed(lines) =~= s.logs);
    } else {
        let before = lines.drop_last();
        let line = lines.last();
        law_log_keeps_the_latest_lines(s, before, limit);
        if line.len() > 0 {
            let all = s.logs + printed(before);
            assert(s.logs + printed(lines) =~= all.push(line));
            assert(extended_log(latest(all, limit), line, limit) =~= latest(
                all.push(line),
                limit,
            ));
        }
    }
}

/// What is shown of a state is what it holds, text by text.
pub proof fn law_state_is_shown_whole(state: WiresockState)
    ensures
        state@.tunnel_id == state.tunnel_id@,
        state@.wiresock_status == state.wiresock_status@,
        state@.tunnel_status == state.tunnel_status@,
        state@.logs.len() == state.logs@.len(),
        forall|i: int|
            0 <= i < state.logs@.len() ==> #[trigger] state@.logs[i] == state.logs@[i]@,
{
}

/// Of the lines that the process printed, those that are not empty are logged, in their order;
/// where they are more than the limit, the latest of them.
pub proof fn law_log_is_the_end_of_the_output(s: StateView, lines: Seq<Seq<char>>, limit: int)
    requires
        limit > 0,
        s.logs.len() <= limit,
    ensures
        ({
            let all = s.logs + lines.filter(|line: Seq<char>| line.len() > 0);
            let logs = lines_logged(s, lines, limit).logs;
            &&& logs.len() == (if all.len() <= limit {
                all.len() as int
            } else {
                limit
            })
            &&& forall|i: int|
                0 <= i < logs.len() ==> #[trigger] logs[i] == all[all.len() - logs.len() + i]
        }),
{
    lemma_printed_is_filter(lines);
    law_log_keeps_the_latest_lines(s, lines, limit);
}

proof fn lemma_printed_is_filter(lines: Seq<Seq<char>>)
    ensures
        printed(lines) == lines.filter(|line: Seq<char>| line.len() > 0),
    decreases lines.len(),
{
    reveal(Seq::filter);
    if lines.len() > 0 {
        lemma_printed_is_filter(lines.drop_last());
    } else {
        assert(printed(lines) =~= lines.filter(|line: Seq<char>| line.len() > 0));
    }
}

/// One line more that is not empty stands behind all that the log held, but for the oldest line
/// where the log was full. A line of output changes nothing else but the status of the tunnel,
/// and that only where it says "Tunnel has started".
pub proof fn law_line_is_logged(s: StateView, lines: Seq<Seq<char>>, line: Seq<char>, limit: int)
    ensures
        lines_logged(s, Seq::empty(), limit) == s,
        ({
            let before = lines_logged(s, lines, limit);
            let after = lines_logged(s, lines.push(line), limit);
            &&& line.len() == 0 ==> after == before
            &&& line.len() > 0 && before.logs.len() < limit ==> after.logs == before.logs + seq![
                line,
            ]
            &&& line.len() > 0 && before.logs.len() >= limit ==> after.logs
                == before.logs.drop_first() + seq![line]
            &&& after.tunnel_id == before.tunnel_id
            &&& after.wiresock_status == before.wiresock_status
            &&& has_text(line, "Tunnel has started"@) ==> after.tunnel_status == "CONNECTED"@
            &&& !has_text(line, "Tunnel has started"@) ==> after.tunnel_status
                == before.tunnel_status
        }),
{
    reveal_strlit("Tunnel has started");
    assert(lines.push(line).drop_last() =~= lines);
    let before = lines_logged(s, lines, limit);
    assert(before.logs.push(line) =~= before.logs + seq![line]);
    assert(before.logs.drop_first().push(line) =~= before.logs.drop_first() + seq![line]);
}

/// The tunnel counts as connected once a line has announced it, and not before.
pub proof fn law_connected_when_announced(s: StateView, lines: Seq<Seq<char>>, limit: int)
    ensures
        lines_logged(s, lines, limit).tunnel_status == (if exists|i: int|
            0 <= i < lines.len() && has_text(#[trigger] lines[i], "Tunnel has started"@) {
            "CONNECTED"@
        } else {
            s.tunnel_status
        }),
    decreases lines.len(),
{
    if lines.len() > 0 {
        let before = lines.drop_last();
        let line = lines.last();
        law_connected_when_announced(s, before, limit);
        reveal_strlit("Tunnel has started");
        assert(announces_tunnel(line) ==> line.len() > 0);
        assert(forall|text: Seq<char>| #[trigger]
            announces_tunnel(text) == has_text(text, "Tunnel has started"@));
        if announces_tunnel(line) {
            assert(announces_tunnel(lines[lines.len() - 1]));
        } else if exists|i: int| 0 <= i < lines.len() && announces_tunnel(#[trigger] lines[i]) {
            let i = choose|i: int| 0 <= i < lines.len() && announces_tunnel(#[trigger] lines[i]);
            assert(announces_tunnel(before[i]));
        } else {
            assert(forall|i: int|
                0 <= i < before.len() ==> #[trigger] before[i] == lines[i]);
        }
    }
}

/// Printed lines change neither which tunnel is enabled nor the status of the process.
pub proof fn law_lines_keep_process_status(s: StateView, lines: Seq<Seq<char>>, limit: int)
    ensures
        lines_logged(s, lines, limit).tunnel_id == s.tunnel_id,
        lines_logged(s, lines, limit).wiresock_status == s.wiresock_status,
    decreases lines.len(),
{
    if lines.len() > 0 {
        law_lines_keep_process_status(s, lines.drop_last(), limit);
    }
}

} // verus!
