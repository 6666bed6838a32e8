//! Enabling a tunnel: from the request to the end of the WireSock process.
//!
//! `enable_wiresock` decides and the caller acts: the caller performs the action that it is
//! handed and comes back with the event that followed.
use crate::config::{config_text, tunnel_config};
use crate::state::{
    has_room, lines_logged, logged_state, released_state, running_state, starting_state,
    stopped_state, StateView, WiresockState,
};
use crate::text::{has_text, texts};
use crate::tunnel::Tunnel;
use vstd::prelude::*;
use vstd::string::*;

verus! {

/// How far the enabling of a tunnel has come: what the caller is doing.
#[derive(Debug, Clone, Copy, PartialEq, Eq, Structural)]
pub enum EnablePhase {
    /// Nothing has been asked for yet.
    New,
    /// The user's home directory is being looked up.
    Locating,
    /// The configuration file is being written.
    Configuring,
    /// The WireSock installation is being looked up.
    FindingInstallation,
    /// The WireSock process is being started.
    Launching,
    /// The process is being tied to this one.
    Tracking,
    /// The output of the process is being read.
    Reading,
    /// The process is being waited for.
    Exiting,
    /// It is over.
    Finished,
}

/// What happened, over texts of type `T`.
#[derive(Debug)]
pub enum EnableEvent<T> {
    /// The user asked for the tunnel.
    Requested,
    /// There is a home directory.
    HomeFound,
    /// There is no home directory.
    HomeMissing,
    /// The configuration file was written to `path`.
    ConfigWritten { path: T },
    /// WireSock is installed in `location`.
    InstallationFound { location: T },
    /// The process was started.
    Spawned,
    /// The process was tied to this one, or could not be.
    ProcessTracked,
    /// The process printed a line; the log is limited to `log_limit` lines.
    Line { text: T, log_limit: i32 },
    /// The process will print nothing more.
    OutputEnded,
    /// The process exited.
    Exited,
    /// Waiting for the process failed.
    WaitFailed,
}

/// What to do next, over texts of type `T` and lists of them of type `L`.
#[derive(Debug)]
pub enum EnableAction<T, L> {
    /// Look up the user's home directory.
    FindHome,
    /// Create the directory that these names lead to from the home directory, and write the file
    /// there.
    WriteConfig { directory: L, file_name: T, text: T },
    /// Look up the WireSock installation.
    FindInstallation,
    /// Start the program with these arguments.
    Launch { program: T, arguments: L },
    /// Tie the process to this one, so that it ends with it.
    TrackProcess,
    /// Read the next line that the process prints.
    ReadLine,
    /// Wait for the process to exit.
    WaitForExit,
    /// Answer the request.
    Return(Result<(), T>),
}

/// The answer to an event.
#[derive(Debug)]
pub struct EnableReply {
    /// Whether the state is to be shown again, before the action.
    pub shown: bool,
    pub action: EnableAction<String, Vec<String>>,
}

/// One attempt to enable a tunnel.
#[derive(Debug)]
pub struct EnableSession {
    pub tunnel: Tunnel,
    pub log_level: String,
    pub config_path: String,
    pub phase: EnablePhase,
}

impl View for EnableEvent<String> {
    type V = EnableEvent<Seq<char>>;

    open spec fn view(&self) -> EnableEvent<Seq<char>> {
        match self {
            EnableEvent::Requested => EnableEvent::Requested,
            EnableEvent::HomeFound => EnableEvent::HomeFound,
            EnableEvent::HomeMissing => EnableEvent::HomeMissing,
            EnableEvent::ConfigWritten { path } => EnableEvent::ConfigWritten { path: path@ },
            EnableEvent::InstallationFound { location } => EnableEvent::InstallationFound {
                location: location@,
            },
            EnableEvent::Spawned => EnableEvent::Spawned,
            EnableEvent::ProcessTracked => EnableEvent::ProcessTracked,
            EnableEvent::Line { text, log_limit } => EnableEvent::Line {
                text: text@,
                log_limit: *log_limit,
            },
            EnableEvent::OutputEnded => EnableEvent::OutputEnded,
            EnableEvent::Exited => EnableEvent::Exited,
            EnableEvent::WaitFailed => EnableEvent::WaitFailed,
        }
    }
}

impl View for EnableAction<String, Vec<String>> {
    type V = EnableAction<Seq<char>, Seq<Seq<char>>>;

    open spec fn view(&self) -> EnableAction<Seq<char>, Seq<Seq<char>>> {
        match self {
            EnableAction::FindHome => EnableAction::FindHome,
            EnableAction::WriteConfig { directory, file_name, text } => EnableAction::WriteConfig {
                directory: texts(directory@),
                file_name: file_name@,
                text: text@,
            },
            EnableAction::FindInstallation => EnableAction::FindInstallation,
            EnableAction::Launch { program, arguments } => EnableAction::Launch {
                program: program@,
                arguments: texts(arguments@),
            },
            EnableAction::TrackProcess => EnableAction::TrackProcess,
            EnableAction::ReadLine => EnableAction::ReadLine,
            EnableAction::WaitForExit => EnableAction::WaitForExit,
            EnableAction::Return(result) => EnableAction::Return(
                match result {
                    Ok(()) => Ok(()),
                    Err(e) => Err(e@),
                },
            ),
        }
    }
}

/// What an `EnableSession` holds.
pub struct SessionView {
    pub tunnel: Tunnel,
    pub log_level: Seq<char>,
    pub config_path: Seq<char>,
    pub phase: EnablePhase,
}

impl View for EnableSession {
    type V = SessionView;

    open spec fn view(&self) -> SessionView {
        SessionView {
            tunnel: self.tunnel,
            log_level: self.log_level@,
            config_path: self.config_path@,
            phase: self.phase,
        }
    }
}

/// A session and the state, and what the caller is told.
pub struct EnableStep {
    pub session: SessionView,
    pub state: StateView,
    pub shown: bool,
    pub action: EnableAction<Seq<char>, Seq<Seq<char>>>,
}

/// `event` can follow what the caller does in `phase`.
pub open spec fn expects<T>(phase: EnablePhase, event: EnableEvent<T>) -> bool {
    match event {
        EnableEvent::Requested => phase == EnablePhase::New,
        EnableEvent::HomeFound => phase == EnablePhase::Locating,
        EnableEvent::HomeMissing => phase == EnablePhase::Locating,
        EnableEvent::ConfigWritten { .. } => phase == EnablePhase::Configuring,
        EnableEvent::InstallationFound { .. } => phase == EnablePhase::FindingInstallation,
        EnableEvent::Spawned => phase == EnablePhase::Launching,
        EnableEvent::ProcessTracked => phase == EnablePhase::Tracking,
        EnableEvent::Line { .. } => phase == EnablePhase::Reading,
        EnableEvent::OutputEnded => phase == EnablePhase::Reading,
        EnableEvent::Exited => phase == EnablePhase::Exiting,
        EnableEvent::WaitFailed => phase == EnablePhase::Exiting,
    }
}

/// Where the configuration file stands, from the home directory.
pub open spec fn config_directory() -> Seq<Seq<char>> {
    seq!["AppData"@, "Local"@, "TunnlTo"@]
}

/// The WireSock program of an installation.
pub open spec fn program_path(location: Seq<char>) -> Seq<char> {
    location + "/bin/wiresock-client.exe"@
}

/// What the WireSock program is started with.
pub open spec fn program_arguments(config_path: Seq<char>, log_level: Seq<char>) -> Seq<Seq<char>> {
    seq!["run"@, "-config"@, config_path, "-log-level"@, log_level]
}

/// What `event` makes of a session and the state, and what is to be done.
pub open spec fn enable_step(
    session: SessionView,
    state: StateView,
    event: EnableEvent<Seq<char>>,
) -> EnableStep {
    match event {
        EnableEvent::Requested => if state.wiresock_status == "STOPPED"@ {
            EnableStep {
                session: SessionView { phase: EnablePhase::Locating, ..session },
                state: starting_state(session.tunnel.id@),
                shown: true,
                action: EnableAction::FindHome,
            }
        } else {
            EnableStep {
                session: SessionView { phase: EnablePhase::Finished, ..session },
                state,
                shown: false,
                action: EnableAction::Return(Err("enable_wiresock is already running"@)),
            }
        },
        EnableEvent::HomeMissing => EnableStep {
            session: SessionView { phase: EnablePhase::Finished, ..session },
            state: released_state(state),
            shown: false,
            action: EnableAction::Return(Err("Unable to retrieve the user home directory."@)),
        },
        EnableEvent::HomeFound => EnableStep {
            session: SessionView { phase: EnablePhase::Configuring, ..session },
            state,
            shown: false,
            action: EnableAction::WriteConfig {
                directory: config_directory(),
                file_name: "tunnel.conf"@,
                text: config_text(session.tunnel),
            },
        },
        EnableEvent::ConfigWritten { path } => EnableStep {
            session: SessionView {
                phase: EnablePhase::FindingInstallation,
                config_path: path,
                ..session
            },
            state,
            shown: false,
            action: EnableAction::FindInstallation,
        },
        EnableEvent::InstallationFound { location } => EnableStep {
            session: SessionView { phase: EnablePhase::Launching, ..session },
            state,
            shown: false,
            action: EnableAction::Launch {
                program: program_path(location),
                arguments: program_arguments(session.config_path, session.log_level),
            },
        },
        EnableEvent::Spawned => EnableStep {
            session: SessionView { phase: EnablePhase::Tracking, ..session },
            state: running_state(state),
            shown: true,
            action: EnableAction::TrackProcess,
        },
        EnableEvent::ProcessTracked => EnableStep {
            session: SessionView { phase: EnablePhase::Reading, ..session },
            state,
            shown: false,
            action: EnableAction::ReadLine,
        },
        EnableEvent::Line { text, log_limit } => EnableStep {
            session: SessionView { phase: EnablePhase::Reading, ..session },
            state: logged_state(state, text, log_limit as int),
            shown: text.len() > 0,
            action: EnableAction::ReadLine,
        },
        EnableEvent::OutputEnded => EnableStep {
            session: SessionView { phase: EnablePhase::Exiting, ..session },
            state,
            shown: false,
            action: EnableAction::WaitForExit,
        },
        EnableEvent::Exited => EnableStep {
            session: SessionView { phase: EnablePhase::Finished, ..session },
            state: stopped_state(state),
            shown: true,
            action: EnableAction::Return(Ok(())),
        },
        EnableEvent::WaitFailed => EnableStep {
            session: SessionView { phase: EnablePhase::Finished, ..session },
            state: released_state(state),
            shown: false,
            action: EnableAction::Return(Ok(())),
        },
    }
}

/// The log has room for the line of `event`, if it is one.
pub open spec fn line_fits(state: StateView, event: EnableEvent<Seq<char>>) -> bool {
    match event {
        EnableEvent::Line { text, log_limit } => text.len() > 0 ==> has_room(
            state.logs.len(),
            log_limit as int,
        ),
        _ => true,
    }
}

impl EnableSession {
    /// An attempt to enable `tunnel`, with the process logging at `log_level`.
    pub fn new(tunnel: Tunnel, log_level: String) -> (session: Self)
        ensures
            session@ == (SessionView {
                tunnel,
                log_level: log_level@,
                config_path: Seq::empty(),
                phase: EnablePhase::New,
            }),
            session.tunnel == tunnel,
            session.log_level@ == log_level@,
            session.phase == EnablePhase::New,
    {
        EnableSession { tunnel, log_level, config_path: String::new(), phase: EnablePhase::New }
    }
}

/// The names that lead from the home directory to the directory of the configuration file.
fn config_directory_names() -> (names: Vec<String>)
    ensures
        texts(names@) == config_directory(),
        names@.len() == 3,
        names@[0]@ == "AppData"@,
        names@[1]@ == "Local"@,
        names@[2]@ == "TunnlTo"@,
{
    let names: Vec<String> = vec!["AppData".to_owned(), "Local".to_owned(), "TunnlTo".to_owned()];
    assert(texts(names@) =~= config_directory());
    names
}

/// The arguments for the WireSock program.
fn launch_arguments(config_path: &String, log_level: &String) -> (arguments: Vec<String>)
    ensures
        texts(arguments@) == program_arguments(config_path@, log_level@),
        arguments@.len() == 5,
        arguments@[0]@ == "run"@,
        arguments@[1]@ == "-config"@,
        arguments@[2]@ == config_path@,
        arguments@[3]@ == "-log-level"@,
        arguments@[4]@ == log_level@,
{
    let arguments: Vec<String> = vec![
        "run".to_owned(),
        "-config".to_owned(),
        config_path.clone(),
        "-log-level".to_owned(),
        log_level.clone(),
    ];
    assert(texts(arguments@) =~= program_arguments(config_path@, log_level@));
    arguments
}

/// Takes the session and the state past `event`, and says what to do next.
pub fn enable_wiresock(
    session: &mut EnableSession,
    state: &mut WiresockState,
    event: EnableEvent<String>,
) -> (reply: EnableReply)
    requires
        expects(old(session)@.phase, event@),
        line_fits(old(state)@, event@),
    ensures
        ({
            let step = enable_step(old(session)@, old(state)@, event@);
            &&& final(session)@ == step.session
            &&& final(state)@ == step.state
            &&& reply.shown == step.shown
            &&& reply.action@ == step.action
        }),
        final(session).tunnel == old(session).tunnel,
        final(session).log_level@ == old(session).log_level@,
        match event {
            EnableEvent::Requested => if old(state).wiresock_status@ == "STOPPED"@ {
                &&& reply.shown
                &&& reply.action is FindHome
                &&& final(state).tunnel_id@ == old(session).tunnel.id@
                &&& final(state).wiresock_status@ == "STARTING"@
                &&& final(state).tunnel_status@ == "DISCONNECTED"@
                &&& final(state).logs@.len() == 0
            } else {
                &&& !reply.shown
                &&& reply.action matches EnableAction::Return(Err(text)) && text@
                    == "enable_wiresock is already running"@
                &&& *final(state) == *old(state)
            },
            EnableEvent::HomeMissing => {
                &&& !reply.shown
                &&& reply.action matches EnableAction::Return(Err(text)) && text@
                    == "Unable to retrieve the user home directory."@
            },
            EnableEvent::HomeFound => {
                &&& reply.action matches EnableAction::WriteConfig { directory, file_name, text }
                &&& directory@.len() == 3
                &&& directory@[0]@ == "AppData"@
                &&& directory@[1]@ == "Local"@
                &&& directory@[2]@ == "TunnlTo"@
                &&& file_name@ == "tunnel.conf"@
                &&& text@ == config_text(old(session).tunnel)
                &&& *final(state) == *old(state)
            },
            EnableEvent::ConfigWritten { path } => {
                &&& reply.action is FindInstallation
                &&& final(session).config_path@ == path@
                &&& *final(state) == *old(state)
            },
            EnableEvent::InstallationFound { location } => {
                &&& reply.action matches EnableAction::Launch { program, arguments }
                &&& program@ == location@ + "/bin/wiresock-client.exe"@
                &&& arguments@.len() == 5
                &&& arguments@[0]@ == "run"@
                &&& arguments@[1]@ == "-config"@
                &&& arguments@[2]@ == old(session).config_path@
                &&& arguments@[3]@ == "-log-level"@
                &&& arguments@[4]@ == old(session).log_level@
                &&& *final(state) == *old(state)
            },
            EnableEvent::Spawned => {
                &&& reply.shown
                &&& reply.action is TrackProcess
                &&& final(state).wiresock_status@ == "RUNNING"@
                &&& final(state).tunnel_id@ == old(state).tunnel_id@
                &&& final(state).tunnel_status@ == old(state).tunnel_status@
                &&& final(state).logs@ == old(state).logs@
            },
            EnableEvent::ProcessTracked => reply.action is ReadLine && *final(state) == *old(state),
            EnableEvent::Line { text, log_limit } => {
                &&& reply.action is ReadLine
                &&& reply.shown == (text@.len() > 0)
                &&& has_text(text@, "Tunnel has started"@) ==> final(state).tunnel_status@
                    == "CONNECTED"@
                &&& !has_text(text@, "Tunnel has started"@) ==> final(state).tunnel_status@
                    == old(state).tunnel_status@
                &&& final(state).tunnel_id@ == old(state).tunnel_id@
                &&& final(state).wiresock_status@ == old(state).wiresock_status@
                &&& text@.len() == 0 ==> final(state).logs@ == old(state).logs@
                &&& text@.len() > 0 ==> {
                    let dropped: int = if old(state).logs@.len() >= log_limit {
                        1
                    } else {
                        0
                    };
                    &&& final(state).logs@.len() == old(state).logs@.len() - dropped + 1
                    &&& final(state).logs@.last()@ == text@
                    &&& forall|i: int|
                        0 <= i < final(state).logs@.len() - 1 ==> #[trigger] final(state).logs@[i]
                            == old(state).logs@[i + dropped]
                }
            },
            EnableEvent::OutputEnded => reply.action is WaitForExit && *final(state) == *old(state),
            EnableEvent::Exited => {
                &&& reply.shown
                &&& reply.action matches EnableAction::Return(Ok(()))
                &&& final(state).logs@.len() == old(state).logs@.len() + 1
                &&& final(state).logs@.drop_last() == old(state).logs@
                &&& final(state).logs@.last()@ == "Tunnel Disabled. Wiresock process stopped"@
            },
            EnableEvent::WaitFailed => {
                &&& !reply.shown
                &&& reply.action matches EnableAction::Return(Ok(()))
                &&& final(state).logs@ == old(state).logs@
            },
        },
        event is HomeMissing || event is Exited || event is WaitFailed ==> {
            &&& final(state).wiresock_status@ == "STOPPED"@
            &&& final(state).tunnel_status@ == "DISCONNECTED"@
            &&& final(state).tunnel_id@ == old(state).tunnel_id@
        },
        event is HomeMissing ==> final(state).logs@ == old(state).logs@,
        final(session).phase == (match event {
            EnableEvent::Requested => if old(state).wiresock_status@ == "STOPPED"@ {
                EnablePhase::Locating
            } else {
                EnablePhase::Finished
            },
            EnableEvent::HomeFound => EnablePhase::Configuring,
            EnableEvent::ConfigWritten { .. } => EnablePhase::FindingInstallation,
            EnableEvent::InstallationFound { .. } => EnablePhase::Launching,
            EnableEvent::Spawned => EnablePhase::Tracking,
            EnableEvent::ProcessTracked => EnablePhase::Reading,
            EnableEvent::Line { .. } => EnablePhase::Reading,
            EnableEvent::OutputEnded => EnablePhase::Exiting,
            EnableEvent::HomeMissing | EnableEvent::Exited | EnableEvent::WaitFailed => {
                EnablePhase::Finished
            },
        }),
{
    match event {
        EnableEvent::Requested => {
            if state.is_stopped() {
                session.phase = EnablePhase::Locating;
                state.begin(session.tunnel.id.as_str());
                EnableReply { shown: true, action: EnableAction::FindHome }
            } else {
                session.phase = EnablePhase::Finished;
                EnableReply {
                    shown: false,
                    action: EnableAction::Return(
                        Err("enable_wiresock is already running".to_owned()),
                    ),
                }
            }
        },
        EnableEvent::HomeMissing => {
            session.phase = EnablePhase::Finished;
            state.release();
            EnableReply {
                shown: false,
                action: EnableAction::Return(
                    Err("Unable to retrieve the user home directory.".to_owned()),
                ),
            }
        },
        EnableEvent::HomeFound => {
            session.phase = EnablePhase::Configuring;
            EnableReply {
                shown: false,
                action: EnableAction::WriteConfig {
                    directory: config_directory_names(),
                    file_name: "tunnel.conf".to_owned(),
                    text: tunnel_config(&session.tunnel),
                },
            }
        },
        EnableEvent::ConfigWritten { path } => {
            session.phase = EnablePhase::FindingInstallation;
            session.config_path = path;
            EnableReply { shown: false, action: EnableAction::FindInstallation }
        },
        EnableEvent::InstallationFound { location } => {
            session.phase = EnablePhase::Launching;
            let mut program: String = location;
            program.append("/bin/wiresock-client.exe");
            EnableReply {
                shown: false,
                action: EnableAction::Launch {
                    program,
                    arguments: launch_arguments(&session.config_path, &session.log_level),
                },
            }
        },
        EnableEvent::Spawned => {
            session.phase = EnablePhase::Tracking;
            state.mark_running();
            EnableReply { shown: true, action: EnableAction::TrackProcess }
        },
        EnableEvent::ProcessTracked => {
            session.phase = EnablePhase::Reading;
            EnableReply { shown: false, action: EnableAction::ReadLine }
        },
        EnableEvent::Line { text, log_limit } => {
            session.phase = EnablePhase::Reading;
            let shown: bool = state.record_line(text.as_str(), log_limit);
            EnableReply { shown, action: EnableAction::ReadLine }
        },
        EnableEvent::OutputEnded => {
            session.phase = EnablePhase::Exiting;
            EnableReply { shown: false, action: EnableAction::WaitForExit }
        },
        EnableEvent::Exited => {
            session.phase = EnablePhase::Finished;
            state.mark_stopped();
            EnableReply { shown: true, action: EnableAction::Return(Ok(())) }
        },
        EnableEvent::WaitFailed => {
            session.phase = EnablePhase::Finished;
            state.release();
            EnableReply { shown: false, action: EnableAction::Return(Ok(())) }
        },
    }
}

/// The process is stopped and the tunnel is down.
pub open spec fn is_down(state: StateView) -> bool {
    state.wiresock_status == "STOPPED"@ && state.tunnel_status == "DISCONNECTED"@
}

/// A tunnel is being enabled or is enabled.
pub open spec fn is_active(phase: EnablePhase) -> bool {
    phase != EnablePhase::New && phase != EnablePhase::Finished
}

/// The state says what an active session has come to: nothing but an attempt until the process
/// was started, and a running process from then on.
pub open spec fn reflects(session: SessionView, state: StateView) -> bool {
    &&& is_active(session.phase)
    &&& state.tunnel_id == session.tunnel.id@
    &&& match session.phase {
        EnablePhase::Reading | EnablePhase::Exiting => {
            &&& state.wiresock_status == "RUNNING"@
            &&& state.tunnel_status == "DISCONNECTED"@ || state.tunnel_status == "CONNECTED"@
        },
        EnablePhase::Tracking => {
            &&& state.wiresock_status == "RUNNING"@
            &&& state.tunnel_status == "DISCONNECTED"@
            &&& state.logs.len() == 0
        },
        _ => {
            &&& state.wiresock_status == "STARTING"@
            &&& state.tunnel_status == "DISCONNECTED"@
            &&& state.logs.len() == 0
        },
    }
}

/// The statuses of the process are three different texts.
proof fn lemma_statuses_differ()
    ensures
        "STARTING"@ != "STOPPED"@,
        "RUNNING"@ != "STOPPED"@,
{
    reveal_strlit("STARTING");
    reveal_strlit("RUNNING");
    reveal_strlit("STOPPED");
    assert("STARTING"@.len() == 8);
    assert("RUNNING"@[0] == 'R');
    assert("STOPPED"@[0] == 'S');
}

/// A session that is not refused keeps the state true to it until it ends, and leaves the
/// process stopped and the tunnel down when it does, however it ends.
pub proof fn law_state_reflects_session(
    session: SessionView,
    state: StateView,
    event: EnableEvent<Seq<char>>,
)
    requires
        expects(session.phase, event),
        session.phase == EnablePhase::New ==> state.wiresock_status == "STOPPED"@,
        session.phase != EnablePhase::New ==> reflects(session, state),
    ensures
        ({
            let step = enable_step(session, state, event);
            if step.action is Return {
                step.session.phase == EnablePhase::Finished && is_down(step.state)
            } else {
                reflects(step.session, step.state)
            }
        }),
{
}

/// While a session is active every other request is refused, and leaves the state as it is.
pub proof fn law_one_session_at_a_time(active: SessionView, state: StateView, other: SessionView)
    requires
        reflects(active, state),
    ensures
        ({
            let step = enable_step(other, state, EnableEvent::Requested);
            &&& step.action == EnableAction::<Seq<char>, Seq<Seq<char>>>::Return(
                Err("enable_wiresock is already running"@),
            )
            &&& step.state == state
            &&& !step.shown
        }),
{
    lemma_statuses_differ();
}

/// Once a session has ended, the next request is granted.
pub proof fn law_ended_session_can_be_followed(
    session: SessionView,
    state: StateView,
    event: EnableEvent<Seq<char>>,
    next: SessionView,
)
    requires
        expects(session.phase, event),
        reflects(session, state),
        enable_step(session, state, event).action is Return,
    ensures
        ({
            let ended = enable_step(session, state, event);
            let step = enable_step(next, ended.state, EnableEvent::Requested);
            &&& step.action is FindHome
            &&& step.state == starting_state(next.tunnel.id@)
        }),
{
}

/// WireSock is launched with the configuration file that was written for the session, at the
/// log level that was asked for.
pub proof fn law_launch_uses_written_config(
    session: SessionView,
    state: StateView,
    path: Seq<char>,
    location: Seq<char>,
)
    ensures
        ({
            let written = enable_step(session, state, EnableEvent::ConfigWritten { path });
            let launched = enable_step(
                written.session,
                written.state,
                EnableEvent::InstallationFound { location },
            );
            &&& !written.shown
            &&& written.action is FindInstallation
            &&& written.session.phase == EnablePhase::FindingInstallation
            &&& written.state == state
            &&& !launched.shown
            &&& launched.session.phase == EnablePhase::Launching
            &&& launched.state == state
            &&& launched.action == (EnableAction::Launch {
                program: location + "/bin/wiresock-client.exe"@,
                arguments: seq!["run"@, "-config"@, path, "-log-level"@, session.log_level],
            })
        }),
{
}

/// Sessions that ask for different log levels, or whose configuration was written to different
/// files, are launched with different arguments; installations in different places are
/// launched from different programs.
pub proof fn law_launches_differ(
    one: SessionView,
    other: SessionView,
    state: StateView,
    here: Seq<char>,
    there: Seq<char>,
)
    ensures
        ({
            let first = enable_step(
                one,
                state,
                EnableEvent::InstallationFound { location: here },
            ).action;
            let second = enable_step(
                other,
                state,
                EnableEvent::InstallationFound { location: there },
            ).action;
            &&& one.log_level != other.log_level ==> first->arguments != second->arguments
            &&& one.config_path != other.config_path ==> first->arguments != second->arguments
            &&& here != there ==> first->program != second->program
        }),
{
    let first = program_arguments(one.config_path, one.log_level);
    let second = program_arguments(other.config_path, other.log_level);
    assert(first[2] == one.config_path && first[4] == one.log_level);
    assert(second[2] == other.config_path && second[4] == other.log_level);
    if program_path(here) == program_path(there) {
        let tail = "/bin/wiresock-client.exe"@;
        assert(here =~= program_path(here).take(program_path(here).len() - tail.len()));
        assert(there =~= program_path(there).take(program_path(there).len() - tail.len()));
    }
}

/// What a session says of itself is what it holds.
pub proof fn law_session_is_shown_whole(session: EnableSession)
    ensures
        session@.tunnel == session.tunnel,
        session@.log_level == session.log_level@,
        session@.config_path == session.config_path@,
        session@.phase == session.phase,
{
}

/// What is said of an event is what it holds, and of which kind it is.
pub proof fn law_event_is_shown_whole(event: EnableEvent<String>)
    ensures
        match event {
            EnableEvent::Requested => event@ is Requested,
            EnableEvent::HomeFound => event@ is HomeFound,
            EnableEvent::HomeMissing => event@ is HomeMissing,
            EnableEvent::ConfigWritten { path } => event@ == (EnableEvent::ConfigWritten {
                path: path@,
            }),
            EnableEvent::InstallationFound { location } => event@ == (
            EnableEvent::InstallationFound { location: location@ }),
            EnableEvent::Spawned => event@ is Spawned,
            EnableEvent::ProcessTracked => event@ is ProcessTracked,
            EnableEvent::Line { text, log_limit } => event@ == (EnableEvent::Line {
                text: text@,
                log_limit,
            }),
            EnableEvent::OutputEnded => event@ is OutputEnded,
            EnableEvent::Exited => event@ is Exited,
            EnableEvent::WaitFailed => event@ is WaitFailed,
        },
{
}

/// What is said of an action is what it holds, and of which kind it is.
pub proof fn law_action_is_shown_whole(action: EnableAction<String, Vec<String>>)
    ensures
        match action {
            EnableAction::FindHome => action@ is FindHome,
            EnableAction::WriteConfig { directory, file_name, text } => {
                &&& action@ matches EnableAction::WriteConfig {
                    directory: names,
                    file_name: name,
                    text: held,
                }
                &&& names.len() == directory@.len()
                &&& forall|i: int|
                    0 <= i < directory@.len() ==> #[trigger] names[i] == directory@[i]@
                &&& name == file_name@
                &&& held == text@
            },
            EnableAction::FindInstallation => action@ is FindInstallation,
            EnableAction::Launch { program, arguments } => {
                &&& action@ matches EnableAction::Launch { program: path, arguments: given }
                &&& path == program@
                &&& given.len() == arguments@.len()
                &&& forall|i: int|
                    0 <= i < arguments@.len() ==> #[trigger] given[i] == arguments@[i]@
            },
            EnableAction::TrackProcess => action@ is TrackProcess,
            EnableAction::ReadLine => action@ is ReadLine,
            EnableAction::WaitForExit => action@ is WaitForExit,
            EnableAction::Return(Ok(())) => action@ matches EnableAction::Return(Ok(())),
            EnableAction::Return(Err(error)) => {
                action@ matches EnableAction::Return(Err(text)) && text == error@
            },
        },
{
}

/// Every event can be taken but a line that is not empty while the log has no room: where the
/// limit is below zero, or it is zero and there is no line to give up.
pub proof fn law_line_fits(state: StateView, event: EnableEvent<Seq<char>>)
    ensures
        line_fits(state, event) == (match event {
            EnableEvent::Line { text, log_limit } => {
                ||| text.len() == 0
                ||| log_limit > 0
                ||| log_limit == 0 && state.logs.len() > 0
            },
            _ => true,
        }),
{
}

/// A run is taken event by event, each from where the one before it led, and can be taken as far
/// as each event is awaited there.
pub proof fn law_run_goes_on(
    session: SessionView,
    state: StateView,
    events: Seq<EnableEvent<Seq<char>>>,
    event: EnableEvent<Seq<char>>,
)
    ensures
        enable_run(session, state, Seq::empty()) == (session, state),
        can_happen(session, state, Seq::empty()),
        ({
            let (before, held) = enable_run(session, state, events);
            let step = enable_step(before, held, event);
            &&& enable_run(session, state, events.push(event)) == (step.session, step.state)
            &&& can_happen(session, state, events.push(event)) == (can_happen(
                session,
                state,
                events,
            ) && expects(before.phase, event))
        }),
{
    assert(events.push(event).drop_last() =~= events);
}

/// A request is granted exactly where the process is stopped. One that is granted names its
/// tunnel, clears the log and asks for the home directory; one that is refused is told so and
/// changes nothing.
pub proof fn law_request(session: SessionView, state: StateView)
    ensures
        ({
            let step = enable_step(session, state, EnableEvent::Requested);
            &&& state.wiresock_status == "STOPPED"@ ==> {
                &&& step.shown
                &&& step.action is FindHome
                &&& step.session.phase == EnablePhase::Locating
                &&& step.state.tunnel_id == session.tunnel.id@
                &&& step.state.wiresock_status == "STARTING"@
                &&& step.state.tunnel_status == "DISCONNECTED"@
                &&& step.state.logs.len() == 0
            }
            &&& state.wiresock_status != "STOPPED"@ ==> {
                &&& !step.shown
                &&& step.action matches EnableAction::Return(Err(text)) && text
                    == "enable_wiresock is already running"@
                &&& step.session.phase == EnablePhase::Finished
                &&& step.state == state
            }
        }),
{
}

/// A home directory leads to the configuration file of the session's tunnel, below it in
/// AppData, Local, TunnlTo; without one the request fails and the tunnel is down.
pub proof fn law_home(session: SessionView, state: StateView)
    ensures
        ({
            let step = enable_step(session, state, EnableEvent::HomeFound);
            &&& !step.shown
            &&& step.state == state
            &&& step.session.phase == EnablePhase::Configuring
            &&& step.action matches EnableAction::WriteConfig { directory, file_name, text }
            &&& directory == seq!["AppData"@, "Local"@, "TunnlTo"@]
            &&& file_name == "tunnel.conf"@
            &&& text == config_text(session.tunnel)
        }),
        ({
            let step = enable_step(session, state, EnableEvent::HomeMissing);
            &&& !step.shown
            &&& step.session.phase == EnablePhase::Finished
            &&& step.state.tunnel_id == state.tunnel_id
            &&& step.state.wiresock_status == "STOPPED"@
            &&& step.state.tunnel_status == "DISCONNECTED"@
            &&& step.state.logs == state.logs
            &&& step.action matches EnableAction::Return(Err(text)) && text
                == "Unable to retrieve the user home directory."@
        }),
{
}

/// What the process does: started, it counts as running and is tied to this one; then its lines
/// are read until there are no more; then it is waited for. Its end is logged and shown, and
/// the request succeeds. Where waiting fails the request succeeds too, but nothing is logged.
/// Either way the process is stopped then and the tunnel is down.
pub proof fn law_process_life(session: SessionView, state: StateView)
    ensures
        ({
            let step = enable_step(session, state, EnableEvent::Spawned);
            &&& step.shown
            &&& step.action is TrackProcess
            &&& step.session.phase == EnablePhase::Tracking
            &&& step.state.tunnel_id == state.tunnel_id
            &&& step.state.wiresock_status == "RUNNING"@
            &&& step.state.tunnel_status == state.tunnel_status
            &&& step.state.logs == state.logs
        }),
        ({
            let step = enable_step(session, state, EnableEvent::ProcessTracked);
            &&& !step.shown
            &&& step.action is ReadLine
            &&& step.session.phase == EnablePhase::Reading
            &&& step.state == state
        }),
        ({
            let step = enable_step(session, state, EnableEvent::OutputEnded);
            &&& !step.shown
            &&& step.action is WaitForExit
            &&& step.session.phase == EnablePhase::Exiting
            &&& step.state == state
        }),
        ({
            let step = enable_step(session, state, EnableEvent::Exited);
            &&& step.shown
            &&& step.action matches EnableAction::Return(Ok(()))
            &&& step.session.phase == EnablePhase::Finished
            &&& step.state.tunnel_id == state.tunnel_id
            &&& step.state.wiresock_status == "STOPPED"@
            &&& step.state.tunnel_status == "DISCONNECTED"@
            &&& step.state.logs == state.logs.push("Tunnel Disabled. Wiresock process stopped"@)
        }),
        ({
            let step = enable_step(session, state, EnableEvent::WaitFailed);
            &&& !step.shown
            &&& step.action matches EnableAction::Return(Ok(()))
            &&& step.session.phase == EnablePhase::Finished
            &&& step.state.tunnel_id == state.tunnel_id
            &&& step.state.wiresock_status == "STOPPED"@
            &&& step.state.tunnel_status == "DISCONNECTED"@
            &&& step.state.logs == state.logs
        }),
{
}

/// A line of the process is shown exactly where it is not empty, and makes the tunnel connected
/// exactly where it holds "Tunnel has started". It stands last in the log, which loses its
/// oldest line for it where it is full.
pub proof fn law_line(session: SessionView, state: StateView, text: Seq<char>, log_limit: i32)
    ensures
        ({
            let step = enable_step(session, state, EnableEvent::Line { text, log_limit });
            &&& step.action is ReadLine
            &&& step.session.phase == EnablePhase::Reading
            &&& step.shown == (text.len() > 0)
            &&& step.state.tunnel_id == state.tunnel_id
            &&& step.state.wiresock_status == state.wiresock_status
            &&& step.state.tunnel_status == (if has_text(text, "Tunnel has started"@) {
                "CONNECTED"@
            } else {
                state.tunnel_status
            })
            &&& step.state.logs == (if text.len() == 0 {
                state.logs
            } else if state.logs.len() >= log_limit {
                state.logs.drop_first().push(text)
            } else {
                state.logs.push(text)
            })
        }),
{
    reveal_strlit("Tunnel has started");
}

/// No event changes the tunnel or the log level of a session, and only the written configuration
/// changes its path.
pub proof fn law_session_keeps_its_request(
    session: SessionView,
    state: StateView,
    event: EnableEvent<Seq<char>>,
)
    ensures
        ({
            let step = enable_step(session, state, event);
            &&& step.session.tunnel == session.tunnel
            &&& step.session.log_level == session.log_level
            &&& step.session.config_path == (match event {
                EnableEvent::ConfigWritten { path } => path,
                _ => session.config_path,
            })
        }),
{
}

/// The events of a session come in one order: each is awaited in one phase, and every phase but
/// the last awaits one.
pub proof fn law_events_are_awaited(
    phase: EnablePhase,
    path: Seq<char>,
    location: Seq<char>,
    text: Seq<char>,
    log_limit: i32,
)
    ensures
        expects(phase, EnableEvent::<Seq<char>>::Requested) == (phase == EnablePhase::New),
        expects(phase, EnableEvent::<Seq<char>>::HomeFound) == (phase == EnablePhase::Locating),
        expects(phase, EnableEvent::<Seq<char>>::HomeMissing) == (phase == EnablePhase::Locating),
        expects(phase, EnableEvent::ConfigWritten { path }) == (phase == EnablePhase::Configuring),
        expects(phase, EnableEvent::InstallationFound { location }) == (phase
            == EnablePhase::FindingInstallation),
        expects(phase, EnableEvent::<Seq<char>>::Spawned) == (phase == EnablePhase::Launching),
        expects(phase, EnableEvent::<Seq<char>>::ProcessTracked) == (phase
            == EnablePhase::Tracking),
        expects(phase, EnableEvent::Line { text, log_limit }) == (phase == EnablePhase::Reading),
        expects(phase, EnableEvent::<Seq<char>>::OutputEnded) == (phase == EnablePhase::Reading),
        expects(phase, EnableEvent::<Seq<char>>::Exited) == (phase == EnablePhase::Exiting),
        expects(phase, EnableEvent::<Seq<char>>::WaitFailed) == (phase == EnablePhase::Exiting),
{
}

/// The process is to be tied to this one as soon as it was started, and before anything that it
/// prints is read.
pub proof fn law_process_is_tracked_first(
    session: SessionView,
    state: StateView,
    event: EnableEvent<Seq<char>>,
)
    requires
        expects(session.phase, event),
    ensures
        ({
            let step = enable_step(session, state, event);
            &&& event is Spawned ==> step.action is TrackProcess
            &&& step.action is ReadLine ==> event is Line || event is ProcessTracked
            &&& step.session.phase == EnablePhase::Tracking ==> event is Spawned
        }),
{
}

/// The session and the state once all of `events` have happened.
pub open spec fn enable_run(
    session: SessionView,
    state: StateView,
    events: Seq<EnableEvent<Seq<char>>>,
) -> (SessionView, StateView)
    decreases events.len(),
{
    if events.len() == 0 {
        (session, state)
    } else {
        let (before, held) = enable_run(session, state, events.drop_last());
        let step = enable_step(before, held, events.last());
        (step.session, step.state)
    }
}

/// Each of `events` can follow those before it.
pub open spec fn can_happen(
    session: SessionView,
    state: StateView,
    events: Seq<EnableEvent<Seq<char>>>,
) -> bool
    decreases events.len(),
{
    events.len() == 0 || {
        &&& can_happen(session, state, events.drop_last())
        &&& expects(enable_run(session, state, events.drop_last()).0.phase, events.last())
    }
}

/// Whatever happens in a session that was granted: as long as it lasts the state is true to it,
/// and once it is over the process is stopped and the tunnel is down.
pub proof fn law_granted_session(
    session: SessionView,
    state: StateView,
    events: Seq<EnableEvent<Seq<char>>>,
)
    requires
        session.phase == EnablePhase::New,
        state.wiresock_status == "STOPPED"@,
        events.len() > 0,
        can_happen(session, state, events),
    ensures
        ({
            let (ended, left) = enable_run(session, state, events);
            &&& if ended.phase == EnablePhase::Finished {
                is_down(left)
            } else {
                reflects(ended, left)
            }
            &&& left.tunnel_id == session.tunnel.id@
            &&& left.tunnel_status == "CONNECTED"@ || left.tunnel_status == "DISCONNECTED"@
            &&& match ended.phase {
                EnablePhase::Finished => {
                    &&& left.wiresock_status == "STOPPED"@
                    &&& left.tunnel_status == "DISCONNECTED"@
                },
                EnablePhase::Tracking => {
                    &&& left.wiresock_status == "RUNNING"@
                    &&& left.tunnel_status == "DISCONNECTED"@
                },
                EnablePhase::Reading | EnablePhase::Exiting => left.wiresock_status == "RUNNING"@,
                _ => {
                    &&& left.wiresock_status == "STARTING"@
                    &&& left.tunnel_status == "DISCONNECTED"@
                },
            }
        }),
    decreases events.len(),
{
    let before = events.drop_last();
    let (earlier, held) = enable_run(session, state, before);
    if before.len() > 0 {
        law_granted_session(session, state, before);
    }
    law_state_reflects_session(earlier, held, events.last());
}

/// The events of a process that prints `lines`.
pub open spec fn line_events(lines: Seq<Seq<char>>, log_limit: i32) -> Seq<
    EnableEvent<Seq<char>>,
> {
    lines.map_values(|text: Seq<char>| EnableEvent::Line { text, log_limit })
}

/// A session logs every line that the process prints, and nothing else.
pub proof fn law_session_logs_output(
    session: SessionView,
    state: StateView,
    lines: Seq<Seq<char>>,
    log_limit: i32,
)
    requires
        session.phase == EnablePhase::Reading,
    ensures
        can_happen(session, state, line_events(lines, log_limit)),
        enable_run(session, state, line_events(lines, log_limit)) == (
            session,
            lines_logged(state, lines, log_limit as int),
        ),
    decreases lines.len(),
{
    let events = line_events(lines, log_limit);
    if lines.len() > 0 {
        law_session_logs_output(session, state, lines.drop_last(), log_limit);
        assert(events.drop_last() =~= line_events(lines.drop_last(), log_limit));
    }
}

} // verus!
