//! The job that ties the WireSock process to this one, so that it ends with it.
//!
//! `new` and `add_process` decide and the caller acts: the caller performs the action that it is
//! handed and comes back with the event that followed.
use crate::text::{
    decimal_nat, law_decimal_digits, law_decimal_tells_number, push_decimal,
};
use once_cell::sync::OnceCell;
use vstd::prelude::*;
use vstd::string::*;

verus! {

/// The handle that stands for no object.
pub const INVALID_HANDLE: isize = -1;

/// A job that ends its processes when its last handle is closed.
#[derive(Debug, PartialEq, Eq)]
pub struct ChildProcessTracker {
    pub job_handle: isize,
}

/// What happened while a job was being set up.
#[derive(Debug, Clone, Copy, PartialEq, Eq)]
pub enum SetupEvent {
    /// A job was created.
    Created { job: isize },
    /// No job was created; this is the error that the system reported.
    CreateFailed { error: u32 },
    /// The job now ends its processes with its last handle.
    LimitSet { job: isize },
    /// The job could not be told to do so.
    LimitFailed { job: isize },
    /// The job was closed; this is the error that the system reported then.
    Closed { error: u32 },
}

/// What to do next to set up a job.
#[derive(Debug, PartialEq, Eq)]
pub enum SetupAction {
    /// Have the job end its processes with its last handle.
    SetKillOnClose { job: isize },
    /// Close the job, then ask the system for its last error.
    Close { job: isize },
    /// The job is set up, or it is not.
    Done(Result<ChildProcessTracker, u32>),
}

/// What happened while a process was being put under a job.
#[derive(Debug, Clone, Copy, PartialEq, Eq)]
pub enum AssignEvent {
    /// The process is to be put under the job.
    Requested,
    /// The system did so, or did not.
    Assigned(bool),
    /// This is the last error of the system.
    LastError(u32),
}

/// What to do next to put a process under a job.
#[derive(Debug, Clone, Copy, PartialEq, Eq)]
pub enum AssignAction {
    /// Put the process under the job.
    Assign { job: isize, process: isize },
    /// Ask the system for its last error.
    AskLastError,
    /// The process is under the job, or it is not.
    Done(Result<(), u32>),
}

/// What `event` calls for while a job is being set up.
pub open spec fn setup_action(event: SetupEvent) -> SetupAction {
    match event {
        SetupEvent::Created { job } => SetupAction::SetKillOnClose { job },
        SetupEvent::CreateFailed { error } => SetupAction::Done(Err(error)),
        SetupEvent::LimitSet { job } => SetupAction::Done(
            Ok(ChildProcessTracker { job_handle: job }),
        ),
        SetupEvent::LimitFailed { job } => SetupAction::Close { job },
        SetupEvent::Closed { error } => SetupAction::Done(Err(error)),
    }
}

/// What `event` calls for while `process` is being put under `job`.
pub open spec fn assign_action(job: isize, process: isize, event: AssignEvent) -> AssignAction {
    match event {
        AssignEvent::Requested => if process == 0 {
            AssignAction::AskLastError
        } else {
            AssignAction::Assign { job, process }
        },
        AssignEvent::Assigned(true) => AssignAction::Done(Ok(())),
        AssignEvent::Assigned(false) => AssignAction::AskLastError,
        AssignEvent::LastError(error) => AssignAction::Done(Err(error)),
    }
}

/// The name of the job of the process `pid`, with the zero that ends it.
pub open spec fn job_name_text(pid: u32) -> Seq<char> {
    "ChildProcessTracker"@ + decimal_nat(pid as nat) + "\0"@
}

/// The name of the job of the process `pid`, with the zero that ends it.
pub fn job_name(pid: u32) -> (name: String)
    ensures
        name@ == job_name_text(pid),
        name@ == "ChildProcessTracker"@ + decimal_nat(pid as nat) + "\0"@,
{
    let mut name: String = "ChildProcessTracker".to_owned();
    push_decimal(&mut name, pid);
    name.append("\0");
    name
}

/// The job handle that a cell is given while it is shared, if it is given one.
///
/// A shared cell is written at most once, so all that ever comes out of it is this.
pub uninterp spec fn settled(cell: OnceCell<ChildProcessTracker>) -> Option<isize>;

/// Declares `once_cell::sync::OnceCell`, a cell that can be written once while it is shared.
/// Nothing is claimed of what is inside.
#[verifier::external_type_specification]
#[verifier::external_body]
#[verifier::reject_recursive_types(T)]
pub struct ExOnceCell<T>(OnceCell<T>);

/// Calls `once_cell::sync::OnceCell::get`. What comes out of a cell is what the cell was given.
/// Whether anything comes out depends on whether the cell was written before the call, which
/// the contract leaves open.
#[verifier::external_body]
fn cell_get(cell: &OnceCell<ChildProcessTracker>) -> (held: Option<&ChildProcessTracker>)
    ensures
        held matches Some(tracker) ==> settled(*cell) == Some(tracker.job_handle),
{
    cell.get()
}

/// Calls `once_cell::sync::OnceCell::set`. It fills an empty cell; a full one keeps what it
/// holds, and the value comes back. Which of the two it was depends on whether the cell was
/// written before the call, which the contract leaves open.
#[verifier::external_body]
fn cell_set(cell: &OnceCell<ChildProcessTracker>, tracker: ChildProcessTracker) -> (done: Result<
    (),
    ChildProcessTracker,
>)
    ensures
        done is Ok ==> settled(*cell) == Some(tracker.job_handle),
        done matches Err(back) ==> back == tracker && settled(*cell) is Some,
{
    cell.set(tracker)
}

impl ChildProcessTracker {
    /// Says what to do next to set up a job.
    pub fn new(event: SetupEvent) -> (action: SetupAction)
        ensures
            action == setup_action(event),
            match event {
                SetupEvent::Created { job } => action == (SetupAction::SetKillOnClose { job }),
                SetupEvent::CreateFailed { error } => action == SetupAction::Done(Err(error)),
                SetupEvent::LimitSet { job } => {
                    action matches SetupAction::Done(Ok(tracker)) && tracker.job_handle == job
                },
                SetupEvent::LimitFailed { job } => action == (SetupAction::Close { job }),
                SetupEvent::Closed { error } => action == SetupAction::Done(Err(error)),
            },
    {
        match event {
            SetupEvent::Created { job } => SetupAction::SetKillOnClose { job },
            SetupEvent::CreateFailed { error } => SetupAction::Done(Err(error)),
            SetupEvent::LimitSet { job } => SetupAction::Done(
                Ok(ChildProcessTracker { job_handle: job }),
            ),
            SetupEvent::LimitFailed { job } => SetupAction::Close { job },
            SetupEvent::Closed { error } => SetupAction::Done(Err(error)),
        }
    }

    /// Says what to do next to put the process under the job.
    pub fn add_process(&self, process_handle: isize, event: AssignEvent) -> (action: AssignAction)
        ensures
            action == assign_action(self.job_handle, process_handle, event),
            match event {
                AssignEvent::Requested => if process_handle == 0 {
                    action is AskLastError
                } else {
                    action == (AssignAction::Assign {
                        job: self.job_handle,
                        process: process_handle,
                    })
                },
                AssignEvent::Assigned(done) => if done {
                    action == AssignAction::Done(Ok(()))
                } else {
                    action is AskLastError
                },
                AssignEvent::LastError(error) => action == AssignAction::Done(Err(error)),
            },
    {
        match event {
            AssignEvent::Requested => {
                if process_handle == 0 {
                    AssignAction::AskLastError
                } else {
                    AssignAction::Assign { job: self.job_handle, process: process_handle }
                }
            },
            AssignEvent::Assigned(done) => {
                if done {
                    AssignAction::Done(Ok(()))
                } else {
                    AssignAction::AskLastError
                }
            },
            AssignEvent::LastError(error) => AssignAction::Done(Err(error)),
        }
    }

    /// The tracker that the cell holds, if it holds one yet.
    pub fn global(cell: &OnceCell<ChildProcessTracker>) -> (held: Option<&ChildProcessTracker>)
        ensures
            held matches Some(tracker) ==> settled(*cell) == Some(tracker.job_handle),
    {
        cell_get(cell)
    }

    /// Makes this the tracker that the cell holds, unless it holds one: then this one comes back.
    pub fn make_global(self, cell: &OnceCell<ChildProcessTracker>) -> (done: Result<
        (),
        ChildProcessTracker,
    >)
        ensures
            done is Ok ==> settled(*cell) == Some(self.job_handle),
            done matches Err(back) ==> back == self && settled(*cell) is Some,
    {
        cell_set(cell, self)
    }

    /// The handle to close when the tracker is given up, if there is one.
    pub fn handle_to_close(&self) -> (handle: Option<isize>)
        ensures
            handle == (if self.job_handle == INVALID_HANDLE {
                None
            } else {
                Some(self.job_handle)
            }),
            handle is None <==> self.job_handle == -1,
            handle matches Some(closed) ==> closed == self.job_handle,
    {
        if self.job_handle != INVALID_HANDLE {
            Some(self.job_handle)
        } else {
            None
        }
    }
}

/// How the set-up of a job ends that goes on from `event`, where the system sets the limit as
/// `limited` says and reports `error` behind a close.
pub open spec fn setup_outcome(event: SetupEvent, limited: bool, error: u32, steps: nat) -> Option<
    Result<ChildProcessTracker, u32>,
>
    decreases steps,
{
    if steps == 0 {
        None
    } else {
        match setup_action(event) {
            SetupAction::SetKillOnClose { job } => setup_outcome(
                if limited {
                    SetupEvent::LimitSet { job }
                } else {
                    SetupEvent::LimitFailed { job }
                },
                limited,
                error,
                (steps - 1) as nat,
            ),
            SetupAction::Close { .. } => setup_outcome(
                SetupEvent::Closed { error },
                limited,
                error,
                (steps - 1) as nat,
            ),
            SetupAction::Done(result) => Some(result),
        }
    }
}

/// How putting `process` under `job` ends that goes on from `event`, where the system does so as
/// `assigned` says and reports `error` when asked.
pub open spec fn assign_outcome(
    job: isize,
    process: isize,
    event: AssignEvent,
    assigned: bool,
    error: u32,
    steps: nat,
) -> Option<Result<(), u32>>
    decreases steps,
{
    if steps == 0 {
        None
    } else {
        match assign_action(job, process, event) {
            AssignAction::Assign { .. } => assign_outcome(
                job,
                process,
                AssignEvent::Assigned(assigned),
                assigned,
                error,
                (steps - 1) as nat,
            ),
            AssignAction::AskLastError => assign_outcome(
                job,
                process,
                AssignEvent::LastError(error),
                assigned,
                error,
                (steps - 1) as nat,
            ),
            AssignAction::Done(result) => Some(result),
        }
    }
}

/// A job that was created ends up with a tracker where the limit was set. Where it was not, the
/// job is closed before the failure is reported.
pub proof fn law_created_job_is_tracked_or_closed(job: isize, limited: bool, error: u32)
    ensures
        setup_outcome(SetupEvent::Created { job }, limited, error, 3) == Some(
            if limited {
                Ok(ChildProcessTracker { job_handle: job })
            } else {
                Err(error)
            },
        ),
        setup_action(SetupEvent::LimitFailed { job }) == (SetupAction::Close { job }),
{
    reveal_with_fuel(setup_outcome, 4);
}

/// A process is put under a job where it has a handle and the system agrees; in every other case
/// the last error of the system is the answer. A process without a handle is never handed to
/// the system.
pub proof fn law_add_process_outcome(
    job: isize,
    process: isize,
    assigned: bool,
    error: u32,
)
    ensures
        assign_outcome(job, process, AssignEvent::Requested, assigned, error, 3) == Some(
            if process != 0 && assigned {
                Ok::<(), u32>(())
            } else {
                Err(error)
            },
        ),
        process == 0 ==> !(assign_action(job, process, AssignEvent::Requested) is Assign),
{
    reveal_with_fuel(assign_outcome, 4);
}

/// A job that was created is told to end its processes. It is handed on where that was done and
/// closed where it was not, the same job each time. A failure is reported with the error of
/// the system, and only where no job was created or after the job was closed.
pub proof fn law_setup_actions(job: isize, error: u32)
    ensures
        setup_action(SetupEvent::Created { job }) == (SetupAction::SetKillOnClose { job }),
        setup_action(SetupEvent::LimitSet { job }) == SetupAction::Done(
            Ok(ChildProcessTracker { job_handle: job }),
        ),
        setup_action(SetupEvent::LimitFailed { job }) == (SetupAction::Close { job }),
        setup_action(SetupEvent::CreateFailed { error }) == SetupAction::Done(Err(error)),
        setup_action(SetupEvent::Closed { error }) == SetupAction::Done(Err(error)),
{
}

/// The process that is put under the job is the one that was asked for, and so is the job; a
/// process without a handle is an error, and so is one that the system refuses.
pub proof fn law_assign_actions(job: isize, process: isize, error: u32)
    ensures
        process != 0 ==> assign_action(job, process, AssignEvent::Requested) == (
        AssignAction::Assign { job, process }),
        process == 0 ==> assign_action(job, process, AssignEvent::Requested) is AskLastError,
        assign_action(job, process, AssignEvent::Assigned(true)) == AssignAction::Done(Ok(())),
        assign_action(job, process, AssignEvent::Assigned(false)) is AskLastError,
        assign_action(job, process, AssignEvent::LastError(error)) == AssignAction::Done(
            Err(error),
        ),
{
}

/// The job of a process is named after it: two processes with one name are one process. The name
/// ends with a zero, and holds no other.
pub proof fn law_job_names_differ(a: u32, b: u32)
    ensures
        job_name_text(a) == job_name_text(b) ==> a == b,
        job_name_text(a).last() == '\0',
        forall|i: int|
            0 <= i < job_name_text(a).len() - 1 ==> #[trigger] job_name_text(a)[i] != '\0',
{
    reveal_strlit("ChildProcessTracker");
    reveal_strlit("\0");
    let head = "ChildProcessTracker"@;
    let name = job_name_text(a);
    law_decimal_digits(a as nat);
    assert forall|i: int| 0 <= i < name.len() - 1 implies #[trigger] name[i] != '\0' by {
        if i < head.len() {
            assert(name[i] == head[i]);
        } else {
            assert(name[i] == decimal_nat(a as nat)[i - head.len()]);
        }
    }
    if job_name_text(a) == job_name_text(b) {
        let other = job_name_text(b);
        assert(decimal_nat(a as nat) =~= name.subrange(head.len() as int, name.len() - 1));
        assert(decimal_nat(b as nat) =~= other.subrange(head.len() as int, other.len() - 1));
        law_decimal_tells_number(a as nat, b as nat);
    }
}

} // verus!
