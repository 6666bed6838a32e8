use once_cell::sync::OnceCell;
use tunnlto::process::{
    job_name, AssignAction, AssignEvent, ChildProcessTracker, SetupAction, SetupEvent,
    INVALID_HANDLE,
};

#[test]
fn the_job_is_named_after_the_process() {
    assert_eq!(job_name(4096), "ChildProcessTracker4096\0");
    assert_eq!(job_name(0), "ChildProcessTracker0\0");
}

#[test]
fn a_job_is_set_up() {
    let action = ChildProcessTracker::new(SetupEvent::Created { job: 7 });
    assert_eq!(action, SetupAction::SetKillOnClose { job: 7 });
    let action = ChildProcessTracker::new(SetupEvent::LimitSet { job: 7 });
    assert_eq!(action, SetupAction::Done(Ok(ChildProcessTracker { job_handle: 7 })));
}

#[test]
fn a_job_that_cannot_be_created_is_an_error() {
    let action = ChildProcessTracker::new(SetupEvent::CreateFailed { error: 5 });
    assert_eq!(action, SetupAction::Done(Err(5)));
}

#[test]
fn a_job_without_its_limit_is_closed() {
    let action = ChildProcessTracker::new(SetupEvent::LimitFailed { job: 7 });
    assert_eq!(action, SetupAction::Close { job: 7 });
    let action = ChildProcessTracker::new(SetupEvent::Closed { error: 87 });
    assert_eq!(action, SetupAction::Done(Err(87)));
}

#[test]
fn a_process_is_put_under_the_job() {
    let tracker = ChildProcessTracker { job_handle: 7 };
    let action = tracker.add_process(12, AssignEvent::Requested);
    assert_eq!(action, AssignAction::Assign { job: 7, process: 12 });
    let action = tracker.add_process(12, AssignEvent::Assigned(true));
    assert_eq!(action, AssignAction::Done(Ok(())));
}

#[test]
fn a_refused_process_is_an_error() {
    let tracker = ChildProcessTracker { job_handle: 7 };
    let action = tracker.add_process(12, AssignEvent::Assigned(false));
    assert_eq!(action, AssignAction::AskLastError);
    let action = tracker.add_process(12, AssignEvent::LastError(6));
    assert_eq!(action, AssignAction::Done(Err(6)));
}

#[test]
fn a_process_without_a_handle_is_an_error() {
    let tracker = ChildProcessTracker { job_handle: 7 };
    let action = tracker.add_process(0, AssignEvent::Requested);
    assert_eq!(action, AssignAction::AskLastError);
    let action = tracker.add_process(0, AssignEvent::LastError(6));
    assert_eq!(action, AssignAction::Done(Err(6)));
}

#[test]
fn the_first_tracker_stays_the_global_one() {
    let cell: OnceCell<ChildProcessTracker> = OnceCell::new();
    assert_eq!(ChildProcessTracker::global(&cell), None);
    let first = ChildProcessTracker { job_handle: 7 };
    assert_eq!(first.make_global(&cell), Ok(()));
    assert_eq!(ChildProcessTracker::global(&cell), Some(&ChildProcessTracker { job_handle: 7 }));
    let second = ChildProcessTracker { job_handle: 8 };
    assert_eq!(second.make_global(&cell), Err(ChildProcessTracker { job_handle: 8 }));
    assert_eq!(ChildProcessTracker::global(&cell), Some(&ChildProcessTracker { job_handle: 7 }));
}

#[test]
fn only_a_valid_handle_is_closed() {
    assert_eq!(ChildProcessTracker { job_handle: 7 }.handle_to_close(), Some(7));
    assert_eq!(ChildProcessTracker { job_handle: INVALID_HANDLE }.handle_to_close(), None);
}
