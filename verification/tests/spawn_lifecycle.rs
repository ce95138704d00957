use freertos_rt::spawn::{SpawnLifecycle, WorkState};

#[test]
fn rejected_spawn_frees_the_work_once_and_never_runs_it() {
    let mut life = SpawnLifecycle::new();
    assert_eq!(life.state, WorkState::Boxed);
    assert_eq!(life.invoked, 0);
    assert_eq!(life.freed, 0);

    life.kernel_rejected();
    assert_eq!(life.state, WorkState::Rejected);
    assert_eq!(life.freed, 1, "the box is dropped exactly once");
    assert_eq!(life.invoked, 0, "no trampoline invocation occurs");
}

#[test]
fn accepted_spawn_runs_the_work_exactly_once() {
    let mut life = SpawnLifecycle::new();
    life.kernel_accepted();
    assert_eq!(life.state, WorkState::Scheduled);
    assert_eq!(life.invoked, 0, "the work has not run before the trampoline");

    life.trampoline_ran();
    assert_eq!(life.state, WorkState::Exited);
    assert_eq!(life.invoked, 1, "the work's body is invoked exactly once");
    assert_eq!(life.freed, 1, "the box is dropped exactly once");
}

#[test]
fn handle_dies_with_the_work() {
    // After the work returns the task deletes itself: the handle names a
    // live task only between acceptance and exit.
    let mut life = SpawnLifecycle::new();
    life.kernel_accepted();
    assert_eq!(life.state, WorkState::Scheduled);
    life.trampoline_ran();
    assert_ne!(life.state, WorkState::Scheduled);
}
