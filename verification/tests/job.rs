use watchdoc::{
    cargo_doc_command, BuildJob, Command, ExitOutcome, JobState, ProcessEnd, Restart,
};

fn job() -> BuildJob {
    BuildJob::new(cargo_doc_command(&Vec::new()))
}

#[test]
fn cargo_doc_command_without_extra_arguments() {
    let cmd = cargo_doc_command(&Vec::new());
    assert_eq!(cmd.program, "cargo");
    assert_eq!(cmd.args, vec!["doc".to_string()]);
}

#[test]
fn cargo_doc_command_keeps_extra_arguments_in_order() {
    let extra = vec![
        "--no-deps".to_string(),
        "-p".to_string(),
        "my-crate".to_string(),
    ];
    let cmd = cargo_doc_command(&extra);
    assert_eq!(cmd.program, "cargo");
    assert_eq!(
        cmd.args,
        vec![
            "doc".to_string(),
            "--no-deps".to_string(),
            "-p".to_string(),
            "my-crate".to_string()
        ]
    );
    assert_eq!(extra.len(), 3);
}

#[test]
fn command_duplicate_is_equal() {
    let cmd = Command {
        program: "firefox".to_string(),
        args: vec!["--new-tab".to_string(), "-P".to_string()],
    };
    let copy = cmd.duplicate();
    assert_eq!(copy.program, "firefox");
    assert_eq!(copy.args, cmd.args);
}

#[test]
fn exit_status_zero_is_success() {
    assert!(matches!(ExitOutcome::from_status(0), ExitOutcome::Success));
    assert!(ExitOutcome::from_status(0).is_success());
}

#[test]
fn nonzero_exit_status_is_failure_with_code() {
    assert!(matches!(
        ExitOutcome::from_status(1),
        ExitOutcome::Failure(1)
    ));
    assert!(matches!(
        ExitOutcome::from_status(-9),
        ExitOutcome::Failure(-9)
    ));
    assert!(matches!(
        ExitOutcome::from_status(i64::MAX),
        ExitOutcome::Failure(i64::MAX)
    ));
    assert!(!ExitOutcome::from_status(101).is_success());
    assert!(!ExitOutcome::Errored("missing".to_string()).is_success());
}

#[test]
fn new_job_has_not_started() {
    let j = job();
    assert!(matches!(j.state, JobState::NotStarted));
    assert_eq!(j.last_handle, 0);
    assert_eq!(j.running(), None);
}

#[test]
fn restart_of_resting_job_spawns() {
    let mut j = job();
    assert_eq!(j.restart(), Restart::Spawn(1));
    assert!(matches!(j.state, JobState::Running(1)));
    assert_eq!(j.running(), Some(1));
    assert_eq!(j.last_handle, 1);
}

#[test]
fn restart_of_running_job_asks_to_cancel() {
    let mut j = job();
    assert_eq!(j.restart(), Restart::Spawn(1));
    assert_eq!(j.restart(), Restart::CancelFirst(1));
    assert_eq!(j.restart(), Restart::CancelFirst(1));
    assert!(matches!(j.state, JobState::Running(1)));
    assert_eq!(j.last_handle, 1);
}

#[test]
fn replace_starts_the_next_process() {
    let mut j = job();
    assert_eq!(j.restart(), Restart::Spawn(1));
    assert_eq!(j.replace(1), Some(2));
    assert!(matches!(j.state, JobState::Running(2)));
    assert_eq!(j.replace(1), None);
    assert!(matches!(j.state, JobState::Running(2)));
}

#[test]
fn replace_of_resting_job_does_nothing() {
    let mut j = job();
    assert_eq!(j.replace(0), None);
    assert!(matches!(j.state, JobState::NotStarted));
    assert_eq!(j.last_handle, 0);
}

#[test]
fn finish_records_the_outcome() {
    let mut j = job();
    assert_eq!(j.restart(), Restart::Spawn(1));
    assert!(!j.finish(5, ExitOutcome::Success));
    assert!(matches!(j.state, JobState::Running(1)));
    assert!(j.finish(1, ExitOutcome::from_status(2)));
    assert!(matches!(
        j.state,
        JobState::Finished(ExitOutcome::Failure(2))
    ));
    assert!(!j.finish(1, ExitOutcome::Success));
    assert_eq!(j.restart(), Restart::Spawn(2));
}

#[test]
fn handles_wrap_around() {
    let mut j = job();
    j.last_handle = u64::MAX - 1;
    assert_eq!(j.restart(), Restart::Spawn(u64::MAX));
    assert_eq!(j.replace(u64::MAX), Some(0));
    assert!(matches!(j.state, JobState::Running(0)));
    assert_eq!(j.replace(0), Some(1));
}

#[test]
fn job_keeps_its_command() {
    let mut j = BuildJob::new(cargo_doc_command(&vec!["--no-deps".to_string()]));
    j.restart();
    j.finish(1, ExitOutcome::Success);
    j.restart();
    j.replace(2);
    assert_eq!(j.command.program, "cargo");
    assert_eq!(
        j.command.args,
        vec!["doc".to_string(), "--no-deps".to_string()]
    );
}

#[test]
fn process_end_by_exit_is_judged_by_status() {
    assert!(matches!(
        ExitOutcome::from_end(ProcessEnd::Success),
        ExitOutcome::Success
    ));
    assert!(matches!(
        ExitOutcome::from_end(ProcessEnd::ExitError(101)),
        ExitOutcome::Failure(101)
    ));
    assert!(matches!(
        ExitOutcome::from_end(ProcessEnd::ExitError(0)),
        ExitOutcome::Success
    ));
}

#[test]
fn other_process_ends_are_errors() {
    match ExitOutcome::from_end(ProcessEnd::ExitSignal) {
        ExitOutcome::Errored(cause) => assert_eq!(cause, "the build was ended by a signal"),
        other => panic!("unexpected outcome {other:?}"),
    }
    match ExitOutcome::from_end(ProcessEnd::ExitStop) {
        ExitOutcome::Errored(cause) => assert_eq!(cause, "the build was stopped"),
        other => panic!("unexpected outcome {other:?}"),
    }
    match ExitOutcome::from_end(ProcessEnd::Exception) {
        ExitOutcome::Errored(cause) => assert_eq!(cause, "the build was ended by an exception"),
        other => panic!("unexpected outcome {other:?}"),
    }
    match ExitOutcome::from_end(ProcessEnd::Continued) {
        ExitOutcome::Errored(cause) => assert_eq!(cause, "the build did not end"),
        other => panic!("unexpected outcome {other:?}"),
    }
}
