use watchdoc::{
    cargo_doc_command, default_ignores, survey, Action, Coordinator, Event, ExitOutcome,
    IgnoreFilter, Input, JobState, Phase, Signal, Window,
};
use watchexec_filterer_globset::GlobsetFilterer;

fn project_filter() -> IgnoreFilter {
    let mut ignores: Vec<(String, Option<std::path::PathBuf>)> = Vec::new();
    for glob in default_ignores('/') {
        ignores.push((glob, None));
    }
    let runtime = tokio::runtime::Builder::new_current_thread()
        .build()
        .unwrap();
    let rules = runtime
        .block_on(GlobsetFilterer::new("/tmp", [], ignores, [], [], []))
        .unwrap();
    IgnoreFilter::new(rules)
}

fn doc_coordinator() -> Coordinator {
    Coordinator::new(cargo_doc_command(&Vec::new()))
}

fn edit(path: &str) -> Event {
    Event::changed(vec![path.to_string()])
}

fn trigger() -> Input {
    Input::Window(Window {
        shutdown: false,
        trigger: true,
    })
}

#[test]
fn new_coordinator_is_idle() {
    let c = doc_coordinator();
    assert_eq!(c.phase, Phase::Idle);
    assert!(matches!(c.job.state, JobState::NotStarted));
    assert_eq!(c.job.command.program, "cargo");
    assert_eq!(c.job.command.args, vec!["doc".to_string()]);
}

#[test]
fn start_trigger_issues_one_build() {
    let filter = project_filter();
    let mut c = doc_coordinator();
    let action = c.handle(&vec![Event::start()], &filter);
    assert_eq!(action, Action::Spawn(1));
    assert_eq!(c.phase, Phase::Building);
    assert!(matches!(c.job.state, JobState::Running(1)));
    let after = c.step(Input::Exited(1, ExitOutcome::Success));
    assert_eq!(after, Action::Reload);
    let idle = c.step(Input::Window(Window {
        shutdown: false,
        trigger: false,
    }));
    assert_eq!(idle, Action::Nothing);
    assert_eq!(c.job.last_handle, 1);
}

#[test]
fn burst_collapses_into_one_build() {
    let filter = project_filter();
    let mut c = doc_coordinator();
    let mut burst = Vec::new();
    for i in 0..25 {
        burst.push(edit(&format!("/tmp/src/file{i}.rs")));
    }
    let window = survey(&burst, &filter);
    assert_eq!(
        window,
        Window {
            shutdown: false,
            trigger: true
        }
    );
    let action = c.handle(&burst, &filter);
    assert_eq!(action, Action::Spawn(1));
    assert_eq!(c.job.last_handle, 1);
    assert_eq!(c.phase, Phase::Building);
}

#[test]
fn burst_during_build_owes_one_build() {
    let mut c = doc_coordinator();
    assert_eq!(c.step(trigger()), Action::Spawn(1));
    assert_eq!(c.step(trigger()), Action::Cancel(1));
    assert_eq!(c.phase, Phase::AwaitingBuild);
    assert_eq!(c.step(trigger()), Action::Nothing);
    assert_eq!(c.step(trigger()), Action::Nothing);
    assert_eq!(c.phase, Phase::AwaitingBuild);
    assert_eq!(c.step(Input::Terminated(1)), Action::Spawn(2));
    assert_eq!(c.phase, Phase::Building);
    assert_eq!(c.step(Input::Terminated(1)), Action::Nothing);
    assert_eq!(c.job.last_handle, 2);
}

#[test]
fn running_build_is_cancelled_before_replacement() {
    let mut c = doc_coordinator();
    assert_eq!(c.step(trigger()), Action::Spawn(1));
    let action = c.step(trigger());
    assert_eq!(action, Action::Cancel(1));
    assert!(matches!(c.job.state, JobState::Running(1)));
    assert_eq!(c.phase, Phase::AwaitingBuild);
    let replacement = c.step(Input::Terminated(1));
    assert_eq!(replacement, Action::Spawn(2));
    assert!(matches!(c.job.state, JobState::Running(2)));
}

#[test]
fn exit_while_awaiting_starts_replacement_without_reload() {
    let mut c = doc_coordinator();
    assert_eq!(c.step(trigger()), Action::Spawn(1));
    assert_eq!(c.step(trigger()), Action::Cancel(1));
    let action = c.step(Input::Exited(1, ExitOutcome::Success));
    assert_eq!(action, Action::Spawn(2));
    assert_eq!(c.phase, Phase::Building);
}

#[test]
fn failed_build_leaves_coordinator_ready() {
    let mut c = doc_coordinator();
    assert_eq!(c.step(trigger()), Action::Spawn(1));
    let action = c.step(Input::Exited(1, ExitOutcome::from_status(101)));
    assert_eq!(action, Action::ReportFailure);
    assert_eq!(c.phase, Phase::Settled(false));
    assert!(matches!(
        c.job.state,
        JobState::Finished(ExitOutcome::Failure(101))
    ));
    assert_eq!(c.step(trigger()), Action::Spawn(2));
    assert_eq!(c.phase, Phase::Building);
    assert_eq!(c.step(Input::Exited(2, ExitOutcome::Success)), Action::Reload);
    assert_eq!(c.phase, Phase::Settled(true));
}

#[test]
fn spawn_error_is_reported_not_broadcast() {
    let mut c = doc_coordinator();
    assert_eq!(c.step(trigger()), Action::Spawn(1));
    let outcome = ExitOutcome::Errored("No such file or directory".to_string());
    assert_eq!(c.step(Input::Exited(1, outcome)), Action::ReportFailure);
    assert_eq!(c.phase, Phase::Settled(false));
    match &c.job.state {
        JobState::Finished(ExitOutcome::Errored(cause)) => {
            assert_eq!(cause, "No such file or directory")
        }
        other => panic!("unexpected state {other:?}"),
    }
    assert_eq!(c.step(trigger()), Action::Spawn(2));
}

#[test]
fn edit_rebuilds_and_reloads_once() {
    let filter = project_filter();
    let mut c = doc_coordinator();
    let mut actions = Vec::new();
    actions.push(c.handle(&vec![edit("/tmp/src/lib.rs")], &filter));
    assert_eq!(actions[0], Action::Spawn(1));
    actions.push(c.step(Input::Exited(1, ExitOutcome::from_status(0))));
    actions.push(c.handle(&vec![edit("/tmp/.git/HEAD")], &filter));
    let reloads = actions.iter().filter(|a| **a == Action::Reload).count();
    let spawns = actions
        .iter()
        .filter(|a| matches!(a, Action::Spawn(_)))
        .count();
    assert_eq!(reloads, 1);
    assert_eq!(spawns, 1);
    assert_eq!(actions[2], Action::Nothing);
    assert_eq!(c.phase, Phase::Settled(true));
    assert_eq!(c.job.last_handle, 1);
}

#[test]
fn excluded_paths_trigger_nothing() {
    let filter = project_filter();
    let mut c = doc_coordinator();
    let batch = vec![
        edit("/tmp/.git/HEAD"),
        edit("/tmp/target/doc/search-index.js"),
        Event::changed(vec![
            "/tmp/.git/index".to_string(),
            "/tmp/src/.lib.rs.swp".to_string(),
        ]),
    ];
    assert_eq!(
        survey(&batch, &filter),
        Window {
            shutdown: false,
            trigger: false
        }
    );
    assert_eq!(c.handle(&batch, &filter), Action::Nothing);
    assert_eq!(c.phase, Phase::Idle);
    assert!(matches!(c.job.state, JobState::NotStarted));
}

#[test]
fn one_included_path_is_enough() {
    let filter = project_filter();
    let batch = vec![Event::changed(vec![
        "/tmp/.git/HEAD".to_string(),
        "/tmp/src/lib.rs".to_string(),
    ])];
    assert_eq!(
        survey(&batch, &filter),
        Window {
            shutdown: false,
            trigger: true
        }
    );
}

#[test]
fn empty_batch_is_no_trigger() {
    let filter = project_filter();
    let mut c = doc_coordinator();
    assert_eq!(
        survey(&Vec::new(), &filter),
        Window {
            shutdown: false,
            trigger: false
        }
    );
    assert_eq!(c.handle(&Vec::new(), &filter), Action::Nothing);
}

#[test]
fn signal_shuts_down_and_cancels() {
    let filter = project_filter();
    let mut c = doc_coordinator();
    assert_eq!(c.step(trigger()), Action::Spawn(1));
    let batch = vec![edit("/tmp/src/lib.rs"), Event::signalled(Signal::Interrupt)];
    assert_eq!(
        survey(&batch, &filter),
        Window {
            shutdown: true,
            trigger: true
        }
    );
    assert_eq!(c.handle(&batch, &filter), Action::Quit(Some(1)));
    assert_eq!(c.phase, Phase::ShuttingDown);
}

#[test]
fn signal_while_idle_quits_without_cancel() {
    let filter = project_filter();
    let mut c = doc_coordinator();
    let action = c.handle(&vec![Event::signalled(Signal::Terminate)], &filter);
    assert_eq!(action, Action::Quit(None));
    assert_eq!(c.phase, Phase::ShuttingDown);
}

#[test]
fn shutdown_accepts_nothing_more() {
    let mut c = doc_coordinator();
    assert_eq!(c.step(trigger()), Action::Spawn(1));
    let quit = c.step(Input::Window(Window {
        shutdown: true,
        trigger: false,
    }));
    assert_eq!(quit, Action::Quit(Some(1)));
    assert_eq!(c.step(trigger()), Action::Nothing);
    assert_eq!(c.step(Input::Terminated(1)), Action::Nothing);
    assert_eq!(
        c.step(Input::Exited(1, ExitOutcome::Success)),
        Action::Nothing
    );
    assert_eq!(c.phase, Phase::ShuttingDown);
    assert_eq!(c.job.last_handle, 1);
}

#[test]
fn stale_reports_change_nothing() {
    let mut c = doc_coordinator();
    assert_eq!(
        c.step(Input::Exited(7, ExitOutcome::Success)),
        Action::Nothing
    );
    assert_eq!(c.phase, Phase::Idle);
    assert_eq!(c.step(trigger()), Action::Spawn(1));
    assert_eq!(
        c.step(Input::Exited(7, ExitOutcome::Success)),
        Action::Nothing
    );
    assert_eq!(c.step(Input::Terminated(1)), Action::Nothing);
    assert_eq!(c.phase, Phase::Building);
    assert!(matches!(c.job.state, JobState::Running(1)));
}
