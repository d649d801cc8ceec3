//! Runs of the coordinator over many inputs, and what holds of every run.

use crate::coordinator::{launched, next, window_of, Action, Coordinator, Input, Phase, Window};
use crate::event::Event;
use crate::job::{next_handle, Command, ExitOutcome, JobState};
use vstd::prelude::*;

verus! {

/// The state after `inputs`, taken in order from `c`, and the actions asked
/// for on the way, one for each input.
pub open spec fn run(c: Coordinator, inputs: Seq<Input>) -> (Coordinator, Seq<Action>)
    decreases inputs.len(),
{
    if inputs.len() == 0 {
        (c, Seq::empty())
    } else {
        let (mid, action) = next(c, inputs[0]);
        let (end, actions) = run(mid, inputs.drop_first());
        (end, seq![action] + actions)
    }
}

/// How many builds `actions` start.
pub open spec fn spawn_count(actions: Seq<Action>) -> nat
    decreases actions.len(),
{
    if actions.len() == 0 {
        0
    } else {
        (if actions[0] is Spawn {
            1nat
        } else {
            0nat
        }) + spawn_count(actions.drop_first())
    }
}

/// How many reloads `actions` ask for.
pub open spec fn reload_count(actions: Seq<Action>) -> nat
    decreases actions.len(),
{
    if actions.len() == 0 {
        0
    } else {
        (if actions[0] is Reload {
            1nat
        } else {
            0nat
        }) + reload_count(actions.drop_first())
    }
}

/// Whether `input` is a batch that asks for a rebuild.
pub open spec fn is_trigger(input: Input) -> bool {
    input matches Input::Window(w) && w.trigger
}

/// How many of `inputs` are batches that ask for a rebuild.
pub open spec fn trigger_count(inputs: Seq<Input>) -> nat
    decreases inputs.len(),
{
    if inputs.len() == 0 {
        0
    } else {
        (if is_trigger(inputs[0]) {
            1nat
        } else {
            0nat
        }) + trigger_count(inputs.drop_first())
    }
}

/// The builds that `c` still owes: one while it waits for the running
/// process to end, none otherwise.
pub open spec fn owed(c: Coordinator) -> nat {
    if c.phase is AwaitingBuild {
        1
    } else {
        0
    }
}

/// The processes alive after one step, given those alive before it: the
/// process that the input reports as ended is gone, and the process that
/// the action starts is there.
pub open spec fn alive_step(alive: Set<u64>, input: Input, action: Action) -> Set<u64> {
    let left = match input {
        Input::Terminated(h) => alive.remove(h),
        Input::Exited(h, _) => alive.remove(h),
        Input::Window(_) => alive,
    };
    match action {
        Action::Spawn(h) => left.insert(h),
        _ => left,
    }
}

/// The processes alive after a run from `c`, given those alive before it.
pub open spec fn alive_after(c: Coordinator, alive: Set<u64>, inputs: Seq<Input>) -> Set<u64>
    decreases inputs.len(),
{
    if inputs.len() == 0 {
        alive
    } else {
        let (mid, action) = next(c, inputs[0]);
        alive_after(mid, alive_step(alive, inputs[0], action), inputs.drop_first())
    }
}

/// The process that the job holds as running, as a set.
pub open spec fn running_set(c: Coordinator) -> Set<u64> {
    match c.job.state {
        JobState::Running(h) => set![h],
        _ => Set::empty(),
    }
}

/// Whether `input` reports that the process `handle` has ended.
pub open spec fn reports_end_of(input: Input, handle: u64) -> bool {
    ||| input == Input::Terminated(handle)
    ||| input matches Input::Exited(h, _) && h == handle
}

/// A step keeps the phase and the job in agreement.
pub proof fn lemma_step_keeps_wf(c: Coordinator, input: Input)
    requires
        c.wf(),
    ensures
        next(c, input).0.wf(),
{
}

/// Every run keeps the phase and the job in agreement, and never changes
/// the build command.
pub proof fn lemma_run_keeps_wf(c: Coordinator, inputs: Seq<Input>)
    requires
        c.wf(),
    ensures
        run(c, inputs).0.wf(),
        run(c, inputs).0.job.command == c.job.command,
        run(c, inputs).1.len() == inputs.len(),
    decreases inputs.len(),
{
    if inputs.len() > 0 {
        lemma_run_keeps_wf(next(c, inputs[0]).0, inputs.drop_first());
    }
}

/// Restart coalescing, over whole runs: the builds started, together with
/// the one that may still be owed at the end, never outnumber the batches
/// that asked for a rebuild, together with the build owed at the start.
pub proof fn lemma_builds_bounded_by_triggers(c: Coordinator, inputs: Seq<Input>)
    ensures
        spawn_count(run(c, inputs).1) + owed(run(c, inputs).0) <= trigger_count(inputs) + owed(c),
    decreases inputs.len(),
{
    if inputs.len() > 0 {
        let (mid, action) = next(c, inputs[0]);
        let (end, actions) = run(mid, inputs.drop_first());
        lemma_builds_bounded_by_triggers(mid, inputs.drop_first());
        let all = seq![action] + actions;
        assert(all[0] == action);
        assert(all.drop_first() =~= actions);
    }
}

/// A burst is one build: however many events arrive in one batch, and
/// whatever state the coordinator is in, the batch and everything that
/// follows it up to the next batch that asks for a rebuild start at most one
/// build.
pub proof fn lemma_burst_starts_at_most_one_build(
    c: Coordinator,
    events: Seq<Event>,
    excluded: Set<Seq<char>>,
    rest: Seq<Input>,
)
    requires
        trigger_count(rest) == 0,
    ensures
        spawn_count(run(c, seq![Input::Window(window_of(events, excluded))] + rest).1) <= 1,
{
    let first = Input::Window(window_of(events, excluded));
    let inputs = seq![first] + rest;
    assert(inputs[0] == first);
    assert(inputs.drop_first() =~= rest);
    let (mid, action) = next(c, first);
    let (end, actions) = run(mid, rest);
    lemma_builds_bounded_by_triggers(mid, rest);
    let all = seq![action] + actions;
    assert(all[0] == action);
    assert(all.drop_first() =~= actions);
}

/// A running build is cancelled before its replacement starts: a batch that
/// asks for a rebuild while the process `handle` runs starts nothing. It
/// asks to cancel that process, or, where that was asked already, for
/// nothing; the job still holds the same process, and a build is owed.
pub proof fn lemma_running_build_is_cancelled_first(c: Coordinator, window: Window, handle: u64)
    requires
        !(c.phase is ShuttingDown),
        c.job.state == JobState::Running(handle),
        window.trigger,
        !window.shutdown,
    ensures
        next(c, Input::Window(window)).1 == (if c.phase is AwaitingBuild {
            Action::Nothing
        } else {
            Action::Cancel(handle)
        }),
        next(c, Input::Window(window)).0.job == c.job,
        next(c, Input::Window(window)).0.phase is AwaitingBuild,
{
}

/// No two processes at once: a step starts a process only when the job has
/// none running, or when the input of that very step reports that the
/// running one has ended. The process started is the one the job then
/// holds, under a handle that differs from its predecessor's.
pub proof fn lemma_spawn_follows_end(c: Coordinator, input: Input, fresh: u64)
    requires
        next(c, input).1 == Action::Spawn(fresh),
    ensures
        next(c, input).0.job.state == JobState::Running(fresh),
        next(c, input).0.phase is Building,
        fresh == next_handle(c.job.last_handle),
        fresh != c.job.last_handle,
        c.job.state matches JobState::Running(h) ==> reports_end_of(input, h),
{
}

/// Never two processes at once, over whole runs: if at the start no process
/// is alive but the one the job holds, then after every run, with every
/// started process alive until it is reported ended, at most one process is
/// alive, and it is the one the job holds.
pub proof fn lemma_one_process_at_a_time(c: Coordinator, alive: Set<u64>, inputs: Seq<Input>)
    requires
        alive.subset_of(running_set(c)),
    ensures
        alive_after(c, alive, inputs).subset_of(running_set(run(c, inputs).0)),
        alive_after(c, alive, inputs).finite(),
        alive_after(c, alive, inputs).len() <= 1,
    decreases inputs.len(),
{
    if inputs.len() == 0 {
        vstd::set_lib::lemma_len_subset(alive, running_set(c));
    } else {
        let (mid, action) = next(c, inputs[0]);
        lemma_one_process_at_a_time(mid, alive_step(alive, inputs[0], action), inputs.drop_first());
    }
}

/// The start trigger starts exactly one build: from the initial state, a
/// batch that holds the start trigger alone asks to spawn the first process,
/// and nothing that follows starts another until a batch asks for a rebuild
/// again.
pub proof fn lemma_start_issues_one_build(
    command: Command,
    start: Event,
    excluded: Set<Seq<char>>,
    rest: Seq<Input>,
)
    requires
        start.is_start(),
        trigger_count(rest) == 0,
    ensures
        window_of(seq![start], excluded) == (Window { shutdown: false, trigger: true }),
        next(
            Coordinator::initial(command),
            Input::Window(window_of(seq![start], excluded)),
        ) == (launched(Coordinator::initial(command)), Action::Spawn(1)),
        spawn_count(
            run(
                Coordinator::initial(command),
                seq![Input::Window(window_of(seq![start], excluded))] + rest,
            ).1,
        ) == 1,
{
    let events = seq![start];
    assert(events[0].triggers(excluded));
    assert(!events[0].has_signal());
    let window = window_of(events, excluded);
    assert(window.trigger);
    assert(!window.shutdown);
    let c = Coordinator::initial(command);
    let first = Input::Window(window);
    let inputs = seq![first] + rest;
    assert(inputs[0] == first);
    assert(inputs.drop_first() =~= rest);
    let (mid, action) = next(c, first);
    let (end, actions) = run(mid, rest);
    lemma_builds_bounded_by_triggers(mid, rest);
    let all = seq![action] + actions;
    assert(all[0] == action);
    assert(all.drop_first() =~= actions);
}

/// A failed build does not stop the coordinator: when the running build
/// ends with anything but success, the operator is told and nobody is told
/// to reload; the coordinator rests, and the next batch that asks for a
/// rebuild starts one at once.
pub proof fn lemma_failed_build_leaves_ready(
    c: Coordinator,
    handle: u64,
    outcome: ExitOutcome,
    window: Window,
)
    requires
        c.wf(),
        c.phase is Building,
        c.job.state == JobState::Running(handle),
        !(outcome is Success),
        window.trigger,
        !window.shutdown,
    ensures
        next(c, Input::Exited(handle, outcome)).1 == Action::ReportFailure,
        next(c, Input::Exited(handle, outcome)).0.phase == Phase::Settled(false),
        next(c, Input::Exited(handle, outcome)).0.is_ready(),
        next(next(c, Input::Exited(handle, outcome)).0, Input::Window(window)).1 == Action::Spawn(
            next_handle(handle),
        ),
        next(next(c, Input::Exited(handle, outcome)).0, Input::Window(window)).0.phase is Building,
{
}

/// A reload is asked for only when the running build has just ended in
/// success: never for a failure, a cancelled build or a stale report.
pub proof fn lemma_reload_only_on_success(c: Coordinator, input: Input)
    ensures
        next(c, input).1 == Action::Reload <==> {
            &&& !(c.phase is ShuttingDown)
            &&& !(c.phase is AwaitingBuild)
            &&& input matches Input::Exited(h, outcome)
            &&& c.job.state == JobState::Running(h)
            &&& outcome is Success
        },
{
}

/// Reloads never outnumber builds: in a run from a state with no process
/// running, every reload answers a build started in that run.
pub proof fn lemma_reloads_bounded_by_builds(c: Coordinator, inputs: Seq<Input>)
    ensures
        reload_count(run(c, inputs).1) + (if run(c, inputs).0.job.state is Running {
            1nat
        } else {
            0nat
        }) <= spawn_count(run(c, inputs).1) + (if c.job.state is Running {
            1nat
        } else {
            0nat
        }),
    decreases inputs.len(),
{
    if inputs.len() > 0 {
        let (mid, action) = next(c, inputs[0]);
        let (end, actions) = run(mid, inputs.drop_first());
        lemma_reloads_bounded_by_builds(mid, inputs.drop_first());
        let all = seq![action] + actions;
        assert(all[0] == action);
        assert(all.drop_first() =~= actions);
    }
}

/// After a signal nothing is accepted: once shutting down, every input
/// leaves the state as it is and asks for nothing.
pub proof fn lemma_shutdown_is_final(c: Coordinator, inputs: Seq<Input>)
    requires
        c.phase is ShuttingDown,
    ensures
        run(c, inputs).0 == c,
        spawn_count(run(c, inputs).1) == 0,
        reload_count(run(c, inputs).1) == 0,
    decreases inputs.len(),
{
    if inputs.len() > 0 {
        let (mid, action) = next(c, inputs[0]);
        let (end, actions) = run(mid, inputs.drop_first());
        lemma_shutdown_is_final(mid, inputs.drop_first());
        let all = seq![action] + actions;
        assert(all[0] == action);
        assert(all.drop_first() =~= actions);
    }
}

/// A batch that carries a signal shuts the coordinator down, whatever else
/// it holds, and asks to end the running process if there is one.
pub proof fn lemma_signal_shuts_down(
    c: Coordinator,
    events: Seq<Event>,
    excluded: Set<Seq<char>>,
    i: int,
)
    requires
        !(c.phase is ShuttingDown),
        0 <= i < events.len(),
        events[i].has_signal(),
    ensures
        next(c, Input::Window(window_of(events, excluded))).0.phase is ShuttingDown,
        next(c, Input::Window(window_of(events, excluded))).0.job == c.job,
        next(c, Input::Window(window_of(events, excluded))).1 == Action::Quit(
            c.job.running_handle(),
        ),
{
}

/// No trigger is dropped: after a batch that asks for a rebuild, either a
/// build was started or one is owed; and an owed build starts as soon as the
/// running process is reported gone.
pub proof fn lemma_trigger_is_honoured(c: Coordinator, window: Window)
    requires
        c.wf(),
        !(c.phase is ShuttingDown),
        window.trigger,
        !window.shutdown,
    ensures
        next(c, Input::Window(window)).1 is Spawn || next(
            c,
            Input::Window(window),
        ).0.phase is AwaitingBuild,
        next(c, Input::Window(window)).0.phase is AwaitingBuild ==> next(
            next(c, Input::Window(window)).0,
            Input::Terminated(c.job.last_handle),
        ).1 is Spawn,
{
}

} // verus!
