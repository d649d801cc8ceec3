//! The rebuild coordinator: from the state and what happened to the next
//! state and what to do.
//!
//! The coordinator does not run anything. Each step returns one [`Action`];
//! whoever drives it carries the action out and reports back with the next
//! [`Input`].

use crate::event::Event;
use crate::ignore::{FilterDecision, IgnoreFilter};
use crate::job::{next_handle, BuildJob, Command, ExitOutcome, JobState, Restart};
use vstd::prelude::*;

verus! {

/// Where the coordinator stands.
#[derive(Debug, Clone, Copy, PartialEq, Eq, Structural)]
pub enum Phase {
    /// Nothing was asked for yet.
    Idle,
    /// A build was asked for while the previous one was still running; it
    /// starts once that one has ended.
    AwaitingBuild,
    /// A build is running.
    Building,
    /// The last build has ended; `true` if it succeeded.
    Settled(bool),
    /// A signal asked to stop. No further input is accepted.
    ShuttingDown,
}

/// What one batch of events amounts to.
#[derive(Debug, Clone, Copy, PartialEq, Eq, Structural)]
pub struct Window {
    /// Some event carries a signal.
    pub shutdown: bool,
    /// Some event asks for a rebuild.
    pub trigger: bool,
}

/// What the coordinator is told.
#[derive(Debug)]
pub enum Input {
    /// A batch of events arrived.
    Window(Window),
    /// The process with this handle is gone, after an [`Action::Cancel`].
    Terminated(u64),
    /// The process with this handle ended by itself.
    Exited(u64, ExitOutcome),
}

/// What the coordinator asks for.
#[derive(Debug, Clone, Copy, PartialEq, Eq, Structural)]
pub enum Action {
    /// Nothing to do.
    Nothing,
    /// End the process with this handle, then report `Terminated`.
    Cancel(u64),
    /// Run the build command as the process with this handle, then report
    /// how it ended with `Exited`.
    Spawn(u64),
    /// The build succeeded: tell every subscriber to reload.
    Reload,
    /// The build failed: tell the operator. Nobody is told to reload.
    ReportFailure,
    /// Stop, after ending the process with this handle if there is one.
    Quit(Option<u64>),
}

/// The rebuild coordinator. It owns the one build job.
#[derive(Debug)]
pub struct Coordinator {
    pub phase: Phase,
    pub job: BuildJob,
}

/// What a batch of events amounts to under a filter that rejects `excluded`.
pub open spec fn window_of(events: Seq<Event>, excluded: Set<Seq<char>>) -> Window {
    Window {
        shutdown: exists|i: int| 0 <= i < events.len() && (#[trigger] events[i]).has_signal(),
        trigger: exists|i: int| 0 <= i < events.len() && (#[trigger] events[i]).triggers(excluded),
    }
}

/// The coordinator after a fresh process was started in it.
pub open spec fn launched(c: Coordinator) -> Coordinator {
    Coordinator {
        phase: Phase::Building,
        job: BuildJob {
            command: c.job.command,
            state: JobState::Running(next_handle(c.job.last_handle)),
            last_handle: next_handle(c.job.last_handle),
        },
    }
}

/// The coordinator after its process ended with `outcome`.
pub open spec fn settled(c: Coordinator, outcome: ExitOutcome) -> Coordinator {
    Coordinator {
        phase: Phase::Settled(outcome is Success),
        job: BuildJob {
            command: c.job.command,
            state: JobState::Finished(outcome),
            last_handle: c.job.last_handle,
        },
    }
}

/// The coordinator in another phase.
pub open spec fn in_phase(c: Coordinator, phase: Phase) -> Coordinator {
    Coordinator { phase, job: c.job }
}

/// The transition relation: the state that follows `c` on `input`, and the
/// action asked for.
///
/// * Once shutting down, nothing changes any more.
/// * A batch with a signal shuts down and asks to end the running process.
/// * A batch without a trigger changes nothing.
/// * A batch with a trigger starts a build when none runs. When one runs it
///   is cancelled first, and the build starts once it is reported gone;
///   further triggers meanwhile are covered by that pending build.
/// * The end of the running build settles the coordinator; a success asks
///   for a reload, anything else for a report. Reports about any other
///   process are stale and change nothing.
pub open spec fn next(c: Coordinator, input: Input) -> (Coordinator, Action) {
    if c.phase is ShuttingDown {
        (c, Action::Nothing)
    } else {
        match input {
            Input::Window(w) => {
                if w.shutdown {
                    (in_phase(c, Phase::ShuttingDown), Action::Quit(c.job.running_handle()))
                } else if !w.trigger {
                    (c, Action::Nothing)
                } else {
                    match c.job.state {
                        JobState::Running(h) => {
                            if c.phase is AwaitingBuild {
                                (c, Action::Nothing)
                            } else {
                                (in_phase(c, Phase::AwaitingBuild), Action::Cancel(h))
                            }
                        },
                        _ => (launched(c), Action::Spawn(next_handle(c.job.last_handle))),
                    }
                }
            },
            Input::Terminated(h) => {
                if c.phase is AwaitingBuild && c.job.state == JobState::Running(h) {
                    (launched(c), Action::Spawn(next_handle(c.job.last_handle)))
                } else {
                    (c, Action::Nothing)
                }
            },
            Input::Exited(h, outcome) => {
                if c.job.state == JobState::Running(h) {
                    if c.phase is AwaitingBuild {
                        (launched(c), Action::Spawn(next_handle(c.job.last_handle)))
                    } else {
                        (
                            settled(c, outcome),
                            if outcome is Success {
                                Action::Reload
                            } else {
                                Action::ReportFailure
                            },
                        )
                    }
                } else {
                    (c, Action::Nothing)
                }
            },
        }
    }
}

fn event_triggers(event: &Event, filter: &IgnoreFilter) -> (yes: bool)
    ensures
        yes == event.triggers(filter.excluded()),
{
    if event.paths.len() == 0 && event.signals.len() == 0 {
        return true;
    }
    let mut j: usize = 0;
    while j < event.paths.len()
        invariant
            j <= event.paths.len(),
            forall|k: int| 0 <= k < j ==> filter.excluded().contains(#[trigger] event.paths@[k]@),
        decreases event.paths.len() - j,
    {
        match filter.decide(event.paths[j].as_str()) {
            FilterDecision::Include => {
                assert(!filter.excluded().contains(event.paths@[j as int]@));
                return true;
            },
            FilterDecision::Exclude => {},
        }
        j += 1;
    }
    false
}

/// Sums up a batch of events: whether any carries a signal, and whether any
/// asks for a rebuild under `filter`. However many events the batch holds,
/// it amounts to one window.
pub fn survey(events: &Vec<Event>, filter: &IgnoreFilter) -> (window: Window)
    ensures
        window == window_of(events@, filter.excluded()),
{
    let mut shutdown = false;
    let mut trigger = false;
    let mut i: usize = 0;
    while i < events.len()
        invariant
            i <= events.len(),
            shutdown == exists|k: int| 0 <= k < i && (#[trigger] events@[k]).has_signal(),
            trigger == exists|k: int|
                0 <= k < i && (#[trigger] events@[k]).triggers(filter.excluded()),
        decreases events.len() - i,
    {
        let event = &events[i];
        let signalled = event.signals.len() > 0;
        let wanted = event_triggers(event, filter);
        if signalled {
            shutdown = true;
        }
        if wanted {
            trigger = true;
        }
        i += 1;
    }
    Window { shutdown, trigger }
}

impl Coordinator {
    /// A coordinator for `command`, idle, with a job that has not run.
    pub open spec fn initial(command: Command) -> Coordinator {
        Coordinator {
            phase: Phase::Idle,
            job: BuildJob { command, state: JobState::NotStarted, last_handle: 0 },
        }
    }

    /// The phase and the job agree: a build is under way exactly when the
    /// job's process runs, the job has not run while idle, and a settled
    /// coordinator remembers whether the job's outcome was a success.
    pub open spec fn wf(&self) -> bool {
        &&& self.phase is Idle ==> self.job.state is NotStarted
        &&& self.phase is Building || self.phase is AwaitingBuild ==> self.job.state
            == JobState::Running(self.job.last_handle)
        &&& self.phase matches Phase::Settled(ok) ==> (self.job.state matches JobState::Finished(o)
            && ok == (o is Success))
        &&& self.job.state matches JobState::Running(h) ==> h == self.job.last_handle
    }

    /// Whether the coordinator rests and a trigger would start a build at
    /// once.
    pub open spec fn is_ready(&self) -> bool {
        (self.phase is Idle || self.phase is Settled) && !(self.job.state is Running)
    }

    /// Makes the coordinator for `command`.
    pub fn new(command: Command) -> (c: Coordinator)
        ensures
            c == Self::initial(command),
            c.wf(),
    {
        Coordinator { phase: Phase::Idle, job: BuildJob::new(command) }
    }

    /// Takes one input and returns the action to carry out.
    pub fn step(&mut self, input: Input) -> (action: Action)
        ensures
            (*final(self), action) == next(*old(self), input),
            old(self).wf() ==> final(self).wf(),
    {
        if let Phase::ShuttingDown = self.phase {
            return Action::Nothing;
        }
        match input {
            Input::Window(w) => {
                if w.shutdown {
                    let running = self.job.running();
                    self.phase = Phase::ShuttingDown;
                    Action::Quit(running)
                } else if !w.trigger {
                    Action::Nothing
                } else {
                    match self.job.restart() {
                        Restart::Spawn(h) => {
                            self.phase = Phase::Building;
                            Action::Spawn(h)
                        },
                        Restart::CancelFirst(h) => {
                            if let Phase::AwaitingBuild = self.phase {
                                Action::Nothing
                            } else {
                                self.phase = Phase::AwaitingBuild;
                                Action::Cancel(h)
                            }
                        },
                    }
                }
            },
            Input::Terminated(h) => {
                if let Phase::AwaitingBuild = self.phase {
                    match self.job.replace(h) {
                        Some(fresh) => {
                            self.phase = Phase::Building;
                            Action::Spawn(fresh)
                        },
                        None => Action::Nothing,
                    }
                } else {
                    Action::Nothing
                }
            },
            Input::Exited(h, outcome) => {
                if let Phase::AwaitingBuild = self.phase {
                    match self.job.replace(h) {
                        Some(fresh) => {
                            self.phase = Phase::Building;
                            Action::Spawn(fresh)
                        },
                        None => Action::Nothing,
                    }
                } else {
                    let success = outcome.is_success();
                    if self.job.finish(h, outcome) {
                        self.phase = Phase::Settled(success);
                        if success {
                            Action::Reload
                        } else {
                            Action::ReportFailure
                        }
                    } else {
                        Action::Nothing
                    }
                }
            },
        }
    }

    /// Takes a batch of events: sums it up under `filter` and steps on the
    /// window it amounts to.
    pub fn handle(&mut self, events: &Vec<Event>, filter: &IgnoreFilter) -> (action: Action)
        ensures
            (*final(self), action) == next(
                *old(self),
                Input::Window(window_of(events@, filter.excluded())),
            ),
            old(self).wf() ==> final(self).wf(),
    {
        let window = survey(events, filter);
        self.step(Input::Window(window))
    }
}

} // verus!
