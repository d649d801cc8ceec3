//! The build job: one command, and the life of the process that runs it.

use vstd::prelude::*;
use vstd::string::*;

verus! {

/// The characters of each string of a list, in order.
pub open spec fn texts(v: Seq<String>) -> Seq<Seq<char>> {
    Seq::new(v.len(), |i: int| v[i]@)
}

/// A program and the arguments it is run with.
#[derive(Debug)]
pub struct Command {
    pub program: String,
    pub args: Vec<String>,
}

impl Command {
    /// The arguments as plain text.
    pub open spec fn arg_texts(&self) -> Seq<Seq<char>> {
        texts(self.args@)
    }

    /// A copy of this command.
    pub fn duplicate(&self) -> (copy: Command)
        ensures
            copy.program@ == self.program@,
            copy.arg_texts() == self.arg_texts(),
    {
        let mut args: Vec<String> = Vec::new();
        let mut i: usize = 0;
        while i < self.args.len()
            invariant
                i <= self.args.len(),
                args.len() == i,
                forall|k: int| 0 <= k < i ==> args[k]@ == self.args[k]@,
            decreases self.args.len() - i,
        {
            args.push(self.args[i].clone());
            i += 1;
        }
        assert(texts(args@) =~= texts(self.args@));
        Command { program: self.program.clone(), args }
    }
}

/// The command that builds the documentation: `cargo doc`, followed by the
/// caller's extra arguments in their order.
pub fn cargo_doc_command(extra: &Vec<String>) -> (cmd: Command)
    ensures
        cmd.program@ == "cargo"@,
        cmd.arg_texts() == seq!["doc"@] + texts(extra@),
{
    let mut args: Vec<String> = Vec::new();
    args.push(String::from_str("doc"));
    let mut i: usize = 0;
    while i < extra.len()
        invariant
            i <= extra.len(),
            args.len() == i + 1,
            args[0]@ == "doc"@,
            forall|k: int| 0 <= k < i ==> args[k + 1]@ == extra[k]@,
        decreases extra.len() - i,
    {
        args.push(extra[i].clone());
        i += 1;
    }
    assert(texts(args@) =~= seq!["doc"@] + texts(extra@));
    Command { program: String::from_str("cargo"), args }
}

/// How the operating system reports the end of a process.
#[derive(Debug, Clone, Copy, PartialEq, Eq, Structural)]
pub enum ProcessEnd {
    /// Exited with status zero.
    Success,
    /// Exited with this status.
    ExitError(i64),
    /// Ended by a signal.
    ExitSignal,
    /// Stopped, not ended.
    ExitStop,
    /// Ended by an exception.
    Exception,
    /// Continued after a stop.
    Continued,
}

/// How a build process ended.
#[derive(Debug)]
pub enum ExitOutcome {
    /// The process exited with status zero.
    Success,
    /// The process exited with this nonzero status.
    Failure(i64),
    /// The process could not be run; the text says why.
    Errored(String),
}

impl ExitOutcome {
    /// The outcome of a process that exited with `status`.
    pub open spec fn of_status(status: i64) -> ExitOutcome {
        if status == 0 {
            ExitOutcome::Success
        } else {
            ExitOutcome::Failure(status)
        }
    }

    /// Reads an exit status: zero is success, anything else a failure that
    /// keeps the status.
    pub fn from_status(status: i64) -> (outcome: ExitOutcome)
        ensures
            outcome == Self::of_status(status),
    {
        if status == 0 {
            ExitOutcome::Success
        } else {
            ExitOutcome::Failure(status)
        }
    }

    /// Why a process that did not exit counts as not run to its end.
    pub open spec fn cause_text(end: ProcessEnd) -> Seq<char> {
        match end {
            ProcessEnd::ExitSignal => "the build was ended by a signal"@,
            ProcessEnd::ExitStop => "the build was stopped"@,
            ProcessEnd::Exception => "the build was ended by an exception"@,
            _ => "the build did not end"@,
        }
    }

    /// Reads the end of a process: an exit is judged by its status, and
    /// every other end is an error, since the build did not run to its end.
    pub fn from_end(end: ProcessEnd) -> (outcome: ExitOutcome)
        ensures
            end == ProcessEnd::Success ==> outcome == ExitOutcome::Success,
            end matches ProcessEnd::ExitError(status) ==> outcome == Self::of_status(status),
            !(end is Success) && !(end is ExitError) ==> (outcome matches ExitOutcome::Errored(cause)
                && cause@ == Self::cause_text(end)),
    {
        match end {
            ProcessEnd::Success => ExitOutcome::Success,
            ProcessEnd::ExitError(status) => Self::from_status(status),
            ProcessEnd::ExitSignal => ExitOutcome::Errored(
                String::from_str("the build was ended by a signal"),
            ),
            ProcessEnd::ExitStop => ExitOutcome::Errored(String::from_str("the build was stopped")),
            ProcessEnd::Exception => ExitOutcome::Errored(
                String::from_str("the build was ended by an exception"),
            ),
            ProcessEnd::Continued => ExitOutcome::Errored(String::from_str("the build did not end")),
        }
    }

    /// Whether the build succeeded.
    pub fn is_success(&self) -> (ok: bool)
        ensures
            ok == (*self is Success),
    {
        match self {
            ExitOutcome::Success => true,
            _ => false,
        }
    }
}

/// Where the job's process stands.
#[derive(Debug)]
pub enum JobState {
    /// No process was started yet.
    NotStarted,
    /// The process with this handle is running.
    Running(u64),
    /// The last process ended with this outcome.
    Finished(ExitOutcome),
}

/// The handle that follows `handle`.
pub open spec fn next_handle(handle: u64) -> u64 {
    if handle == u64::MAX {
        0
    } else {
        (handle + 1) as u64
    }
}

/// What a restart asks of the caller.
#[derive(Debug, PartialEq, Eq, Clone, Copy)]
pub enum Restart {
    /// Nothing was running: start the command as the process with this handle.
    Spawn(u64),
    /// The process with this handle is still running: end it first, then
    /// call [`BuildJob::replace`].
    CancelFirst(u64),
}

/// The one job that runs the build command. It is restarted, never made anew.
#[derive(Debug)]
pub struct BuildJob {
    pub command: Command,
    pub state: JobState,
    /// The handle given to the most recent process.
    pub last_handle: u64,
}

impl BuildJob {
    /// A job for `command` that has not run yet.
    pub fn new(command: Command) -> (job: BuildJob)
        ensures
            job.command == command,
            job.state == JobState::NotStarted,
            job.last_handle == 0,
    {
        BuildJob { command, state: JobState::NotStarted, last_handle: 0 }
    }

    /// The handle of the running process, if one is running.
    pub open spec fn running_handle(&self) -> Option<u64> {
        match self.state {
            JobState::Running(h) => Some(h),
            _ => None,
        }
    }

    /// The handle of the running process, if one is running.
    pub fn running(&self) -> (handle: Option<u64>)
        ensures
            handle == self.running_handle(),
    {
        match self.state {
            JobState::Running(h) => Some(h),
            _ => None,
        }
    }

    /// Marks a fresh process as running and returns its handle.
    fn launch(&mut self) -> (handle: u64)
        ensures
            handle == next_handle(old(self).last_handle),
            final(self).state == JobState::Running(handle),
            final(self).last_handle == handle,
            final(self).command == old(self).command,
    {
        let handle = if self.last_handle == u64::MAX {
            0
        } else {
            self.last_handle + 1
        };
        self.last_handle = handle;
        self.state = JobState::Running(handle);
        handle
    }

    /// Asks for a fresh run of the command.
    ///
    /// With no process running, the job turns to `Running` with a new handle
    /// and the caller spawns the command. With one running, nothing changes
    /// and the caller is told which process to end first.
    pub fn restart(&mut self) -> (plan: Restart)
        ensures
            final(self).command == old(self).command,
            match old(self).state {
                JobState::Running(h) => plan == Restart::CancelFirst(h) && *final(self) == *old(self),
                _ => {
                    &&& plan == Restart::Spawn(next_handle(old(self).last_handle))
                    &&& final(self).state == JobState::Running(next_handle(old(self).last_handle))
                    &&& final(self).last_handle == next_handle(old(self).last_handle)
                },
            },
    {
        match self.state {
            JobState::Running(h) => Restart::CancelFirst(h),
            _ => {
                let handle = self.launch();
                Restart::Spawn(handle)
            },
        }
    }

    /// Records that the process `ended` is gone and starts its replacement.
    ///
    /// Returns the replacement's handle when `ended` is the running process.
    /// Otherwise the report is stale: nothing changes and `None` is returned.
    pub fn replace(&mut self, ended: u64) -> (handle: Option<u64>)
        ensures
            final(self).command == old(self).command,
            old(self).state == JobState::Running(ended) ==> {
                &&& handle == Some(next_handle(old(self).last_handle))
                &&& final(self).state == JobState::Running(next_handle(old(self).last_handle))
                &&& final(self).last_handle == next_handle(old(self).last_handle)
            },
            old(self).state != JobState::Running(ended) ==> handle.is_none() && *final(self) == *old(
                self,
            ),
    {
        match self.state {
            JobState::Running(h) => {
                if h == ended {
                    let handle = self.launch();
                    Some(handle)
                } else {
                    None
                }
            },
            _ => None,
        }
    }

    /// Records the outcome of the process `ended`.
    ///
    /// Returns `true` and turns to `Finished(outcome)` when `ended` is the
    /// running process. Otherwise the report is stale: nothing changes.
    pub fn finish(&mut self, ended: u64, outcome: ExitOutcome) -> (taken: bool)
        ensures
            final(self).command == old(self).command,
            final(self).last_handle == old(self).last_handle,
            taken == (old(self).state == JobState::Running(ended)),
            taken ==> final(self).state == JobState::Finished(outcome),
            !taken ==> final(self).state == old(self).state,
    {
        match self.state {
            JobState::Running(h) => {
                if h == ended {
                    self.state = JobState::Finished(outcome);
                    true
                } else {
                    false
                }
            },
            _ => false,
        }
    }
}

} // verus!
