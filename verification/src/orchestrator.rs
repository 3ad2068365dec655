//! The orchestrator daemon: where it keeps its PID and log files, how its
//! PID file is read, what starting, stopping and restarting it involves,
//! and how one due task is run by the polling loop.
//!
//! The processes, signals, files and timers are the program's; the library
//! decides what to do with what they report.
use vstd::prelude::*;
use crate::error::{Error, Result};
use crate::paths::{join, join_path};
use crate::text::{all_digits, cat, chars_of, is_digit, parse_unsigned, parse_unsigned_exec, trim, trim_str};

verus! {

/// The PID file, under the state home (`XDG_STATE_HOME`).
pub fn pid_file_path(state_home: &str) -> (res: String)
    ensures
        res@ == join(state_home@, "cudgel/orchestrator.pid"@),
{
    join_path(state_home, "cudgel/orchestrator.pid")
}

/// The log file, under the state home (`XDG_STATE_HOME`).
pub fn log_file_path(state_home: &str) -> (res: String)
    ensures
        res@ == join(state_home@, "cudgel/orchestrator.log"@),
{
    join_path(state_home, "cudgel/orchestrator.log")
}

/// The text of the `ParseIntError` that `u32::from_str` gives for `s` when
/// it fails: an empty string, digits (after an optional `+`) whose value is
/// too large, or anything else, an invalid digit.
pub open spec fn parse_error_text(s: Seq<char>) -> Seq<char> {
    let body = if s.len() > 0 && s[0] == '+' {
        s.drop_first()
    } else {
        s
    };
    if s.len() == 0 {
        "cannot parse integer from empty string"@
    } else if body.len() > 0 && all_digits(body) {
        "number too large to fit in target type"@
    } else {
        "invalid digit found in string"@
    }
}

/// Reads the PID that the PID file holds: its trimmed content as a `u32`,
/// as `u32::from_str` reads it; the error carries the text of its
/// `ParseIntError`.
pub fn read_pid(content: &str) -> (res: Result<u32>)
    ensures
        match parse_unsigned(trim(content@), u32::MAX as int) {
            Some(v) => res == Ok::<u32, Error>(v as u32),
            None => res matches Err(Error::InvalidPidFile(m)) && m@ == parse_error_text(
                trim(content@),
            ),
        },
{
    let t = trim_str(content);
    match parse_unsigned_exec(t.as_str(), u32::MAX as u64) {
        Some(v) => Ok(v as u32),
        None => {
            let v = chars_of(t.as_str());
            if v.len() == 0 {
                return Err(Error::InvalidPidFile(String::from_str("cannot parse integer from empty string")));
            }
            let start: usize = if v[0] == '+' { 1 } else { 0 };
            let ghost body = if v@[0] == '+' { v@.drop_first() } else { v@ };
            assert(body =~= v@.skip(start as int));
            let mut k: usize = start;
            let mut digits = start < v.len();
            while k < v.len()
                invariant
                    start <= k <= v.len(),
                    v@ == t@,
                    body == v@.skip(start as int),
                    digits <==> (start < v.len() && forall|i: int| start <= i < k ==> is_digit(
                        #[trigger] v@[i],
                    )),
                decreases v.len() - k,
            {
                if !('0' <= v[k] && v[k] <= '9') {
                    digits = false;
                }
                k = k + 1;
            }
            proof {
                if digits {
                    assert forall|i: int| 0 <= i < body.len() implies is_digit(#[trigger] body[i]) by {
                        assert(body[i] == v@[i + start]);
                    }
                } else if body.len() > 0 {
                    let w = choose|i: int| start <= i < v.len() && !is_digit(#[trigger] v@[i]);
                    assert(body[w - start] == v@[w]);
                }
            }
            if digits {
                Err(Error::InvalidPidFile(String::from_str("number too large to fit in target type")))
            } else {
                Err(Error::InvalidPidFile(String::from_str("invalid digit found in string")))
            }
        },
    }
}

/// A daemon can be started only when none is running.
pub fn check_can_start(running: Option<u32>) -> (res: Result<()>)
    ensures
        match running {
            None => res is Ok,
            Some(pid) => res matches Err(e) && e == Error::OrchestratorAlreadyRunning(pid as i32),
        },
{
    match running {
        None => Ok(()),
        Some(pid) => Err(Error::OrchestratorAlreadyRunning(pid as i32)),
    }
}

/// A daemon can be stopped only when one is running: its PID.
pub fn stop_target(running: Option<u32>) -> (res: Result<u32>)
    ensures
        match running {
            None => res matches Err(Error::OrchestratorNotRunning),
            Some(pid) => res == Ok::<u32, Error>(pid),
        },
{
    match running {
        None => Err(Error::OrchestratorNotRunning),
        Some(pid) => Ok(pid),
    }
}

/// How many times the stopping daemon is polled, each poll followed by a
/// wait of 100 ms, before it is killed.
pub const STOP_POLLS: u32 = 50;

/// What to do while waiting for a daemon sent `SIGTERM` to exit.
#[derive(Debug, Clone, Copy, PartialEq, Eq, Structural)]
pub enum StopStep {
    /// It exited: remove the PID file if it is still there.
    Stopped,
    /// Still running: wait 100 ms and go on.
    Wait,
    /// Every poll was waited out: send `SIGKILL` and remove the PID file.
    ForceKill,
}

/// The step once `polls_done` polls have been waited out: while polls are
/// left, `still_running` is what the next poll found; after the last wait
/// the daemon is killed without another poll.
pub fn stop_step(polls_done: u32, still_running: bool) -> (s: StopStep)
    ensures
        polls_done < STOP_POLLS && !still_running ==> s == StopStep::Stopped,
        polls_done < STOP_POLLS && still_running ==> s == StopStep::Wait,
        polls_done >= STOP_POLLS ==> s == StopStep::ForceKill,
{
    if polls_done >= STOP_POLLS {
        StopStep::ForceKill
    } else if !still_running {
        StopStep::Stopped
    } else {
        StopStep::Wait
    }
}

/// An action on the daemon.
#[derive(Debug, Clone, Copy, PartialEq, Eq, Structural)]
pub enum DaemonAction {
    Stop,
    Start,
}

/// Restarting the daemon: stop it first when one runs, then start it.
pub fn restart_daemon(running: Option<u32>) -> (plan: Vec<DaemonAction>)
    ensures
        plan@ == if running is Some {
            seq![DaemonAction::Stop, DaemonAction::Start]
        } else {
            seq![DaemonAction::Start]
        },
{
    let mut plan: Vec<DaemonAction> = Vec::new();
    if running.is_some() {
        plan.push(DaemonAction::Stop);
    }
    plan.push(DaemonAction::Start);
    plan
}

/// What a restart has learned from its last action.
#[derive(Debug)]
pub enum RestartEvent {
    /// Whether the daemon runs (its PID), or why that could not be told
    Checked(Result<Option<u32>>),
    /// The outcome of stopping the running daemon
    Stopped(Result<()>),
    /// The outcome of starting the daemon
    Started(Result<()>),
}

/// What a restart does next.
#[derive(Debug)]
pub enum RestartAction {
    /// Stop the running daemon
    Stop,
    /// Start the daemon
    Start,
    /// The restart is over, with this outcome
    Finish(Result<()>),
}

/// How a restart moves on: a running daemon is stopped first, then the
/// daemon is started; an error from the check or from the stop ends the
/// restart with that error and nothing is started; the restart ends with
/// the outcome of the start.
pub fn restart_step(event: RestartEvent) -> (a: RestartAction)
    ensures
        a == match event {
            RestartEvent::Checked(Err(e)) => RestartAction::Finish(Err(e)),
            RestartEvent::Checked(Ok(Some(_))) => RestartAction::Stop,
            RestartEvent::Checked(Ok(None)) => RestartAction::Start,
            RestartEvent::Stopped(Err(e)) => RestartAction::Finish(Err(e)),
            RestartEvent::Stopped(Ok(_)) => RestartAction::Start,
            RestartEvent::Started(r) => RestartAction::Finish(r),
        },
{
    match event {
        RestartEvent::Checked(Err(e)) => RestartAction::Finish(Err(e)),
        RestartEvent::Checked(Ok(Some(_))) => RestartAction::Stop,
        RestartEvent::Checked(Ok(None)) => RestartAction::Start,
        RestartEvent::Stopped(Err(e)) => RestartAction::Finish(Err(e)),
        RestartEvent::Stopped(Ok(_)) => RestartAction::Start,
        RestartEvent::Started(r) => RestartAction::Finish(r),
    }
}

// ---------------------------------------------------------------------------
// Running one due task
// ---------------------------------------------------------------------------

/// The part of a claimed task that running it needs.
#[derive(Debug, Clone, Copy, PartialEq, Eq, Structural)]
pub struct ClaimedTask {
    pub id: i32,
    pub repo_id: i32,
    pub interval_hours: i32,
}

/// Where the run of a due task stands.
#[derive(Debug, Clone, PartialEq, Eq)]
pub enum TaskRun {
    /// Waiting for the outcome of the claim
    Claiming,
    /// Claimed; waiting for the repository record
    LookingUp(ClaimedTask),
    /// Repository found; waiting for an indexer
    Preparing(ClaimedTask, String),
    /// Waiting for the indexing to end
    Indexing(ClaimedTask),
    /// The run is over
    Finished,
}

/// What the program reports back after an action.
#[derive(Debug, Clone, PartialEq, Eq)]
pub enum TaskEvent {
    /// The claim succeeded
    Claimed(ClaimedTask),
    /// Another worker had claimed the task
    NotClaimed,
    /// The claim failed with this error
    ClaimFailed(String),
    /// The repository record, with its path
    RepositoryFound(String),
    /// There is no such repository
    RepositoryMissing,
    /// Reading the repository failed with this error
    RepositoryLookupFailed(String),
    /// An indexer was created
    IndexerReady,
    /// Creating the indexer failed with this error
    IndexerFailed(String),
    /// The repository was indexed
    Indexed,
    /// Indexing failed with this error
    IndexFailed(String),
}

/// What the program does next for the task.
#[derive(Debug, Clone, PartialEq, Eq)]
pub enum TaskAction {
    /// Read the repository with this id
    LookUpRepository(i32),
    /// Create an indexer
    CreateIndexer,
    /// Index the repository at this path
    IndexRepository(String),
    /// Record a success: the task runs again after its interval
    Complete { task_id: i32, interval_hours: i32 },
    /// Record a failure with this message
    Fail { task_id: i32, message: String },
    /// Go on with the next task
    Skip,
}

/// The message recorded when a task fails on `event`.
pub open spec fn failure_message(event: TaskEvent) -> Seq<char> {
    match event {
        TaskEvent::RepositoryMissing => "Repository not found"@,
        TaskEvent::RepositoryLookupFailed(e) => "Database error: "@ + e@,
        TaskEvent::IndexerFailed(e) => "Indexer creation failed: "@ + e@,
        TaskEvent::IndexFailed(e) => "Indexing failed: "@ + e@,
        _ => Seq::empty(),
    }
}

/// How a task run moves on `event`: a claim lost or failed skips the task;
/// a missing or unreadable repository, an indexer that cannot be created
/// and a failed indexing each record a failure with their message; a
/// successful indexing records a success.  An event that does not answer
/// the state's action ends the run.
pub open spec fn steps_to(state: TaskRun, event: TaskEvent, next: TaskRun, action: TaskAction) -> bool {
    match (state, event) {
        (TaskRun::Claiming, TaskEvent::Claimed(t)) => next == TaskRun::LookingUp(t) && action
            == TaskAction::LookUpRepository(t.repo_id),
        (TaskRun::LookingUp(t), TaskEvent::RepositoryFound(path)) => next == TaskRun::Preparing(
            t,
            path,
        ) && action == TaskAction::CreateIndexer,
        (TaskRun::LookingUp(t), TaskEvent::RepositoryMissing) | (
            TaskRun::LookingUp(t),
            TaskEvent::RepositoryLookupFailed(_),
        ) | (TaskRun::Preparing(t, _), TaskEvent::IndexerFailed(_)) | (
            TaskRun::Indexing(t),
            TaskEvent::IndexFailed(_),
        ) => next == TaskRun::Finished && (action matches TaskAction::Fail { task_id, message }
            && task_id == t.id && message@ == failure_message(event)),
        (TaskRun::Preparing(t, path), TaskEvent::IndexerReady) => next == TaskRun::Indexing(t)
            && action == TaskAction::IndexRepository(path),
        (TaskRun::Indexing(t), TaskEvent::Indexed) => next == TaskRun::Finished && action
            == TaskAction::Complete { task_id: t.id, interval_hours: t.interval_hours },
        _ => next == TaskRun::Finished && action == TaskAction::Skip,
    }
}

/// The next state of a task run and the action to take (see [`steps_to`]).
pub fn task_step(state: TaskRun, event: TaskEvent) -> (res: (TaskRun, TaskAction))
    ensures
        steps_to(state, event, res.0, res.1),
{
    match (state, event) {
        (TaskRun::Claiming, TaskEvent::Claimed(t)) => (
            TaskRun::LookingUp(t),
            TaskAction::LookUpRepository(t.repo_id),
        ),
        (TaskRun::LookingUp(t), TaskEvent::RepositoryFound(path)) => (
            TaskRun::Preparing(t, path),
            TaskAction::CreateIndexer,
        ),
        (TaskRun::LookingUp(t), TaskEvent::RepositoryMissing) => (
            TaskRun::Finished,
            TaskAction::Fail { task_id: t.id, message: String::from_str("Repository not found") },
        ),
        (TaskRun::LookingUp(t), TaskEvent::RepositoryLookupFailed(e)) => (
            TaskRun::Finished,
            TaskAction::Fail { task_id: t.id, message: cat("Database error: ", e.as_str()) },
        ),
        (TaskRun::Preparing(t, path), TaskEvent::IndexerReady) => (
            TaskRun::Indexing(t),
            TaskAction::IndexRepository(path),
        ),
        (TaskRun::Preparing(t, _), TaskEvent::IndexerFailed(e)) => (
            TaskRun::Finished,
            TaskAction::Fail { task_id: t.id, message: cat("Indexer creation failed: ", e.as_str()) },
        ),
        (TaskRun::Indexing(t), TaskEvent::Indexed) => (
            TaskRun::Finished,
            TaskAction::Complete { task_id: t.id, interval_hours: t.interval_hours },
        ),
        (TaskRun::Indexing(t), TaskEvent::IndexFailed(e)) => (
            TaskRun::Finished,
            TaskAction::Fail { task_id: t.id, message: cat("Indexing failed: ", e.as_str()) },
        ),
        _ => (TaskRun::Finished, TaskAction::Skip),
    }
}

/// `event` is one of the reports that the action taken in `state` can give.
pub open spec fn answers(state: TaskRun, event: TaskEvent) -> bool {
    match state {
        TaskRun::Claiming => event is Claimed || event is NotClaimed || event is ClaimFailed,
        TaskRun::LookingUp(_) => event is RepositoryFound || event is RepositoryMissing
            || event is RepositoryLookupFailed,
        TaskRun::Preparing(_, _) => event is IndexerReady || event is IndexerFailed,
        TaskRun::Indexing(_) => event is Indexed || event is IndexFailed,
        TaskRun::Finished => false,
    }
}

/// The task that a run holds, once claimed.
pub open spec fn claimed_task(state: TaskRun) -> Option<ClaimedTask> {
    match state {
        TaskRun::LookingUp(t) => Some(t),
        TaskRun::Preparing(t, _) => Some(t),
        TaskRun::Indexing(t) => Some(t),
        _ => None,
    }
}

/// Once a task is claimed, its run keeps it until the end, and ends by
/// recording its outcome: every answered step either moves on with the same
/// task or finishes with a success or a failure recorded for it.
pub proof fn law_claimed_task_outcome_is_recorded(
    state: TaskRun,
    event: TaskEvent,
    next: TaskRun,
    action: TaskAction,
)
    requires
        claimed_task(state) is Some,
        answers(state, event),
        steps_to(state, event, next, action),
    ensures
        next == TaskRun::Finished || claimed_task(next) == claimed_task(state),
        next == TaskRun::Finished ==> (action == (TaskAction::Complete {
            task_id: claimed_task(state).unwrap().id,
            interval_hours: claimed_task(state).unwrap().interval_hours,
        }) || (action matches TaskAction::Fail { task_id, .. } && task_id == claimed_task(
            state,
        ).unwrap().id)),
{
}

} // verus!
