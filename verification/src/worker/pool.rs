//! What a worker does next, given what just happened. The worker itself
//! pops the queue, runs the calculation and writes the ledger; the order of
//! those steps and the reaction to each outcome are decided here.

use vstd::prelude::*;

use crate::error::{AppError, AppResult};

verus! {

/// How long one blocking pop of the queue waits, in seconds.
pub const POP_TIMEOUT_SECS: u64 = 1;

/// How long a worker pauses after the queue failed, in milliseconds.
pub const BACKOFF_MS: u64 = 500;

/// What a pop of the queue gave.
#[derive(Debug, Clone, Copy, PartialEq, Eq, Structural)]
pub enum PopOutcome {
    /// The id of a queued job.
    Job(u128),
    /// Nothing arrived within the pop's timeout.
    Empty,
    /// The queue could not be read.
    Failed,
}

/// What happened to a worker last.
#[derive(Debug, Clone, Copy, PartialEq, Eq, Structural)]
pub enum WorkerEvent {
    /// The worker is about to pop; `cancelled` tells whether shutdown has
    /// been asked for.
    Ready { cancelled: bool },
    /// Shutdown was asked for while the worker waited on the queue; the
    /// shutdown is looked at before the queue.
    CancelledWhilePopping,
    /// The pop finished.
    Popped(PopOutcome),
}

/// What a worker does next.
#[derive(Debug, Clone, Copy, PartialEq, Eq, Structural)]
pub enum WorkerAction {
    /// Leave the loop.
    Stop,
    /// Pop the queue, waiting at most `POP_TIMEOUT_SECS`.
    Pop,
    /// Process the job with this id, then get ready again.
    Process(u128),
    /// Get ready again at once.
    Continue,
    /// Pause for this many milliseconds, then get ready again.
    Backoff(u64),
}

/// The worker loop's decision: stop as soon as shutdown is seen, pop when
/// ready, process what was popped, go round again on an empty pop, and
/// pause briefly after a failed one.
pub fn worker_step(event: WorkerEvent) -> (r: WorkerAction)
    ensures
        r == match event {
            WorkerEvent::Ready { cancelled: true } => WorkerAction::Stop,
            WorkerEvent::Ready { cancelled: false } => WorkerAction::Pop,
            WorkerEvent::CancelledWhilePopping => WorkerAction::Stop,
            WorkerEvent::Popped(PopOutcome::Job(id)) => WorkerAction::Process(id),
            WorkerEvent::Popped(PopOutcome::Empty) => WorkerAction::Continue,
            WorkerEvent::Popped(PopOutcome::Failed) => WorkerAction::Backoff(BACKOFF_MS),
        },
{
    match event {
        WorkerEvent::Ready { cancelled } => if cancelled {
            WorkerAction::Stop
        } else {
            WorkerAction::Pop
        },
        WorkerEvent::CancelledWhilePopping => WorkerAction::Stop,
        WorkerEvent::Popped(PopOutcome::Job(id)) => WorkerAction::Process(id),
        WorkerEvent::Popped(PopOutcome::Empty) => WorkerAction::Continue,
        WorkerEvent::Popped(PopOutcome::Failed) => WorkerAction::Backoff(BACKOFF_MS),
    }
}

/// What happened while processing one job. The events of the ledger's reads
/// and writes carry their outcome.
#[derive(Debug, PartialEq, Eq)]
pub enum ProcessEvent {
    /// The job was looked up in the ledger: whether it was there, or the
    /// read's error.
    Fetched { found: AppResult<bool> },
    /// Marking the job as running was written, or failed with this error.
    MarkedRunning { written: AppResult<()> },
    /// The calculation ran: `None` when it succeeded, else its error.
    Executed { failure: Option<AppError> },
    /// The outcome was written to the ledger, or the write failed with this
    /// error.
    Recorded { written: AppResult<()> },
    /// The finished job was read back: whether it was there, or the read's
    /// error.
    Refreshed { found: AppResult<bool> },
    /// The finished job was offered to the cache (whether or not the cache
    /// took it).
    Cached,
}

/// What processing one job does next.
#[derive(Debug, Clone, PartialEq, Eq)]
pub enum ProcessAction {
    /// The job is not in the ledger: nothing to do.
    Skip,
    /// Mark the job as running.
    MarkRunning,
    /// Run the calculation.
    Execute,
    /// Record the job as completed with the calculation's result.
    MarkCompleted,
    /// Record the job as failed with this message.
    MarkFailed(String),
    /// Read the finished job back from the ledger.
    Refresh,
    /// Put the finished job into the cache.
    PutInCache,
    /// Wake the long polls waiting for the job; processing is then over.
    Notify,
    /// Processing ends with this error; the waiters are not woken.
    Fail(AppError),
}

/// The decision of processing one job: a job missing from the ledger is
/// skipped; otherwise it is marked running, run, and its outcome recorded
/// (a failure under its error's message); the finished job is read back,
/// cached when it was found, and its waiters woken. A failed first read of
/// the job, or a failed write of its state, ends the processing with that
/// error, without waking the waiters; a failed read-back only skips the
/// cache.
pub fn process_step(event: ProcessEvent) -> (r: ProcessAction)
    ensures
        event matches ProcessEvent::Fetched { found: Err(e) } ==> r == ProcessAction::Fail(e),
        event == (ProcessEvent::Fetched { found: Ok(false) }) ==> r == ProcessAction::Skip,
        event == (ProcessEvent::Fetched { found: Ok(true) }) ==> r == ProcessAction::MarkRunning,
        event matches ProcessEvent::MarkedRunning { written: Err(e) } ==> r == ProcessAction::Fail(
            e,
        ),
        event == (ProcessEvent::MarkedRunning { written: Ok(()) }) ==> r == ProcessAction::Execute,
        event == (ProcessEvent::Executed { failure: None }) ==> r == ProcessAction::MarkCompleted,
        event matches ProcessEvent::Executed { failure: Some(e) } ==> (
        r matches ProcessAction::MarkFailed(m) && m@ == e.message_spec()),
        event matches ProcessEvent::Recorded { written: Err(e) } ==> r == ProcessAction::Fail(e),
        event == (ProcessEvent::Recorded { written: Ok(()) }) ==> r == ProcessAction::Refresh,
        event == (ProcessEvent::Refreshed { found: Ok(true) }) ==> r == ProcessAction::PutInCache,
        event == (ProcessEvent::Refreshed { found: Ok(false) }) ==> r == ProcessAction::Notify,
        event matches ProcessEvent::Refreshed { found: Err(_) } ==> r == ProcessAction::Notify,
        event == ProcessEvent::Cached ==> r == ProcessAction::Notify,
{
    match event {
        ProcessEvent::Fetched { found } => match found {
            Err(e) => ProcessAction::Fail(e),
            Ok(true) => ProcessAction::MarkRunning,
            Ok(false) => ProcessAction::Skip,
        },
        ProcessEvent::MarkedRunning { written } => match written {
            Err(e) => ProcessAction::Fail(e),
            Ok(()) => ProcessAction::Execute,
        },
        ProcessEvent::Executed { failure } => match failure {
            None => ProcessAction::MarkCompleted,
            Some(e) => ProcessAction::MarkFailed(e.message()),
        },
        ProcessEvent::Recorded { written } => match written {
            Err(e) => ProcessAction::Fail(e),
            Ok(()) => ProcessAction::Refresh,
        },
        ProcessEvent::Refreshed { found } => match found {
            Ok(true) => ProcessAction::PutInCache,
            Ok(false) => ProcessAction::Notify,
            Err(_) => ProcessAction::Notify,
        },
        ProcessEvent::Cached => ProcessAction::Notify,
    }
}

} // verus!
