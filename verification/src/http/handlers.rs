//! The decisions of the request handlers. The handlers themselves read the
//! cache and the ledger and wait for notifications; what they do with what
//! they read is decided here.

use vstd::prelude::*;

use crate::domain::job::JobStatus;
use crate::error::{AppError, AppResult};
use crate::http::dto::{HealthResponse, SubmitResponse, WaitParams};
use crate::ids::{hyphenated, id_text};
use crate::text::owned;

verus! {

/// The longest wait a long poll may ask for, in milliseconds.
pub const MAX_WAIT_MS: u64 = 60_000;

/// How long a long poll waits: what it asked for, capped at one minute.
pub fn wait_timeout_ms(params: &WaitParams) -> (r: u64)
    ensures
        r == if params.timeout_ms <= MAX_WAIT_MS { params.timeout_ms } else { MAX_WAIT_MS },
{
    if params.timeout_ms <= MAX_WAIT_MS {
        params.timeout_ms
    } else {
        MAX_WAIT_MS
    }
}

/// The health reply for a reading of the queue's length; a failed reading
/// reports an empty queue.
pub fn health_response(depth: AppResult<u64>) -> (r: HealthResponse)
    ensures
        r.status@ == "ok"@,
        r.queue_depth == match depth {
            Ok(d) => d,
            Err(_) => 0,
        },
{
    let queue_depth = match depth {
        Ok(d) => d,
        Err(_) => 0,
    };
    HealthResponse { status: "ok", queue_depth }
}

/// The reply to a submitted job.
pub fn submit_response(job_id: u128, status: JobStatus) -> (r: SubmitResponse)
    ensures
        r.job_id == job_id,
        r.status@ == status.text(),
{
    SubmitResponse { job_id, status: status.as_str() }
}

/// What loading a job does after looking in the cache.
#[derive(Debug, Clone, PartialEq, Eq)]
pub enum CacheLookup {
    /// The cached copy is final: answer with it.
    UseCached,
    /// Read the job from the ledger.
    QueryLedger,
    /// The cache could not be read: the load fails with this error, and the
    /// ledger is not read.
    Fail(AppError),
}

/// Loading a job answers from the cache only with a job that has finished;
/// a job missing from the cache, or not finished there, is read from the
/// ledger; a failed read of the cache fails the load.
pub fn after_cache_lookup(cached: AppResult<Option<JobStatus>>) -> (r: CacheLookup)
    ensures
        cached matches Err(e) ==> r == CacheLookup::Fail(e),
        cached matches Ok(Some(s)) ==> r == (if s.terminal() {
            CacheLookup::UseCached
        } else {
            CacheLookup::QueryLedger
        }),
        cached == Ok::<Option<JobStatus>, AppError>(None) ==> r == CacheLookup::QueryLedger,
{
    match cached {
        Err(e) => CacheLookup::Fail(e),
        Ok(Some(s)) => if s.is_terminal() {
            CacheLookup::UseCached
        } else {
            CacheLookup::QueryLedger
        },
        Ok(None) => CacheLookup::QueryLedger,
    }
}

/// What loading a job does after reading the ledger: a job that is found is
/// answered with, and stored in the cache when it has finished (the answer
/// is `Ok(store_in_cache)`); a job that is not found is a not-found error
/// naming its id; a failed read of the ledger fails the load with its error.
pub fn after_ledger_lookup(id: u128, found: AppResult<Option<JobStatus>>) -> (res: AppResult<bool>)
    ensures
        found matches Err(e) ==> res == Err::<bool, AppError>(e),
        found matches Ok(Some(s)) ==> res == Ok::<bool, AppError>(s.terminal()),
        found == Ok::<Option<JobStatus>, AppError>(None) ==> (res matches Err(
            AppError::JobNotFound(t),
        ) && t@ == hyphenated(id)),
{
    match found {
        Err(e) => Err(e),
        Ok(Some(s)) => Ok(s.is_terminal()),
        Ok(None) => Err(AppError::JobNotFound(id_text(id))),
    }
}

/// The load of a long poll that a status belongs to.
#[derive(Debug, Clone, Copy, PartialEq, Eq, Structural)]
pub enum WaitStage {
    /// The load made before waiting.
    BeforeWait,
    /// The load made after the job's notification came.
    AfterNotified,
    /// The load made after the wait ran out.
    AfterTimeout,
}

/// What a long poll does after loading the job.
#[derive(Debug, Clone, PartialEq, Eq)]
pub enum WaitStep {
    /// Answer with the job just loaded.
    Respond,
    /// Wait for the job's notification, at most the capped timeout.
    Wait,
    /// Answer with this error.
    Fail(AppError),
}

/// The long poll's decision, given what the load of `stage` gave. A failed
/// load fails the poll with its error; a job that has finished is answered
/// with at once; before waiting, any other job is waited for; after a
/// notification an unfinished job is an internal error; after the wait ran
/// out it is a timeout.
pub fn wait_step(stage: WaitStage, loaded: AppResult<JobStatus>) -> (r: WaitStep)
    ensures
        loaded matches Err(e) ==> r == WaitStep::Fail(e),
        loaded matches Ok(status) ==> {
            &&& status.terminal() ==> r == WaitStep::Respond
            &&& !status.terminal() && stage == WaitStage::BeforeWait ==> r == WaitStep::Wait
            &&& !status.terminal() && stage == WaitStage::AfterNotified ==> (r matches WaitStep::Fail(
                AppError::Internal(m),
            ) && m@ == "notified but job not terminal"@)
            &&& !status.terminal() && stage == WaitStage::AfterTimeout ==> r == WaitStep::Fail(
                AppError::WaitTimeout,
            )
        },
{
    match loaded {
        Err(e) => WaitStep::Fail(e),
        Ok(status) => if status.is_terminal() {
            WaitStep::Respond
        } else {
            match stage {
                WaitStage::BeforeWait => WaitStep::Wait,
                WaitStage::AfterNotified => WaitStep::Fail(
                    AppError::Internal(owned("notified but job not terminal")),
                ),
                WaitStage::AfterTimeout => WaitStep::Fail(AppError::WaitTimeout),
            }
        },
    }
}

} // verus!
