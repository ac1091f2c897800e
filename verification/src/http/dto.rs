//! Request and response shapes.

use vstd::prelude::*;

verus! {

/// The reply to a submitted job: its id and its status text.
#[derive(Debug, Clone, Copy, PartialEq, Eq)]
pub struct SubmitResponse {
    pub job_id: u128,
    pub status: &'static str,
}

/// The query of a long poll: how long to wait, in milliseconds.
#[derive(Debug, Clone, Copy, PartialEq, Eq)]
pub struct WaitParams {
    pub timeout_ms: u64,
}

/// The reply to a health check: a status text and the number of queued
/// jobs.
#[derive(Debug, Clone, Copy, PartialEq, Eq)]
pub struct HealthResponse {
    pub status: &'static str,
    pub queue_depth: u64,
}

/// The wait of a long poll whose query names none: five seconds.
pub fn default_timeout_ms() -> (r: u64)
    ensures
        r == 5_000,
{
    5_000
}

impl Default for WaitParams {
    /// Wait parameters with every field zero (as a derived default gives).
    fn default() -> (r: WaitParams)
        ensures
            r.timeout_ms == 0,
    {
        WaitParams { timeout_ms: 0 }
    }
}

} // verus!
