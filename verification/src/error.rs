//! The library's error type, its HTTP status, its machine-readable code and
//! its human-readable message.

use vstd::prelude::*;

use crate::text::{join, owned};

verus! {

/// Everything that can go wrong while serving a request or running a job.
///
/// The variants that stand for a failure of the database, of Redis or of
/// (de)serialisation carry the failing component's own message.
#[derive(Debug, Clone, PartialEq, Eq)]
pub enum AppError {
    JobNotFound(String),
    BadRequest(String),
    WaitTimeout,
    Database(String),
    Redis(String),
    RedisPool(String),
    Serde(String),
    Internal(String),
}

/// The result type of the library's fallible operations.
pub type AppResult<T> = Result<T, AppError>;

/// `r` is a `BadRequest` error whose detail is `detail`.
pub open spec fn is_bad_request<T>(r: AppResult<T>, detail: Seq<char>) -> bool {
    r matches Err(AppError::BadRequest(m)) && m@ == detail
}

/// The statuses a request can be answered with: a missing job is 404, a
/// refused payload 400, a long poll that ran out of time 408, and every
/// failure of the server's own parts 500.
pub proof fn lemma_error_statuses(detail: String)
    ensures
        AppError::JobNotFound(detail).status_spec() == 404,
        AppError::BadRequest(detail).status_spec() == 400,
        AppError::WaitTimeout.status_spec() == 408,
        AppError::Database(detail).status_spec() == 500,
        AppError::Redis(detail).status_spec() == 500,
        AppError::RedisPool(detail).status_spec() == 500,
        AppError::Serde(detail).status_spec() == 500,
        AppError::Internal(detail).status_spec() == 500,
        !AppError::WaitTimeout.is_server_error_spec(),
        AppError::Internal(detail).is_server_error_spec(),
{
}

impl AppError {
    /// The HTTP status code that answers a request failing with this error.
    pub open spec fn status_spec(&self) -> u16 {
        match self {
            AppError::JobNotFound(_) => 404,
            AppError::BadRequest(_) => 400,
            AppError::WaitTimeout => 408,
            _ => 500,
        }
    }

    /// The machine-readable code of this error.
    pub open spec fn code_spec(&self) -> Seq<char> {
        match self {
            AppError::JobNotFound(_) => "job_not_found"@,
            AppError::BadRequest(_) => "bad_request"@,
            AppError::WaitTimeout => "wait_timeout"@,
            AppError::Database(_) => "database_error"@,
            AppError::Redis(_) => "redis_error"@,
            AppError::RedisPool(_) => "redis_error"@,
            AppError::Serde(_) => "serialization_error"@,
            AppError::Internal(_) => "internal_error"@,
        }
    }

    /// The human-readable message of this error.
    pub open spec fn message_spec(&self) -> Seq<char> {
        match self {
            AppError::JobNotFound(id) => "job "@ + id@ + " not found"@,
            AppError::BadRequest(m) => "invalid job payload: "@ + m@,
            AppError::WaitTimeout => "wait timed out"@,
            AppError::Database(m) => "database error: "@ + m@,
            AppError::Redis(m) => "redis error: "@ + m@,
            AppError::RedisPool(m) => "redis pool error: "@ + m@,
            AppError::Serde(m) => "serialization error: "@ + m@,
            AppError::Internal(m) => "internal error: "@ + m@,
        }
    }

    /// Whether the error is the server's fault (a 5xx status).
    pub open spec fn is_server_error_spec(&self) -> bool {
        500 <= self.status_spec() < 600
    }

    /// The HTTP status code that answers a request failing with this error.
    pub fn status(&self) -> (r: u16)
        ensures
            r == self.status_spec(),
    {
        match self {
            AppError::JobNotFound(_) => 404,
            AppError::BadRequest(_) => 400,
            AppError::WaitTimeout => 408,
            AppError::Database(_) | AppError::Redis(_) | AppError::RedisPool(_)
            | AppError::Serde(_) | AppError::Internal(_) => 500,
        }
    }

    /// Whether the error is the server's fault, which decides how loudly it
    /// is logged.
    pub fn is_server_error(&self) -> (r: bool)
        ensures
            r == self.is_server_error_spec(),
    {
        let s = self.status();
        500 <= s && s < 600
    }

    /// The machine-readable code of this error.
    pub fn code(&self) -> (r: &'static str)
        ensures
            r@ == self.code_spec(),
    {
        match self {
            AppError::JobNotFound(_) => "job_not_found",
            AppError::BadRequest(_) => "bad_request",
            AppError::WaitTimeout => "wait_timeout",
            AppError::Database(_) => "database_error",
            AppError::Redis(_) | AppError::RedisPool(_) => "redis_error",
            AppError::Serde(_) => "serialization_error",
            AppError::Internal(_) => "internal_error",
        }
    }

    /// The human-readable message of this error.
    pub fn message(&self) -> (r: String)
        ensures
            r@ == self.message_spec(),
    {
        match self {
            AppError::JobNotFound(id) => join(join(owned("job "), id.as_str()), " not found"),
            AppError::BadRequest(m) => join(owned("invalid job payload: "), m.as_str()),
            AppError::WaitTimeout => owned("wait timed out"),
            AppError::Database(m) => join(owned("database error: "), m.as_str()),
            AppError::Redis(m) => join(owned("redis error: "), m.as_str()),
            AppError::RedisPool(m) => join(owned("redis pool error: "), m.as_str()),
            AppError::Serde(m) => join(owned("serialization error: "), m.as_str()),
            AppError::Internal(m) => join(owned("internal error: "), m.as_str()),
        }
    }
}

} // verus!
