//! Reading back a stored job: its id, its status and its timestamps, each
//! checked as the row is decoded.

use vstd::prelude::*;

use crate::domain::job::{lemma_status_text_roundtrip, status_from_text, JobStatus};
use crate::error::{AppError, AppResult};
use crate::ids::{hyphenated, lemma_hyphenated_roundtrip, parse_id, uuid_error_text, uuid_text_value};
use crate::text::{i64_decimal, join, owned, signed_decimal};

verus! {

/// The earliest moment `chrono` can hold, in milliseconds since the Unix
/// epoch: the start of January 1 of the year -262143.
pub const CHRONO_MIN_MILLIS: i64 = -8_334_601_228_800_000;

/// The latest moment `chrono` can hold, in milliseconds since the Unix
/// epoch: the last millisecond of December 31 of the year 262142.
pub const CHRONO_MAX_MILLIS: i64 = 8_210_266_876_799_999;

/// `chrono` can hold the moment `ms` milliseconds after the Unix epoch.
pub open spec fn chrono_millis_representable(ms: i64) -> bool {
    CHRONO_MIN_MILLIS <= ms <= CHRONO_MAX_MILLIS
}

/// `chrono::Utc.timestamp_millis_opt(ms).single()`, asked only whether it
/// gives a moment: it does exactly for the milliseconds from chrono's
/// earliest date (`NaiveDate::MIN`, January 1 of -262143) to the end of its
/// latest (`NaiveDate::MAX`, December 31 of 262142).
#[verifier::external_body]
fn millis_representable(ms: i64) -> (r: bool)
    ensures
        r == chrono_millis_representable(ms),
{
    chrono::TimeZone::timestamp_millis_opt(&chrono::Utc, ms).single().is_some()
}

/// The identity, status and timestamps (milliseconds since the Unix epoch)
/// of a stored job.
#[derive(Debug, Clone, Copy, PartialEq, Eq)]
pub struct JobMeta {
    pub id: u128,
    pub status: JobStatus,
    pub created_at: i64,
    pub started_at: Option<i64>,
    pub completed_at: Option<i64>,
}

/// `r` is an internal error whose detail is `detail`.
pub open spec fn is_internal<T>(r: AppResult<T>, detail: Seq<char>) -> bool {
    r matches Err(AppError::Internal(m)) && m@ == detail
}

/// An optional stored timestamp that is absent or representable.
pub open spec fn stamp_ok(ms: Option<i64>) -> bool {
    ms matches Some(v) ==> chrono_millis_representable(v)
}

/// Checks that a stored timestamp is a moment `chrono` can hold.
pub fn millis_to_utc(ms: i64) -> (res: AppResult<i64>)
    ensures
        chrono_millis_representable(ms) ==> res == Ok::<i64, AppError>(ms),
        !chrono_millis_representable(ms) ==> is_internal(
            res,
            "bad timestamp: "@ + signed_decimal(ms as int),
        ),
{
    if millis_representable(ms) {
        Ok(ms)
    } else {
        Err(AppError::Internal(join(owned("bad timestamp: "), i64_decimal(ms).as_str())))
    }
}

/// Checks an optional stored timestamp.
fn optional_millis(ms: Option<i64>) -> (res: AppResult<Option<i64>>)
    ensures
        stamp_ok(ms) ==> res == Ok::<Option<i64>, AppError>(ms),
        !stamp_ok(ms) ==> is_internal(res, "bad timestamp: "@ + signed_decimal(ms->0 as int)),
{
    match ms {
        Some(v) => match millis_to_utc(v) {
            Ok(w) => Ok(Some(w)),
            Err(e) => Err(e),
        },
        None => Ok(None),
    }
}

/// Decodes the stored columns of a job: the id text, the status text, and
/// the creation, start and completion times. The first column that does not
/// decode decides the error, in this order: id, status, creation time, start
/// time, completion time. A row written for a job, with the job's
/// hyphenated id, its status text and representable times, reads back as
/// exactly that job.
pub fn decode_job_row(
    id: &str,
    status: &str,
    created_at: i64,
    started_at: Option<i64>,
    completed_at: Option<i64>,
) -> (res: AppResult<JobMeta>)
    ensures
        uuid_text_value(id@) is None ==> is_internal(res, "bad uuid in db: "@ + uuid_error_text(id@)),
        uuid_text_value(id@) is Some && status_from_text(status@) is None ==> is_internal(
            res,
            "bad status: "@ + status@,
        ),
        uuid_text_value(id@) is Some && status_from_text(status@) is Some
            && !chrono_millis_representable(created_at) ==> is_internal(
            res,
            "bad timestamp: "@ + signed_decimal(created_at as int),
        ),
        uuid_text_value(id@) is Some && status_from_text(status@) is Some
            && chrono_millis_representable(created_at) && !stamp_ok(started_at) ==> is_internal(
            res,
            "bad timestamp: "@ + signed_decimal(started_at->0 as int),
        ),
        uuid_text_value(id@) is Some && status_from_text(status@) is Some
            && chrono_millis_representable(created_at) && stamp_ok(started_at) && !stamp_ok(
            completed_at,
        ) ==> is_internal(
            res,
            "bad timestamp: "@ + signed_decimal(completed_at->0 as int),
        ),
        uuid_text_value(id@) is Some && status_from_text(status@) is Some
            && chrono_millis_representable(created_at) && stamp_ok(started_at) && stamp_ok(
            completed_at,
        ) ==> res == Ok::<JobMeta, AppError>(
            JobMeta {
                id: (uuid_text_value(id@)->0) as u128,
                status: status_from_text(status@)->0,
                created_at,
                started_at,
                completed_at,
            },
        ),
        forall|x: u128, s: JobStatus|
            id@ == #[trigger] hyphenated(x) && status@ == #[trigger] s.text()
                && chrono_millis_representable(created_at) && stamp_ok(started_at) && stamp_ok(
                completed_at,
            ) ==> res == Ok::<JobMeta, AppError>(
                JobMeta { id: x, status: s, created_at, started_at, completed_at },
            ),
{
    proof {
        assert forall|x: u128, s: JobStatus|
            id@ == #[trigger] hyphenated(x) && status@ == #[trigger] s.text() implies status_from_text(
                status@,
            ) == Some(s) by {
            lemma_status_text_roundtrip(s);
        }
        assert forall|x: u128| id@ == #[trigger] hyphenated(x) implies uuid_text_value(id@) == Some(
            x as nat,
        ) by {
            lemma_hyphenated_roundtrip(x);
        }
    }
    let id = match parse_id(id) {
        Ok(v) => v,
        Err(reason) => {
            return Err(AppError::Internal(join(owned("bad uuid in db: "), reason.as_str())));
        },
    };
    let status = match JobStatus::from_str(status) {
        Some(s) => s,
        None => {
            return Err(AppError::Internal(join(owned("bad status: "), status)));
        },
    };
    let created_at = match millis_to_utc(created_at) {
        Ok(v) => v,
        Err(e) => {
            return Err(e);
        },
    };
    let started_at = match optional_millis(started_at) {
        Ok(v) => v,
        Err(e) => {
            return Err(e);
        },
    };
    let completed_at = match optional_millis(completed_at) {
        Ok(v) => v,
        Err(e) => {
            return Err(e);
        },
    };
    Ok(JobMeta { id, status, created_at, started_at, completed_at })
}

} // verus!
