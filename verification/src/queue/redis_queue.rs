//! Queue entries: a job is queued as the hyphenated text of its id.

use vstd::prelude::*;

use crate::error::{AppError, AppResult};
use crate::ids::{hyphenated, id_text, lemma_hyphenated_roundtrip, parse_id, uuid_error_text, uuid_text_value};
use crate::text::{join, owned};

verus! {

/// The text pushed onto the queue for the job `id`.
pub fn queue_entry(id: u128) -> (r: String)
    ensures
        r@ == hyphenated(id),
{
    id_text(id)
}

/// The job id that a queue entry names. An entry that is not an id is an
/// internal error carrying the parser's message.
pub fn parse_queue_entry(raw: &str) -> (res: AppResult<u128>)
    ensures
        res is Ok <==> uuid_text_value(raw@) is Some,
        res matches Ok(v) ==> uuid_text_value(raw@) == Some(v as nat),
        res matches Err(e) ==> (e matches AppError::Internal(m) && m@ == "invalid id in queue: "@
            + uuid_error_text(raw@)),
        forall|x: u128| raw@ == #[trigger] hyphenated(x) ==> res == Ok::<u128, AppError>(x),
{
    match parse_id(raw) {
        Ok(id) => {
            proof {
                assert forall|x: u128| raw@ == #[trigger] hyphenated(x) implies id == x by {
                    lemma_hyphenated_roundtrip(x);
                }
            }
            Ok(id)
        },
        Err(reason) => {
            let m = join(owned("invalid id in queue: "), reason.as_str());
            proof {
                assert forall|x: u128| raw@ != #[trigger] hyphenated(x) by {
                    lemma_hyphenated_roundtrip(x);
                }
            }
            Err(AppError::Internal(m))
        },
    }
}

/// Reading back the entry queued for a job gives that job's id.
pub proof fn lemma_queue_entry_roundtrip(id: u128)
    ensures
        uuid_text_value(hyphenated(id)) == Some(id as nat),
{
    lemma_hyphenated_roundtrip(id);
}

} // verus!
