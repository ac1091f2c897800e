//! Keys of the cache of finished jobs.

use vstd::prelude::*;

use crate::ids::{hyphenated, id_text, lemma_hyphenated_injective};
use crate::text::join;

verus! {

/// The cache key of the job `id`: the configured prefix followed by the
/// hyphenated id.
pub fn cache_key(prefix: &str, id: u128) -> (r: String)
    ensures
        r@ == prefix@ + hyphenated(id),
{
    join(crate::text::owned(prefix), id_text(id).as_str())
}

/// Under one prefix, two jobs never share a cache key.
pub proof fn lemma_cache_keys_distinct(prefix: Seq<char>, a: u128, b: u128)
    requires
        prefix + hyphenated(a) == prefix + hyphenated(b),
    ensures
        a == b,
{
    let ka = prefix + hyphenated(a);
    let kb = prefix + hyphenated(b);
    assert(hyphenated(a) =~= ka.subrange(prefix.len() as int, ka.len() as int));
    assert(hyphenated(b) =~= kb.subrange(prefix.len() as int, kb.len() as int));
    lemma_hyphenated_injective(a, b);
}

} // verus!
