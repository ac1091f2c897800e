//! The ledger of record and the cache of finished jobs: their keys and how
//! stored rows are read back.

pub mod cache;
pub mod ledger;
