//! Verified core of an asynchronous calculation server: the calculations
//! themselves, the job-status rules, the identifiers and cache keys, and the
//! decisions taken by the request handlers and the workers.

pub mod config;
pub mod domain;
pub mod error;
pub mod http;
pub mod ids;
pub mod queue;
pub mod storage;
pub mod text;
pub mod worker;
