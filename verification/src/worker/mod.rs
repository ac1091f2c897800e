//! The workers: the decisions of the loop that pops jobs and of the
//! processing of one job.

pub mod pool;
