//! The calculations a job can ask for and the engine that runs them.

pub mod bignum;
pub mod calculation;
pub mod engine;
pub mod job;
pub mod primes;
