//! The job queue: what is pushed for a job and how it is read back.

pub mod redis_queue;
