//! AWS settings and the S3 operations on generated scripts.
//!
//! The calls to AWS are made outside this crate. Here stands what is asked of
//! them, and what follows from each [`Reply`](reply::Reply).

pub mod call_laws;
pub mod config;
pub mod laws;
pub mod reply;
pub mod s3;
