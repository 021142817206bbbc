//! The AWS Glue plugin: configuration, validation, and the lifecycle of a job.

pub mod call_laws;
pub mod config;
pub mod deploy;
pub mod destroy;
pub mod handler;
pub mod job;
pub mod laws;
pub mod lifecycle;
pub mod schema;
pub mod types;
pub mod uri;
pub mod validate;
pub mod validation_laws;
pub mod verify;
pub mod view_laws;
