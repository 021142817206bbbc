//! Rendering of PySpark fragments from a job definition.

pub mod call_laws;
pub mod fragment_laws;
pub mod helpers;
pub mod laws;
pub mod literal;
pub mod options;
pub mod pii;
pub mod sink;
pub mod sink_laws;
pub mod transform;
pub mod transform_laws;
pub mod types;
