//! Verified core of the yard plugins for AWS Glue.

pub mod aws;
pub mod codegen;
pub mod error;
pub mod glue;
pub mod json;
pub mod json_laws;
pub mod string_map;
pub mod text;
pub mod text_laws;
