//! The schema of the `glue` block.

use super::types::{field_texts, FieldText, SchemaField, SchemaResponse};
use crate::text::{owned_texts, views};
use vstd::prelude::*;

verus! {

/// A schema field as texts.
pub open spec fn field_text(
    name: Seq<char>,
    field_type: Seq<char>,
    required: bool,
    description: Seq<char>,
) -> FieldText {
    FieldText { name, field_type, required, description }
}

/// The fields of the `glue` block.
pub open spec fn schema_fields() -> Seq<FieldText> {
    seq![
        field_text("region"@, "string"@, false, "AWS region"@),
        field_text("script_bucket"@, "string"@, true, "S3 bucket for generated scripts"@),
        field_text("script_prefix"@, "string"@, false, "S3 key prefix for scripts"@),
        field_text("worker_type"@, "string"@, false, "Glue worker type"@),
        field_text("glue_version"@, "string"@, false, "Glue ETL version"@),
        field_text("number_of_workers"@, "integer"@, false, "Number of Glue workers"@),
        field_text("timeout"@, "integer"@, false, "Job timeout in minutes"@),
        field_text("max_retries"@, "integer"@, false, "Maximum retry attempts"@),
        field_text("max_concurrent_runs"@, "integer"@, false, "Max concurrent job runs"@),
        field_text("bookmark"@, "string"@, false, "Job bookmark setting"@),
        field_text("connections"@, "array"@, false, "Glue connection names"@),
        field_text("default_arguments"@, "object"@, false, "Default job arguments"@),
    ]
}

/// The source types that a job can read.
pub open spec fn source_types() -> Seq<Seq<char>> {
    seq!["s3"@, "jdbc"@, "catalog"@, "kafka"@, "api"@]
}

/// The sink types that a job can write.
pub open spec fn sink_types() -> Seq<Seq<char>> {
    seq!["s3"@, "jdbc"@, "catalog"@, "iceberg"@]
}

/// The texts of an optional list of strings.
pub open spec fn opt_views(list: Option<Vec<String>>) -> Option<Seq<Seq<char>>> {
    match list {
        Some(list) => Some(views(list@)),
        None => None,
    }
}

/// A field that may be left out.
fn optional(name: &str, field_type: &str, description: &str) -> (field: SchemaField)
    ensures
        field@ == field_text(name@, field_type@, false, description@),
{
    SchemaField {
        name: name.to_owned(),
        field_type: field_type.to_owned(),
        required: false,
        description: description.to_owned(),
    }
}

/// A field that must be given.
fn required(name: &str, field_type: &str, description: &str) -> (field: SchemaField)
    ensures
        field@ == field_text(name@, field_type@, true, description@),
{
    SchemaField {
        name: name.to_owned(),
        field_type: field_type.to_owned(),
        required: true,
        description: description.to_owned(),
    }
}

/// The schema of the `glue` block, with the source and sink types of a job.
pub fn glue_schema() -> (response: SchemaResponse)
    ensures
        field_texts(response.fields@) == schema_fields(),
        opt_views(response.supported_source_types) == Some(source_types()),
        opt_views(response.supported_sink_types) == Some(sink_types()),
{
    let fields: Vec<SchemaField> = vec![
        optional("region", "string", "AWS region"),
        required("script_bucket", "string", "S3 bucket for generated scripts"),
        optional("script_prefix", "string", "S3 key prefix for scripts"),
        optional("worker_type", "string", "Glue worker type"),
        optional("glue_version", "string", "Glue ETL version"),
        optional("number_of_workers", "integer", "Number of Glue workers"),
        optional("timeout", "integer", "Job timeout in minutes"),
        optional("max_retries", "integer", "Maximum retry attempts"),
        optional("max_concurrent_runs", "integer", "Max concurrent job runs"),
        optional("bookmark", "string", "Job bookmark setting"),
        optional("connections", "array", "Glue connection names"),
        optional("default_arguments", "object", "Default job arguments"),
    ];
    let sources: Vec<&str> = vec!["s3", "jdbc", "catalog", "kafka", "api"];
    let sinks: Vec<&str> = vec!["s3", "jdbc", "catalog", "iceberg"];
    proof {
        assert(field_texts(fields@) =~= schema_fields());
        assert(sources@.map_values(|item: &str| item@) =~= source_types());
        assert(sinks@.map_values(|item: &str| item@) =~= sink_types());
    }
    SchemaResponse {
        fields,
        supported_source_types: Some(owned_texts(&sources)),
        supported_sink_types: Some(owned_texts(&sinks)),
    }
}

/// The script bucket is the one field that must be given.
pub proof fn only_script_bucket_is_required(i: int)
    requires
        0 <= i < schema_fields().len(),
    ensures
        schema_fields()[i].required <==> schema_fields()[i].name == "script_bucket"@,
{
    let fields = schema_fields();
    reveal_strlit("script_bucket");
    reveal_strlit("region");
    reveal_strlit("script_prefix");
    reveal_strlit("worker_type");
    reveal_strlit("glue_version");
    reveal_strlit("number_of_workers");
    reveal_strlit("timeout");
    reveal_strlit("max_retries");
    reveal_strlit("max_concurrent_runs");
    reveal_strlit("bookmark");
    reveal_strlit("connections");
    reveal_strlit("default_arguments");
    assert("script_prefix"@[7] != "script_bucket"@[7]);
    assert(forall|j: int| 0 <= j < fields.len() && j != 1 && j != 2 ==> (
    #[trigger] fields[j]).name.len() != 13);
}

} // verus!
