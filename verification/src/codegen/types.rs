//! The parts of a job definition that code is generated from.

use crate::json::Json;
use crate::string_map::StringMap;
use vstd::prelude::*;

verus! {

/// Top-level job configuration.
#[derive(Debug)]
pub struct JobConfig {
    /// Job type string: "glue", etc.
    pub job_type: Option<String>,
    /// User-defined Python imports.
    pub imports: Vec<Import>,
    /// Optional body override: raw Python code in place of what the sources,
    /// the transforms and the sink would render.
    pub body: Option<String>,
    /// Optional external script file path: the file is used verbatim.
    pub job_file: Option<String>,
    /// Source definitions.
    pub sources: Vec<Source>,
    /// Sink definition.
    pub sink: Option<Sink>,
    /// Transform definitions.
    pub transforms: Vec<Transform>,
    /// PII masking entity types.
    pub mask_pii: Vec<String>,
    /// Partition columns (year, month, day).
    pub partition_by: Vec<String>,
    /// Column to derive partition values from.
    pub partition_timestamp_column: Option<String>,
    /// Whether to create an `ingestion_timestamp` column.
    pub create_timestamp: bool,
    /// Provider-specific configuration (e.g. `{"glue": {"warehouse": "..."}}`).
    pub config: Json,
}

/// A single Python import statement.
#[derive(Debug)]
pub struct Import {
    /// Module or symbol name to import.
    pub name: String,
    /// Optional `from` module (`from X import name`).
    pub from: Option<String>,
}

/// JDBC authentication configuration.
#[derive(Debug, Clone)]
pub struct JdbcAuth {
    /// RDS IAM authentication configuration.
    pub rds_iam: Option<RdsIamAuth>,
}

/// RDS IAM authentication parameters.
#[derive(Debug, Clone)]
pub struct RdsIamAuth {
    /// DB username. Optional when `secret_id` is also set.
    pub username: Option<String>,
    /// RDS endpoint hostname.
    pub host: String,
    /// RDS endpoint port.
    pub port: u16,
    /// AWS region for the RDS instance.
    pub region: String,
}

/// A data source definition.
#[derive(Debug)]
pub struct Source {
    /// Source name (used as dataframe variable: `df_{name}`).
    pub name: String,
    /// Source type: "s3", "jdbc", "catalog", "kafka", "api".
    pub source_type: String,
    /// Data format (e.g. "parquet", "csv", "json").
    pub format: Option<String>,
    /// File path or S3 URI.
    pub path: Option<String>,
    /// JDBC connection URL.
    pub connection_url: Option<String>,
    /// Database table name.
    pub table: Option<String>,
    /// Database name.
    pub database: Option<String>,
    /// AWS Secrets Manager secret ID.
    pub secret_id: Option<String>,
    /// Spark engine: "spark" or "glue".
    pub engine: Option<String>,
    /// JDBC connection type for Glue (mysql, postgresql, etc.).
    pub connection_type: Option<String>,
    /// Kafka topic name.
    pub topic: Option<String>,
    /// API endpoint URL.
    pub url: Option<String>,
    /// HTTP headers for API sources.
    pub headers: StringMap<String>,
    /// Additional Spark reader options.
    pub options: StringMap<Json>,
    /// JDBC authentication configuration.
    pub auth: Option<JdbcAuth>,
    /// Column names (used by some source types).
    pub columns: Vec<String>,
}

/// A data sink definition.
#[derive(Debug, Clone)]
pub struct Sink {
    /// Source dataframe name to write from.
    pub source: Option<String>,
    /// Sink type: "s3", "jdbc", "catalog", "iceberg".
    pub sink_type: String,
    /// Data format (e.g. "parquet", "csv", "json").
    pub format: Option<String>,
    /// Output path or S3 URI.
    pub path: Option<String>,
    /// JDBC connection URL.
    pub connection_url: Option<String>,
    /// Database table name.
    pub table: Option<String>,
    /// Database name.
    pub database: Option<String>,
    /// AWS Secrets Manager secret ID.
    pub secret_id: Option<String>,
    /// Write mode (overwrite, append, etc.).
    pub mode: Option<String>,
    /// Partition columns.
    pub partition_by: Vec<String>,
    /// JDBC connection type for Glue.
    pub connection_type: Option<String>,
    /// Whether to emit the schema-conform pass for Iceberg.
    pub fill_nulls: Option<bool>,
    /// JDBC authentication configuration.
    pub auth: Option<JdbcAuth>,
    /// Additional Spark writer options.
    pub options: StringMap<Json>,
    /// Glue catalog ID for Iceberg sinks.
    pub catalog_id: Option<String>,
}

/// A transform operation definition.
#[derive(Debug)]
pub struct Transform {
    /// Transform type: "filter", "sql", "join", "drop_columns", "select",
    /// "rename", "add_column", "aggregate", "window".
    pub transform_type: String,
    /// Input source name (defaults to first source).
    pub source: Option<String>,
    /// Output dataframe name (defaults to input name).
    pub output: Option<String>,
    /// Filter condition expression.
    pub condition: Option<String>,
    /// SQL query string.
    pub query: Option<String>,
    /// Column names (for `drop_columns`, `select`).
    pub columns: Vec<String>,
    /// Rename mapping (old name to new name).
    pub mapping: StringMap<String>,
    /// Column name (for `add_column`, `window`).
    pub name: Option<String>,
    /// Expression (for `add_column`, `window`).
    pub expression: Option<String>,
    /// Left dataframe name (for `join`).
    pub left: Option<String>,
    /// Right dataframe name (for `join`).
    pub right: Option<String>,
    /// Join key column (for `join`).
    pub on: Option<String>,
    /// Join type (for `join`: "inner", "left", etc.).
    pub how: Option<String>,
    /// Group-by columns (for `aggregate`).
    pub group_by: Vec<String>,
    /// Aggregation expressions (alias to expression).
    pub aggs: StringMap<String>,
    /// Partition-by columns (for `window`).
    pub partition_by: Vec<String>,
    /// Order-by specifications (for `window`).
    pub order_by: Vec<OrderBySpec>,
}

/// Order-by column specification for window transforms.
#[derive(Debug)]
pub struct OrderBySpec {
    /// Column name.
    pub column: String,
    /// Descending order.
    pub desc: bool,
}

} // verus!
