//! The configuration of a Glue job, as the `glue` block of a job definition
//! gives it.

use crate::json::Json;
use crate::string_map::StringMap;
use crate::text::{opt_text, same_text};
use vstd::prelude::*;

verus! {

/// The `glue` block of a job definition. Every field has a default.
#[derive(Debug)]
pub struct GlueConfig {
    /// AWS region for Glue API calls.
    pub region: String,
    /// S3 key prefix for generated scripts.
    pub script_prefix: String,
    /// S3 bucket for generated scripts (required at validate time).
    pub script_bucket: Option<String>,
    /// Glue ETL version (3.0, 4.0, or 5.0).
    pub glue_version: String,
    /// Glue worker type (G.025X, G.1X, G.2X, G.4X, G.8X, Z.2X).
    pub worker_type: String,
    /// Number of Glue workers (must be >= 1).
    pub number_of_workers: i32,
    /// Job timeout in minutes (must be >= 1 if set).
    pub timeout: Option<i32>,
    /// Maximum retry attempts (must be >= 0 if set).
    pub max_retries: Option<i32>,
    /// Maximum concurrent job runs.
    pub max_concurrent_runs: Option<i32>,
    /// Job bookmark setting ("enabled" or "disabled").
    pub bookmark: Option<String>,
    /// Glue connection names.
    pub connections: Vec<String>,
    /// Default job arguments passed to the Glue job.
    pub default_arguments: StringMap<String>,
    /// The block of AWS credentials.
    pub aws: Option<Json>,
}

/// The region of a block that gives none.
pub fn default_region() -> (region: String)
    ensures
        region@ == "us-east-1"@,
{
    "us-east-1".to_owned()
}

/// The script prefix of a block that gives none.
pub fn default_script_prefix() -> (prefix: String)
    ensures
        prefix@ == "yard-scripts/"@,
{
    "yard-scripts/".to_owned()
}

/// The Glue version of a block that gives none.
pub fn default_glue_version() -> (version: String)
    ensures
        version@ == "4.0"@,
{
    "4.0".to_owned()
}

/// The worker type of a block that gives none.
pub fn default_worker_type() -> (worker_type: String)
    ensures
        worker_type@ == "G.1X"@,
{
    "G.1X".to_owned()
}

/// The number of workers of a block that gives none.
pub fn default_number_of_workers() -> (number: i32)
    ensures
        number == 2,
{
    2
}

impl Default for GlueConfig {
    /// The configuration that an empty block gives.
    fn default() -> (config: Self)
        ensures
            config.region@ == "us-east-1"@,
            config.script_prefix@ == "yard-scripts/"@,
            config.script_bucket is None,
            config.glue_version@ == "4.0"@,
            config.worker_type@ == "G.1X"@,
            config.number_of_workers == 2,
            config.timeout is None,
            config.max_retries is None,
            config.max_concurrent_runs is None,
            config.bookmark is None,
            config.connections@.len() == 0,
            config.default_arguments.pairs().len() == 0,
            config.aws is None,
    {
        GlueConfig {
            region: default_region(),
            script_prefix: default_script_prefix(),
            script_bucket: None,
            glue_version: default_glue_version(),
            worker_type: default_worker_type(),
            number_of_workers: default_number_of_workers(),
            timeout: None,
            max_retries: None,
            max_concurrent_runs: None,
            bookmark: None,
            connections: Vec::new(),
            default_arguments: StringMap::new(),
            aws: None,
        }
    }
}

/// The value of the bookmark argument.
pub open spec fn bookmark_option(bookmark: Seq<char>) -> Seq<char> {
    if bookmark == "enabled"@ || bookmark == "true"@ {
        "job-bookmark-enable"@
    } else {
        "job-bookmark-disable"@
    }
}

/// The arguments of a job: those that the user gave, the data lake format
/// "iceberg" where they give none, and the bookmark setting where there is one.
pub open spec fn job_arguments(
    given: Map<Seq<char>, Seq<char>>,
    bookmark: Option<Seq<char>>,
) -> Map<Seq<char>, Seq<char>> {
    let formatted = if given.contains_key("--datalake-formats"@) {
        given
    } else {
        given.insert("--datalake-formats"@, "iceberg"@)
    };
    match bookmark {
        Some(bookmark) => formatted.insert("--job-bookmark-option"@, bookmark_option(bookmark)),
        None => formatted,
    }
}

/// Builds the arguments of a Glue job.
pub fn build_default_arguments(config: &GlueConfig) -> (args: StringMap<String>)
    ensures
        args.texts() == job_arguments(config.default_arguments.texts(), opt_text(config.bookmark)),
{
    let mut args: StringMap<String> = config.default_arguments.copy();
    if args.get_text("--datalake-formats").is_none() {
        args.put_text("--datalake-formats", "iceberg");
    }
    match &config.bookmark {
        Some(bookmark) => {
            let option: &str = if same_text(bookmark.as_str(), "enabled") || same_text(
                bookmark.as_str(),
                "true",
            ) {
                "job-bookmark-enable"
            } else {
                "job-bookmark-disable"
            };
            args.put_text("--job-bookmark-option", option);
        },
        None => {},
    }
    args
}

/// Every argument that the user gave keeps its value, but for the bookmark
/// option where the bookmark is set.
pub proof fn given_arguments_are_kept(
    given: Map<Seq<char>, Seq<char>>,
    bookmark: Option<Seq<char>>,
    key: Seq<char>,
)
    requires
        given.contains_key(key),
        bookmark is None || key != "--job-bookmark-option"@,
    ensures
        job_arguments(given, bookmark).contains_key(key),
        job_arguments(given, bookmark)[key] == given[key],
{
}

/// A job always has a data lake format: what the user gave, else "iceberg".
pub proof fn data_lake_format_is_set(
    given: Map<Seq<char>, Seq<char>>,
    bookmark: Option<Seq<char>>,
)
    ensures
        job_arguments(given, bookmark).contains_key("--datalake-formats"@),
        job_arguments(given, bookmark)["--datalake-formats"@] == if given.contains_key(
            "--datalake-formats"@,
        ) {
            given["--datalake-formats"@]
        } else {
            "iceberg"@
        },
{
    reveal_strlit("--datalake-formats");
    reveal_strlit("--job-bookmark-option");
    assert("--datalake-formats"@.len() != "--job-bookmark-option"@.len());
}

/// No argument comes from anywhere but the user, the data lake format and the
/// bookmark.
pub proof fn no_other_arguments(
    given: Map<Seq<char>, Seq<char>>,
    bookmark: Option<Seq<char>>,
    key: Seq<char>,
)
    requires
        job_arguments(given, bookmark).contains_key(key),
    ensures
        given.contains_key(key) || key == "--datalake-formats"@ || (bookmark is Some && key
            == "--job-bookmark-option"@),
{
}

} // verus!
