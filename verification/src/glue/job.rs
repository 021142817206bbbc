//! The Glue job that a deployment asks for, and what the replies of the Glue
//! API mean.

use super::config::{build_default_arguments, job_arguments, GlueConfig};
use crate::aws::reply::Reply;
use crate::error::PluginError;
use crate::json::Json;
use crate::string_map::StringMap;
use crate::text::{copy_texts, opt_text, views};
use vstd::prelude::*;

verus! {

/// A Glue job, as both its update and its creation describe it.
#[derive(Debug)]
pub struct JobRequest {
    pub name: String,
    /// The role that the job runs as.
    pub role: String,
    pub command_name: String,
    pub script_location: String,
    pub python_version: String,
    pub glue_version: String,
    pub worker_type: String,
    pub number_of_workers: i32,
    pub timeout: Option<i32>,
    pub max_retries: Option<i32>,
    pub max_concurrent_runs: Option<i32>,
    /// The connections, where there are any.
    pub connections: Option<Vec<String>>,
    pub default_arguments: StringMap<String>,
}

/// `request` describes the job `job_name` that runs the script as `role`, with
/// the settings of `glue_cfg`.
pub open spec fn describes_job(
    request: JobRequest,
    job_name: Seq<char>,
    role: Seq<char>,
    script_location: Seq<char>,
    glue_cfg: GlueConfig,
) -> bool {
    &&& request.name@ == job_name
    &&& request.role@ == role
    &&& request.command_name@ == "glueetl"@
    &&& request.script_location@ == script_location
    &&& request.python_version@ == "3"@
    &&& request.glue_version@ == glue_cfg.glue_version@
    &&& request.worker_type@ == glue_cfg.worker_type@
    &&& request.number_of_workers == glue_cfg.number_of_workers
    &&& request.timeout == glue_cfg.timeout
    &&& request.max_retries == glue_cfg.max_retries
    &&& request.max_concurrent_runs == glue_cfg.max_concurrent_runs
    &&& request.connections is Some <==> glue_cfg.connections@.len() > 0
    &&& request.connections matches Some(list) ==> views(list@) == views(glue_cfg.connections@)
    &&& request.default_arguments.texts() == job_arguments(
        glue_cfg.default_arguments.texts(),
        opt_text(glue_cfg.bookmark),
    )
}

/// The message on a job without a role.
pub open spec fn missing_role(job_name: Seq<char>) -> Seq<char> {
    "Job \""@ + job_name + "\" requires a \"role\" (Glue execution role)"@
}

/// Describes the Glue job to update, or to create where it does not exist. The
/// role must be given.
pub fn create_or_update_glue_job(
    job_name: &str,
    script_location: &str,
    job_config: &Json,
    glue_cfg: &GlueConfig,
) -> (request: Result<JobRequest, PluginError>)
    ensures
        request is Ok <==> job_config.member_string("role"@) is Some,
        request matches Ok(job) ==> describes_job(
            job,
            job_name@,
            job_config.member_string("role"@)->0,
            script_location@,
            *glue_cfg,
        ),
        request matches Err(error) ==> error@ == missing_role(job_name@),
{
    let role: &str = match job_config.get_str("role") {
        Some(role) => role,
        None => {
            return Err(
                PluginError::new(
                    "Job \"".to_owned().concat(job_name).concat(
                        "\" requires a \"role\" (Glue execution role)",
                    ),
                ),
            );
        },
    };
    let connections: Option<Vec<String>> = if glue_cfg.connections.len() > 0 {
        Some(copy_texts(&glue_cfg.connections))
    } else {
        None
    };
    Ok(
        JobRequest {
            name: job_name.to_owned(),
            role: role.to_owned(),
            command_name: "glueetl".to_owned(),
            script_location: script_location.to_owned(),
            python_version: "3".to_owned(),
            glue_version: glue_cfg.glue_version.clone(),
            worker_type: glue_cfg.worker_type.clone(),
            number_of_workers: glue_cfg.number_of_workers,
            timeout: glue_cfg.timeout,
            max_retries: glue_cfg.max_retries,
            max_concurrent_runs: glue_cfg.max_concurrent_runs,
            connections,
            default_arguments: build_default_arguments(glue_cfg),
        },
    )
}

/// The message on a job that could not be deleted.
pub open spec fn undeleted_job(job_name: Seq<char>) -> Seq<char> {
    "Failed to delete Glue job \""@ + job_name + "\""@
}

/// What the deletion of a Glue job comes to.
pub fn delete_glue_job(job_name: &str, reply: Reply) -> (outcome: Result<(), PluginError>)
    ensures
        outcome is Ok <==> reply == Reply::Done,
        outcome matches Err(error) ==> error@ == undeleted_job(job_name@),
{
    if reply == Reply::Done {
        Ok(())
    } else {
        Err(
            PluginError::new(
                "Failed to delete Glue job \"".to_owned().concat(job_name).concat("\""),
            ),
        )
    }
}

/// What a look for a Glue job comes to: whether it exists, or an error that
/// names it where the call failed for another reason than that.
pub fn glue_job_exists(job_name: &str, reply: Reply) -> (outcome: Result<bool, PluginError>)
    ensures
        outcome is Err <==> reply == Reply::Failed,
        outcome matches Ok(exists) ==> exists == (reply == Reply::Done),
        outcome matches Err(error) ==> error@ == "Failed to check Glue job: "@ + job_name@,
{
    match reply {
        Reply::Done => Ok(true),
        Reply::NotFound => Ok(false),
        Reply::Failed => Err(
            PluginError::new("Failed to check Glue job: ".to_owned().concat(job_name)),
        ),
    }
}

} // verus!
