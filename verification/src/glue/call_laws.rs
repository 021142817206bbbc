//! What the operations of the plugin come to, and how one call of them relates to
//! another.

use super::config::{
    build_default_arguments, default_glue_version, default_number_of_workers, default_region,
    default_script_prefix, default_worker_type, job_arguments, GlueConfig,
};
use super::deploy::{Deployment, Stage};
use super::destroy::{deletions, planned_deletions, DestroyAction, Destruction};
use super::handler::{extract_glue_config, GlueHandler};
use super::job::{create_or_update_glue_job, delete_glue_job, glue_job_exists, JobRequest};
use super::schema::{glue_schema, schema_fields, sink_types, source_types};
use super::types::{
    error_texts, field_texts, resource_texts, status_texts, CodegenResponse, DeployResponse,
    DestroyResponse, PluginValidationError, Resource, SchemaResponse, ValidateResponse,
    VerifyResponse,
};
use super::uri::{parse_s3_uri, parses_what_it_names};
use super::validate::{
    definition_errors, glue_versions, holds_nonempty, validate_definition, validation_error,
    worker_types,
};
use super::validation_laws::{is_reported, missing_buckets_are_reported, missing_roles_are_reported};
use super::verify::{existence, probe_text, Probe, Verification};
use crate::aws::config::{environment_region, settings_for};
use crate::aws::reply::Reply;
use crate::aws::s3::object_uri;
use crate::error::PluginError;
use crate::json::Json;
use crate::string_map::StringMap;
use crate::text::{opt_text, views};
use vstd::prelude::*;

verus! {

/// The defaults of the block are valid: the worker type and the Glue version are
/// among those that are accepted, two workers are allowed, the region is that of an
/// environment that sets none, and the prefix ends in a slash.
pub proof fn defaults_are_valid(
    env: &StringMap<String>,
    region: String,
    environment: String,
    prefix: String,
    version: String,
    worker_type: String,
    workers: i32,
)
    requires
        call_ensures(default_region, (), region),
        call_ensures(environment_region, (env,), environment),
        env.text_at("AWS_DEFAULT_REGION"@) is None,
        call_ensures(default_script_prefix, (), prefix),
        call_ensures(default_glue_version, (), version),
        call_ensures(default_worker_type, (), worker_type),
        call_ensures(default_number_of_workers, (), workers),
    ensures
        region@ == environment@,
        region@ == "us-east-1"@,
        prefix@ == "yard-scripts"@ + "/"@,
        glue_versions().contains(version@),
        version@ == "4.0"@,
        worker_types().contains(worker_type@),
        worker_type@ == "G.1X"@,
        workers == 2,
{
    reveal_strlit("yard-scripts");
    reveal_strlit("yard-scripts/");
    reveal_strlit("/");
    assert("yard-scripts/"@ =~= "yard-scripts"@ + "/"@);
    assert(glue_versions()[1] == "4.0"@);
    assert(worker_types()[1] == "G.1X"@);
}

/// A block that gives nothing asks for a job with the defaults alone: no limits, no
/// connections, and no argument but the data lake format.
pub proof fn empty_block_gives_a_plain_job(
    job_name: &str,
    location: &str,
    job_config: &Json,
    block: GlueConfig,
    job: Result<JobRequest, PluginError>,
    version: String,
    worker_type: String,
    workers: i32,
)
    requires
        call_ensures(GlueConfig::default, (), block),
        call_ensures(create_or_update_glue_job, (job_name, location, job_config, &block), job),
        call_ensures(default_glue_version, (), version),
        call_ensures(default_worker_type, (), worker_type),
        call_ensures(default_number_of_workers, (), workers),
        job is Ok,
    ensures
        block.region@ == "us-east-1"@,
        block.script_prefix@ == "yard-scripts/"@,
        block.script_bucket is None,
        block.aws is None,
        job->Ok_0.glue_version@ == version@,
        job->Ok_0.worker_type@ == worker_type@,
        job->Ok_0.number_of_workers == workers,
        job->Ok_0.timeout is None,
        job->Ok_0.max_retries is None,
        job->Ok_0.max_concurrent_runs is None,
        job->Ok_0.connections is None,
        job->Ok_0.default_arguments.texts() == Map::<Seq<char>, Seq<char>>::empty().insert(
            "--datalake-formats"@,
            "iceberg"@,
        ),
{
    let pairs = block.default_arguments.pairs();
    assert(pairs.map_values(|pair: (Seq<char>, String)| (pair.0, pair.1@)) =~= Seq::empty());
    assert(block.default_arguments.texts() =~= Map::<Seq<char>, Seq<char>>::empty());
    assert(job->Ok_0.default_arguments.texts() =~= Map::<Seq<char>, Seq<char>>::empty().insert(
        "--datalake-formats"@,
        "iceberg"@,
    ));
}

/// The configuration that is extracted is the one that the block parses into. It is
/// refused where the block is missing, or does not parse.
pub proof fn block_is_extracted(
    job_config: &Json,
    parsed: Option<GlueConfig>,
    config: Result<GlueConfig, PluginError>,
)
    requires
        call_ensures(extract_glue_config, (job_config, parsed), config),
    ensures
        match (job_config.member("glue"@), parsed) {
            (None, _) => config matches Err(error) && error.message@ == "missing glue config block"@,
            (Some(_), None) => config matches Err(error) && error.message@
                == "failed to parse glue config block"@,
            (Some(_), Some(block)) => config == Ok::<GlueConfig, PluginError>(block),
        },
{
}

/// A definition without validation errors, whose block parses, can be deployed.
pub proof fn valid_definition_can_be_deployed(
    handler: &GlueHandler,
    job_name: &str,
    job_config: &Json,
    parsed: Option<GlueConfig>,
    artifact: &str,
    env: &StringMap<String>,
    validated: Result<ValidateResponse, PluginError>,
    deployment: Result<Deployment, PluginError>,
)
    requires
        call_ensures(GlueHandler::validate, (handler, job_name, job_config), validated),
        call_ensures(
            GlueHandler::deploy,
            (handler, job_name, job_config, parsed, artifact, env),
            deployment,
        ),
        validated matches Ok(answer) && answer.errors@.len() == 0,
        parsed is Some,
    ensures
        deployment is Ok,
{
    let errors = definition_errors(job_name@, *job_config);
    assert(error_texts(validated->Ok_0.errors@).len() == 0);
    missing_roles_are_reported(job_name@, *job_config);
    missing_buckets_are_reported(job_name@, *job_config);
    assert(!is_reported(errors, "role"@));
    assert(!is_reported(errors, "glue.script_bucket"@));
}

/// A deployment that begins uploads the artifact into the bucket of the block, and
/// asks for the job that the definition describes, which runs the uploaded script.
pub proof fn deployment_asks_for_its_job(
    handler: &GlueHandler,
    job_name: &str,
    job_config: &Json,
    block: GlueConfig,
    artifact: &str,
    env: &StringMap<String>,
    location: &str,
    deployment: Result<Deployment, PluginError>,
    job: Result<JobRequest, PluginError>,
)
    requires
        call_ensures(
            GlueHandler::deploy,
            (handler, job_name, job_config, Some(block), artifact, env),
            deployment,
        ),
        call_ensures(
            create_or_update_glue_job,
            (job_name, location, job_config, &block),
            job,
        ),
        deployment matches Ok(begun) && location@ == "s3://"@ + begun.upload.object.bucket@ + "/"@
            + begun.upload.object.key@,
    ensures
        deployment->Ok_0.stage == Stage::Upload,
        deployment->Ok_0.upload.body@ == artifact@,
        deployment->Ok_0.settings.region@ == block.region@,
        job is Ok,
        ({
            let asked = deployment->Ok_0.job;
            let described = job->Ok_0;
            &&& asked.name@ == described.name@
            &&& asked.role@ == described.role@
            &&& asked.script_location@ == described.script_location@
            &&& asked.glue_version@ == described.glue_version@
            &&& asked.worker_type@ == described.worker_type@
            &&& asked.number_of_workers == described.number_of_workers
            &&& asked.timeout == described.timeout
            &&& asked.max_retries == described.max_retries
            &&& asked.max_concurrent_runs == described.max_concurrent_runs
            &&& asked.default_arguments.texts() == described.default_arguments.texts()
        }),
{
    super::laws::job_runs_what_is_uploaded(
        deployment->Ok_0,
        job_name@,
        *job_config,
        block,
        artifact@,
        *env,
    );
}

/// A job is described with every setting of the block, and exactly where a role is
/// given.
pub proof fn job_is_described(
    job_name: &str,
    location: &str,
    job_config: &Json,
    block: &GlueConfig,
    job: Result<JobRequest, PluginError>,
    arguments: StringMap<String>,
)
    requires
        call_ensures(create_or_update_glue_job, (job_name, location, job_config, block), job),
        call_ensures(build_default_arguments, (block,), arguments),
    ensures
        match job_config.member("role"@) {
            Some(Json::Str(role)) => job matches Ok(request) && {
                &&& request.name@ == job_name@
                &&& request.role@ == role@
                &&& request.script_location@ == location@
                &&& request.command_name@ == "glueetl"@
                &&& request.python_version@ == "3"@
                &&& request.glue_version@ == block.glue_version@
                &&& request.worker_type@ == block.worker_type@
                &&& request.number_of_workers == block.number_of_workers
                &&& request.timeout == block.timeout
                &&& request.max_retries == block.max_retries
                &&& request.max_concurrent_runs == block.max_concurrent_runs
                &&& request.default_arguments.texts() == arguments.texts()
                &&& arguments.texts() == job_arguments(
                    block.default_arguments.texts(),
                    opt_text(block.bookmark),
                )
            },
            _ => job matches Err(error) && error.message@ == "Job \""@ + job_name@
                + "\" requires a \"role\" (Glue execution role)"@,
        },
{
}

/// A code generation answers with the script, or with its error.
pub proof fn script_is_passed_on(
    handler: &GlueHandler,
    script: Result<String, PluginError>,
    response: Result<CodegenResponse, PluginError>,
)
    requires
        call_ensures(GlueHandler::codegen, (handler, script), response),
    ensures
        match script {
            Ok(text) => response matches Ok(answer) && answer.script == Some(text),
            Err(error) => response == Err::<CodegenResponse, PluginError>(error),
        },
{
}

/// A destruction and a verification begin with nothing behind them, in the region
/// of the environment, and with the role of the environment alone; the first asks
/// for the planned deletions of the resources, the second for the resources.
pub proof fn calls_begin_afresh(
    handler: &GlueHandler,
    resources: &[Resource],
    env: &StringMap<String>,
    region: String,
    destruction: Destruction,
    verification: Verification,
)
    requires
        call_ensures(GlueHandler::destroy, (handler, resources, env), destruction),
        call_ensures(GlueHandler::verify, (handler, resources, env), verification),
        call_ensures(environment_region, (env,), region),
    ensures
        settings_for(destruction.settings, region@, None, *env),
        settings_for(verification.settings, region@, None, *env),
        deletions(destruction.actions@) == planned_deletions(resource_texts(resources@)),
        destruction.done == 0,
        !destruction.failed,
        resource_texts(verification.resources@) == resource_texts(resources@),
        verification.statuses@.len() == 0,
        !verification.failed,
{
    assert(verification.follows(Seq::empty()));
}

/// A finished deployment answers with its script, by the location that its job
/// runs, and its job, by its name; one that is not finished does not answer.
pub proof fn deployment_answers_when_finished(
    deployment: &Deployment,
    response: Option<DeployResponse>,
)
    requires
        call_ensures(Deployment::response, (deployment,), response),
    ensures
        response is Some <==> deployment.stage == Stage::Finished,
        response matches Some(answer) ==> {
            &&& answer.resources@.len() == 2
            &&& answer.resources@[0].resource_type@ == "s3_object"@
            &&& answer.resources@[0].id@ == deployment.job.script_location@
            &&& answer.resources@[0].provider@ == "glue"@
            &&& answer.resources@[1].resource_type@ == "glue_job"@
            &&& answer.resources@[1].id@ == deployment.job.name@
            &&& answer.resources@[1].provider@ == "glue"@
        },
{
    if let Some(answer) = response {
        let texts = resource_texts(answer.resources@);
        assert(texts.len() == answer.resources@.len());
        assert(texts[0] == answer.resources@[0]@);
        assert(texts[1] == answer.resources@[1]@);
    }
}

/// A destruction has a next deletion exactly as long as it is neither ended nor
/// through, and that is the one after those behind it; it answers when it is
/// through.
pub proof fn destruction_answers_when_through(
    destruction: &Destruction,
    action: Option<&DestroyAction>,
    response: Option<DestroyResponse>,
)
    requires
        destruction.wf(),
        call_ensures(Destruction::action, (destruction,), action),
        call_ensures(Destruction::response, (destruction,), response),
    ensures
        destruction.failed ==> action is None && response is None,
        !destruction.failed ==> (action is None <==> response is Some),
        action is Some <==> !destruction.failed && destruction.done < destruction.actions@.len(),
        action matches Some(next) ==> *next == destruction.actions@[destruction.done as int],
{
}

/// A deletion of a job that did not succeed is an error that names the job; one of
/// an object never is.
pub proof fn deletions_of_jobs_must_succeed(
    action: &DestroyAction,
    reply: Reply,
    outcome: Result<(), PluginError>,
)
    requires
        call_ensures(DestroyAction::outcome, (action, reply), outcome),
    ensures
        match *action {
            DestroyAction::DeleteJob(id) => if reply == Reply::Done {
                outcome is Ok
            } else {
                outcome matches Err(error) && error.message@ == "Failed to delete Glue job \""@ + id@
                    + "\""@
            },
            DestroyAction::DeleteObject(_) => outcome is Ok,
        },
{
}

/// A verification has a next probe exactly as long as it is neither ended nor
/// through, and that is for the resource after those asked for; it answers with its
/// statuses when it is through.
pub proof fn verification_answers_when_through(
    verification: Verification,
    probe: Option<Probe>,
    response: Option<VerifyResponse>,
)
    requires
        verification.wf(),
        call_ensures(Verification::probe, (&verification,), probe),
        call_ensures(Verification::response, (verification,), response),
    ensures
        verification.failed ==> probe is None && response is None,
        !verification.failed ==> (probe is None <==> response is Some),
        probe is Some <==> !verification.failed && verification.statuses@.len()
            < verification.resources@.len(),
        probe matches Some(next) ==> next@ == probe_text(
            verification.resources@[verification.statuses@.len() as int]@,
        ),
        response matches Some(answer) ==> answer.statuses == verification.statuses,
{
}

/// A job exists where the call succeeded, does not where it was not found, and a
/// call that failed is told by the name; a deletion must succeed.
pub proof fn jobs_are_looked_for(
    job_name: &str,
    reply: Reply,
    found: Result<bool, PluginError>,
    deleted: Result<(), PluginError>,
)
    requires
        call_ensures(glue_job_exists, (job_name, reply), found),
        call_ensures(delete_glue_job, (job_name, reply), deleted),
    ensures
        match reply {
            Reply::Done => found == Ok::<bool, PluginError>(true) && deleted is Ok,
            Reply::NotFound => found == Ok::<bool, PluginError>(false) && deleted is Err,
            Reply::Failed => deleted is Err && (found matches Err(error) && error.message@
                == "Failed to check Glue job: "@ + job_name@),
        },
        deleted matches Err(error) ==> error.message@ == "Failed to delete Glue job \""@ + job_name@
            + "\""@,
{
}

/// The URI that an object is given parses back into its bucket and its key, for a
/// bucket that is not empty and holds no slash and a key that is not empty.
pub proof fn uris_parse_back<'a>(
    bucket: &str,
    key: &str,
    uri: String,
    text: &'a str,
    parsed: Option<(&'a str, &'a str)>,
)
    requires
        call_ensures(object_uri, (bucket, key), uri),
        text@ == uri@,
        call_ensures(parse_s3_uri, (text,), parsed),
        bucket@.len() > 0,
        !bucket@.contains('/'),
        key@.len() > 0,
    ensures
        parsed matches Some((b, k)) && b@ == bucket@ && k@ == key@,
{
    parses_what_it_names(uri@, bucket@, key@);
}

/// The plugin validates as the rules say, and its schema is that of the block.
pub proof fn answers_are_those_of_the_rules(
    handler: &GlueHandler,
    job_name: &str,
    job_config: &Json,
    validated: Result<ValidateResponse, PluginError>,
    errors: Vec<PluginValidationError>,
    schema: Result<SchemaResponse, PluginError>,
    fields: SchemaResponse,
    name: &'static str,
)
    requires
        call_ensures(GlueHandler::validate, (handler, job_name, job_config), validated),
        call_ensures(validate_definition, (job_name, job_config), errors),
        call_ensures(GlueHandler::schema, (handler,), schema),
        call_ensures(glue_schema, (), fields),
        call_ensures(GlueHandler::name, (handler,), name),
    ensures
        validated matches Ok(answer) && error_texts(answer.errors@) == error_texts(errors@),
        error_texts(errors@) == definition_errors(job_name@, *job_config),
        schema matches Ok(answer) && field_texts(answer.fields@) == field_texts(fields.fields@)
            && (answer.supported_source_types matches Some(sources) && views(sources@)
            == source_types()) && (answer.supported_sink_types matches Some(sinks) && views(sinks@)
            == sink_types()),
        field_texts(fields.fields@) == schema_fields(),
        name@ == "yard-plugin-glue"@,
{
}

/// A validation error holds its field and its message, and is an error; a text is
/// held exactly where it is a string that is not empty.
pub proof fn errors_hold_field_and_message(
    field: &str,
    message: &str,
    error: PluginValidationError,
    value: &Json,
    held: bool,
)
    requires
        call_ensures(validation_error, (field, message), error),
        call_ensures(holds_nonempty, (value, field), held),
    ensures
        error.field@ == field@,
        error.message@ == message@,
        error.severity@ == "error"@,
        held <==> match value.member(field@) {
            Some(Json::Str(text)) => text@.len() > 0,
            _ => false,
        },
{
    assert(error@.field == error.field@);
}

/// A step of a deployment changes its stage alone: from the upload to the update,
/// from there to the end, or to the creation where the job was not found, and from
/// there to the end; any other reply aborts it, and the error says what failed.
pub proof fn deployment_steps(
    deployment: &mut Deployment,
    reply: Reply,
    outcome: Result<(), PluginError>,
)
    requires
        old(deployment).stage == Stage::Upload || old(deployment).stage == Stage::UpdateJob || old(
            deployment,
        ).stage == Stage::CreateJob,
        call_ensures(Deployment::step, (deployment, reply), outcome),
    ensures
        final(deployment).settings == old(deployment).settings,
        final(deployment).ops == old(deployment).ops,
        final(deployment).upload == old(deployment).upload,
        final(deployment).job == old(deployment).job,
        reply == Reply::Done ==> outcome is Ok && final(deployment).stage == if old(
            deployment,
        ).stage == Stage::Upload {
            Stage::UpdateJob
        } else {
            Stage::Finished
        },
        reply == Reply::NotFound && old(deployment).stage == Stage::UpdateJob ==> outcome is Ok
            && final(deployment).stage == Stage::CreateJob,
        reply == Reply::Failed || (reply == Reply::NotFound && old(deployment).stage
            != Stage::UpdateJob) ==> final(deployment).stage == Stage::Aborted && (
        outcome matches Err(error) && error.message@ == match old(deployment).stage {
            Stage::Upload => "Failed to upload script to "@ + old(deployment).ops.uri_of(
                old(deployment).job.name@,
            ),
            Stage::CreateJob => "Failed to create Glue job \""@ + old(deployment).job.name@ + "\""@,
            _ => "Failed to update Glue job \""@ + old(deployment).job.name@ + "\""@,
        }),
{
}

/// A step of a destruction goes on to the next deletion, or ends it where the
/// deletion of a job did not succeed, with an error that names the job.
pub proof fn destruction_steps(
    destruction: &mut Destruction,
    reply: Reply,
    outcome: Result<(), PluginError>,
)
    requires
        old(destruction).wf(),
        !old(destruction).failed,
        old(destruction).done < old(destruction).actions@.len(),
        call_ensures(Destruction::step, (destruction, reply), outcome),
    ensures
        final(destruction).settings == old(destruction).settings,
        final(destruction).actions == old(destruction).actions,
        match old(destruction).actions@[old(destruction).done as int] {
            DestroyAction::DeleteJob(id) if reply != Reply::Done => {
                &&& outcome matches Err(error) && error.message@
                    == "Failed to delete Glue job \""@ + id@ + "\""@
                &&& final(destruction).failed
                &&& final(destruction).done == old(destruction).done
            },
            _ => {
                &&& outcome is Ok
                &&& !final(destruction).failed
                &&& final(destruction).done == old(destruction).done + 1
            },
        },
{
    let plan = deletions(old(destruction).actions@);
    let at = old(destruction).done as int;
    assert(plan[at] == old(destruction).actions@[at]@);
    assert(final(destruction).progress().done == final(destruction).done);
    assert(final(destruction).progress().failed == final(destruction).failed);
}

/// A step of a verification adds the status of the resource that comes next, or
/// ends it where the call failed.
pub proof fn verification_steps(
    verification: &mut Verification,
    reply: Reply,
    outcome: Result<(), PluginError>,
)
    requires
        old(verification).wf(),
        !old(verification).failed,
        old(verification).statuses@.len() < old(verification).resources@.len(),
        call_ensures(Verification::step, (verification, reply), outcome),
    ensures
        final(verification).settings == old(verification).settings,
        final(verification).resources == old(verification).resources,
        final(verification).failed <==> outcome is Err,
        ({
            let next = old(verification).resources@[old(verification).statuses@.len() as int]@;
            match existence(probe_text(next), reply) {
                Ok(exists) => outcome is Ok && status_texts(final(verification).statuses@)
                    == status_texts(old(verification).statuses@).push((next, exists)),
                Err(message) => (outcome matches Err(error) && error.message@ == message)
                    && final(verification).statuses == old(verification).statuses,
            }
        }),
{
}

} // verus!
