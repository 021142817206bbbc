//! What holds of a deployment, a destruction and a verification in terms of what
//! they are given: which settings reach the job, what is uploaded, and which calls
//! are made for which resources.

use super::config::{bookmark_option, job_arguments, GlueConfig};
use super::deploy::{
    deployed_resources, deployment_ends, failure_text, next_stage, stage_after, Deployment, Stage,
};
use super::destroy::{
    goes_on, job_deletion, job_deletions, object_deletion, object_deletions, planned_deletions,
    Deletion,
};
use super::handler::{begins_deployment, deploy_refusal};
use super::job::{describes_job, missing_role, undeleted_job, JobRequest};
use super::types::ResourceText;
use super::uri::{parsed_uri, parses_what_it_names};
use super::verify::{existence, probe_text, ProbeText};
use crate::aws::config::{external_id_parameter, role_parameter, session_parameter};
use crate::aws::reply::Reply;
use crate::json::Json;
use crate::string_map::StringMap;
use crate::text::{opt_text, views};
use vstd::prelude::*;

verus! {

/// A job is asked for with every setting that the block gives: its number of
/// workers, its versions and types, its limits, its connections and its arguments.
pub proof fn job_follows_the_block(
    request: JobRequest,
    job_name: Seq<char>,
    role: Seq<char>,
    script_location: Seq<char>,
    glue_cfg: GlueConfig,
)
    requires
        describes_job(request, job_name, role, script_location, glue_cfg),
    ensures
        request.name@ == job_name,
        request.role@ == role,
        request.script_location@ == script_location,
        request.command_name@ == "glueetl"@,
        request.python_version@ == "3"@,
        request.glue_version@ == glue_cfg.glue_version@,
        request.worker_type@ == glue_cfg.worker_type@,
        request.number_of_workers == glue_cfg.number_of_workers,
        request.timeout == glue_cfg.timeout,
        request.max_retries == glue_cfg.max_retries,
        request.max_concurrent_runs == glue_cfg.max_concurrent_runs,
        glue_cfg.connections@.len() == 0 ==> request.connections is None,
        glue_cfg.connections@.len() > 0 ==> (request.connections matches Some(list) && views(list@)
            == views(glue_cfg.connections@)),
        request.default_arguments.texts() == job_arguments(
            glue_cfg.default_arguments.texts(),
            opt_text(glue_cfg.bookmark),
        ),
{
}

/// Two configurations that differ in a setting give jobs that differ in it, and
/// two that agree in one give jobs that agree in it.
pub proof fn settings_make_a_difference(
    one: JobRequest,
    other: JobRequest,
    job_name: Seq<char>,
    role: Seq<char>,
    script_location: Seq<char>,
    a: GlueConfig,
    b: GlueConfig,
)
    requires
        describes_job(one, job_name, role, script_location, a),
        describes_job(other, job_name, role, script_location, b),
    ensures
        one.number_of_workers == other.number_of_workers <==> a.number_of_workers
            == b.number_of_workers,
        one.glue_version@ == other.glue_version@ <==> a.glue_version@ == b.glue_version@,
        one.worker_type@ == other.worker_type@ <==> a.worker_type@ == b.worker_type@,
        one.timeout == other.timeout <==> a.timeout == b.timeout,
        one.max_retries == other.max_retries <==> a.max_retries == b.max_retries,
        one.max_concurrent_runs == other.max_concurrent_runs <==> a.max_concurrent_runs
            == b.max_concurrent_runs,
{
}

/// The bookmark argument says whether the bookmark is set to "enabled" or "true",
/// and is the user's own where no bookmark is set.
pub proof fn bookmark_is_passed_on(
    given: Map<Seq<char>, Seq<char>>,
    bookmark: Option<Seq<char>>,
)
    ensures
        bookmark matches Some(setting) ==> {
            &&& job_arguments(given, bookmark).contains_key("--job-bookmark-option"@)
            &&& job_arguments(given, bookmark)["--job-bookmark-option"@] == if setting
                == "enabled"@ || setting == "true"@ {
                "job-bookmark-enable"@
            } else {
                "job-bookmark-disable"@
            }
        },
        bookmark is None ==> (job_arguments(given, bookmark).contains_key(
            "--job-bookmark-option"@,
        ) <==> given.contains_key("--job-bookmark-option"@)),
{
    reveal_strlit("--datalake-formats");
    reveal_strlit("--job-bookmark-option");
    assert("--datalake-formats"@.len() != "--job-bookmark-option"@.len());
    if let Some(setting) = bookmark {
        assert(bookmark_option(setting) == if setting == "enabled"@ || setting == "true"@ {
            "job-bookmark-enable"@
        } else {
            "job-bookmark-disable"@
        });
    }
}

/// A deployment uploads the artifact, as a Python script, into the bucket of the
/// block under the prefix and the name of the job; the job that it then asks for
/// runs that very object, in the region of the block, as the role of the
/// definition.
pub proof fn job_runs_what_is_uploaded(
    deployment: Deployment,
    job_name: Seq<char>,
    job_config: Json,
    glue_cfg: GlueConfig,
    artifact: Seq<char>,
    env: StringMap<String>,
)
    requires
        begins_deployment(deployment, job_name, job_config, glue_cfg, artifact, env),
    ensures
        deployment.stage == Stage::Upload,
        deployment.settings.region@ == glue_cfg.region@,
        deployment.settings.max_attempts == 3,
        deployment.upload.body@ == artifact,
        deployment.upload.content_type@ == "text/x-python"@,
        deployment.upload.object.bucket@ == match glue_cfg.script_bucket {
            Some(bucket) => bucket@,
            None => ""@,
        },
        deployment.upload.object.key@ == if glue_cfg.script_prefix@.len() == 0 {
            job_name + ".py"@
        } else if glue_cfg.script_prefix@.last() == '/' {
            glue_cfg.script_prefix@ + job_name + ".py"@
        } else {
            glue_cfg.script_prefix@ + "/"@ + job_name + ".py"@
        },
        deployment.job.script_location@ == "s3://"@ + deployment.upload.object.bucket@ + "/"@
            + deployment.upload.object.key@,
        deployment.job.name@ == job_name,
        job_config.member_string("role"@) is Some ==> deployment.job.role@
            == job_config.member_string("role"@)->0,
        deployment.job.number_of_workers == glue_cfg.number_of_workers,
{
    assert(deployment.upload.object@.0 == deployment.upload.object.bucket@);
    assert(deployment.upload.object@.1 == deployment.upload.object.key@);
}

/// A deployment assumes the role that the environment or the block of credentials
/// gives, with its session and external id, in the region of the block.
pub proof fn deployment_assumes_its_role(
    deployment: Deployment,
    job_name: Seq<char>,
    job_config: Json,
    glue_cfg: GlueConfig,
    artifact: Seq<char>,
    env: StringMap<String>,
)
    requires
        begins_deployment(deployment, job_name, job_config, glue_cfg, artifact, env),
    ensures
        ({
            let block = match glue_cfg.aws {
                Some(block) => Some(&block),
                None => None,
            };
            match deployment.settings.assume_role {
                Some(role) => {
                    &&& role_parameter(env, block) == Some(role.role_arn@)
                    &&& role.session_name@ == session_parameter(env, block)
                    &&& opt_text(role.external_id) == external_id_parameter(env, block)
                    &&& role.region@ == glue_cfg.region@
                },
                None => role_parameter(env, block) is None,
            }
        }),
{
}

/// A deployment begins unless the block is missing or does not parse, or the role
/// is missing or empty; the first of these is the reason given.
pub proof fn deployment_is_refused_for_cause(job_config: Json, parsed: Option<GlueConfig>)
    ensures
        deploy_refusal(job_config, parsed) is None <==> job_config.member("glue"@) is Some
            && parsed is Some && (job_config.member_string("role"@) matches Some(role) && role.len()
            > 0),
        job_config.member("glue"@) is None ==> deploy_refusal(job_config, parsed) == Some(
            "missing glue config block"@,
        ),
        job_config.member("glue"@) is Some && parsed is None ==> deploy_refusal(job_config, parsed)
            == Some("failed to parse glue config block"@),
        job_config.member("glue"@) is Some && parsed is Some && deploy_refusal(
            job_config,
            parsed,
        ) is Some ==> deploy_refusal(job_config, parsed) == Some(
            "deploy requires a non-empty \"role\" in job_config"@,
        ),
{
}

/// Before any reply the upload comes next; after one that succeeded, the update;
/// and a call that fails is told by what it was about.
pub proof fn stages_come_in_order(replies: Seq<Reply>, uri: Seq<char>, job_name: Seq<char>)
    ensures
        stage_after(replies) == Stage::Upload <==> replies.len() == 0,
        stage_after(replies) == Stage::UpdateJob <==> replies == seq![Reply::Done],
        failure_text(Stage::Upload, uri, job_name) == "Failed to upload script to "@ + uri,
        failure_text(Stage::UpdateJob, uri, job_name) == "Failed to update Glue job \""@ + job_name
            + "\""@,
        failure_text(Stage::CreateJob, uri, job_name) == "Failed to create Glue job \""@ + job_name
            + "\""@,
    decreases replies.len(),
{
    if replies.len() > 0 {
        let head = replies.drop_last();
        stages_come_in_order(head, uri, job_name);
        if replies.len() == 1 {
            assert(head =~= Seq::<Reply>::empty());
            if replies[0] == Reply::Done {
                assert(replies =~= seq![Reply::Done]);
            }
        } else {
            assert(stage_after(replies) == next_stage(stage_after(head), replies.last()));
            if replies == seq![Reply::Done] {
                assert(replies.len() == 1);
            }
        }
    }
}

/// A deployment is aborted by a failed call alone: a failed upload, an update that
/// fails for another reason than that the job is missing, or a failed creation.
pub proof fn deployment_is_aborted_by_failure(replies: Seq<Reply>)
    ensures
        stage_after(replies) == Stage::Aborted <==> (replies.len() >= 1 && replies[0]
            != Reply::Done) || (replies.len() >= 2 && replies[0] == Reply::Done && replies[1]
            == Reply::Failed) || (replies.len() >= 3 && replies[0] == Reply::Done && replies[1]
            == Reply::NotFound && replies[2] != Reply::Done),
{
    super::deploy::deployment_finishes(replies);
    super::deploy::created_only_where_missing(replies);
    stages_come_in_order(replies, Seq::empty(), Seq::empty());
    if replies.len() >= 3 {
        deployment_ends(replies);
        assert(stage_after(replies) == Stage::Finished || stage_after(replies) == Stage::Aborted);
    }
    if replies.len() == 1 && replies[0] == Reply::Done {
        assert(replies =~= seq![Reply::Done]);
    }
    if replies.len() == 2 && replies[0] == Reply::Done && replies[1] == Reply::NotFound {
        assert(replies =~= seq![Reply::Done, Reply::NotFound]);
    }
}

/// A deployment leaves two resources of the plugin: its script, by its URI, and its
/// job, by its name.
pub proof fn deployment_leaves_script_and_job(uri: Seq<char>, job_name: Seq<char>)
    ensures
        deployed_resources(uri, job_name).len() == 2,
        deployed_resources(uri, job_name)[0] == (ResourceText {
            resource_type: "s3_object"@,
            id: uri,
            provider: "glue"@,
        }),
        deployed_resources(uri, job_name)[1] == (ResourceText {
            resource_type: "glue_job"@,
            id: job_name,
            provider: "glue"@,
        }),
{
}

/// Messages name the job that they are about.
pub proof fn messages_name_the_job(job_name: Seq<char>)
    ensures
        missing_role(job_name) == "Job \""@ + job_name
            + "\" requires a \"role\" (Glue execution role)"@,
        undeleted_job(job_name) == "Failed to delete Glue job \""@ + job_name + "\""@,
{
}

/// A resource is looked for where it is: an object by the bucket and key that its
/// URI names, a job by its id. An object whose URI names none does not exist, and a
/// resource of another type does.
pub proof fn resources_are_looked_for(
    resource: ResourceText,
    bucket: Seq<char>,
    key: Seq<char>,
)
    ensures
        resource.resource_type == "s3_object"@ && resource.id == "s3://"@ + bucket + "/"@ + key
            && bucket.len() > 0 && key.len() > 0 && !bucket.contains('/') ==> probe_text(resource)
            == ProbeText::Object(bucket, key),
        resource.resource_type == "s3_object"@ && parsed_uri(resource.id) is None ==> probe_text(
            resource,
        ) == ProbeText::Settled(false),
        resource.resource_type == "glue_job"@ ==> probe_text(resource) == ProbeText::Job(
            resource.id,
        ),
        resource.resource_type != "s3_object"@ && resource.resource_type != "glue_job"@
            ==> probe_text(resource) == ProbeText::Settled(true),
{
    parses_what_it_names(resource.id, bucket, key);
    types_differ();
}

/// The names of the resource types differ.
proof fn types_differ()
    ensures
        "s3_object"@ != "glue_job"@,
{
    reveal_strlit("s3_object");
    reveal_strlit("glue_job");
    assert("s3_object"@.len() != "glue_job"@.len());
}

/// What is found exists, what is not found does not, and a call that failed says
/// nothing but its message; what is settled does not depend on a reply.
pub proof fn replies_decide_existence(
    bucket: Seq<char>,
    key: Seq<char>,
    settled: bool,
    reply: Reply,
)
    ensures
        existence(ProbeText::Object(bucket, key), Reply::Done) == Ok::<bool, Seq<char>>(true),
        existence(ProbeText::Object(bucket, key), Reply::NotFound) == Ok::<bool, Seq<char>>(false),
        existence(ProbeText::Object(bucket, key), Reply::Failed) == Err::<bool, Seq<char>>(
            "Failed to check S3 object: "@ + key,
        ),
        existence(ProbeText::Job(key), Reply::Done) == Ok::<bool, Seq<char>>(true),
        existence(ProbeText::Job(key), Reply::NotFound) == Ok::<bool, Seq<char>>(false),
        existence(ProbeText::Job(key), Reply::Failed) == Err::<bool, Seq<char>>(
            "Failed to check Glue job: "@ + key,
        ),
        existence(ProbeText::Settled(settled), reply) == Ok::<bool, Seq<char>>(settled),
{
}

/// One resource more is one deletion more of its own sort, behind those of the
/// resources before it; a resource of another type, or whose URI names no object,
/// is none.
pub proof fn each_resource_is_deleted(
    resources: Seq<ResourceText>,
    resource: ResourceText,
    bucket: Seq<char>,
    key: Seq<char>,
)
    ensures
        planned_deletions(Seq::empty()).len() == 0,
        job_deletions(resources.push(resource)) == if resource.resource_type == "glue_job"@ {
            job_deletions(resources).push(Deletion::Job(resource.id))
        } else {
            job_deletions(resources)
        },
        resource.resource_type == "s3_object"@ && resource.id == "s3://"@ + bucket + "/"@ + key
            && bucket.len() > 0 && key.len() > 0 && !bucket.contains('/') ==> object_deletions(
            resources.push(resource),
        ) == object_deletions(resources).push(Deletion::Object(bucket, key)),
        resource.resource_type != "s3_object"@ || parsed_uri(resource.id) is None
            ==> object_deletions(resources.push(resource)) == object_deletions(resources),
        planned_deletions(resources) == job_deletions(resources) + object_deletions(resources),
{
    parses_what_it_names(resource.id, bucket, key);
    let all = resources.push(resource);
    assert(all.drop_last() =~= resources);
    assert(all.last() == resource);
    assert(job_deletions(all) =~= job_deletions(resources) + job_deletion(resource));
    assert(object_deletions(all) =~= object_deletions(resources) + object_deletion(resource));
    assert(job_deletions(all) =~= if resource.resource_type == "glue_job"@ {
        job_deletions(resources).push(Deletion::Job(resource.id))
    } else {
        job_deletions(resources)
    });
    assert(object_deletion(resource).len() == 0 ==> object_deletions(all) =~= object_deletions(
        resources,
    ));
    assert(object_deletion(resource) == seq![Deletion::Object(bucket, key)] ==> object_deletions(
        all,
    ) =~= object_deletions(resources).push(Deletion::Object(bucket, key)));
}

/// A deletion of a job must succeed, and one of an object need not.
pub proof fn only_jobs_must_go(id: Seq<char>, bucket: Seq<char>, key: Seq<char>, reply: Reply)
    ensures
        goes_on(Deletion::Job(id), reply) <==> reply == Reply::Done,
        goes_on(Deletion::Object(bucket, key), reply),
{
}

} // verus!
