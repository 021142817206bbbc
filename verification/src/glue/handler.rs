//! The plugin as a whole: one method per operation.

use super::config::GlueConfig;
use super::deploy::{Deployment, Stage};
use super::destroy::{deletions, plan_deletions, planned_deletions, Destruction};
use super::job::{create_or_update_glue_job, describes_job};
use super::schema::{glue_schema, opt_views, schema_fields, sink_types, source_types};
use super::types::{
    error_texts, field_texts, resource_texts, status_texts, CodegenResponse, Resource,
    ResourceStatus, SchemaResponse, ValidateResponse,
};
use super::validate::{definition_errors, has_text, holds_nonempty, validate_definition};
use super::verify::Verification;
use crate::aws::config::{
    aws_config, environment_region, region_text, settings_for, AwsSettings,
};
use crate::aws::reply::Reply;
use crate::aws::s3::{object_uri, PutObject, S3ScriptOps};
use crate::error::PluginError;
use crate::json::Json;
use crate::string_map::StringMap;
use crate::text::{str_or, text_or};
use vstd::prelude::*;

verus! {

/// The AWS Glue plugin.
#[derive(Debug)]
pub struct GlueHandler {}

/// The configuration of the `glue` block, where `parsed` is what the block
/// parses into. The block must be there, and must parse.
pub fn extract_glue_config(job_config: &Json, parsed: Option<GlueConfig>) -> (config: Result<
    GlueConfig,
    PluginError,
>)
    ensures
        config is Ok <==> job_config.member("glue"@) is Some && parsed is Some,
        config matches Ok(cfg) ==> parsed == Some(cfg),
        config matches Err(error) ==> error@ == if job_config.member("glue"@) is None {
            "missing glue config block"@
        } else {
            "failed to parse glue config block"@
        },
{
    if job_config.get("glue").is_none() {
        return Err(PluginError::new("missing glue config block".to_owned()));
    }
    match parsed {
        Some(config) => Ok(config),
        None => Err(PluginError::new("failed to parse glue config block".to_owned())),
    }
}

/// The reason why a deployment cannot begin.
pub open spec fn deploy_refusal(job_config: Json, parsed: Option<GlueConfig>) -> Option<Seq<char>> {
    if job_config.member("glue"@) is None {
        Some("missing glue config block"@)
    } else if parsed is None {
        Some("failed to parse glue config block"@)
    } else if !has_text(job_config, "role"@) {
        Some("deploy requires a non-empty \"role\" in job_config"@)
    } else {
        None
    }
}

/// `deployment` is about to deploy `artifact` as the script of the job
/// `job_name`.
pub open spec fn begins_deployment(
    deployment: Deployment,
    job_name: Seq<char>,
    job_config: Json,
    glue_cfg: GlueConfig,
    artifact: Seq<char>,
    env: StringMap<String>,
) -> bool {
    &&& deployment.stage == Stage::Upload
    &&& settings_for(
        deployment.settings,
        glue_cfg.region@,
        match glue_cfg.aws {
            Some(block) => Some(&block),
            None => None,
        },
        env,
    )
    &&& deployment.ops.script_bucket@ == text_or(glue_cfg.script_bucket, ""@)
    &&& deployment.ops.script_prefix@ == glue_cfg.script_prefix@
    &&& deployment.upload.object@ == (
        deployment.ops.script_bucket@,
        deployment.ops.key_of(job_name),
    )
    &&& deployment.upload.body@ == artifact
    &&& deployment.upload.content_type@ == "text/x-python"@
    &&& describes_job(
        deployment.job,
        job_name,
        job_config.member_string("role"@)->0,
        deployment.ops.uri_of(job_name),
        glue_cfg,
    )
}

impl GlueHandler {
    /// The plugin.
    pub fn new() -> (handler: Self) {
        GlueHandler {  }
    }

    /// The name of the plugin.
    pub fn name(&self) -> (name: &'static str)
        ensures
            name@ == "yard-plugin-glue"@,
    {
        "yard-plugin-glue"
    }

    /// Validates a job definition. It always succeeds; the errors are part of
    /// the answer.
    pub fn validate(&self, job_name: &str, job_config: &Json) -> (response: Result<
        ValidateResponse,
        PluginError,
    >)
        ensures
            response is Ok,
            error_texts(response->Ok_0.errors@) == definition_errors(job_name@, *job_config),
    {
        Ok(ValidateResponse { errors: validate_definition(job_name, job_config) })
    }

    /// The answer to a code generation: the generated script, or the error of
    /// the generation.
    pub fn codegen(&self, script: Result<String, PluginError>) -> (response: Result<
        CodegenResponse,
        PluginError,
    >)
        ensures
            response is Ok <==> script is Ok,
            response matches Ok(answer) ==> answer.script == Some(script->Ok_0),
            response matches Err(error) ==> error == script->Err_0,
    {
        match script {
            Ok(script) => Ok(CodegenResponse { script: Some(script) }),
            Err(error) => Err(error),
        }
    }

    /// Begins the deployment of `artifact` as the script of a job, where
    /// `parsed` is what the `glue` block parses into.
    pub fn deploy(
        &self,
        job_name: &str,
        job_config: &Json,
        parsed: Option<GlueConfig>,
        artifact: &str,
        env: &StringMap<String>,
    ) -> (deployment: Result<Deployment, PluginError>)
        ensures
            deployment is Ok <==> deploy_refusal(*job_config, parsed) is None,
            deployment matches Ok(begun) ==> begins_deployment(
                begun,
                job_name@,
                *job_config,
                parsed->0,
                artifact@,
                *env,
            ),
            deployment matches Err(error) ==> deploy_refusal(*job_config, parsed) == Some(error@),
    {
        let glue_cfg: GlueConfig = match extract_glue_config(job_config, parsed) {
            Ok(config) => config,
            Err(error) => {
                return Err(error);
            },
        };
        if !holds_nonempty(job_config, "role") {
            return Err(
                PluginError::new("deploy requires a non-empty \"role\" in job_config".to_owned()),
            );
        }
        let settings: AwsSettings = aws_config(
            glue_cfg.region.as_str(),
            glue_cfg.aws.as_ref(),
            env,
        );
        let ops: S3ScriptOps = S3ScriptOps {
            script_bucket: str_or(&glue_cfg.script_bucket, "").to_owned(),
            script_prefix: glue_cfg.script_prefix.clone(),
        };
        let upload: PutObject = ops.upload_script(job_name, artifact);
        let location: String = object_uri(
            ops.script_bucket.as_str(),
            ops.script_key(job_name).as_str(),
        );
        match create_or_update_glue_job(job_name, location.as_str(), job_config, &glue_cfg) {
            Ok(job) => Ok(Deployment { settings, ops, upload, job, stage: Stage::Upload }),
            Err(error) => Err(error),
        }
    }

    /// Begins the destruction of the resources.
    pub fn destroy(&self, resources: &[Resource], env: &StringMap<String>) -> (destruction:
        Destruction)
        ensures
            destruction.wf(),
            settings_for(destruction.settings, region_text(*env), None, *env),
            deletions(destruction.actions@) == planned_deletions(resource_texts(resources@)),
            destruction.done == 0,
            !destruction.failed,
    {
        Destruction {
            settings: aws_config(environment_region(env).as_str(), None, env),
            actions: plan_deletions(resources),
            done: 0,
            failed: false,
        }
    }

    /// Begins the verification of the resources.
    pub fn verify(&self, resources: &[Resource], env: &StringMap<String>) -> (verification:
        Verification)
        ensures
            verification.wf(),
            settings_for(verification.settings, region_text(*env), None, *env),
            resource_texts(verification.resources@) == resource_texts(resources@),
            verification.statuses@.len() == 0,
            forall|replies: Seq<Reply>| #[trigger] verification.follows(replies),
    {
        let mut copied: Vec<Resource> = Vec::new();
        for i in 0..resources.len()
            invariant
                copied@.len() == i,
                forall|j: int| 0 <= j < i ==> (#[trigger] copied@[j])@ == resources@[j]@,
        {
            copied.push(resources[i].copy());
        }
        proof {
            assert(resource_texts(copied@) =~= resource_texts(resources@));
        }
        let statuses: Vec<ResourceStatus> = Vec::new();
        proof {
            assert(status_texts(statuses@) =~= Seq::empty());
            assert(resource_texts(copied@).take(0) =~= Seq::empty());
        }
        Verification {
            settings: aws_config(environment_region(env).as_str(), None, env),
            resources: copied,
            statuses,
            failed: false,
        }
    }

    /// The schema of the `glue` block.
    pub fn schema(&self) -> (response: Result<SchemaResponse, PluginError>)
        ensures
            response is Ok,
            field_texts(response->Ok_0.fields@) == schema_fields(),
            opt_views(response->Ok_0.supported_source_types) == Some(source_types()),
            opt_views(response->Ok_0.supported_sink_types) == Some(sink_types()),
    {
        Ok(glue_schema())
    }
}

} // verus!
