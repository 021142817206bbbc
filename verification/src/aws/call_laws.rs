//! What the operations on scripts and settings come to, and how one call of them
//! relates to another.

use super::config::{
    aws_config, environment_region, environment_variables, resolve_credential_params, AwsSettings,
};
use super::reply::Reply;
use super::s3::{object_exists_outcome, object_uri, ObjectName, PutObject, S3ScriptOps};
use crate::error::PluginError;
use crate::json::Json;
use crate::string_map::StringMap;
use crate::text::opt_text;
use vstd::prelude::*;

verus! {

/// An upload puts the artifact, as a Python script, into the bucket, under the
/// prefix and the name of the job; a deletion names the very same object.
pub proof fn what_is_uploaded_is_deleted(
    ops: &S3ScriptOps,
    job_name: &str,
    artifact: &str,
    request: PutObject,
    deleted: ObjectName,
)
    requires
        call_ensures(S3ScriptOps::upload_script, (ops, job_name, artifact), request),
        call_ensures(S3ScriptOps::delete_script, (ops, job_name), deleted),
    ensures
        request.body@ == artifact@,
        request.content_type@ == "text/x-python"@,
        request.object.bucket@ == ops.script_bucket@,
        request.object.key@ == ops.script_prefix@ + (if ops.script_prefix@.len() > 0
            && ops.script_prefix@.last() != '/' {
            "/"@
        } else {
            Seq::empty()
        }) + job_name@ + ".py"@,
        deleted.bucket@ == request.object.bucket@,
        deleted.key@ == request.object.key@,
{
    super::laws::key_has_prefix_and_name(ops.script_prefix@, job_name@);
    assert(request.object@ == (request.object.bucket@, request.object.key@));
    assert(deleted@ == (deleted.bucket@, deleted.key@));
}

/// An upload and a deletion succeed exactly when the reply says so; the upload
/// then gives the URI of the object that was put, and an error names that URI.
pub proof fn outcomes_name_the_script(
    ops: &S3ScriptOps,
    job_name: &str,
    artifact: &str,
    reply: Reply,
    request: PutObject,
    uploaded: Result<String, PluginError>,
    deleted: Result<(), PluginError>,
)
    requires
        call_ensures(S3ScriptOps::upload_script, (ops, job_name, artifact), request),
        call_ensures(S3ScriptOps::upload_outcome, (ops, job_name, reply), uploaded),
        call_ensures(S3ScriptOps::delete_outcome, (ops, job_name, reply), deleted),
    ensures
        ({
            let uri = "s3://"@ + request.object.bucket@ + "/"@ + request.object.key@;
            match reply {
                Reply::Done => (uploaded matches Ok(text) && text@ == uri) && deleted is Ok,
                _ => {
                    &&& uploaded matches Err(error) && error.message@
                        == "Failed to upload script to "@ + uri
                    &&& deleted matches Err(error) && error.message@
                        == "Failed to delete script at "@ + uri
                },
            }
        }),
{
    assert(request.object@ == (request.object.bucket@, request.object.key@));
}

/// An object is looked for in the bucket under its key; it exists where the call
/// succeeded, does not where it was not found, and a call that failed is told by
/// the key.
pub proof fn objects_are_looked_for(
    ops: &S3ScriptOps,
    key: &str,
    reply: Reply,
    object: ObjectName,
    outcome: Result<bool, PluginError>,
)
    requires
        call_ensures(S3ScriptOps::s3_object_exists, (ops, key), object),
        call_ensures(object_exists_outcome, (key, reply), outcome),
    ensures
        object.bucket@ == ops.script_bucket@,
        object.key@ == key@,
        match reply {
            Reply::Done => outcome == Ok::<bool, PluginError>(true),
            Reply::NotFound => outcome == Ok::<bool, PluginError>(false),
            Reply::Failed => outcome matches Err(error) && error.message@
                == "Failed to check S3 object: "@ + key@,
        },
{
    assert(object@ == (object.bucket@, object.key@));
}

/// The URI of an object is the scheme, the bucket, a slash and the key.
pub proof fn uris_name_bucket_and_key(bucket: &str, key: &str, uri: String)
    requires
        call_ensures(object_uri, (bucket, key), uri),
    ensures
        uri@ == "s3://"@ + bucket@ + "/"@ + key@,
{
}

/// A client assumes a role exactly where one is resolved, with the session and
/// the external id that are resolved along with it, in its own region, which is
/// the one asked for.
pub proof fn client_has_what_is_resolved(
    region: &str,
    aws_cfg: Option<&Json>,
    env: &StringMap<String>,
    settings: AwsSettings,
    params: (Option<String>, String, Option<String>),
)
    requires
        call_ensures(aws_config, (region, aws_cfg, env), settings),
        call_ensures(resolve_credential_params, (aws_cfg, env), params),
    ensures
        settings.region@ == region@,
        settings.max_attempts == 3,
        match (params.0, settings.assume_role) {
            (Some(arn), Some(role)) => {
                &&& role.role_arn@ == arn@
                &&& role.session_name@ == params.1@
                &&& opt_text(role.external_id) == opt_text(params.2)
                &&& role.region@ == region@
            },
            (None, None) => true,
            _ => false,
        },
{
}

/// Each parameter is its own variable, where that is set to something, else the
/// string under its own key of the block; the session is then "yard" by default.
pub proof fn variables_go_before_the_block(
    block: &Json,
    env: &StringMap<String>,
    params: (Option<String>, String, Option<String>),
)
    requires
        call_ensures(resolve_credential_params, (Some(block), env), params),
    ensures
        opt_text(params.0) == match env.text_at("YARD_AWS_ASSUME_ROLE"@) {
            Some(value) if value.len() > 0 => Some(value),
            _ => block.member_string("assume_role"@),
        },
        params.1@ == match env.text_at("YARD_AWS_SESSION_NAME"@) {
            Some(value) if value.len() > 0 => value,
            _ => match block.member_string("session_name"@) {
                Some(value) => value,
                None => "yard"@,
            },
        },
        opt_text(params.2) == match env.text_at("YARD_AWS_EXTERNAL_ID"@) {
            Some(value) if value.len() > 0 => Some(value),
            _ => block.member_string("external_id"@),
        },
{
}

/// The region of the environment is one of the variables that are read, and has
/// a default.
pub proof fn region_is_read(env: &StringMap<String>, region: String, names: Vec<&'static str>)
    requires
        call_ensures(environment_region, (env,), region),
        call_ensures(environment_variables, (), names),
    ensures
        names@.len() == 4,
        names@[0]@ == "YARD_AWS_ASSUME_ROLE"@,
        names@[1]@ == "YARD_AWS_SESSION_NAME"@,
        names@[2]@ == "YARD_AWS_EXTERNAL_ID"@,
        names@[3]@ == "AWS_DEFAULT_REGION"@,
        region@ == match env.text_at(names@[3]@) {
            Some(value) => value,
            None => "us-east-1"@,
        },
{
    let texts = names@.map_values(|name: &'static str| name@);
    assert(texts.len() == 4);
    assert(texts[0] == names@[0]@ && texts[1] == names@[1]@);
    assert(texts[2] == names@[2]@ && texts[3] == names@[3]@);
}

} // verus!
