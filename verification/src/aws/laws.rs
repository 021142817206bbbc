//! What holds of the settings of a client and of the names of scripts, in terms
//! of the environment, the request and the names given.

use super::config::{
    external_id_parameter, region_text, role_parameter, session_parameter, settings_for,
    variable_names, AwsSettings,
};
use super::s3::{s3_uri, script_key_text};
use crate::json::Json;
use crate::string_map::StringMap;
use crate::text::opt_text;
use vstd::prelude::*;

verus! {

/// Each parameter of the role is the value of its own variable, where that is
/// set to something.
pub proof fn variables_give_the_parameters(
    env: StringMap<String>,
    aws_cfg: Option<&Json>,
    value: Seq<char>,
)
    requires
        value.len() > 0,
    ensures
        env.text_at("YARD_AWS_ASSUME_ROLE"@) == Some(value) ==> role_parameter(env, aws_cfg)
            == Some(value),
        env.text_at("YARD_AWS_SESSION_NAME"@) == Some(value) ==> session_parameter(env, aws_cfg)
            == value,
        env.text_at("YARD_AWS_EXTERNAL_ID"@) == Some(value) ==> external_id_parameter(env, aws_cfg)
            == Some(value),
{
}

/// Where the variables are not set, or set to nothing, each parameter is the
/// string under its own key of the block, also an empty one; a key that is
/// missing or holds no string gives no role and no external id, and the session
/// is then "yard".
pub proof fn block_gives_the_parameters(env: StringMap<String>, block: &Json)
    requires
        env.text_at("YARD_AWS_ASSUME_ROLE"@) matches Some(value) ==> value.len() == 0,
        env.text_at("YARD_AWS_SESSION_NAME"@) matches Some(value) ==> value.len() == 0,
        env.text_at("YARD_AWS_EXTERNAL_ID"@) matches Some(value) ==> value.len() == 0,
    ensures
        role_parameter(env, Some(block)) == block.member_string("assume_role"@),
        session_parameter(env, Some(block)) == match block.member_string("session_name"@) {
            Some(name) => name,
            None => "yard"@,
        },
        external_id_parameter(env, Some(block)) == block.member_string("external_id"@),
        role_parameter(env, None) is None,
        session_parameter(env, None) == "yard"@,
        external_id_parameter(env, None) is None,
{
}

/// A client works in the region asked for and tries a call three times at most.
/// It assumes a role exactly where one is given, and then that role, with the
/// session and the external id given, in the region of the client.
pub proof fn client_follows_the_parameters(
    settings: AwsSettings,
    region: Seq<char>,
    aws_cfg: Option<&Json>,
    env: StringMap<String>,
)
    requires
        settings_for(settings, region, aws_cfg, env),
    ensures
        settings.region@ == region,
        settings.max_attempts == 3,
        match settings.assume_role {
            Some(role) => {
                &&& role_parameter(env, aws_cfg) == Some(role.role_arn@)
                &&& session_parameter(env, aws_cfg) == role.session_name@
                &&& external_id_parameter(env, aws_cfg) == opt_text(role.external_id)
                &&& role.region@ == settings.region@
            },
            None => role_parameter(env, aws_cfg) is None,
        },
{
}

/// Two clients made from one environment and one block differ in nothing but the
/// region.
pub proof fn only_the_region_differs(
    one: AwsSettings,
    other: AwsSettings,
    region: Seq<char>,
    elsewhere: Seq<char>,
    aws_cfg: Option<&Json>,
    env: StringMap<String>,
)
    requires
        settings_for(one, region, aws_cfg, env),
        settings_for(other, elsewhere, aws_cfg, env),
    ensures
        one.region@ == other.region@ <==> region == elsewhere,
        one.max_attempts == other.max_attempts,
        match (one.assume_role, other.assume_role) {
            (Some(a), Some(b)) => {
                &&& a.role_arn@ == b.role_arn@
                &&& a.session_name@ == b.session_name@
                &&& opt_text(a.external_id) == opt_text(b.external_id)
                &&& a.region@ == b.region@ <==> region == elsewhere
            },
            (None, None) => true,
            _ => false,
        },
{
}

/// The region is what its variable is set to, also where that is nothing, and
/// "us-east-1" where the variable is not set.
pub proof fn variable_gives_the_region(env: StringMap<String>, region: Seq<char>)
    ensures
        env.text_at("AWS_DEFAULT_REGION"@) == Some(region) ==> region_text(env) == region,
        env.text_at("AWS_DEFAULT_REGION"@) is None ==> region_text(env) == "us-east-1"@,
{
}

/// The variables that are read are those of the three parameters and that of the
/// region: two environments that agree on them give one outcome.
pub proof fn no_other_variable_counts(
    one: StringMap<String>,
    other: StringMap<String>,
    aws_cfg: Option<&Json>,
)
    requires
        forall|i: int|
            0 <= i < variable_names().len() ==> one.text_at(#[trigger] variable_names()[i])
                == other.text_at(variable_names()[i]),
    ensures
        variable_names().len() == 4,
        role_parameter(one, aws_cfg) == role_parameter(other, aws_cfg),
        session_parameter(one, aws_cfg) == session_parameter(other, aws_cfg),
        external_id_parameter(one, aws_cfg) == external_id_parameter(other, aws_cfg),
        region_text(one) == region_text(other),
{
    assert(variable_names()[0] == "YARD_AWS_ASSUME_ROLE"@);
    assert(variable_names()[1] == "YARD_AWS_SESSION_NAME"@);
    assert(variable_names()[2] == "YARD_AWS_EXTERNAL_ID"@);
    assert(variable_names()[3] == "AWS_DEFAULT_REGION"@);
}

/// The key of a script begins with the prefix and ends with the name of the job
/// and ".py"; between them stands nothing, or one slash where the prefix is
/// neither empty nor ends in one.
pub proof fn key_has_prefix_and_name(prefix: Seq<char>, job_name: Seq<char>)
    ensures
        script_key_text(prefix, job_name) == prefix + (if prefix.len() > 0 && prefix.last() != '/' {
            "/"@
        } else {
            Seq::empty()
        }) + job_name + ".py"@,
{
    let between = if prefix.len() > 0 && prefix.last() != '/' {
        "/"@
    } else {
        Seq::empty()
    };
    assert(script_key_text(prefix, job_name) =~= prefix + between + job_name + ".py"@);
}

/// The URI of an object is the scheme, the bucket, a slash and the key.
pub proof fn uri_has_bucket_and_key(bucket: Seq<char>, key: Seq<char>)
    ensures
        s3_uri(bucket, key) == "s3://"@ + (bucket + ("/"@ + key)),
{
    assert(s3_uri(bucket, key) =~= "s3://"@ + (bucket + ("/"@ + key)));
}

} // verus!
