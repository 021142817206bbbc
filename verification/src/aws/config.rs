//! The settings of an AWS client: region, retries and an optional role to
//! assume.
//!
//! The parameters of the role come from the environment, else from the request:
//!
//! | Parameter      | Environment             | Request        |
//! |----------------|-------------------------|----------------|
//! | `assume_role`  | `YARD_AWS_ASSUME_ROLE`  | `assume_role`  |
//! | `session_name` | `YARD_AWS_SESSION_NAME` | `session_name` |
//! | `external_id`  | `YARD_AWS_EXTERNAL_ID`  | `external_id`  |
//!
//! A variable that is set to nothing counts as not set. Where no role is found,
//! the default chain of credential providers is used.

use crate::json::Json;
use crate::string_map::StringMap;
use crate::text::opt_text;
use vstd::prelude::*;

verus! {

/// A role to assume, with the region whose STS endpoint is asked.
#[derive(Debug)]
pub struct AssumeRole {
    pub role_arn: String,
    pub session_name: String,
    pub external_id: Option<String>,
    pub region: String,
}

/// The settings of an AWS client.
#[derive(Debug)]
pub struct AwsSettings {
    pub region: String,
    /// How often a call is tried at most.
    pub max_attempts: u32,
    /// The role to assume; where there is none, the default chain of credential
    /// providers is used.
    pub assume_role: Option<AssumeRole>,
}

/// The names of the environment variables that this crate reads.
pub open spec fn variable_names() -> Seq<Seq<char>> {
    seq![
        "YARD_AWS_ASSUME_ROLE"@,
        "YARD_AWS_SESSION_NAME"@,
        "YARD_AWS_EXTERNAL_ID"@,
        "AWS_DEFAULT_REGION"@,
    ]
}

/// The value of an environment variable that is set to something.
pub open spec fn set_variable(env: StringMap<String>, name: Seq<char>) -> Option<Seq<char>> {
    match env.text_at(name) {
        Some(value) => if value.len() > 0 {
            Some(value)
        } else {
            None
        },
        None => None,
    }
}

/// The string under `key` in the configuration block of the request.
pub open spec fn configured(aws_cfg: Option<&Json>, key: Seq<char>) -> Option<Seq<char>> {
    match aws_cfg {
        Some(block) => block.member_string(key),
        None => None,
    }
}

/// A parameter: from the environment, else from the request.
pub open spec fn parameter(
    env: StringMap<String>,
    name: Seq<char>,
    aws_cfg: Option<&Json>,
    key: Seq<char>,
) -> Option<Seq<char>> {
    match set_variable(env, name) {
        Some(value) => Some(value),
        None => configured(aws_cfg, key),
    }
}

/// The role to assume, where one is given.
pub open spec fn role_parameter(env: StringMap<String>, aws_cfg: Option<&Json>) -> Option<
    Seq<char>,
> {
    parameter(env, "YARD_AWS_ASSUME_ROLE"@, aws_cfg, "assume_role"@)
}

/// The session name, by default "yard".
pub open spec fn session_parameter(env: StringMap<String>, aws_cfg: Option<&Json>) -> Seq<char> {
    match parameter(env, "YARD_AWS_SESSION_NAME"@, aws_cfg, "session_name"@) {
        Some(name) => name,
        None => "yard"@,
    }
}

/// The external id, where one is given.
pub open spec fn external_id_parameter(env: StringMap<String>, aws_cfg: Option<&Json>) -> Option<
    Seq<char>,
> {
    parameter(env, "YARD_AWS_EXTERNAL_ID"@, aws_cfg, "external_id"@)
}

/// The names of the environment variables that this crate reads.
pub fn environment_variables() -> (names: Vec<&'static str>)
    ensures
        names@.map_values(|name: &'static str| name@) == variable_names(),
{
    let names: Vec<&'static str> = vec![
        "YARD_AWS_ASSUME_ROLE",
        "YARD_AWS_SESSION_NAME",
        "YARD_AWS_EXTERNAL_ID",
        "AWS_DEFAULT_REGION",
    ];
    proof {
        assert(names@.map_values(|name: &'static str| name@) =~= variable_names());
    }
    names
}

/// A parameter: from the environment, else from the request.
fn find_parameter(
    env: &StringMap<String>,
    name: &str,
    aws_cfg: Option<&Json>,
    key: &str,
) -> (value: Option<String>)
    ensures
        opt_text(value) == parameter(*env, name@, aws_cfg, key@),
{
    match env.get_text(name) {
        Some(value) => {
            if !value.is_empty() {
                return Some(value.to_owned());
            }
        },
        None => {},
    }
    match aws_cfg {
        Some(block) => match block.get_str(key) {
            Some(value) => Some(value.to_owned()),
            None => None,
        },
        None => None,
    }
}

/// The role to assume, the session name and the external id, in which the
/// environment goes before the request.
pub fn resolve_credential_params(aws_cfg: Option<&Json>, env: &StringMap<String>) -> (params: (
    Option<String>,
    String,
    Option<String>,
))
    ensures
        opt_text(params.0) == role_parameter(*env, aws_cfg),
        params.1@ == session_parameter(*env, aws_cfg),
        opt_text(params.2) == external_id_parameter(*env, aws_cfg),
{
    let assume_role: Option<String> = find_parameter(
        env,
        "YARD_AWS_ASSUME_ROLE",
        aws_cfg,
        "assume_role",
    );
    let session_name: String = match find_parameter(
        env,
        "YARD_AWS_SESSION_NAME",
        aws_cfg,
        "session_name",
    ) {
        Some(name) => name,
        None => "yard".to_owned(),
    };
    let external_id: Option<String> = find_parameter(
        env,
        "YARD_AWS_EXTERNAL_ID",
        aws_cfg,
        "external_id",
    );
    (assume_role, session_name, external_id)
}

/// `settings` are those of a client for `region`: three attempts per call, and
/// the role that the environment or the block `aws_cfg` gives, assumed in the
/// same region.
pub open spec fn settings_for(
    settings: AwsSettings,
    region: Seq<char>,
    aws_cfg: Option<&Json>,
    env: StringMap<String>,
) -> bool {
    &&& settings.region@ == region
    &&& settings.max_attempts == 3
    &&& settings.assume_role is Some <==> role_parameter(env, aws_cfg) is Some
    &&& settings.assume_role matches Some(role) ==> {
        &&& role_parameter(env, aws_cfg) == Some(role.role_arn@)
        &&& role.session_name@ == session_parameter(env, aws_cfg)
        &&& opt_text(role.external_id) == external_id_parameter(env, aws_cfg)
        &&& role.region@ == region
    }
}

/// The settings of a client for `region`: three attempts per call, and the role
/// of [`resolve_credential_params`], assumed in the same region.
pub fn aws_config(region: &str, aws_cfg: Option<&Json>, env: &StringMap<String>) -> (settings:
    AwsSettings)
    ensures
        settings_for(settings, region@, aws_cfg, *env),
{
    let (assume_role, session_name, external_id) = resolve_credential_params(aws_cfg, env);
    let role: Option<AssumeRole> = match assume_role {
        Some(role_arn) => Some(
            AssumeRole { role_arn, session_name, external_id, region: region.to_owned() },
        ),
        None => None,
    };
    AwsSettings { region: region.to_owned(), max_attempts: 3, assume_role: role }
}

/// The region of the environment: what `AWS_DEFAULT_REGION` is set to, else
/// "us-east-1".
pub open spec fn region_text(env: StringMap<String>) -> Seq<char> {
    match env.text_at("AWS_DEFAULT_REGION"@) {
        Some(region) => region,
        None => "us-east-1"@,
    }
}

/// The region of the environment.
pub fn environment_region(env: &StringMap<String>) -> (region: String)
    ensures
        region@ == region_text(*env),
{
    match env.get_text("AWS_DEFAULT_REGION") {
        Some(region) => region.to_owned(),
        None => "us-east-1".to_owned(),
    }
}

/// A variable of the environment that is set to something goes before the
/// request, whatever the request says.
pub proof fn environment_goes_first(
    env: StringMap<String>,
    name: Seq<char>,
    one: Option<&Json>,
    other: Option<&Json>,
    key: Seq<char>,
)
    requires
        set_variable(env, name) is Some,
    ensures
        parameter(env, name, one, key) == parameter(env, name, other, key),
        parameter(env, name, one, key) == env.text_at(name),
{
}

/// A variable that is set to nothing counts as one that is not set: the
/// parameter is what the request says.
pub proof fn empty_variable_counts_as_unset(
    env: StringMap<String>,
    name: Seq<char>,
    aws_cfg: Option<&Json>,
    key: Seq<char>,
)
    requires
        env.text_at(name) matches Some(value) ==> value.len() == 0,
    ensures
        parameter(env, name, aws_cfg, key) == configured(aws_cfg, key),
{
}

} // verus!
