use yard_plugin::aws::config::{
    aws_config, environment_region, environment_variables, resolve_credential_params,
};
use yard_plugin::aws::reply::Reply;
use yard_plugin::aws::s3::{object_exists_outcome, object_uri, S3ScriptOps};
use yard_plugin::json::Json;
use yard_plugin::string_map::StringMap;

fn environment(variables: &[(&str, &str)]) -> StringMap<String> {
    let mut env = StringMap::new();
    for (name, value) in variables {
        env.insert(name.to_string(), value.to_string());
    }
    env
}

fn config_block() -> Json {
    let mut members = StringMap::new();
    members.insert(
        "assume_role".to_string(),
        Json::Str("arn:aws:iam::222:role/ConfigRole".to_string()),
    );
    members.insert("session_name".to_string(), Json::Str("config-session".to_string()));
    members.insert("external_id".to_string(), Json::Str("config-ext-id".to_string()));
    Json::Object(members)
}

fn ops_with_prefix(prefix: &str) -> S3ScriptOps {
    S3ScriptOps {
        script_bucket: "test-bucket".to_string(),
        script_prefix: prefix.to_string(),
    }
}

#[test]
fn aws_config_returns_sdk_config_with_region() {
    let settings = aws_config("us-east-1", None, &environment(&[]));

    assert_eq!(settings.region, "us-east-1");
}

#[test]
fn aws_config_with_custom_region() {
    let settings = aws_config("eu-west-1", None, &environment(&[]));

    assert_eq!(settings.region, "eu-west-1");
}

#[test]
fn resolve_params_env_wins_over_config() {
    let env = environment(&[
        ("YARD_AWS_ASSUME_ROLE", "arn:aws:iam::111:role/EnvRole"),
        ("YARD_AWS_SESSION_NAME", "env-session"),
        ("YARD_AWS_EXTERNAL_ID", "env-ext-id"),
    ]);
    let cfg = config_block();

    let (role, session, ext_id) = resolve_credential_params(Some(&cfg), &env);

    assert_eq!(role.as_deref(), Some("arn:aws:iam::111:role/EnvRole"));
    assert_eq!(session, "env-session");
    assert_eq!(ext_id.as_deref(), Some("env-ext-id"));
}

#[test]
fn resolve_params_config_fallback() {
    let cfg = config_block();

    let (role, session, ext_id) = resolve_credential_params(Some(&cfg), &environment(&[]));

    assert_eq!(role.as_deref(), Some("arn:aws:iam::222:role/ConfigRole"));
    assert_eq!(session, "config-session");
    assert_eq!(ext_id.as_deref(), Some("config-ext-id"));
}

#[test]
fn resolve_params_env_only() {
    let env = environment(&[("YARD_AWS_ASSUME_ROLE", "arn:aws:iam::111:role/EnvRole")]);

    let (role, session, ext_id) = resolve_credential_params(None, &env);

    assert_eq!(role.as_deref(), Some("arn:aws:iam::111:role/EnvRole"));
    assert_eq!(session, "yard");
    assert!(ext_id.is_none());
}

#[test]
fn resolve_params_defaults_when_neither_set() {
    let (role, session, ext_id) = resolve_credential_params(None, &environment(&[]));

    assert!(role.is_none());
    assert_eq!(session, "yard");
    assert!(ext_id.is_none());
}

#[test]
fn resolve_params_ignores_empty_variables() {
    let env = environment(&[
        ("YARD_AWS_ASSUME_ROLE", ""),
        ("YARD_AWS_SESSION_NAME", ""),
        ("YARD_AWS_EXTERNAL_ID", ""),
    ]);
    let cfg = config_block();

    let (role, session, ext_id) = resolve_credential_params(Some(&cfg), &env);

    assert_eq!(role.as_deref(), Some("arn:aws:iam::222:role/ConfigRole"));
    assert_eq!(session, "config-session");
    assert_eq!(ext_id.as_deref(), Some("config-ext-id"));
}

#[test]
fn resolve_params_ignores_config_values_that_are_no_strings() {
    let mut members = StringMap::new();
    members.insert("assume_role".to_string(), Json::Bool(true));
    let cfg = Json::Object(members);

    let (role, session, ext_id) = resolve_credential_params(Some(&cfg), &environment(&[]));

    assert!(role.is_none());
    assert_eq!(session, "yard");
    assert!(ext_id.is_none());
}

#[test]
fn aws_config_assumes_the_role_in_the_region() {
    let cfg = config_block();

    let settings = aws_config("eu-west-1", Some(&cfg), &environment(&[]));

    assert_eq!(settings.max_attempts, 3);
    let role = settings.assume_role.unwrap();
    assert_eq!(role.role_arn, "arn:aws:iam::222:role/ConfigRole");
    assert_eq!(role.session_name, "config-session");
    assert_eq!(role.external_id.as_deref(), Some("config-ext-id"));
    assert_eq!(role.region, "eu-west-1");
}

#[test]
fn aws_config_without_role_uses_default_chain() {
    let env = environment(&[("YARD_AWS_SESSION_NAME", "env-session")]);

    assert!(aws_config("us-east-1", None, &env).assume_role.is_none());
}

#[test]
fn environment_region_is_read_or_defaulted() {
    assert_eq!(environment_region(&environment(&[])), "us-east-1");
    assert_eq!(
        environment_region(&environment(&[("AWS_DEFAULT_REGION", "eu-west-1")])),
        "eu-west-1"
    );
    assert_eq!(environment_region(&environment(&[("AWS_DEFAULT_REGION", "")])), "");
}

#[test]
fn environment_variables_are_the_four_that_are_read() {
    assert_eq!(
        environment_variables(),
        vec![
            "YARD_AWS_ASSUME_ROLE",
            "YARD_AWS_SESSION_NAME",
            "YARD_AWS_EXTERNAL_ID",
            "AWS_DEFAULT_REGION",
        ]
    );
}

#[test]
fn script_key_with_trailing_slash() {
    let ops = ops_with_prefix("scripts/");
    assert_eq!(ops.script_key("my_job"), "scripts/my_job.py");
}

#[test]
fn script_key_without_trailing_slash() {
    let ops = ops_with_prefix("scripts");
    assert_eq!(ops.script_key("my_job"), "scripts/my_job.py");
}

#[test]
fn script_key_with_nested_prefix_trailing_slash() {
    let ops = ops_with_prefix("org/team/scripts/");
    assert_eq!(
        ops.script_key("etl_job"),
        "org/team/scripts/etl_job.py"
    );
}

#[test]
fn script_key_with_nested_prefix_no_trailing_slash() {
    let ops = ops_with_prefix("org/team/scripts");
    assert_eq!(
        ops.script_key("etl_job"),
        "org/team/scripts/etl_job.py"
    );
}

#[test]
fn script_key_with_empty_prefix() {
    let ops = ops_with_prefix("");
    assert_eq!(ops.script_key("my_job"), "my_job.py");
}

#[test]
fn upload_request_holds_the_script() {
    let request = ops_with_prefix("scripts").upload_script("my_job", "print('hello')");

    assert_eq!(request.object.bucket, "test-bucket");
    assert_eq!(request.object.key, "scripts/my_job.py");
    assert_eq!(request.body, "print('hello')");
    assert_eq!(request.content_type, "text/x-python");
}

#[test]
fn upload_outcome_is_uri_or_error() {
    let ops = ops_with_prefix("scripts");

    assert_eq!(
        ops.upload_outcome("my_job", Reply::Done).unwrap(),
        "s3://test-bucket/scripts/my_job.py"
    );
    for reply in [Reply::NotFound, Reply::Failed] {
        assert_eq!(
            ops.upload_outcome("my_job", reply).unwrap_err().message,
            "Failed to upload script to s3://test-bucket/scripts/my_job.py"
        );
    }
}

#[test]
fn delete_request_and_outcome_name_the_script() {
    let ops = ops_with_prefix("scripts/");

    let object = ops.delete_script("my_job");
    assert_eq!(object.bucket, "test-bucket");
    assert_eq!(object.key, "scripts/my_job.py");
    assert!(ops.delete_outcome("my_job", Reply::Done).is_ok());
    assert_eq!(
        ops.delete_outcome("my_job", Reply::Failed).unwrap_err().message,
        "Failed to delete script at s3://test-bucket/scripts/my_job.py"
    );
}

#[test]
fn object_look_up_names_the_key_and_reads_the_reply() {
    let object = ops_with_prefix("scripts/").s3_object_exists("a/b.py");
    assert_eq!(object.bucket, "test-bucket");
    assert_eq!(object.key, "a/b.py");

    assert!(object_exists_outcome("a/b.py", Reply::Done).unwrap());
    assert!(!object_exists_outcome("a/b.py", Reply::NotFound).unwrap());
    assert_eq!(
        object_exists_outcome("a/b.py", Reply::Failed).unwrap_err().message,
        "Failed to check S3 object: a/b.py"
    );
}

#[test]
fn object_uri_joins_bucket_and_key() {
    assert_eq!(object_uri("bucket", "path/key"), "s3://bucket/path/key");
}
