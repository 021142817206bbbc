use yard_plugin::aws::reply::Reply;
use yard_plugin::error::PluginError;
use yard_plugin::glue::config::{build_default_arguments, GlueConfig};
use yard_plugin::glue::deploy::{Deployment, Stage};
use yard_plugin::glue::destroy::DestroyAction;
use yard_plugin::glue::handler::{extract_glue_config, GlueHandler};
use yard_plugin::glue::job::{create_or_update_glue_job, delete_glue_job, glue_job_exists};
use yard_plugin::glue::types::Resource;
use yard_plugin::glue::uri::parse_s3_uri;
use yard_plugin::glue::validate::validation_error;
use yard_plugin::glue::verify::Probe;
use yard_plugin::json::{Json, Number};
use yard_plugin::string_map::StringMap;

fn object(members: Vec<(&str, Json)>) -> Json {
    let mut map = StringMap::new();
    for (key, value) in members {
        map.insert(key.to_string(), value);
    }
    Json::Object(map)
}

fn text(value: &str) -> Json {
    Json::Str(value.to_string())
}

fn integer(value: i64) -> Json {
    if value < 0 {
        Json::Number(Number::NegInt(value))
    } else {
        Json::Number(Number::PosInt(value as u64))
    }
}

fn role() -> Json {
    text("arn:aws:iam::123456789012:role/GlueRole")
}

/// A minimal valid job config that passes all validation rules.
fn valid_config() -> Json {
    object(vec![
        ("role", role()),
        ("glue", object(vec![("script_bucket", text("my-bucket"))])),
    ])
}

/// A job config with one more field in its block.
fn config_with(field: &str, value: Json) -> Json {
    object(vec![
        ("role", role()),
        (
            "glue",
            object(vec![("script_bucket", text("my-bucket")), (field, value)]),
        ),
    ])
}

fn no_environment() -> StringMap<String> {
    StringMap::new()
}

fn resource(resource_type: &str, id: &str) -> Resource {
    Resource {
        resource_type: resource_type.to_string(),
        id: id.to_string(),
        provider: "glue".to_string(),
    }
}

fn bucket_config() -> GlueConfig {
    GlueConfig {
        script_bucket: Some("test-bucket".to_string()),
        script_prefix: "scripts/".to_string(),
        ..GlueConfig::default()
    }
}

fn begun_deployment() -> Deployment {
    GlueHandler::new()
        .deploy(
            "test-job",
            &valid_config(),
            Some(bucket_config()),
            "print('hello')",
            &no_environment(),
        )
        .unwrap()
}

// Arguments of a job

#[test]
fn build_default_arguments_inserts_iceberg_when_absent() {
    let cfg = GlueConfig::default();

    let args = build_default_arguments(&cfg);

    assert_eq!(
        args.get("--datalake-formats"),
        Some(&"iceberg".to_string()),
    );
}

#[test]
fn build_default_arguments_preserves_user_datalake_format() {
    let mut given = StringMap::new();
    given.insert("--datalake-formats".to_string(), "delta".to_string());
    let cfg = GlueConfig {
        default_arguments: given,
        ..GlueConfig::default()
    };

    let args = build_default_arguments(&cfg);

    assert_eq!(
        args.get("--datalake-formats"),
        Some(&"delta".to_string()),
    );
}

#[test]
fn build_default_arguments_bookmark_enabled() {
    let cfg = GlueConfig {
        bookmark: Some("enabled".to_string()),
        ..GlueConfig::default()
    };

    let args = build_default_arguments(&cfg);

    assert_eq!(
        args.get("--job-bookmark-option"),
        Some(&"job-bookmark-enable".to_string()),
    );
}

#[test]
fn build_default_arguments_bookmark_disabled() {
    let cfg = GlueConfig {
        bookmark: Some("disabled".to_string()),
        ..GlueConfig::default()
    };

    let args = build_default_arguments(&cfg);

    assert_eq!(
        args.get("--job-bookmark-option"),
        Some(&"job-bookmark-disable".to_string()),
    );
}

#[test]
fn build_default_arguments_keeps_what_the_user_gave() {
    let mut given = StringMap::new();
    given.insert("--job-bookmark-option".to_string(), "mine".to_string());
    given.insert("--extra".to_string(), "1".to_string());
    let mut cfg = GlueConfig {
        default_arguments: given,
        ..GlueConfig::default()
    };

    let args = build_default_arguments(&cfg);
    assert_eq!(args.get_text("--job-bookmark-option"), Some("mine"));
    assert_eq!(args.get_text("--extra"), Some("1"));
    assert_eq!(args.entries().len(), 3);

    cfg.bookmark = Some("true".to_string());
    let args = build_default_arguments(&cfg);
    assert_eq!(args.get_text("--job-bookmark-option"), Some("job-bookmark-enable"));
    assert_eq!(args.get_text("--extra"), Some("1"));
    assert_eq!(args.entries().len(), 3);
}

#[test]
fn default_config_is_that_of_an_empty_block() {
    let cfg = GlueConfig::default();

    assert_eq!(cfg.region, "us-east-1");
    assert_eq!(cfg.script_prefix, "yard-scripts/");
    assert_eq!(cfg.glue_version, "4.0");
    assert_eq!(cfg.worker_type, "G.1X");
    assert_eq!(cfg.number_of_workers, 2);
    assert!(cfg.script_bucket.is_none());
}

// Validation

#[test]
fn validate_valid_config_no_errors() {
    let handler = GlueHandler::new();
    let config = valid_config();

    let response = handler.validate("test-job", &config).unwrap();

    assert!(response.errors.is_empty(), "expected no errors, got: {:?}", response.errors);
}

#[test]
fn validate_rejects_long_job_name() {
    let handler = GlueHandler::new();
    let config = valid_config();
    let long_name = "a".repeat(256);

    let response = handler.validate(&long_name, &config).unwrap();

    assert_eq!(response.errors.len(), 1);
    assert_eq!(response.errors[0].field, "job_name");
}

#[test]
fn validate_counts_the_characters_of_the_job_name() {
    let handler = GlueHandler::new();
    let config = valid_config();

    assert!(handler.validate(&"a".repeat(255), &config).unwrap().errors.is_empty());
    assert!(handler.validate(&"é".repeat(200), &config).unwrap().errors.is_empty());
    assert!(handler.validate(&"é".repeat(255), &config).unwrap().errors.is_empty());
    let response = handler.validate(&"é".repeat(256), &config).unwrap();
    assert_eq!(response.errors.len(), 1);
    assert_eq!(response.errors[0].field, "job_name");
    assert_eq!(
        response.errors[0].message,
        "job name exceeds AWS limit of 255 characters"
    );
}

#[test]
fn validate_rejects_missing_role() {
    let handler = GlueHandler::new();
    let config = object(vec![(
        "glue",
        object(vec![("script_bucket", text("my-bucket"))]),
    )]);

    let response = handler.validate("test-job", &config).unwrap();

    assert_eq!(response.errors.len(), 1);
    assert_eq!(response.errors[0].field, "role");
    assert_eq!(
        response.errors[0].message,
        "Glue jobs require a \"role\" (execution role ARN)"
    );
    assert_eq!(response.errors[0].severity, "error");
}

#[test]
fn validate_rejects_empty_role() {
    let config = object(vec![
        ("role", text("")),
        ("glue", object(vec![("script_bucket", text("my-bucket"))])),
    ]);

    let response = GlueHandler::new().validate("test-job", &config).unwrap();

    assert_eq!(response.errors.len(), 1);
    assert_eq!(response.errors[0].field, "role");
}

#[test]
fn validate_rejects_missing_script_bucket() {
    let handler = GlueHandler::new();
    let config = object(vec![("role", role()), ("glue", object(vec![]))]);

    let response = handler.validate("test-job", &config).unwrap();

    assert_eq!(response.errors.len(), 1);
    assert_eq!(response.errors[0].field, "glue.script_bucket");
}

#[test]
fn validate_rejects_missing_glue_block() {
    let handler = GlueHandler::new();
    let config = object(vec![("role", role())]);

    let response = handler.validate("test-job", &config).unwrap();

    assert_eq!(response.errors.len(), 1);
    assert_eq!(response.errors[0].field, "glue.script_bucket");
}

#[test]
fn validate_rejects_invalid_worker_type() {
    let handler = GlueHandler::new();
    let config = config_with("worker_type", text("INVALID"));

    let response = handler.validate("test-job", &config).unwrap();

    assert_eq!(response.errors.len(), 1);
    assert_eq!(response.errors[0].field, "glue.worker_type");
    assert_eq!(
        response.errors[0].message,
        "invalid worker_type \"INVALID\"; valid values: G.025X, G.1X, G.2X, G.4X, G.8X, Z.2X"
    );
}

#[test]
fn validate_rejects_workers_below_one() {
    let handler = GlueHandler::new();
    let config = config_with("number_of_workers", integer(0));

    let response = handler.validate("test-job", &config).unwrap();

    assert_eq!(response.errors.len(), 1);
    assert_eq!(response.errors[0].field, "glue.number_of_workers");
    assert_eq!(response.errors[0].message, "must be at least 1");
}

#[test]
fn validate_rejects_invalid_glue_version() {
    let handler = GlueHandler::new();
    let config = config_with("glue_version", text("2.0"));

    let response = handler.validate("test-job", &config).unwrap();

    assert_eq!(response.errors.len(), 1);
    assert_eq!(response.errors[0].field, "glue.glue_version");
    assert_eq!(
        response.errors[0].message,
        "invalid glue_version \"2.0\"; valid values: 3.0, 4.0, 5.0"
    );
}

#[test]
fn validate_rejects_timeout_below_one() {
    let handler = GlueHandler::new();
    let config = config_with("timeout", integer(0));

    let response = handler.validate("test-job", &config).unwrap();

    assert_eq!(response.errors.len(), 1);
    assert_eq!(response.errors[0].field, "glue.timeout");
}

#[test]
fn validate_rejects_timeout_above_limit() {
    let handler = GlueHandler::new();
    let config = config_with("timeout", integer(10081));

    let response = handler.validate("test-job", &config).unwrap();

    assert_eq!(response.errors.len(), 1);
    assert_eq!(response.errors[0].field, "glue.timeout");
    assert_eq!(
        response.errors[0].message,
        "must be between 1 and 10080 minutes (7 days)"
    );
}

#[test]
fn validate_rejects_negative_max_retries() {
    let handler = GlueHandler::new();
    let config = config_with("max_retries", integer(-1));

    let response = handler.validate("test-job", &config).unwrap();

    assert_eq!(response.errors.len(), 1);
    assert_eq!(response.errors[0].field, "glue.max_retries");
    assert_eq!(response.errors[0].message, "cannot be negative");
}

#[test]
fn validate_rejects_invalid_bookmark() {
    let handler = GlueHandler::new();
    let config = config_with("bookmark", text("maybe"));

    let response = handler.validate("test-job", &config).unwrap();

    assert_eq!(response.errors.len(), 1);
    assert_eq!(response.errors[0].field, "glue.bookmark");
    assert_eq!(
        response.errors[0].message,
        "invalid bookmark \"maybe\"; valid values: enabled, disabled"
    );
}

#[test]
fn validate_rejects_connections_not_array() {
    let handler = GlueHandler::new();
    let config = config_with("connections", text("not-an-array"));

    let response = handler.validate("test-job", &config).unwrap();

    assert_eq!(response.errors.len(), 1);
    assert_eq!(response.errors[0].field, "glue.connections");
    assert_eq!(response.errors[0].message, "must be an array of strings");
}

#[test]
fn validate_rejects_default_arguments_not_object() {
    let handler = GlueHandler::new();
    let config = config_with("default_arguments", text("not-an-object"));

    let response = handler.validate("test-job", &config).unwrap();

    assert_eq!(response.errors.len(), 1);
    assert_eq!(response.errors[0].field, "glue.default_arguments");
    assert_eq!(
        response.errors[0].message,
        "must be a map of string keys to string values"
    );
}

#[test]
fn validate_accepts_the_bounds() {
    let handler = GlueHandler::new();

    for config in [
        config_with("timeout", integer(1)),
        config_with("timeout", integer(10080)),
        config_with("number_of_workers", integer(1)),
        config_with("number_of_workers", Json::Number(Number::PosInt(u64::MAX))),
        config_with("number_of_workers", text("0")),
        config_with("max_retries", integer(0)),
        config_with("bookmark", text("disabled")),
        config_with("worker_type", text("Z.2X")),
        config_with("glue_version", text("5.0")),
        config_with("connections", Json::Array(vec![])),
        config_with("default_arguments", object(vec![])),
        config_with("timeout", Json::Number(Number::Fraction("0.5".to_string()))),
    ] {
        let response = handler.validate("test-job", &config).unwrap();
        assert!(response.errors.is_empty(), "{:?}: {:?}", config, response.errors);
    }
}

#[test]
fn validate_reports_every_error_in_order() {
    let config = object(vec![(
        "glue",
        object(vec![
            ("default_arguments", Json::Null),
            ("connections", Json::Null),
            ("bookmark", text("no")),
            ("max_retries", integer(-5)),
            ("timeout", integer(0)),
            ("glue_version", text("1.0")),
            ("number_of_workers", integer(-2)),
            ("worker_type", text("X")),
            ("script_bucket", text("")),
        ]),
    )]);

    let response = GlueHandler::new().validate(&"b".repeat(300), &config).unwrap();

    let fields: Vec<&str> = response.errors.iter().map(|e| e.field.as_str()).collect();
    assert_eq!(
        fields,
        vec![
            "job_name",
            "role",
            "glue.script_bucket",
            "glue.worker_type",
            "glue.number_of_workers",
            "glue.glue_version",
            "glue.timeout",
            "glue.max_retries",
            "glue.bookmark",
            "glue.connections",
            "glue.default_arguments",
        ]
    );
    assert!(response.errors.iter().all(|e| e.severity == "error"));
}

#[test]
fn validate_catches_missing_role_and_script_bucket() {
    let response = GlueHandler::new().validate("test-job", &object(vec![])).unwrap();

    let errors = response.errors;
    assert!(!errors.is_empty(), "empty config should produce validation errors");

    let has_role_error = errors.iter().any(|e| e.field == "role");
    assert!(has_role_error, "should report missing role; errors: {errors:?}");

    let has_bucket_error = errors.iter().any(|e| e.field == "glue.script_bucket");
    assert!(has_bucket_error, "should report missing script_bucket; errors: {errors:?}");
}

#[test]
fn validate_accepts_valid_config() {
    let config = object(vec![
        ("role", text("arn:aws:iam::123:role/Test")),
        ("glue", object(vec![("script_bucket", text("my-bucket"))])),
    ]);

    let errors = GlueHandler::new().validate("test-job", &config).unwrap().errors;

    assert!(errors.is_empty(), "valid config should produce no errors; got: {errors:?}");
}

#[test]
fn validation_error_has_severity_error() {
    let error = validation_error("role", "missing");

    assert_eq!(error.field, "role");
    assert_eq!(error.message, "missing");
    assert_eq!(error.severity, "error");
}

// S3 URIs

#[test]
fn parse_s3_uri_valid_simple() {
    assert_eq!(parse_s3_uri("s3://bucket/key"), Some(("bucket", "key")));
}

#[test]
fn parse_s3_uri_valid_nested_key() {
    assert_eq!(
        parse_s3_uri("s3://bucket/path/to/key"),
        Some(("bucket", "path/to/key"))
    );
}

#[test]
fn parse_s3_uri_missing_prefix() {
    assert_eq!(parse_s3_uri("bucket/key"), None);
}

#[test]
fn parse_s3_uri_empty_bucket() {
    assert_eq!(parse_s3_uri("s3:///key"), None);
}

#[test]
fn parse_s3_uri_empty_key() {
    assert_eq!(parse_s3_uri("s3://bucket/"), None);
}

#[test]
fn parse_s3_uri_no_key() {
    assert_eq!(parse_s3_uri("s3://bucket"), None);
}

#[test]
fn parse_s3_uri_of_short_and_foreign_texts() {
    assert_eq!(parse_s3_uri(""), None);
    assert_eq!(parse_s3_uri("s3:/"), None);
    assert_eq!(parse_s3_uri("s3://"), None);
    assert_eq!(parse_s3_uri("S3://bucket/key"), None);
    assert_eq!(parse_s3_uri("s3://büro/ключ"), Some(("büro", "ключ")));
    assert_eq!(parse_s3_uri("s3://b//"), Some(("b", "/")));
}

// The configuration block

#[test]
fn extract_glue_config_valid() {
    let config = object(vec![(
        "glue",
        object(vec![
            ("script_bucket", text("my-bucket")),
            ("worker_type", text("G.1X")),
        ]),
    )]);
    let parsed = GlueConfig {
        script_bucket: Some("my-bucket".to_string()),
        worker_type: "G.1X".to_string(),
        ..GlueConfig::default()
    };

    let result = extract_glue_config(&config, Some(parsed));

    assert!(result.is_ok());
    assert_eq!(result.unwrap().script_bucket.as_deref(), Some("my-bucket"));
}

#[test]
fn extract_glue_config_missing_block() {
    let config = object(vec![("role", role())]);

    let result = extract_glue_config(&config, None);

    assert!(result.is_err());
    assert_eq!(result.unwrap_err().message, "missing glue config block");
}

#[test]
fn extract_glue_config_malformed() {
    let config = object(vec![("glue", text("not_an_object"))]);

    let result = extract_glue_config(&config, None);

    assert!(result.is_err());
    assert_eq!(result.unwrap_err().message, "failed to parse glue config block");
}

// Schema and identity

#[test]
fn schema_returns_full_field_definitions() {
    let response = GlueHandler::new().schema().unwrap();

    let fields = response.fields;
    assert_eq!(fields.len(), 12, "schema should return 12 fields; got {}", fields.len());

    let source_types = response.supported_source_types.unwrap();
    assert_eq!(source_types.len(), 5, "should have 5 source types; got {}", source_types.len());

    let sink_types = response.supported_sink_types.unwrap();
    assert_eq!(sink_types.len(), 4, "should have 4 sink types; got {}", sink_types.len());

    let bucket_field = fields.iter().find(|f| f.name == "script_bucket").unwrap();
    assert_eq!(bucket_field.required, true, "script_bucket should be required");

    let region_field = fields.iter().find(|f| f.name == "region").unwrap();
    assert_eq!(region_field.required, false, "region should not be required");
}

#[test]
fn schema_requires_the_script_bucket_alone() {
    let response = GlueHandler::new().schema().unwrap();

    let required: Vec<&str> = response
        .fields
        .iter()
        .filter(|f| f.required)
        .map(|f| f.name.as_str())
        .collect();
    assert_eq!(required, vec!["script_bucket"]);
    assert_eq!(response.fields[11].field_type, "object");
    assert_eq!(response.fields[11].description, "Default job arguments");
    assert_eq!(
        response.supported_source_types.unwrap(),
        vec!["s3", "jdbc", "catalog", "kafka", "api"]
    );
    assert_eq!(
        response.supported_sink_types.unwrap(),
        vec!["s3", "jdbc", "catalog", "iceberg"]
    );
}

#[test]
fn handler_has_the_name_of_the_plugin() {
    assert_eq!(GlueHandler::new().name(), "yard-plugin-glue");
}

#[test]
fn codegen_answers_with_the_script_or_the_error() {
    let handler = GlueHandler::new();

    let response = handler.codegen(Ok("import sys".to_string())).unwrap();
    assert_eq!(response.script.as_deref(), Some("import sys"));
    let error = handler.codegen(Err(PluginError::new("no sink".to_string()))).unwrap_err();
    assert_eq!(error.message, "no sink");
}

// Deployment

#[test]
fn deployment_asks_for_upload_and_job() {
    let deployment = begun_deployment();

    assert_eq!(deployment.stage, Stage::Upload);
    assert_eq!(deployment.settings.region, "us-east-1");
    assert_eq!(deployment.upload.object.bucket, "test-bucket");
    assert_eq!(deployment.upload.object.key, "scripts/test-job.py");
    assert_eq!(deployment.upload.body, "print('hello')");
    let job = &deployment.job;
    assert_eq!(job.name, "test-job");
    assert_eq!(job.role, "arn:aws:iam::123456789012:role/GlueRole");
    assert_eq!(job.command_name, "glueetl");
    assert_eq!(job.script_location, "s3://test-bucket/scripts/test-job.py");
    assert_eq!(job.python_version, "3");
    assert_eq!(job.glue_version, "4.0");
    assert_eq!(job.worker_type, "G.1X");
    assert_eq!(job.number_of_workers, 2);
    assert!(job.timeout.is_none());
    assert!(job.connections.is_none());
    assert_eq!(job.default_arguments.get_text("--datalake-formats"), Some("iceberg"));
}

#[test]
fn deployment_updates_a_job_that_exists() {
    let mut deployment = begun_deployment();

    deployment.step(Reply::Done).unwrap();
    assert_eq!(deployment.stage, Stage::UpdateJob);
    assert!(deployment.response().is_none());
    deployment.step(Reply::Done).unwrap();
    assert_eq!(deployment.stage, Stage::Finished);

    let resources = deployment.response().unwrap().resources;
    assert_eq!(resources.len(), 2);
    assert_eq!(resources[0].resource_type, "s3_object");
    assert_eq!(resources[0].id, "s3://test-bucket/scripts/test-job.py");
    assert_eq!(resources[0].provider, "glue");
    assert_eq!(resources[1].resource_type, "glue_job");
    assert_eq!(resources[1].id, "test-job");
    assert_eq!(resources[1].provider, "glue");
}

#[test]
fn deployment_creates_a_job_that_is_missing() {
    let mut deployment = begun_deployment();

    deployment.step(Reply::Done).unwrap();
    deployment.step(Reply::NotFound).unwrap();
    assert_eq!(deployment.stage, Stage::CreateJob);
    deployment.step(Reply::Done).unwrap();
    assert_eq!(deployment.stage, Stage::Finished);
}

#[test]
fn deployment_stops_at_each_failure() {
    let mut deployment = begun_deployment();
    assert_eq!(
        deployment.step(Reply::NotFound).unwrap_err().message,
        "Failed to upload script to s3://test-bucket/scripts/test-job.py"
    );
    assert_eq!(deployment.stage, Stage::Aborted);
    assert!(deployment.response().is_none());

    let mut deployment = begun_deployment();
    deployment.step(Reply::Done).unwrap();
    assert_eq!(
        deployment.step(Reply::Failed).unwrap_err().message,
        "Failed to update Glue job \"test-job\""
    );

    let mut deployment = begun_deployment();
    deployment.step(Reply::Done).unwrap();
    deployment.step(Reply::NotFound).unwrap();
    assert_eq!(
        deployment.step(Reply::NotFound).unwrap_err().message,
        "Failed to create Glue job \"test-job\""
    );
}

#[test]
fn deployment_is_refused_without_block_or_role() {
    let handler = GlueHandler::new();
    let env = no_environment();

    let no_block = object(vec![("role", role())]);
    assert_eq!(
        handler.deploy("j", &no_block, None, "", &env).unwrap_err().message,
        "missing glue config block"
    );
    let malformed = object(vec![("role", role()), ("glue", text("x"))]);
    assert_eq!(
        handler.deploy("j", &malformed, None, "", &env).unwrap_err().message,
        "failed to parse glue config block"
    );
    let empty_role = object(vec![("role", text("")), ("glue", object(vec![]))]);
    assert_eq!(
        handler
            .deploy("j", &empty_role, Some(GlueConfig::default()), "", &env)
            .unwrap_err()
            .message,
        "deploy requires a non-empty \"role\" in job_config"
    );
}

#[test]
fn job_request_carries_the_optional_settings() {
    let cfg = GlueConfig {
        timeout: Some(60),
        max_retries: Some(1),
        max_concurrent_runs: Some(4),
        connections: vec!["one".to_string(), "two".to_string()],
        bookmark: Some("enabled".to_string()),
        ..bucket_config()
    };

    let job = create_or_update_glue_job("j", "s3://b/j.py", &valid_config(), &cfg).unwrap();

    assert_eq!(job.timeout, Some(60));
    assert_eq!(job.max_retries, Some(1));
    assert_eq!(job.max_concurrent_runs, Some(4));
    assert_eq!(job.connections, Some(vec!["one".to_string(), "two".to_string()]));
    assert_eq!(
        job.default_arguments.get_text("--job-bookmark-option"),
        Some("job-bookmark-enable")
    );
}

#[test]
fn job_request_needs_a_role() {
    let config = object(vec![("role", Json::Null)]);

    let error =
        create_or_update_glue_job("j", "s3://b/j.py", &config, &GlueConfig::default()).unwrap_err();

    assert_eq!(error.message, "Job \"j\" requires a \"role\" (Glue execution role)");
}

#[test]
fn job_replies_are_read() {
    assert!(delete_glue_job("j", Reply::Done).is_ok());
    for reply in [Reply::NotFound, Reply::Failed] {
        assert_eq!(
            delete_glue_job("j", reply).unwrap_err().message,
            "Failed to delete Glue job \"j\""
        );
    }
    assert!(glue_job_exists("j", Reply::Done).unwrap());
    assert!(!glue_job_exists("j", Reply::NotFound).unwrap());
    assert_eq!(
        glue_job_exists("j", Reply::Failed).unwrap_err().message,
        "Failed to check Glue job: j"
    );
}

// Destruction

#[test]
fn destruction_deletes_jobs_before_objects() {
    let resources = vec![
        resource("s3_object", "s3://bucket/a.py"),
        resource("glue_job", "one"),
        resource("s3_object", "no uri"),
        resource("other", "x"),
        resource("glue_job", "two"),
    ];

    let mut destruction = GlueHandler::new().destroy(&resources, &no_environment());

    assert_eq!(destruction.settings.region, "us-east-1");
    assert_eq!(destruction.actions.len(), 3);
    assert!(matches!(destruction.action(), Some(DestroyAction::DeleteJob(id)) if id == "one"));
    destruction.step(Reply::Done).unwrap();
    assert!(matches!(destruction.action(), Some(DestroyAction::DeleteJob(id)) if id == "two"));
    destruction.step(Reply::Done).unwrap();
    assert!(matches!(
        destruction.action(),
        Some(DestroyAction::DeleteObject(object)) if object.bucket == "bucket" && object.key == "a.py"
    ));
    assert!(destruction.response().is_none());
    destruction.step(Reply::Failed).unwrap();
    assert!(destruction.action().is_none());
    assert!(destruction.response().is_some());
}

#[test]
fn destruction_stops_at_a_job_that_stays() {
    let resources = vec![
        resource("s3_object", "s3://bucket/a.py"),
        resource("glue_job", "one"),
    ];
    let mut destruction = GlueHandler::new().destroy(&resources, &no_environment());

    assert_eq!(
        destruction.step(Reply::NotFound).unwrap_err().message,
        "Failed to delete Glue job \"one\""
    );
    assert!(destruction.failed);
    assert!(destruction.action().is_none());
    assert!(destruction.response().is_none());
}

#[test]
fn destruction_undoes_a_deployment() {
    let mut deployment = begun_deployment();
    deployment.step(Reply::Done).unwrap();
    deployment.step(Reply::Done).unwrap();
    let resources = deployment.response().unwrap().resources;

    let destruction = GlueHandler::new().destroy(&resources, &no_environment());

    assert_eq!(destruction.actions.len(), 2);
    assert!(matches!(&destruction.actions[0], DestroyAction::DeleteJob(id) if id == "test-job"));
    assert!(matches!(
        &destruction.actions[1],
        DestroyAction::DeleteObject(object)
            if object.bucket == "test-bucket" && object.key == "scripts/test-job.py"
    ));
}

// Verification

#[test]
fn verification_asks_for_each_resource() {
    let resources = vec![
        resource("s3_object", "s3://test-bucket/scripts/test-job.py"),
        resource("glue_job", "test-job"),
        resource("s3_object", "no uri"),
        resource("other", "x"),
    ];
    let mut verification = GlueHandler::new().verify(&resources, &no_environment());

    assert!(matches!(
        verification.probe(),
        Some(Probe::Object(object))
            if object.bucket == "test-bucket" && object.key == "scripts/test-job.py"
    ));
    verification.step(Reply::Done).unwrap();
    assert!(matches!(verification.probe(), Some(Probe::Job(id)) if id == "test-job"));
    verification.step(Reply::NotFound).unwrap();
    assert!(matches!(verification.probe(), Some(Probe::Settled(false))));
    verification.step(Reply::Done).unwrap();
    assert!(matches!(verification.probe(), Some(Probe::Settled(true))));
    verification.step(Reply::Failed).unwrap();
    assert!(verification.probe().is_none());

    let statuses = verification.response().unwrap().statuses;
    let exists: Vec<bool> = statuses.iter().map(|s| s.exists).collect();
    assert_eq!(exists, vec![true, false, false, true]);
    assert_eq!(statuses[1].resource.id, "test-job");
    assert_eq!(statuses[1].resource.resource_type, "glue_job");
}

#[test]
fn verification_stops_at_a_failed_call() {
    let resources = vec![
        resource("s3_object", "s3://bucket/a.py"),
        resource("glue_job", "one"),
    ];

    let mut verification = GlueHandler::new().verify(&resources, &no_environment());
    assert_eq!(
        verification.step(Reply::Failed).unwrap_err().message,
        "Failed to check S3 object: a.py"
    );
    assert!(verification.failed);
    assert!(verification.probe().is_none());
    assert!(verification.statuses.is_empty());
    assert!(verification.response().is_none());

    let mut verification = GlueHandler::new().verify(&resources, &no_environment());
    verification.step(Reply::NotFound).unwrap();
    assert_eq!(
        verification.step(Reply::Failed).unwrap_err().message,
        "Failed to check Glue job: one"
    );
    assert!(verification.probe().is_none());
    assert_eq!(verification.statuses.len(), 1);
}

#[test]
fn verification_has_no_answer_before_its_end() {
    let resources = vec![resource("glue_job", "one")];

    let verification = GlueHandler::new().verify(&resources, &no_environment());

    assert!(verification.response().is_none());
    assert!(GlueHandler::new().verify(&[], &no_environment()).response().is_some());
}

#[test]
fn lifecycle_uses_the_region_of_the_environment() {
    let mut env = StringMap::new();
    env.insert("AWS_DEFAULT_REGION".to_string(), "eu-west-1".to_string());

    assert_eq!(GlueHandler::new().destroy(&[], &env).settings.region, "eu-west-1");
    assert_eq!(GlueHandler::new().verify(&[], &env).settings.region, "eu-west-1");
}
