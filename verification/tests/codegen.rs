use yard_plugin::codegen::helpers::{
    default_engine_for, derive_jdbc_url, effective_engine, has_iceberg_sink, indent_body,
    needs_dynamic_frame_import, needs_functions_import, needs_jdbc_auth_imports,
    needs_pii_imports, needs_requests_import, needs_secrets_imports, needs_window_import,
    render_import, render_imports, render_jdbc_auth, render_partition_derivation,
    render_rds_iam_token_fetch, render_secret_fetch, require_str, should_fill_nulls,
};
use yard_plugin::codegen::literal::{
    append_spark_options, dict_literal, python_literal, python_str_literal, quoted_list,
};
use yard_plugin::codegen::options::build_options_dict;
use yard_plugin::codegen::pii::render_pii;
use yard_plugin::codegen::sink::{iceberg_table_properties, render_sink, require_sink_str};
use yard_plugin::codegen::transform::{render_transform, render_transforms, resolve_df};
use yard_plugin::codegen::types::{
    Import, JdbcAuth, JobConfig, OrderBySpec, RdsIamAuth, Sink, Source, Transform,
};
use yard_plugin::json::{Json, Number};
use yard_plugin::string_map::StringMap;

fn some(value: &str) -> Option<String> {
    Some(value.to_string())
}

fn strings(values: &[&str]) -> Vec<String> {
    values.iter().map(|v| v.to_string()).collect()
}

fn text_map(entries: &[(&str, &str)]) -> StringMap<String> {
    let mut map = StringMap::new();
    for (key, value) in entries {
        map.insert(key.to_string(), value.to_string());
    }
    map
}

fn json_map(entries: Vec<(&str, Json)>) -> StringMap<Json> {
    let mut map = StringMap::new();
    for (key, value) in entries {
        map.insert(key.to_string(), value);
    }
    map
}

fn text(value: &str) -> Json {
    Json::Str(value.to_string())
}

fn number(value: u64) -> Json {
    Json::Number(Number::PosInt(value))
}

fn empty_config() -> JobConfig {
    JobConfig {
        job_type: None,
        imports: vec![],
        body: None,
        job_file: None,
        sources: vec![],
        sink: None,
        transforms: vec![],
        mask_pii: vec![],
        partition_by: vec![],
        partition_timestamp_column: None,
        create_timestamp: false,
        config: Json::Null,
    }
}

fn source(source_type: &str) -> Source {
    Source {
        name: "src".to_string(),
        source_type: source_type.to_string(),
        format: None,
        path: None,
        connection_url: None,
        table: None,
        database: None,
        secret_id: None,
        engine: None,
        connection_type: None,
        topic: None,
        url: None,
        headers: StringMap::new(),
        options: StringMap::new(),
        auth: None,
        columns: vec![],
    }
}

fn sink(sink_type: &str) -> Sink {
    Sink {
        source: None,
        sink_type: sink_type.to_string(),
        format: None,
        path: None,
        connection_url: None,
        table: None,
        database: None,
        secret_id: None,
        mode: None,
        partition_by: vec![],
        connection_type: None,
        fill_nulls: None,
        auth: None,
        options: StringMap::new(),
        catalog_id: None,
    }
}

fn transform(transform_type: &str) -> Transform {
    Transform {
        transform_type: transform_type.to_string(),
        source: None,
        output: None,
        condition: None,
        query: None,
        columns: vec![],
        mapping: StringMap::new(),
        name: None,
        expression: None,
        left: None,
        right: None,
        on: None,
        how: None,
        group_by: vec![],
        aggs: StringMap::new(),
        partition_by: vec![],
        order_by: vec![],
    }
}

fn rds() -> RdsIamAuth {
    RdsIamAuth {
        username: some("admin"),
        host: "db.example.com".to_string(),
        port: 3306,
        region: "eu-west-1".to_string(),
    }
}

fn rendered(t: &Transform) -> String {
    render_transform(t, "src", &strings(&["src", "other"])).unwrap()
}

fn refusal(t: &Transform) -> String {
    render_transform(t, "src", &[]).unwrap_err().message
}

// Literals

#[test]
fn string_literals_are_escaped() {
    assert_eq!(python_str_literal(""), "\"\"");
    assert_eq!(python_str_literal("plain é"), "\"plain é\"");
    assert_eq!(
        python_str_literal("a\\b\"c\nd\re\tf"),
        "\"a\\\\b\\\"c\\nd\\re\\tf\""
    );
}

#[test]
fn string_literals_stand_on_one_line_and_differ() {
    let texts = ["\n", "\\n", "\r", "n", "\"", "\\\"", "\\", "\\\\", "\t", ""];
    for a in texts {
        let literal = python_str_literal(a);
        assert!(!literal.contains('\n') && !literal.contains('\r'));
        for b in texts {
            assert_eq!(literal == python_str_literal(b), a == b, "{a:?} {b:?}");
        }
    }
}

#[test]
fn quoted_lists_are_separated_by_commas() {
    assert_eq!(quoted_list(&strings(&["col_a", "col_b"])), "\"col_a\", \"col_b\"");
    assert_eq!(quoted_list(&[]), "");
}

#[test]
fn json_values_become_python_literals() {
    let value = Json::Object(json_map(vec![
        ("b", Json::Array(vec![Json::Null, Json::Bool(true), Json::Bool(false)])),
        ("a", number(18446744073709551615)),
        ("c", Json::Number(Number::NegInt(-5))),
        ("e", Json::Object(StringMap::new())),
        ("d", Json::Number(Number::Fraction("1.5".to_string()))),
    ]));

    assert_eq!(
        python_literal(&value),
        "{\"a\": 18446744073709551615, \"b\": [None, True, False], \"c\": -5, \"d\": 1.5, \"e\": {}}"
    );
    assert_eq!(python_literal(&Json::Array(vec![])), "[]");
    assert_eq!(python_literal(&text("x\"y")), "\"x\\\"y\"");
}

#[test]
fn object_literals_do_not_depend_on_the_walk() {
    let one = Json::Object(json_map(vec![("x", number(1)), ("y", number(2))]));
    let other = Json::Object(json_map(vec![("y", number(2)), ("x", number(1))]));

    assert_eq!(python_literal(&one), python_literal(&other));
}

#[test]
fn dictionaries_are_sorted_by_key() {
    let members = vec![
        ("z".to_string(), "1".to_string()),
        ("a".to_string(), "None".to_string()),
    ];
    assert_eq!(dict_literal(members), "{\"a\": None, \"z\": 1}");
}

#[test]
fn options_of_the_user_go_before_the_seed() {
    let seed = [("path", text("s3://a/")), ("header", Json::Bool(true)), ("path", text("s3://b/"))];
    let user = json_map(vec![("header", Json::Bool(false)), ("delimiter", text("|"))]);

    assert_eq!(
        build_options_dict(&seed, &user),
        "{\"delimiter\": \"|\", \"header\": False, \"path\": \"s3://b/\"}"
    );
    assert_eq!(build_options_dict(&[], &StringMap::new()), "{}");
}

#[test]
fn options_dict_is_the_literal_of_the_merged_object() {
    let seed = [("b", number(1)), ("a", text("\n"))];
    let user = json_map(vec![("b", Json::Array(vec![number(2)]))]);
    let merged = Json::Object(json_map(vec![
        ("a", text("\n")),
        ("b", Json::Array(vec![number(2)])),
    ]));

    assert_eq!(build_options_dict(&seed, &user), python_literal(&merged));
}

#[test]
fn spark_options_are_appended_in_order() {
    let mut chain = "spark.read".to_string();
    let extra = json_map(vec![("z", number(1)), ("a", Json::Bool(true))]);

    append_spark_options(&mut chain, &[("header", "true"), ("q", "\"")], &extra);

    assert_eq!(
        chain,
        "spark.read.option(\"header\", \"true\").option(\"q\", \"\\\"\").option(\"z\", 1).option(\"a\", True)"
    );
}

// Helpers

#[test]
fn imports_are_rendered() {
    let plain = Import { name: "json".to_string(), from: None };
    let from = Import { name: "date".to_string(), from: some("datetime") };

    assert_eq!(render_import(&plain), "import json");
    assert_eq!(render_import(&from), "from datetime import date");
    assert_eq!(render_imports(&[plain, from]), "import json\nfrom datetime import date");
    assert_eq!(render_imports(&[]), "");
}

#[test]
fn required_texts_are_returned_or_named() {
    assert_eq!(require_str(Some("x"), "src", "path").unwrap(), "x");
    assert_eq!(
        require_str(None, "src", "path").unwrap_err().message,
        "source 'src': 'path' is required"
    );
    assert_eq!(require_sink_str(Some("x"), "s3", "path").unwrap(), "x");
    assert_eq!(
        require_sink_str(None, "s3", "path").unwrap_err().message,
        "sink: 'path' is required for s3 sink"
    );
}

#[test]
fn engines_fall_back_to_the_default() {
    let mut s = source("s3");
    assert_eq!(effective_engine(&s, "glue"), "glue");
    s.engine = some("spark");
    assert_eq!(effective_engine(&s, "glue"), "spark");
}

#[test]
fn default_engine_is_read_from_the_job_type() {
    let mut config = empty_config();
    assert_eq!(default_engine_for(&config), "spark");
    config.config = Json::Object(json_map(vec![
        ("glue", Json::Object(json_map(vec![("default_engine", text("glue"))]))),
        ("emr", Json::Object(json_map(vec![("default_engine", number(1))]))),
    ]));
    assert_eq!(default_engine_for(&config), "glue");
    config.job_type = some("emr");
    assert_eq!(default_engine_for(&config), "spark");
}

#[test]
fn secrets_are_fetched_under_the_prefix() {
    assert_eq!(
        render_secret_fetch("my/secret", "sink"),
        "    sink_secret_client = boto3.client(\"secretsmanager\")\n    sink_secret_resp = sink_secret_client.get_secret_value(SecretId=\"my/secret\")\n    sink_secret = json.loads(sink_secret_resp[\"SecretString\"])"
    );
}

#[test]
fn tokens_are_fetched_under_the_prefix() {
    assert_eq!(
        render_rds_iam_token_fetch("sink", &rds(), "\"admin\""),
        vec![
            "    _sink_rds = boto3.client(\"rds\", region_name=\"eu-west-1\")",
            "    sink_token = _sink_rds.generate_db_auth_token(",
            "        DBHostname=\"db.example.com\",",
            "        Port=3306,",
            "        DBUsername=\"admin\",",
            "        Region=\"eu-west-1\",",
            "    )",
        ]
    );
}

#[test]
fn jdbc_auth_comes_from_secret_or_token() {
    assert!(render_jdbc_auth("src", None, None).is_none());
    assert_eq!(
        render_jdbc_auth("src", Some("id"), None).unwrap(),
        (
            "src_secret[\"username\"]".to_string(),
            "src_secret[\"password\"]".to_string(),
            vec![]
        )
    );
    let auth = JdbcAuth { rds_iam: Some(rds()) };
    let (user, password, before) = render_jdbc_auth("src", None, Some(&auth)).unwrap();
    assert_eq!(user, "\"admin\"");
    assert_eq!(password, "src_token");
    assert_eq!(before, render_rds_iam_token_fetch("src", &rds(), "\"admin\""));
    let (user, _, _) = render_jdbc_auth("src", Some("id"), Some(&auth)).unwrap();
    assert_eq!(user, "src_secret[\"username\"]");
    let nameless = JdbcAuth { rds_iam: Some(RdsIamAuth { username: None, ..rds() }) };
    assert_eq!(render_jdbc_auth("src", None, Some(&nameless)).unwrap().0, "\"\"");
    let empty = JdbcAuth { rds_iam: None };
    assert!(render_jdbc_auth("src", Some("id"), Some(&empty)).is_none());
}

#[test]
fn jdbc_urls_are_derived_from_the_endpoint() {
    let auth = JdbcAuth { rds_iam: Some(rds()) };
    assert_eq!(
        derive_jdbc_url(&auth, "mysql", "shop"),
        "jdbc:mysql://db.example.com:3306/shop"
    );
    assert_eq!(derive_jdbc_url(&JdbcAuth { rds_iam: None }, "mysql", "shop"), "");
}

#[test]
fn imports_are_needed_for_what_is_used() {
    let mut config = empty_config();
    assert!(!needs_secrets_imports(&config));
    assert!(!needs_jdbc_auth_imports(&config));
    assert!(!needs_requests_import(&config));

    config.sources = vec![
        Source { secret_id: some("id"), ..source("jdbc") },
        Source { auth: Some(JdbcAuth { rds_iam: None }), ..source("api") },
    ];
    assert!(needs_secrets_imports(&config));
    assert!(needs_jdbc_auth_imports(&config));
    assert!(needs_requests_import(&config));

    config.sources = vec![];
    config.sink = Some(Sink {
        secret_id: some("id"),
        auth: Some(JdbcAuth { rds_iam: None }),
        ..sink("jdbc")
    });
    assert!(needs_secrets_imports(&config));
    assert!(needs_jdbc_auth_imports(&config));
}

#[test]
fn window_import_goes_with_functions_import() {
    let mut config = empty_config();
    config.transforms = vec![transform("filter"), transform("aggregate")];
    assert!(needs_functions_import(&config));
    assert!(!needs_window_import(&config));
    config.transforms = vec![transform("window")];
    assert!(needs_functions_import(&config));
    assert!(needs_window_import(&config));
    config.transforms = vec![transform("filter")];
    assert!(!needs_functions_import(&config));
}

#[test]
fn nulls_are_filled_for_iceberg_unless_declined() {
    let mut config = empty_config();
    assert!(!has_iceberg_sink(&config) && !should_fill_nulls(&config));
    config.sink = Some(sink("s3"));
    assert!(!has_iceberg_sink(&config) && !should_fill_nulls(&config));
    config.sink = Some(sink("iceberg"));
    assert!(has_iceberg_sink(&config) && should_fill_nulls(&config));
    config.sink = Some(Sink { fill_nulls: Some(false), ..sink("iceberg") });
    assert!(has_iceberg_sink(&config) && !should_fill_nulls(&config));
    config.sink = Some(Sink { fill_nulls: Some(true), ..sink("iceberg") });
    assert!(should_fill_nulls(&config));
}

#[test]
fn dynamic_frames_are_used_by_catalog_glue_and_pii() {
    let mut config = empty_config();
    assert!(!needs_dynamic_frame_import(&config, "glue"));
    config.sources = vec![source("s3")];
    assert!(needs_dynamic_frame_import(&config, "glue"));
    assert!(!needs_dynamic_frame_import(&config, "spark"));
    config.sources = vec![source("kafka")];
    assert!(!needs_dynamic_frame_import(&config, "glue"));
    config.sources = vec![source("catalog")];
    assert!(needs_dynamic_frame_import(&config, "spark"));
    config.sources = vec![];
    config.sink = Some(sink("catalog"));
    assert!(needs_dynamic_frame_import(&config, "spark"));
    config.sink = None;
    config.mask_pii = strings(&["EMAIL"]);
    assert!(needs_pii_imports(&config));
    assert!(needs_dynamic_frame_import(&config, "spark"));
    config.body = some("pass");
    assert!(!needs_pii_imports(&config));
    config.body = None;
    config.job_file = some("job.py");
    assert!(!needs_pii_imports(&config));
}

#[test]
fn partition_columns_are_derived() {
    let mut config = empty_config();
    assert!(render_partition_derivation(&config, "src").unwrap().is_none());

    config.partition_by = strings(&["year", "month", "day"]);
    assert_eq!(
        render_partition_derivation(&config, "src").unwrap().unwrap(),
        "    # --- Partition columns ---\n    _ts = \"event_time\"\n    if \"year\" not in df_src.columns:\n        df_src = df_src.withColumn(\"year\", F.year(F.col(_ts)))\n    if \"month\" not in df_src.columns:\n        df_src = df_src.withColumn(\"month\", F.month(F.col(_ts)))\n    if \"day\" not in df_src.columns:\n        df_src = df_src.withColumn(\"day\", F.dayofmonth(F.col(_ts)))"
    );

    config.partition_by = strings(&["year"]);
    config.create_timestamp = true;
    assert_eq!(
        render_partition_derivation(&config, "src").unwrap().unwrap(),
        "    # --- Partition columns ---\n    df_src = df_src.withColumn(\"ingestion_timestamp\", F.current_timestamp())\n    _ts = \"ingestion_timestamp\"\n    if \"year\" not in df_src.columns:\n        df_src = df_src.withColumn(\"year\", F.year(F.col(_ts)))"
    );

    config.partition_by = strings(&["year", "hour", "week"]);
    assert_eq!(
        render_partition_derivation(&config, "src").unwrap_err().message,
        "unsupported partition_by unit: 'hour' (expected year, month, or day)"
    );
}

#[test]
fn bodies_are_indented_by_four_spaces() {
    assert_eq!(indent_body("a\n  b\n\n \t\nc\n"), "    a\n      b\n\n\n    c");
    assert_eq!(indent_body(""), "");
}

#[test]
fn pii_block_redacts_each_entity() {
    assert_eq!(
        render_pii(&strings(&["EMAIL", "SSN"]), "df_src"),
        "    _yard_pii_dyf = DynamicFrame.fromDF(df_src, glueContext, \"_yard_pii\")\n    _yard_pii_dyf = EntityDetector.detect(\n        _yard_pii_dyf,\n        {\n            \"EMAIL\": [{\"action\": \"REDACT\", \"actionOptions\": {\"redactText\": \"****\"}}],\n            \"SSN\": [{\"action\": \"REDACT\", \"actionOptions\": {\"redactText\": \"****\"}}]\n        },\n        \"DetectedEntities\"\n    )\n    df_src = _yard_pii_dyf.toDF()\n    df_src = df_src.drop(\"DetectedEntities\")"
    );
}

// Sinks

#[test]
fn s3_sink_is_written() {
    let s = Sink { path: some("s3://b/out/"), ..sink("s3") };
    assert_eq!(
        render_sink(&s, "src", false, None).unwrap(),
        "    df_src.write.format(\"parquet\").mode(\"overwrite\").save(\"s3://b/out/\")"
    );
    let s = Sink {
        source: some("clean"),
        format: some("csv"),
        mode: some("append"),
        partition_by: strings(&["year", "month"]),
        secret_id: some("id"),
        ..s
    };
    assert_eq!(
        render_sink(&s, "src", false, None).unwrap(),
        "    sink_secret_client = boto3.client(\"secretsmanager\")\n    sink_secret_resp = sink_secret_client.get_secret_value(SecretId=\"id\")\n    sink_secret = json.loads(sink_secret_resp[\"SecretString\"])\n    df_clean.write.format(\"csv\").mode(\"append\").partitionBy(\"year\", \"month\").save(\"s3://b/out/\")"
    );
    assert_eq!(
        render_sink(&sink("s3"), "src", false, None).unwrap_err().message,
        "sink: 'path' is required for s3 sink"
    );
}

#[test]
fn jdbc_sink_is_written() {
    let s = Sink {
        table: some("t"),
        connection_url: some("jdbc:mysql://h:1/d"),
        ..sink("jdbc")
    };
    assert_eq!(
        render_sink(&s, "src", false, None).unwrap(),
        "    df_src.write.format(\"jdbc\").option(\"url\", \"jdbc:mysql://h:1/d\").option(\"dbtable\", \"t\")\\\n        .mode(\"overwrite\").save()"
    );
    let s = Sink {
        table: some("t"),
        connection_type: some("mysql"),
        database: some("shop"),
        auth: Some(JdbcAuth { rds_iam: Some(rds()) }),
        mode: some("append"),
        ..sink("jdbc")
    };
    assert_eq!(
        render_sink(&s, "src", false, None).unwrap(),
        "    _sink_rds = boto3.client(\"rds\", region_name=\"eu-west-1\")\n    sink_token = _sink_rds.generate_db_auth_token(\n        DBHostname=\"db.example.com\",\n        Port=3306,\n        DBUsername=\"admin\",\n        Region=\"eu-west-1\",\n    )\n    df_src.write.format(\"jdbc\").option(\"url\", \"jdbc:mysql://db.example.com:3306/shop\").option(\"dbtable\", \"t\")\\\n        .option(\"user\", \"admin\").option(\"password\", sink_token)\\\n        .mode(\"append\").save()"
    );
}

#[test]
fn jdbc_sink_names_what_it_lacks() {
    let refused = |s: Sink| render_sink(&s, "src", false, None).unwrap_err().message;
    let auth = || Some(JdbcAuth { rds_iam: Some(rds()) });

    assert_eq!(refused(sink("jdbc")), "sink: 'table' is required for jdbc sink");
    assert_eq!(
        refused(Sink { table: some("t"), ..sink("jdbc") }),
        "sink: 'connection_url' is required when 'auth' is not set"
    );
    assert_eq!(
        refused(Sink { table: some("t"), auth: auth(), ..sink("jdbc") }),
        "sink: 'connection_type' is required when 'connection_url' is not set"
    );
    assert_eq!(
        refused(Sink {
            table: some("t"),
            auth: auth(),
            connection_type: some("mysql"),
            ..sink("jdbc")
        }),
        "sink: 'database' is required for jdbc sink"
    );
}

#[test]
fn catalog_sink_is_written() {
    let s = Sink { database: some("db"), table: some("t"), ..sink("catalog") };
    assert_eq!(
        render_sink(&s, "src", false, None).unwrap(),
        "    sink_frame = DynamicFrame.fromDF(df_src, glueContext, \"sink_frame\")\n    glueContext.write_dynamic_frame.from_catalog(frame=sink_frame, database=\"db\", table_name=\"t\")"
    );
    assert_eq!(
        render_sink(&sink("catalog"), "src", false, None).unwrap_err().message,
        "sink: 'database' is required for catalog sink"
    );
    let s = Sink { database: some("db"), ..sink("catalog") };
    assert_eq!(
        render_sink(&s, "src", false, None).unwrap_err().message,
        "sink: 'table' is required for catalog sink"
    );
}

#[test]
fn iceberg_sink_is_written() {
    let s = Sink { database: some("db"), table: some("t"), ..sink("iceberg") };
    let expected = [
        "    _glue = boto3.client(\"glue\")",
        "    try:",
        "        _glue.get_database(Name=\"db\")",
        "    except _glue.exceptions.EntityNotFoundException:",
        "        _glue.create_database(DatabaseInput={\"Name\": \"db\"})",
        "    _tbl = \"glue_catalog.db.t\"",
        "    if not spark.catalog.tableExists(_tbl):",
        "        (df_src.writeTo(_tbl)",
        "            .using(\"iceberg\")",
        "            .tableProperty(\"format-version\", \"2\")",
        "            .tableProperty(\"write.spark.accept-any-schema\", \"true\")",
        "            .tableProperty(\"write.target-file-size-bytes\", \"536870912\")",
        "            .tableProperty(\"write.parquet.compression-codec\", \"zstd\")",
        "            .tableProperty(\"write.distribution-mode\", \"hash\")",
        "            .create())",
        "    else:",
        "        _existing_cols = spark.table(_tbl).columns",
        "        _ordered = [_c for _c in _existing_cols if _c in df_src.columns]",
        "        _new = [_c for _c in df_src.columns if _c not in _existing_cols]",
        "        df_src = df_src.select(_ordered + _new)",
        "        df_src.writeTo(_tbl).option(\"merge-schema\", \"true\").overwritePartitions()",
    ]
    .join("\n");
    assert_eq!(render_sink(&s, "src", false, None).unwrap(), expected);
}

#[test]
fn iceberg_sink_conforms_partitions_and_places_the_table() {
    let s = Sink {
        database: some("db"),
        table: some("t"),
        mode: some("append"),
        path: some("s3://b/wh/"),
        partition_by: strings(&["year"]),
        ..sink("iceberg")
    };
    let expected = [
        "    _glue = boto3.client(\"glue\")",
        "    try:",
        "        _glue.get_database(CatalogId=\"123\", Name=\"db\")",
        "    except _glue.exceptions.EntityNotFoundException:",
        "        _glue.create_database(CatalogId=\"123\", DatabaseInput={\"Name\": \"db\"})",
        "    _tbl = \"glue_catalog.db.t\"",
        "    if not spark.catalog.tableExists(_tbl):",
        "        _target = _yard_void_free_schema(df_src.schema)",
        "        df_src = _yard_conform(df_src, _target)",
        "        (df_src.writeTo(_tbl)",
        "            .using(\"iceberg\")",
        "            .partitionedBy(\"year\")",
        "            .tableProperty(\"format-version\", \"2\")",
        "            .tableProperty(\"write.spark.accept-any-schema\", \"true\")",
        "            .tableProperty(\"write.target-file-size-bytes\", \"536870912\")",
        "            .tableProperty(\"write.parquet.compression-codec\", \"zstd\")",
        "            .tableProperty(\"write.distribution-mode\", \"hash\")",
        "            .tableProperty(\"location\", \"s3://b/wh/\")",
        "            .create())",
        "    else:",
        "        _live = _yard_read_iceberg_schema(spark, _tbl)",
        "        _batch = _yard_void_free_schema(df_src.schema)",
        "        _live_types = {_f.name: _f.dataType for _f in _live.fields}",
        "        for _f in _batch.fields:",
        "            if _f.name in _live_types and _yard_kind_mismatch(_f.dataType, _live_types[_f.name]):",
        "                raise ValueError(\"yard: schema kind mismatch for column '\" + _f.name + \"': source kind differs from the Iceberg table kind (struct vs list/map); refusing to write\")",
        "        _target = _yard_merge_schema(_live, _batch)",
        "        df_src = _yard_conform(df_src, _target)",
        "        _existing_cols = spark.table(_tbl).columns",
        "        _ordered = [_c for _c in _existing_cols if _c in df_src.columns]",
        "        _new = [_c for _c in df_src.columns if _c not in _existing_cols]",
        "        df_src = df_src.select(_ordered + _new)",
        "        df_src.writeTo(_tbl).option(\"merge-schema\", \"true\").append()",
    ]
    .join("\n");
    assert_eq!(render_sink(&s, "src", true, Some("123")).unwrap(), expected);
}

#[test]
fn iceberg_sink_names_what_it_lacks() {
    assert_eq!(
        render_sink(&sink("iceberg"), "src", true, None).unwrap_err().message,
        "sink: 'database' is required for iceberg sink"
    );
    let s = Sink { database: some("db"), ..sink("iceberg") };
    assert_eq!(
        render_sink(&s, "src", true, None).unwrap_err().message,
        "sink: 'table' is required for iceberg sink"
    );
    assert_eq!(iceberg_table_properties().len(), 5);
    assert_eq!(iceberg_table_properties()[0], ("format-version", "2"));
}

#[test]
fn iceberg_sink_ignores_an_empty_path() {
    let s = Sink { database: some("db"), table: some("t"), path: some(""), ..sink("iceberg") };
    assert!(!render_sink(&s, "src", false, None).unwrap().contains("location"));
}

#[test]
fn unknown_sink_gives_a_comment() {
    assert_eq!(
        render_sink(&sink("ftp"), "src", false, None).unwrap(),
        "    # Unsupported sink type: ftp"
    );
}

#[test]
fn cloned_sink_is_written_alike() {
    let s = Sink {
        table: some("t"),
        connection_type: some("mysql"),
        database: some("shop"),
        auth: Some(JdbcAuth { rds_iam: Some(rds()) }),
        options: json_map(vec![
            ("b", Json::Array(vec![number(1), text("x")])),
            ("a", Json::Object(json_map(vec![("n", Json::Null)]))),
        ]),
        ..sink("jdbc")
    };

    let copied = s.clone();

    assert_eq!(
        render_sink(&copied, "src", false, None).unwrap(),
        render_sink(&s, "src", false, None).unwrap()
    );
    let mut chain = String::new();
    append_spark_options(&mut chain, &[], &copied.options);
    assert_eq!(chain, ".option(\"b\", [1, \"x\"]).option(\"a\", {\"n\": None})");
}

// Transforms

#[test]
fn dataframes_are_resolved() {
    let mut t = transform("filter");
    assert_eq!(resolve_df(&t, "src"), ("df_src".to_string(), "df_src".to_string()));
    t.source = some("a");
    assert_eq!(resolve_df(&t, "src"), ("df_a".to_string(), "df_a".to_string()));
    t.output = some("b");
    assert_eq!(resolve_df(&t, "src"), ("df_a".to_string(), "df_b".to_string()));
}

#[test]
fn filter_is_rendered() {
    assert_eq!(rendered(&transform("filter")), "    df_src = df_src.filter(True)");
    let t = Transform {
        condition: some("  F.col(\"x\") > 1\n"),
        output: some("big"),
        ..transform("filter")
    };
    assert_eq!(rendered(&t), "    df_big = df_src.filter(F.col(\"x\") > 1)");
}

#[test]
fn sql_registers_every_source() {
    let t = Transform { query: some(" SELECT 1 "), output: some("out"), ..transform("sql") };
    assert_eq!(
        rendered(&t),
        "    df_src.createOrReplaceTempView(\"src\")\n    df_other.createOrReplaceTempView(\"other\")\n    df_out = spark.sql(\"SELECT 1\")"
    );
    assert_eq!(
        render_transform(&transform("sql"), "src", &[]).unwrap(),
        "    df_src = spark.sql(\"SELECT * FROM source\")"
    );
}

#[test]
fn join_is_rendered_or_refused() {
    let t = Transform { right: some("r"), on: some("id"), ..transform("join") };
    assert_eq!(rendered(&t), "    df_src = df_src.join(df_r, on=\"id\", how=\"inner\")");
    let t = Transform { left: some("l"), how: some("left"), output: some("o"), ..t };
    assert_eq!(rendered(&t), "    df_o = df_l.join(df_r, on=\"id\", how=\"left\")");
    assert_eq!(refusal(&transform("join")), "join transform: 'right' is required");
    assert_eq!(
        refusal(&Transform { right: some("r"), ..transform("join") }),
        "join transform: 'on' is required"
    );
}

#[test]
fn columns_are_dropped_and_selected() {
    let t = Transform { columns: strings(&["a", "b"]), ..transform("drop_columns") };
    assert_eq!(rendered(&t), "    df_src = df_src.drop(\"a\", \"b\")");
    let t = Transform { columns: strings(&["a"]), ..transform("select") };
    assert_eq!(rendered(&t), "    df_src = df_src.select(\"a\")");
}

#[test]
fn rename_goes_by_the_old_names() {
    let t = Transform {
        output: some("out"),
        mapping: text_map(&[("b", "y"), ("a", "x")]),
        ..transform("rename")
    };
    let expected = "    df_out = df_src.withColumnRenamed(\"a\", \"x\")\n    df_out = df_out.withColumnRenamed(\"b\", \"y\")";
    assert_eq!(rendered(&t), expected);
    let t = Transform { mapping: text_map(&[("a", "x"), ("b", "y")]), ..t };
    assert_eq!(rendered(&t), expected);
    assert_eq!(rendered(&transform("rename")), "");
}

#[test]
fn add_column_is_rendered_or_refused() {
    let t = Transform { name: some(" c "), ..transform("add_column") };
    assert_eq!(rendered(&t), "    df_src = df_src.withColumn(\"c\", lit(None))");
    let t = Transform { expression: some(" F.lit(1) "), ..t };
    assert_eq!(rendered(&t), "    df_src = df_src.withColumn(\"c\", F.lit(1))");
    assert_eq!(refusal(&transform("add_column")), "add_column transform: 'name' is required");
}

#[test]
fn aggregate_goes_by_the_aliases() {
    let t = Transform {
        group_by: strings(&["k"]),
        aggs: text_map(&[("total", " sum(x) "), ("n", "count(*)")]),
        ..transform("aggregate")
    };
    assert_eq!(
        rendered(&t),
        "    df_src = df_src.groupBy(\"k\").agg(F.expr(\"count(*)\").alias(\"n\"), F.expr(\"sum(x)\").alias(\"total\"))"
    );
}

#[test]
fn window_is_rendered_or_refused() {
    let t = Transform {
        name: some("rank "),
        expression: some(" row_number() "),
        partition_by: strings(&["k"]),
        order_by: vec![
            OrderBySpec { column: "ts".to_string(), desc: true },
            OrderBySpec { column: "id".to_string(), desc: false },
        ],
        ..transform("window")
    };
    assert_eq!(
        rendered(&t),
        "    _w_rank = Window.partitionBy(\"k\").orderBy(F.col(\"ts\").desc(), F.col(\"id\").asc())\n    df_src = df_src.withColumn(\"rank\", F.expr(\"row_number()\").over(_w_rank))"
    );
    let t = Transform { partition_by: vec![], order_by: vec![], ..t };
    assert_eq!(
        rendered(&t),
        "    _w_rank = Window\n    df_src = df_src.withColumn(\"rank\", F.expr(\"row_number()\").over(_w_rank))"
    );
    assert_eq!(refusal(&transform("window")), "window transform: 'name' is required");
    assert_eq!(
        refusal(&Transform { name: some("n"), ..transform("window") }),
        "window transform: 'expression' is required"
    );
}

#[test]
fn unknown_transform_gives_a_comment() {
    assert_eq!(rendered(&transform("pivot")), "    # Unsupported transform type: pivot");
}

#[test]
fn transforms_are_rendered_in_order() {
    let first = Transform { condition: some("a"), ..transform("filter") };
    let second = Transform { columns: strings(&["b"]), ..transform("select") };

    assert_eq!(
        render_transforms(&[first, second], "src", &[]).unwrap(),
        "    df_src = df_src.filter(a)\n    df_src = df_src.select(\"b\")"
    );
    assert_eq!(render_transforms(&[], "src", &[]).unwrap(), "");
}

#[test]
fn transforms_stop_at_the_first_error() {
    let list = [transform("filter"), transform("window"), transform("join")];

    assert_eq!(
        render_transforms(&list, "src", &[]).unwrap_err().message,
        "window transform: 'name' is required"
    );
}
