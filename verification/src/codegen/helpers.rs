//! Fragments that the renderers share: imports, secrets, JDBC authentication,
//! partition columns, and the tests that decide which imports a script needs.

use super::literal::{python_str_literal, str_literal};
use super::types::{Import, JdbcAuth, JobConfig, RdsIamAuth, Source};
use crate::error::PluginError;
use crate::text::{
    blank, decimal, decimal_text, is_blank, join, joined, lines, lines_of, opt_text, same_text,
    str_or, str_text, text_or, views,
};
use vstd::prelude::*;

verus! {

/// The import statement: `from <module> import <name>` where a module is
/// given, else `import <name>`.
pub open spec fn import_text(import: Import) -> Seq<char> {
    match import.from {
        Some(module) => "from "@ + module@ + " import "@ + import.name@,
        None => "import "@ + import.name@,
    }
}

/// Renders one import as a Python import statement.
pub fn render_import(import: &Import) -> (text: String)
    ensures
        text@ == import_text(*import),
{
    match &import.from {
        Some(module) => "from ".to_owned().concat(module.as_str()).concat(" import ").concat(
            import.name.as_str(),
        ),
        None => "import ".to_owned().concat(import.name.as_str()),
    }
}

/// Renders imports as Python import statements, one per line.
pub fn render_imports(imports: &[Import]) -> (text: String)
    ensures
        text@ == joined(imports@.map_values(|import: Import| import_text(import)), "\n"@),
{
    let mut rendered: Vec<String> = Vec::new();
    for i in 0..imports.len()
        invariant
            rendered@.len() == i,
            forall|j: int| 0 <= j < i ==> (#[trigger] rendered@[j])@ == import_text(imports@[j]),
    {
        rendered.push(render_import(&imports[i]));
    }
    proof {
        assert(views(rendered@) =~= imports@.map_values(|import: Import| import_text(import)));
    }
    join(&rendered, "\n")
}

/// The engine of a source, or `default_engine` where the source names none.
pub fn effective_engine(source: &Source, default_engine: &str) -> (engine: String)
    ensures
        engine@ == text_or(source.engine, default_engine@),
{
    str_or(&source.engine, default_engine).to_owned()
}

/// Returns `value`, or an error that names the missing `field` of the source.
pub fn require_str<'a>(value: Option<&'a str>, source_name: &str, field: &str) -> (required: Result<
    &'a str,
    PluginError,
>)
    ensures
        required is Ok <==> value is Some,
        required matches Ok(text) ==> value == Some(text),
        required matches Err(error) ==> error@ == "source '"@ + source_name@ + "': '"@ + field@
            + "' is required"@,
{
    match value {
        Some(text) => Ok(text),
        None => Err(
            PluginError::new(
                "source '".to_owned().concat(source_name).concat("': '").concat(field).concat(
                    "' is required",
                ),
            ),
        ),
    }
}

/// The lines that fetch a secret and parse it into `{prefix}_secret`.
pub open spec fn secret_fetch_lines(secret_id: Seq<char>, prefix: Seq<char>) -> Seq<Seq<char>> {
    let var = prefix + "_secret"@;
    seq![
        "    "@ + var + "_client = boto3.client(\"secretsmanager\")"@,
        "    "@ + var + "_resp = "@ + var + "_client.get_secret_value(SecretId="@ + str_literal(
            secret_id,
        ) + ")"@,
        "    "@ + var + " = json.loads("@ + var + "_resp[\"SecretString\"])"@,
    ]
}

/// Emits the Python lines that fetch a secret from AWS Secrets Manager and
/// parse its JSON body into a local variable named `{prefix}_secret`.
pub fn render_secret_fetch(secret_id: &str, prefix: &str) -> (text: String)
    ensures
        text@ == joined(secret_fetch_lines(secret_id@, prefix@), "\n"@),
{
    let var: String = prefix.to_owned().concat("_secret");
    let escaped_id: String = python_str_literal(secret_id);
    let mut fetch: Vec<String> = Vec::new();
    fetch.push(
        "    ".to_owned().concat(var.as_str()).concat("_client = boto3.client(\"secretsmanager\")"),
    );
    fetch.push(
        "    ".to_owned().concat(var.as_str()).concat("_resp = ").concat(var.as_str()).concat(
            "_client.get_secret_value(SecretId=",
        ).concat(escaped_id.as_str()).concat(")"),
    );
    fetch.push(
        "    ".to_owned().concat(var.as_str()).concat(" = json.loads(").concat(var.as_str()).concat(
            "_resp[\"SecretString\"])",
        ),
    );
    proof {
        assert(views(fetch@) =~= secret_fetch_lines(secret_id@, prefix@));
    }
    join(&fetch, "\n")
}

/// Whether a source or the sink reads a secret.
pub open spec fn reads_secret(config: JobConfig) -> bool {
    ||| exists|i: int|
        0 <= i < config.sources@.len() && (#[trigger] config.sources@[i]).secret_id is Some
    ||| config.sink matches Some(sink) && sink.secret_id is Some
}

/// True when any source or the sink references a `secret_id`: the script then
/// needs `import boto3` and `import json`.
pub fn needs_secrets_imports(config: &JobConfig) -> (needed: bool)
    ensures
        needed == reads_secret(*config),
{
    for i in 0..config.sources.len()
        invariant
            forall|j: int|
                0 <= j < i ==> (#[trigger] config.sources@[j]).secret_id is None,
    {
        if config.sources[i].secret_id.is_some() {
            return true;
        }
    }
    match &config.sink {
        Some(sink) => sink.secret_id.is_some(),
        None => false,
    }
}

/// Whether a source or the sink has JDBC authentication.
pub open spec fn has_jdbc_auth(config: JobConfig) -> bool {
    ||| exists|i: int|
        0 <= i < config.sources@.len() && (#[trigger] config.sources@[i]).auth is Some
    ||| config.sink matches Some(sink) && sink.auth is Some
}

/// True when any source or the sink uses JDBC authentication: the script then
/// needs `import boto3` for the token.
pub fn needs_jdbc_auth_imports(config: &JobConfig) -> (needed: bool)
    ensures
        needed == has_jdbc_auth(*config),
{
    for i in 0..config.sources.len()
        invariant
            forall|j: int| 0 <= j < i ==> (#[trigger] config.sources@[j]).auth is None,
    {
        if config.sources[i].auth.is_some() {
            return true;
        }
    }
    match &config.sink {
        Some(sink) => sink.auth.is_some(),
        None => false,
    }
}

/// The JDBC URL of an RDS endpoint, empty where there is none.
pub open spec fn jdbc_url(
    auth: JdbcAuth,
    connection_type: Seq<char>,
    database: Seq<char>,
) -> Seq<char> {
    match auth.rds_iam {
        Some(rds) => "jdbc:"@ + connection_type + "://"@ + rds.host@ + ":"@ + decimal(
            rds.port as nat,
        ) + "/"@ + database,
        None => Seq::empty(),
    }
}

/// Builds a JDBC URL from the RDS IAM endpoint:
/// `jdbc:<connection_type>://<host>:<port>/<database>`, or an empty string
/// where no RDS IAM authentication is configured.
pub fn derive_jdbc_url(auth: &JdbcAuth, connection_type: &str, database: &str) -> (url: String)
    ensures
        url@ == jdbc_url(*auth, connection_type@, database@),
{
    match &auth.rds_iam {
        Some(rds) => "jdbc:".to_owned().concat(connection_type).concat("://").concat(
            rds.host.as_str(),
        ).concat(":").concat(decimal_text(rds.port as u64).as_str()).concat("/").concat(database),
        None => String::new(),
    }
}

/// The lines that ask for an RDS IAM authentication token and put it into
/// `{prefix}_token`.
pub open spec fn token_fetch_lines(
    prefix: Seq<char>,
    rds: RdsIamAuth,
    user_expr: Seq<char>,
) -> Seq<Seq<char>> {
    let client_var = "_"@ + prefix + "_rds"@;
    let token_var = prefix + "_token"@;
    seq![
        "    "@ + client_var + " = boto3.client(\"rds\", region_name="@ + str_literal(rds.region@)
            + ")"@,
        "    "@ + token_var + " = "@ + client_var + ".generate_db_auth_token("@,
        "        DBHostname="@ + str_literal(rds.host@) + ","@,
        "        Port="@ + decimal(rds.port as nat) + ","@,
        "        DBUsername="@ + user_expr + ","@,
        "        Region="@ + str_literal(rds.region@) + ","@,
        "    )"@,
    ]
}

/// Emits the Python lines that call `generate_db_auth_token` for a short-lived
/// RDS IAM authentication token.
pub fn render_rds_iam_token_fetch(prefix: &str, rds: &RdsIamAuth, user_expr: &str) -> (fetch: Vec<
    String,
>)
    ensures
        views(fetch@) == token_fetch_lines(prefix@, *rds, user_expr@),
{
    let client_var: String = "_".to_owned().concat(prefix).concat("_rds");
    let token_var: String = prefix.to_owned().concat("_token");
    let escaped_region: String = python_str_literal(rds.region.as_str());
    let escaped_host: String = python_str_literal(rds.host.as_str());
    let port: String = decimal_text(rds.port as u64);
    let mut fetch: Vec<String> = Vec::new();
    fetch.push(
        "    ".to_owned().concat(client_var.as_str()).concat(
            " = boto3.client(\"rds\", region_name=",
        ).concat(escaped_region.as_str()).concat(")"),
    );
    fetch.push(
        "    ".to_owned().concat(token_var.as_str()).concat(" = ").concat(
            client_var.as_str(),
        ).concat(".generate_db_auth_token("),
    );
    fetch.push("        DBHostname=".to_owned().concat(escaped_host.as_str()).concat(","));
    fetch.push("        Port=".to_owned().concat(port.as_str()).concat(","));
    fetch.push("        DBUsername=".to_owned().concat(user_expr).concat(","));
    fetch.push("        Region=".to_owned().concat(escaped_region.as_str()).concat(","));
    fetch.push("    )".to_owned());
    proof {
        assert(views(fetch@) =~= token_fetch_lines(prefix@, *rds, user_expr@));
    }
    fetch
}

/// The user expression, the password expression and the lines before the call,
/// for a JDBC reader or writer.
pub open spec fn jdbc_auth(
    prefix: Seq<char>,
    secret_id: Option<Seq<char>>,
    auth: Option<JdbcAuth>,
) -> Option<(Seq<char>, Seq<char>, Seq<Seq<char>>)> {
    let secret_user = prefix + "_secret"@ + "[\"username\"]"@;
    match auth {
        None => match secret_id {
            None => None,
            Some(_) => Some(
                (secret_user, prefix + "_secret"@ + "[\"password\"]"@, Seq::empty()),
            ),
        },
        Some(jdbc) => match jdbc.rds_iam {
            None => None,
            Some(rds) => {
                let user = if secret_id is Some {
                    secret_user
                } else {
                    str_literal(text_or(rds.username, Seq::empty()))
                };
                Some((user, prefix + "_token"@, token_fetch_lines(prefix, rds, user)))
            },
        },
    }
}

/// The parts of a JDBC authentication, as texts.
pub open spec fn auth_texts(auth: Option<(String, String, Vec<String>)>) -> Option<
    (Seq<char>, Seq<char>, Seq<Seq<char>>),
> {
    match auth {
        Some((user, password, before)) => Some((user@, password@, views(before@))),
        None => None,
    }
}

/// Resolves the user and password expressions for a JDBC source or sink, and
/// the Python lines that come before the reader or writer call. There are none
/// where neither a secret nor RDS IAM authentication supplies them.
pub fn render_jdbc_auth(
    prefix: &str,
    secret_id: Option<&str>,
    auth: Option<&JdbcAuth>,
) -> (rendered: Option<(String, String, Vec<String>)>)
    ensures
        auth_texts(rendered) == jdbc_auth(
            prefix@,
            str_text(secret_id),
            match auth {
                Some(jdbc) => Some(*jdbc),
                None => None,
            },
        ),
{
    let secret_var: String = prefix.to_owned().concat("_secret");
    match (secret_id, auth) {
        (None, None) => None,
        (Some(_), None) => {
            let user: String = secret_var.clone().concat("[\"username\"]");
            let password: String = secret_var.concat("[\"password\"]");
            let before: Vec<String> = Vec::new();
            proof {
                assert(views(before@) =~= Seq::empty());
            }
            Some((user, password, before))
        },
        (secret, Some(jdbc)) => match &jdbc.rds_iam {
            None => None,
            Some(rds) => {
                let user: String = if secret.is_some() {
                    secret_var.concat("[\"username\"]")
                } else {
                    proof {
                        reveal_strlit("");
                        assert(""@ =~= Seq::<char>::empty());
                    }
                    python_str_literal(str_or(&rds.username, ""))
                };
                let token: String = prefix.to_owned().concat("_token");
                let before: Vec<String> = render_rds_iam_token_fetch(prefix, rds, user.as_str());
                Some((user, token, before))
            },
        },
    }
}

/// Whether the sink writes to an Iceberg table.
pub open spec fn iceberg_sink(config: JobConfig) -> bool {
    config.sink matches Some(sink) && sink.sink_type@ == "iceberg"@
}

/// True when the job definition has an Iceberg sink.
pub fn has_iceberg_sink(config: &JobConfig) -> (iceberg: bool)
    ensures
        iceberg == iceberg_sink(*config),
{
    match &config.sink {
        Some(sink) => same_text(sink.sink_type.as_str(), "iceberg"),
        None => false,
    }
}

/// Whether an Iceberg sink makes the batch conform to the schema of the table:
/// it does unless the sink declines.
pub open spec fn fills_nulls(config: JobConfig) -> bool {
    &&& iceberg_sink(config)
    &&& config.sink matches Some(sink) ==> sink.fill_nulls != Some(false)
}

/// True when the Iceberg sink should emit the schema-conform pass;
/// `fill_nulls: false` opts out.
pub fn should_fill_nulls(config: &JobConfig) -> (fill: bool)
    ensures
        fill == fills_nulls(*config),
{
    match &config.sink {
        Some(sink) => same_text(sink.sink_type.as_str(), "iceberg") && match sink.fill_nulls {
            Some(wanted) => wanted,
            None => true,
        },
        None => false,
    }
}

/// The Spark function that gives a unit of the calendar.
pub open spec fn calendar_function(unit: Seq<char>) -> Option<Seq<char>> {
    if unit == "year"@ {
        Some("year"@)
    } else if unit == "month"@ {
        Some("month"@)
    } else if unit == "day"@ {
        Some("dayofmonth"@)
    } else {
        None
    }
}

/// The statement that adds the column of a unit where it is absent.
pub open spec fn partition_column(
    var: Seq<char>,
    unit: Seq<char>,
    function: Seq<char>,
) -> Seq<char> {
    "    if "@ + str_literal(unit) + " not in "@ + var + ".columns:\n        "@ + var + " = "@ + var
        + ".withColumn("@ + str_literal(unit) + ", F."@ + function + "(F.col(_ts)))"@
}

/// The statements for the units in order, or the message on the first unit that
/// is none of the calendar.
pub open spec fn partition_columns(var: Seq<char>, units: Seq<Seq<char>>) -> Result<
    Seq<Seq<char>>,
    Seq<char>,
>
    decreases units.len(),
{
    if units.len() == 0 {
        Ok(Seq::empty())
    } else {
        match partition_columns(var, units.drop_last()) {
            Err(message) => Err(message),
            Ok(columns) => match calendar_function(units.last()) {
                Some(function) => Ok(columns.push(partition_column(var, units.last(), function))),
                None => Err(
                    "unsupported partition_by unit: '"@ + units.last()
                        + "' (expected year, month, or day)"@,
                ),
            },
        }
    }
}

/// The lines that come before the partition columns: they name the timestamp
/// column, and add it where the job creates one.
pub open spec fn timestamp_lines(config: JobConfig, var: Seq<char>) -> Seq<Seq<char>> {
    if config.create_timestamp {
        seq![
            "    # --- Partition columns ---"@,
            "    "@ + var + " = "@ + var
                + ".withColumn(\"ingestion_timestamp\", F.current_timestamp())"@,
            "    _ts = \"ingestion_timestamp\""@,
        ]
    } else {
        seq![
            "    # --- Partition columns ---"@,
            "    _ts = "@ + str_literal(text_or(config.partition_timestamp_column, "event_time"@)),
        ]
    }
}

/// The partition columns of a job: nothing where it has none.
pub open spec fn partition_text(config: JobConfig, sink_source: Seq<char>) -> Result<
    Option<Seq<char>>,
    Seq<char>,
> {
    let var = "df_"@ + sink_source;
    if config.partition_by@.len() == 0 {
        Ok(None)
    } else {
        match partition_columns(var, views(config.partition_by@)) {
            Err(message) => Err(message),
            Ok(columns) => Ok(Some(joined(timestamp_lines(config, var) + columns, "\n"@))),
        }
    }
}

/// An error in a longer list of units is the error of the list up to there.
proof fn partition_error_stays(var: Seq<char>, units: Seq<Seq<char>>, n: int)
    requires
        0 <= n <= units.len(),
        partition_columns(var, units.take(n)) is Err,
    ensures
        partition_columns(var, units) == partition_columns(var, units.take(n)),
    decreases units.len() - n,
{
    if n < units.len() {
        assert(units.take(n + 1).drop_last() =~= units.take(n));
        partition_error_stays(var, units, n + 1);
    } else {
        assert(units.take(n) =~= units);
    }
}

/// Emits the Python lines that derive the partition columns (year, month, day)
/// from a timestamp column, each only where the dataframe lacks it.
///
/// Returns `Ok(None)` where `config.partition_by` is empty, and an error where
/// it has a unit other than "year", "month" or "day".
pub fn render_partition_derivation(config: &JobConfig, sink_source: &str) -> (rendered: Result<
    Option<String>,
    PluginError,
>)
    ensures
        match rendered {
            Ok(text) => partition_text(*config, sink_source@) == Ok::<_, Seq<char>>(opt_text(text)),
            Err(error) => partition_text(*config, sink_source@) == Err::<Option<Seq<char>>, _>(
                error@,
            ),
        },
{
    if config.partition_by.len() == 0 {
        return Ok(None);
    }
    let var: String = "df_".to_owned().concat(sink_source);
    let ghost units = views(config.partition_by@);
    let mut rendered: Vec<String> = Vec::new();
    rendered.push("    # --- Partition columns ---".to_owned());
    if config.create_timestamp {
        rendered.push(
            "    ".to_owned().concat(var.as_str()).concat(" = ").concat(var.as_str()).concat(
                ".withColumn(\"ingestion_timestamp\", F.current_timestamp())",
            ),
        );
        rendered.push("    _ts = \"ingestion_timestamp\"".to_owned());
    } else {
        let column: String = python_str_literal(
            str_or(&config.partition_timestamp_column, "event_time"),
        );
        rendered.push("    _ts = ".to_owned().concat(column.as_str()));
    }
    let ghost head = timestamp_lines(*config, var@);
    proof {
        assert(views(rendered@) =~= head);
        assert(units.take(0) =~= Seq::empty());
        assert(head + Seq::<Seq<char>>::empty() =~= head);
    }
    for i in 0..config.partition_by.len()
        invariant
            units == views(config.partition_by@),
            partition_columns(var@, units.take(i as int)) matches Ok(columns) && views(rendered@)
                == head + columns,
            head == timestamp_lines(*config, var@),
            var@ == "df_"@ + sink_source@,
            config.partition_by@.len() > 0,
    {
        let unit: &str = config.partition_by[i].as_str();
        let ghost before = views(rendered@);
        proof {
            assert(units.take(i + 1).drop_last() =~= units.take(i as int));
            assert(units.take(i + 1).last() == unit@);
        }
        let function: &str = if same_text(unit, "year") {
            "year"
        } else if same_text(unit, "month") {
            "month"
        } else if same_text(unit, "day") {
            "dayofmonth"
        } else {
            proof {
                partition_error_stays(var@, units, i + 1);
            }
            return Err(
                PluginError::new(
                    "unsupported partition_by unit: '".to_owned().concat(unit).concat(
                        "' (expected year, month, or day)",
                    ),
                ),
            );
        };
        let escaped_unit: String = python_str_literal(unit);
        let column: String = "    if ".to_owned().concat(escaped_unit.as_str()).concat(
            " not in ",
        ).concat(var.as_str()).concat(".columns:\n        ").concat(var.as_str()).concat(
            " = ",
        ).concat(var.as_str()).concat(".withColumn(").concat(escaped_unit.as_str()).concat(
            ", F.",
        ).concat(function).concat("(F.col(_ts)))");
        rendered.push(column);
        proof {
            let columns = partition_columns(var@, units.take(i as int))->Ok_0;
            assert(views(rendered@) =~= before.push(column@));
            assert(views(rendered@) =~= head + columns.push(column@));
        }
    }
    proof {
        assert(units.take(units.len() as int) =~= units);
    }
    Ok(Some(join(&rendered, "\n")))
}

/// Whether a transform has the given type.
pub open spec fn has_transform(config: JobConfig, transform_type: Seq<char>) -> bool {
    exists|i: int|
        0 <= i < config.transforms@.len() && (#[trigger] config.transforms@[i]).transform_type@
            == transform_type
}

/// Whether some transform has the given type.
fn any_transform(config: &JobConfig, transform_type: &str) -> (found: bool)
    ensures
        found == has_transform(*config, transform_type@),
{
    for i in 0..config.transforms.len()
        invariant
            forall|j: int|
                0 <= j < i ==> (#[trigger] config.transforms@[j]).transform_type@
                    != transform_type@,
    {
        if same_text(config.transforms[i].transform_type.as_str(), transform_type) {
            return true;
        }
    }
    false
}

/// Whether a transform uses the Spark functions.
pub open spec fn uses_functions(config: JobConfig) -> bool {
    has_transform(config, "aggregate"@) || has_transform(config, "window"@)
}

/// True when some transform requires `from pyspark.sql import functions as F`.
pub fn needs_functions_import(config: &JobConfig) -> (needed: bool)
    ensures
        needed == uses_functions(*config),
{
    any_transform(config, "aggregate") || any_transform(config, "window")
}

/// True when some transform is a window function, which requires
/// `from pyspark.sql.window import Window`.
pub fn needs_window_import(config: &JobConfig) -> (needed: bool)
    ensures
        needed == has_transform(*config, "window"@),
{
    any_transform(config, "window")
}

/// Whether a source is read through a Glue `DynamicFrame`.
pub open spec fn reads_dynamic_frame(source: Source, default_engine: Seq<char>) -> bool {
    ||| source.source_type@ == "catalog"@
    ||| (source.source_type@ == "s3"@ || source.source_type@ == "jdbc"@) && text_or(
        source.engine,
        default_engine,
    ) == "glue"@
}

/// Whether PII is masked: the job names entity types and has generated code.
pub open spec fn masks_pii(config: JobConfig) -> bool {
    config.mask_pii@.len() > 0 && config.body is None && config.job_file is None
}

/// Whether the script uses a Glue `DynamicFrame`: for a catalog sink, for a
/// source that is read through one, or to mask PII.
pub open spec fn uses_dynamic_frame(config: JobConfig, default_engine: Seq<char>) -> bool {
    ||| config.sink matches Some(sink) && sink.sink_type@ == "catalog"@
    ||| exists|i: int|
        0 <= i < config.sources@.len() && reads_dynamic_frame(
            #[trigger] config.sources@[i],
            default_engine,
        )
    ||| masks_pii(config)
}

/// True when the script needs `from awsglue.dynamicframe import DynamicFrame`.
///
/// Covers catalog sources and sinks, S3 and JDBC sources of the glue engine,
/// and PII masking.
pub fn needs_dynamic_frame_import(config: &JobConfig, default_engine: &str) -> (needed: bool)
    ensures
        needed == uses_dynamic_frame(*config, default_engine@),
{
    let catalog_sink: bool = match &config.sink {
        Some(sink) => same_text(sink.sink_type.as_str(), "catalog"),
        None => false,
    };
    if catalog_sink {
        return true;
    }
    for i in 0..config.sources.len()
        invariant
            forall|j: int|
                0 <= j < i ==> !reads_dynamic_frame(
                    #[trigger] config.sources@[j],
                    default_engine@,
                ),
    {
        let source: &Source = &config.sources[i];
        let source_type: &str = source.source_type.as_str();
        if same_text(source_type, "catalog") || ((same_text(source_type, "s3") || same_text(
            source_type,
            "jdbc",
        )) && same_text(effective_engine(source, default_engine).as_str(), "glue")) {
            proof {
                assert(reads_dynamic_frame(config.sources@[i as int], default_engine@));
            }
            return true;
        }
    }
    needs_pii_imports(config)
}

/// Whether a source has the type "api".
pub open spec fn has_api_source(config: JobConfig) -> bool {
    exists|i: int|
        0 <= i < config.sources@.len() && (#[trigger] config.sources@[i]).source_type@ == "api"@
}

/// True when any source is an API source, which requires `import requests`.
pub fn needs_requests_import(config: &JobConfig) -> (needed: bool)
    ensures
        needed == has_api_source(*config),
{
    for i in 0..config.sources.len()
        invariant
            forall|j: int|
                0 <= j < i ==> (#[trigger] config.sources@[j]).source_type@ != "api"@,
    {
        if same_text(config.sources[i].source_type.as_str(), "api") {
            return true;
        }
    }
    false
}

/// True when the script needs the `EntityDetector` import for PII masking: the
/// job masks some entity type, and neither `body` nor `job_file` takes the
/// place of the generated code.
pub fn needs_pii_imports(config: &JobConfig) -> (needed: bool)
    ensures
        needed == masks_pii(*config),
{
    config.mask_pii.len() > 0 && config.body.is_none() && config.job_file.is_none()
}

/// The engine that the configuration of the job type names as its default.
pub open spec fn default_engine_text(config: JobConfig) -> Seq<char> {
    let named = match config.config.member(text_or(config.job_type, "glue"@)) {
        Some(provider) => provider.member_string("default_engine"@),
        None => None,
    };
    match named {
        Some(engine) => engine,
        None => "spark"@,
    }
}

/// The default Spark engine ("spark" or "glue") of a job:
/// `config.<job_type>.default_engine`, or "spark" where that is no string.
pub fn default_engine_for(config: &JobConfig) -> (engine: String)
    ensures
        engine@ == default_engine_text(*config),
{
    let job_type: &str = str_or(&config.job_type, "glue");
    match config.config.get(job_type) {
        Some(provider) => match provider.get_str("default_engine") {
            Some(engine) => engine.to_owned(),
            None => "spark".to_owned(),
        },
        None => "spark".to_owned(),
    }
}

/// A line behind four spaces; nothing for a blank line.
pub open spec fn indented(line: Seq<char>) -> Seq<char> {
    if is_blank(line) {
        Seq::empty()
    } else {
        "    "@ + line
    }
}

/// Indents every non-blank line of `body` by four spaces, for a place inside
/// the generated `run()` function; a blank line becomes empty.
pub fn indent_body(body: &str) -> (text: String)
    ensures
        text@ == joined(lines_of(body@).map_values(|line: Seq<char>| indented(line)), "\n"@),
{
    let source: Vec<String> = lines(body);
    let mut rendered: Vec<String> = Vec::new();
    for i in 0..source.len()
        invariant
            rendered@.len() == i,
            forall|j: int| 0 <= j < i ==> (#[trigger] rendered@[j])@ == indented(source@[j]@),
    {
        let line: &str = source[i].as_str();
        if blank(line) {
            rendered.push(String::new());
        } else {
            rendered.push("    ".to_owned().concat(line));
        }
    }
    proof {
        assert(views(rendered@) =~= lines_of(body@).map_values(|line: Seq<char>| indented(line)))
            by {
            assert forall|j: int| 0 <= j < rendered@.len() implies (#[trigger] views(rendered@)[j])
                == indented(lines_of(body@)[j]) by {
                assert(views(source@)[j] == source@[j]@);
            }
        }
    }
    join(&rendered, "\n")
}

} // verus!
