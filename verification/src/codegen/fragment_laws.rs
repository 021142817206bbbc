//! What holds of the fragments that the renderers share: lists and dictionaries of
//! literals, imports, secrets, JDBC authentication, partition columns, the tests
//! that decide which imports a script needs, and the PII masking block.

use super::helpers::{
    calendar_function, default_engine_text, fills_nulls, has_api_source, has_jdbc_auth,
    has_transform, iceberg_sink, import_text, indented, jdbc_auth, jdbc_url, masks_pii,
    partition_column, partition_columns, partition_text, reads_dynamic_frame, reads_secret,
    secret_fetch_lines, timestamp_lines, token_fetch_lines, uses_dynamic_frame, uses_functions,
};
use super::literal::{
    dict_text, item_texts, json_texts, literal_list, option_calls, python_text, seed_literals,
    seed_pairs, str_literal,
};
use super::pii::{entity_line, entity_lines, pii_lines};
use super::types::{Import, JdbcAuth, JobConfig, RdsIamAuth};
use crate::json::{Json, Number};
use crate::string_map::{ascending_keys, entries_map, sorted_entries_unique};
use crate::text::{decimal, is_blank, joined, signed_decimal, views};
use crate::text_laws::joined_in_sequence;
use vstd::prelude::*;

verus! {

/// A list of literals has nothing for no text, the literal alone for one, and a
/// comma between two lists.
pub proof fn literals_are_separated(
    text: Seq<char>,
    first: Seq<Seq<char>>,
    second: Seq<Seq<char>>,
)
    requires
        first.len() > 0,
        second.len() > 0,
    ensures
        literal_list(Seq::empty()).len() == 0,
        literal_list(seq![text]) == str_literal(text),
        literal_list(first + second) == literal_list(first) + ", "@ + literal_list(second),
{
    let write = |text: Seq<char>| str_literal(text);
    assert(Seq::<Seq<char>>::empty().map_values(write) =~= Seq::empty());
    assert(seq![text].map_values(write) =~= seq![str_literal(text)]);
    assert((first + second).map_values(write) =~= first.map_values(write) + second.map_values(
        write,
    ));
    joined_in_sequence(first.map_values(write), second.map_values(write), ", "@);
}

/// A dictionary holds its members in ascending order of the keys, each key as a
/// literal in front of its value.
pub proof fn dictionary_lists_members(members: Seq<(Seq<char>, Seq<char>)>)
    requires
        ascending_keys(members),
    ensures
        dict_text(entries_map(members)) == "{"@ + joined(
            Seq::new(
                members.len(),
                |i: int| str_literal(members[i].0) + ": "@ + members[i].1,
            ),
            ", "@,
        ) + "}"@,
{
    sorted_entries_unique(members, entries_map(members));
    assert(members.map_values(
        |member: (Seq<char>, Seq<char>)| str_literal(member.0) + ": "@ + member.1,
    ) =~= Seq::new(members.len(), |i: int| str_literal(members[i].0) + ": "@ + members[i].1));
}

/// The items of an array are rendered one by one.
proof fn items_one_by_one(array: Json, n: nat)
    requires
        array is Array,
        n <= array->Array_0@.len(),
    ensures
        item_texts(array, n) == Seq::new(n, |i: int| python_text(array->Array_0@[i])),
    decreases n,
{
    if n > 0 {
        items_one_by_one(array, (n - 1) as nat);
    }
    assert(item_texts(array, n) =~= Seq::new(n, |i: int| python_text(array->Array_0@[i])));
}

/// Null, truth values, numbers and strings become what Python writes for them; an
/// array becomes the list of its rendered items.
pub proof fn values_in_python(text: String, items: Vec<Json>, n: u64, m: i64)
    ensures
        python_text(Json::Null) == "None"@,
        python_text(Json::Bool(true)) == "True"@,
        python_text(Json::Bool(false)) == "False"@,
        python_text(Json::Number(Number::PosInt(n))) == signed_decimal(n as int),
        python_text(Json::Number(Number::NegInt(m))) == signed_decimal(m as int),
        python_text(Json::Number(Number::Fraction(text))) == text@,
        python_text(Json::Str(text)) == str_literal(text@),
        python_text(Json::Array(items)) == "["@ + joined(
            Seq::new(items@.len(), |i: int| python_text(items@[i])),
            ", "@,
        ) + "]"@,
{
    items_one_by_one(Json::Array(items), items@.len());
}

/// Option calls follow one another; each has the key as a literal, then the value.
pub proof fn options_follow_one_another(
    key: Seq<char>,
    value: Seq<char>,
    first: Seq<(Seq<char>, Seq<char>)>,
    second: Seq<(Seq<char>, Seq<char>)>,
)
    ensures
        option_calls(Seq::empty()).len() == 0,
        option_calls(seq![(key, value)]) == ".option("@ + str_literal(key) + ", "@ + value + ")"@,
        option_calls(first + second) == option_calls(first) + option_calls(second),
    decreases second.len(),
{
    let one = seq![(key, value)];
    assert(one.drop_last() =~= Seq::<(Seq<char>, Seq<char>)>::empty());
    assert(option_calls(one.drop_last()) =~= Seq::<char>::empty());
    assert(option_calls(one) =~= ".option("@ + str_literal(key) + ", "@ + value + ")"@);
    if second.len() > 0 {
        let head = second.drop_last();
        options_follow_one_another(key, value, first, head);
        assert((first + second).drop_last() =~= first + head);
        assert((first + second).last() == second.last());
        assert(option_calls(first + second) =~= option_calls(first) + option_calls(second));
    } else {
        assert(first + second =~= first);
        assert(option_calls(first + second) =~= option_calls(first) + option_calls(second));
    }
}

/// Seeds keep their order and keys, with literals for values; so do JSON options,
/// with rendered values.
pub proof fn option_values_are_rendered(
    seed: Seq<(&str, &str)>,
    values: Seq<(&str, Json)>,
    options: Seq<(Seq<char>, Json)>,
    i: int,
)
    ensures
        seed_pairs(values).len() == values.len(),
        0 <= i < values.len() ==> seed_pairs(values)[i] == (values[i].0@, values[i].1),
        seed_literals(seed).len() == seed.len(),
        json_texts(options).len() == options.len(),
        0 <= i < seed.len() ==> seed_literals(seed)[i] == (seed[i].0@, str_literal(seed[i].1@)),
        0 <= i < options.len() ==> json_texts(options)[i] == (
            options[i].0,
            python_text(options[i].1),
        ),
{
}

/// An import names its symbol, behind the module that it is taken from where one
/// is given.
pub proof fn imports_name_their_symbol(import: Import)
    ensures
        import.from is None ==> import_text(import) == "import "@ + import.name@,
        import.from matches Some(module) ==> import_text(import) == "from "@ + module@
            + " import "@ + import.name@,
{
}

/// A secret is fetched by its id, through variables that all begin with the
/// prefix, and ends up in `{prefix}_secret`.
pub proof fn secret_is_fetched(secret_id: Seq<char>, prefix: Seq<char>)
    ensures
        secret_fetch_lines(secret_id, prefix) == seq![
            "    "@ + prefix + "_secret_client = boto3.client(\"secretsmanager\")"@,
            "    "@ + prefix + "_secret_resp = "@ + prefix
                + "_secret_client.get_secret_value(SecretId="@ + str_literal(secret_id) + ")"@,
            "    "@ + prefix + "_secret = json.loads("@ + prefix
                + "_secret_resp[\"SecretString\"])"@,
        ],
{
    reveal_strlit("_secret");
    reveal_strlit("_client = boto3.client(\"secretsmanager\")");
    reveal_strlit("_secret_client = boto3.client(\"secretsmanager\")");
    reveal_strlit("_resp = ");
    reveal_strlit("_secret_resp = ");
    reveal_strlit("_client.get_secret_value(SecretId=");
    reveal_strlit("_secret_client.get_secret_value(SecretId=");
    reveal_strlit(" = json.loads(");
    reveal_strlit("_secret = json.loads(");
    reveal_strlit("_resp[\"SecretString\"])");
    reveal_strlit("_secret_resp[\"SecretString\"])");
    assert("_secret_client = boto3.client(\"secretsmanager\")"@ =~= "_secret"@
        + "_client = boto3.client(\"secretsmanager\")"@);
    assert("_secret_resp = "@ =~= "_secret"@ + "_resp = "@);
    assert("_secret_client.get_secret_value(SecretId="@ =~= "_secret"@
        + "_client.get_secret_value(SecretId="@);
    assert("_secret = json.loads("@ =~= "_secret"@ + " = json.loads("@);
    assert("_secret_resp[\"SecretString\"])"@ =~= "_secret"@ + "_resp[\"SecretString\"])"@);
    let lines = secret_fetch_lines(secret_id, prefix);
    assert(lines[0] =~= "    "@ + prefix + "_secret_client = boto3.client(\"secretsmanager\")"@);
    assert(lines[1] =~= "    "@ + prefix + "_secret_resp = "@ + prefix
        + "_secret_client.get_secret_value(SecretId="@ + str_literal(secret_id) + ")"@);
    assert(lines[2] =~= "    "@ + prefix + "_secret = json.loads("@ + prefix
        + "_secret_resp[\"SecretString\"])"@);
}

/// A token is asked for at the host, port and region of the database, for the
/// user, and ends up in `{prefix}_token`.
pub proof fn token_is_fetched(prefix: Seq<char>, rds: RdsIamAuth, user: Seq<char>)
    ensures
        token_fetch_lines(prefix, rds, user).len() == 7,
        token_fetch_lines(prefix, rds, user)[0] == "    "@ + ("_"@ + prefix + "_rds"@)
            + " = boto3.client(\"rds\", region_name="@ + str_literal(rds.region@) + ")"@,
        token_fetch_lines(prefix, rds, user)[1] == "    "@ + (prefix + "_token"@) + " = "@ + ("_"@
            + prefix + "_rds"@) + ".generate_db_auth_token("@,
        token_fetch_lines(prefix, rds, user)[2] == "        DBHostname="@ + str_literal(rds.host@)
            + ","@,
        token_fetch_lines(prefix, rds, user)[3] == "        Port="@ + decimal(rds.port as nat)
            + ","@,
        token_fetch_lines(prefix, rds, user)[4] == "        DBUsername="@ + user + ","@,
        token_fetch_lines(prefix, rds, user)[5] == "        Region="@ + str_literal(rds.region@)
            + ","@,
        token_fetch_lines(prefix, rds, user)[6] == "    )"@,
{
}

/// The URL of a database names the connection type, host, port and database;
/// without an endpoint there is none.
pub proof fn url_names_the_database(
    auth: JdbcAuth,
    connection_type: Seq<char>,
    database: Seq<char>,
)
    ensures
        auth.rds_iam is None ==> jdbc_url(auth, connection_type, database).len() == 0,
        auth.rds_iam matches Some(rds) ==> jdbc_url(auth, connection_type, database) == "jdbc:"@
            + connection_type + "://"@ + rds.host@ + ":"@ + decimal(rds.port as nat) + "/"@
            + database,
{
}

/// Where credentials come from. A secret alone gives its user and its password. A
/// database with IAM authentication gives a token for the password, and the user
/// of the secret, else the one it names, else none. Without a secret and without
/// authentication, or with one that has no endpoint, there are none.
pub proof fn credentials_come_from_secret_or_token(
    prefix: Seq<char>,
    secret_id: Option<Seq<char>>,
    auth: Option<JdbcAuth>,
)
    ensures
        jdbc_auth(prefix, secret_id, auth) is None <==> (secret_id is None && auth is None) || (
        auth matches Some(jdbc) && jdbc.rds_iam is None),
        secret_id is Some && auth is None ==> jdbc_auth(prefix, secret_id, auth) == Some(
            (
                prefix + "_secret[\"username\"]"@,
                prefix + "_secret[\"password\"]"@,
                Seq::<Seq<char>>::empty(),
            ),
        ),
        match auth {
            Some(JdbcAuth { rds_iam: Some(rds) }) => {
                let user = if secret_id is Some {
                    prefix + "_secret[\"username\"]"@
                } else {
                    match rds.username {
                        Some(name) => str_literal(name@),
                        None => "\"\""@,
                    }
                };
                jdbc_auth(prefix, secret_id, auth) == Some(
                    (user, prefix + "_token"@, token_fetch_lines(prefix, rds, user)),
                )
            },
            _ => true,
        },
{
    reveal_strlit("_secret");
    reveal_strlit("[\"username\"]");
    reveal_strlit("[\"password\"]");
    reveal_strlit("_secret[\"username\"]");
    reveal_strlit("_secret[\"password\"]");
    reveal_strlit("\"\"");
    assert(prefix + "_secret"@ + "[\"username\"]"@ =~= prefix + "_secret[\"username\"]"@);
    assert(prefix + "_secret"@ + "[\"password\"]"@ =~= prefix + "_secret[\"password\"]"@);
    assert(str_literal(Seq::empty()) =~= "\"\""@);
    if let Some(jdbc) = auth {
        if let Some(rds) = jdbc.rds_iam {
            let user = if secret_id is Some {
                prefix + "_secret[\"username\"]"@
            } else {
                match rds.username {
                    Some(name) => str_literal(name@),
                    None => "\"\""@,
                }
            };
            assert(jdbc_auth(prefix, secret_id, auth) == Some(
                (user, prefix + "_token"@, token_fetch_lines(prefix, rds, user)),
            ));
        }
    }
}

/// A script reads a secret, or authenticates, unless neither a source nor the
/// sink does.
pub proof fn secrets_and_auth_are_noticed(config: JobConfig)
    ensures
        !reads_secret(config) <==> (forall|i: int|
            0 <= i < config.sources@.len() ==> (#[trigger] config.sources@[i]).secret_id is None)
            && (config.sink matches Some(sink) ==> sink.secret_id is None),
        !has_jdbc_auth(config) <==> (forall|i: int|
            0 <= i < config.sources@.len() ==> (#[trigger] config.sources@[i]).auth is None) && (
        config.sink matches Some(sink) ==> sink.auth is None),
        !has_api_source(config) <==> (forall|i: int|
            0 <= i < config.sources@.len() ==> (#[trigger] config.sources@[i]).source_type@
                != "api"@),
{
}

/// A script needs the Spark functions unless every transform is neither an
/// aggregation nor a window function.
pub proof fn functions_are_noticed(config: JobConfig)
    ensures
        !uses_functions(config) <==> (forall|i: int|
            0 <= i < config.transforms@.len() ==> (#[trigger] config.transforms@[i]).transform_type@
                != "aggregate"@ && config.transforms@[i].transform_type@ != "window"@),
        !has_transform(config, "window"@) <==> (forall|i: int|
            0 <= i < config.transforms@.len() ==> (#[trigger] config.transforms@[i]).transform_type@
                != "window"@),
{
}

/// When a script uses a `DynamicFrame`: a catalog sink, a catalog source, an S3 or
/// JDBC source that is read by the engine "glue", its own or the default, or PII
/// to mask in generated code.
pub proof fn dynamic_frames_are_noticed(config: JobConfig, default_engine: Seq<char>)
    ensures
        config.sink matches Some(sink) && sink.sink_type@ == "catalog"@ ==> uses_dynamic_frame(
            config,
            default_engine,
        ),
        config.mask_pii@.len() > 0 && config.body is None && config.job_file is None
            ==> uses_dynamic_frame(config, default_engine),
        masks_pii(config) <==> config.mask_pii@.len() > 0 && config.body is None
            && config.job_file is None,
        forall|i: int|
            #![trigger config.sources@[i]]
            0 <= i < config.sources@.len() ==> {
                let source = config.sources@[i];
                let engine = match source.engine {
                    Some(engine) => engine@,
                    None => default_engine,
                };
                &&& reads_dynamic_frame(source, default_engine) <==> source.source_type@
                    == "catalog"@ || (engine == "glue"@ && (source.source_type@ == "s3"@
                    || source.source_type@ == "jdbc"@))
                &&& reads_dynamic_frame(source, default_engine) ==> uses_dynamic_frame(
                    config,
                    default_engine,
                )
            },
        uses_dynamic_frame(config, default_engine) && !(config.sink matches Some(sink)
            && sink.sink_type@ == "catalog"@) && (config.mask_pii@.len() == 0 || config.body is Some
            || config.job_file is Some) ==> exists|i: int|
            0 <= i < config.sources@.len() && reads_dynamic_frame(
                #[trigger] config.sources@[i],
                default_engine,
            ),
{
}

/// Nulls are filled for an Iceberg sink unless it declines, and for no other.
pub proof fn nulls_are_filled_for_iceberg(config: JobConfig)
    ensures
        config.sink is None ==> !iceberg_sink(config) && !fills_nulls(config),
        config.sink matches Some(sink) ==> {
            &&& iceberg_sink(config) <==> sink.sink_type@ == "iceberg"@
            &&& fills_nulls(config) <==> sink.sink_type@ == "iceberg"@ && match sink.fill_nulls {
                Some(wanted) => wanted,
                None => true,
            }
        },
{
}

/// The default engine is the string under `default_engine` in the block of the job
/// type, "glue" where none is given; else it is "spark".
pub proof fn default_engine_is_configured(config: JobConfig)
    ensures
        ({
            let job_type = match config.job_type {
                Some(job_type) => job_type@,
                None => "glue"@,
            };
            match config.config.member(job_type) {
                Some(block) => match block.member("default_engine"@) {
                    Some(Json::Str(engine)) => default_engine_text(config) == engine@,
                    _ => default_engine_text(config) == "spark"@,
                },
                None => default_engine_text(config) == "spark"@,
            }
        }),
{
}

/// A line is indented by four spaces; a blank line becomes empty.
pub proof fn lines_are_indented(line: Seq<char>)
    ensures
        is_blank(line) ==> indented(line).len() == 0,
        !is_blank(line) ==> indented(line) == seq![' ', ' ', ' ', ' '] + line,
{
    reveal_strlit("    ");
    assert("    "@ =~= seq![' ', ' ', ' ', ' ']);
}

/// The column of a unit is computed by the function of that unit, and only where
/// the dataframe lacks it.
pub proof fn unit_has_its_function(var: Seq<char>, unit: Seq<char>, function: Seq<char>)
    ensures
        calendar_function("year"@) == Some("year"@),
        calendar_function("month"@) == Some("month"@),
        calendar_function("day"@) == Some("dayofmonth"@),
        calendar_function(unit) is Some <==> unit == "year"@ || unit == "month"@ || unit == "day"@,
        partition_column(var, unit, function) == "    if "@ + str_literal(unit) + " not in "@ + var
            + ".columns:\n        "@ + var + " = "@ + var + ".withColumn("@ + str_literal(unit)
            + ", F."@ + function + "(F.col(_ts)))"@,
{
    reveal_strlit("year");
    reveal_strlit("month");
    reveal_strlit("day");
    assert("year"@.len() == 4 && "month"@.len() == 5 && "day"@.len() == 3);
}

/// The columns of units of the calendar, one by one.
proof fn columns_one_by_one(var: Seq<char>, units: Seq<Seq<char>>)
    requires
        forall|i: int| 0 <= i < units.len() ==> calendar_function(#[trigger] units[i]) is Some,
    ensures
        partition_columns(var, units) == Ok::<Seq<Seq<char>>, Seq<char>>(
            Seq::new(
                units.len(),
                |i: int| partition_column(var, units[i], calendar_function(units[i])->0),
            ),
        ),
    decreases units.len(),
{
    let columns = Seq::new(
        units.len(),
        |i: int| partition_column(var, units[i], calendar_function(units[i])->0),
    );
    if units.len() > 0 {
        let head = units.drop_last();
        assert forall|i: int| 0 <= i < head.len() implies calendar_function(
            #[trigger] head[i],
        ) is Some by {
            assert(head[i] == units[i]);
        }
        columns_one_by_one(var, head);
        assert(units.last() == units[units.len() - 1]);
        assert(partition_columns(var, units)->Ok_0 =~= columns);
    } else {
        assert(columns =~= Seq::empty());
    }
}

/// The partition columns of a job: a heading, the timestamp column, then one
/// statement for each unit in order. The timestamp is a new column where the job
/// creates one, else the column that the job names, else "event_time".
pub proof fn columns_are_derived_from_timestamp(config: JobConfig, source: Seq<char>)
    requires
        config.partition_by@.len() > 0,
        forall|i: int|
            0 <= i < config.partition_by@.len() ==> calendar_function(
                (#[trigger] config.partition_by@[i])@,
            ) is Some,
    ensures
        ({
            let var = "df_"@ + source;
            let timestamp = if config.create_timestamp {
                "    "@ + var + " = "@ + var
                    + ".withColumn(\"ingestion_timestamp\", F.current_timestamp())"@ + "\n"@
                    + "    _ts = \"ingestion_timestamp\""@
            } else {
                match config.partition_timestamp_column {
                    Some(column) => "    _ts = "@ + str_literal(column@),
                    None => "    _ts = "@ + str_literal("event_time"@),
                }
            };
            partition_text(config, source) == Ok::<Option<Seq<char>>, Seq<char>>(
                Some(
                    "    # --- Partition columns ---"@ + "\n"@ + timestamp + "\n"@ + joined(
                        Seq::new(
                            config.partition_by@.len(),
                            |i: int|
                                partition_column(
                                    var,
                                    config.partition_by@[i]@,
                                    calendar_function(config.partition_by@[i]@)->0,
                                ),
                        ),
                        "\n"@,
                    ),
                ),
            )
        }),
{
    let var = "df_"@ + source;
    let units = views(config.partition_by@);
    assert forall|i: int| 0 <= i < units.len() implies calendar_function(
        #[trigger] units[i],
    ) is Some by {
        assert(units[i] == config.partition_by@[i]@);
    }
    columns_one_by_one(var, units);
    let columns = partition_columns(var, units)->Ok_0;
    let expected = Seq::new(
        config.partition_by@.len(),
        |i: int|
            partition_column(
                var,
                config.partition_by@[i]@,
                calendar_function(config.partition_by@[i]@)->0,
            ),
    );
    assert(columns =~= expected);
    let head = timestamp_lines(config, var);
    joined_in_sequence(head, columns, "\n"@);
    if config.create_timestamp {
        let rest = seq![head[1], head[2]];
        assert(head =~= seq![head[0]] + rest);
        joined_in_sequence(seq![head[0]], rest, "\n"@);
        assert(rest =~= seq![head[1]] + seq![head[2]]);
        joined_in_sequence(seq![head[1]], seq![head[2]], "\n"@);
        assert(partition_text(config, source)->Ok_0->0 =~= "    # --- Partition columns ---"@
            + "\n"@ + ("    "@ + var + " = "@ + var
            + ".withColumn(\"ingestion_timestamp\", F.current_timestamp())"@ + "\n"@
            + "    _ts = \"ingestion_timestamp\""@) + "\n"@ + joined(columns, "\n"@));
    } else {
        assert(head =~= seq![head[0]] + seq![head[1]]);
        joined_in_sequence(seq![head[0]], seq![head[1]], "\n"@);
    }
}

/// Without units there are no partition columns; the first unit that is none of
/// the calendar is refused by its name.
pub proof fn first_bad_unit_is_named(config: JobConfig, source: Seq<char>, n: int)
    ensures
        config.partition_by@.len() == 0 ==> partition_text(config, source) == Ok::<
            Option<Seq<char>>,
            Seq<char>,
        >(None),
        0 <= n < config.partition_by@.len() && calendar_function(config.partition_by@[n]@) is None
            && (forall|i: int|
            0 <= i < n ==> calendar_function((#[trigger] config.partition_by@[i])@) is Some)
            ==> partition_text(config, source) == Err::<Option<Seq<char>>, Seq<char>>(
            "unsupported partition_by unit: '"@ + config.partition_by@[n]@
                + "' (expected year, month, or day)"@,
        ),
{
    let var = "df_"@ + source;
    let units = views(config.partition_by@);
    if 0 <= n < config.partition_by@.len() && calendar_function(config.partition_by@[n]@) is None
        && (forall|i: int|
        0 <= i < n ==> calendar_function((#[trigger] config.partition_by@[i])@) is Some) {
        let head = units.take(n);
        assert forall|i: int| 0 <= i < head.len() implies calendar_function(
            #[trigger] head[i],
        ) is Some by {
            assert(head[i] == config.partition_by@[i]@);
        }
        columns_one_by_one(var, head);
        assert(units.take(n + 1).drop_last() =~= head);
        assert(units.take(n + 1).last() == config.partition_by@[n]@);
        bad_unit_stays(var, units, n + 1);
    }
}

/// A unit that is refused among the first units is refused among all.
proof fn bad_unit_stays(var: Seq<char>, units: Seq<Seq<char>>, n: int)
    requires
        0 <= n <= units.len(),
        partition_columns(var, units.take(n)) is Err,
    ensures
        partition_columns(var, units) == partition_columns(var, units.take(n)),
    decreases units.len() - n,
{
    if n < units.len() {
        assert(units.take(n + 1).drop_last() =~= units.take(n));
        bad_unit_stays(var, units, n + 1);
    } else {
        assert(units.take(n) =~= units);
    }
}

/// The member of the detection dictionary that asks for the redaction of an
/// entity.
pub open spec fn redaction(entity: Seq<char>) -> Seq<char> {
    "            \""@ + entity
        + "\": [{\"action\": \"REDACT\", \"actionOptions\": {\"redactText\": \"****\"}}]"@
}

/// The redactions of the entities, in order.
pub open spec fn redactions(entities: Seq<Seq<char>>) -> Seq<Seq<char>> {
    entities.map_values(|entity: Seq<char>| redaction(entity))
}

/// The lines of the entities up to one before the last, each with its comma, are
/// the members with a comma and a line break between neighbours, and a comma.
proof fn lines_before_the_last(entities: Seq<Seq<char>>, n: int)
    requires
        0 < n < entities.len(),
    ensures
        joined(entity_lines(entities).take(n), "\n"@) == joined(
            redactions(entities).take(n),
            ",\n"@,
        ) + ","@,
    decreases n,
{
    reveal_strlit(",\n");
    reveal_strlit(",");
    reveal_strlit("\n");
    assert(",\n"@ =~= ","@ + "\n"@);
    let lines = entity_lines(entities).take(n);
    let members = redactions(entities).take(n);
    assert(lines.last() == entity_line(entities, n - 1));
    assert(members.last() == redaction(entities[n - 1]));
    assert(entity_line(entities, n - 1) =~= redaction(entities[n - 1]) + ","@);
    if n == 1 {
        assert(lines[0] == lines.last());
        assert(members[0] == members.last());
    } else {
        lines_before_the_last(entities, n - 1);
        assert(lines.drop_last() =~= entity_lines(entities).take(n - 1));
        assert(members.drop_last() =~= redactions(entities).take(n - 1));
        assert(joined(lines, "\n"@) =~= joined(members, ",\n"@) + ","@);
    }
}

/// The lines of the entities are the members of one Python dictionary: between
/// each two neighbours stand a comma and a line break, and no comma is behind the
/// last.
pub proof fn entities_form_a_dictionary(entities: Seq<Seq<char>>)
    ensures
        joined(entity_lines(entities), "\n"@) == joined(redactions(entities), ",\n"@),
{
    reveal_strlit(",\n");
    reveal_strlit(",");
    reveal_strlit("\n");
    reveal_strlit("");
    assert(",\n"@ =~= ","@ + "\n"@);
    let lines = entity_lines(entities);
    let members = redactions(entities);
    let n = entities.len() as int;
    if n > 0 {
        assert(lines.last() == entity_line(entities, n - 1));
        assert(members.last() == redaction(entities[n - 1]));
        assert(entity_line(entities, n - 1) =~= redaction(entities[n - 1]));
        if n == 1 {
            assert(lines[0] == lines.last());
            assert(members[0] == members.last());
        } else {
            lines_before_the_last(entities, n - 1);
            assert(lines.drop_last() =~= lines.take(n - 1));
            assert(members.drop_last() =~= members.take(n - 1));
            assert(joined(lines, "\n"@) =~= joined(members, ",\n"@));
        }
    }
}

/// The masking block turns the dataframe into a frame, detects with the dictionary
/// of all entities, turns the frame back and drops the metadata.
pub proof fn masking_block_detects_all(entities: Seq<Seq<char>>, var: Seq<char>)
    ensures
        ({
            let before = "    _yard_pii_dyf = DynamicFrame.fromDF("@ + var
                + ", glueContext, \"_yard_pii\")"@ + "\n"@
                + "    _yard_pii_dyf = EntityDetector.detect("@ + "\n"@ + "        _yard_pii_dyf,"@
                + "\n"@ + "        {"@;
            let after = "        },"@ + "\n"@ + "        \"DetectedEntities\""@ + "\n"@ + "    )"@
                + "\n"@ + ("    "@ + var + " = _yard_pii_dyf.toDF()"@) + "\n"@ + ("    "@ + var
                + " = "@ + var + ".drop(\"DetectedEntities\")"@);
            joined(pii_lines(entities, var), "\n"@) == before + "\n"@ + (if entities.len() == 0 {
                Seq::empty()
            } else {
                joined(
                    entities.map_values(
                        |entity: Seq<char>|
                            "            \""@ + entity
                                + "\": [{\"action\": \"REDACT\", \"actionOptions\": {\"redactText\": \"****\"}}]"@,
                    ),
                    ",\n"@,
                ) + "\n"@
            }) + after
        }),
{
    let head = seq![
        "    _yard_pii_dyf = DynamicFrame.fromDF("@ + var + ", glueContext, \"_yard_pii\")"@,
        "    _yard_pii_dyf = EntityDetector.detect("@,
        "        _yard_pii_dyf,"@,
        "        {"@,
    ];
    let tail = seq![
        "        },"@,
        "        \"DetectedEntities\""@,
        "    )"@,
        "    "@ + var + " = _yard_pii_dyf.toDF()"@,
        "    "@ + var + " = "@ + var + ".drop(\"DetectedEntities\")"@,
    ];
    let lines = entity_lines(entities);
    assert(pii_lines(entities, var) =~= head + lines + tail);
    four_joined(head, "\n"@);
    let four = seq![tail[0], tail[1], tail[2], tail[3]];
    four_joined(four, "\n"@);
    assert(tail =~= four + seq![tail[4]]);
    joined_in_sequence(four, seq![tail[4]], "\n"@);
    entities_form_a_dictionary(entities);
    let members = entities.map_values(
        |entity: Seq<char>|
            "            \""@ + entity
                + "\": [{\"action\": \"REDACT\", \"actionOptions\": {\"redactText\": \"****\"}}]"@,
    );
    assert(redactions(entities) =~= members);
    let text = joined(pii_lines(entities, var), "\n"@);
    if entities.len() == 0 {
        assert(head + lines =~= head);
        joined_in_sequence(head, tail, "\n"@);
        assert(text =~= joined(head, "\n"@) + "\n"@ + Seq::empty() + joined(tail, "\n"@));
    } else {
        joined_in_sequence(head, lines, "\n"@);
        joined_in_sequence(head + lines, tail, "\n"@);
        assert(text =~= joined(head, "\n"@) + "\n"@ + (joined(members, ",\n"@) + "\n"@) + joined(
            tail,
            "\n"@,
        ));
    }
}

/// Four parts, joined.
proof fn four_joined(parts: Seq<Seq<char>>, sep: Seq<char>)
    requires
        parts.len() == 4,
    ensures
        joined(parts, sep) == parts[0] + sep + parts[1] + sep + parts[2] + sep + parts[3],
{
    reveal_with_fuel(joined, 5);
    assert(parts.drop_last().drop_last().drop_last() =~= seq![parts[0]]);
}

} // verus!
