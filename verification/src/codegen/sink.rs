//! Rendering of the PySpark and Glue writer calls for each sink type: S3, JDBC,
//! Catalog and Iceberg.

use super::helpers::{
    auth_texts, derive_jdbc_url, jdbc_auth, jdbc_url, render_jdbc_auth, render_secret_fetch,
    secret_fetch_lines,
};
use super::literal::{literal_list, python_str_literal, quoted_list, str_literal};
use super::types::Sink;
use crate::error::{outcome_text, PluginError};
use crate::text::{
    borrowed, join, joined, opt_text, same_text, str_or, str_text, text_or, views,
};
use vstd::prelude::*;

verus! {

/// The message on a field that a sink type requires.
pub open spec fn missing_field(sink_type: Seq<char>, field: Seq<char>) -> Seq<char> {
    "sink: '"@ + field + "' is required for "@ + sink_type + " sink"@
}

/// Returns `value`, or an error that names the missing `field` of the sink.
pub fn require_sink_str<'a>(value: Option<&'a str>, sink_type: &str, field: &str) -> (required:
    Result<&'a str, PluginError>)
    ensures
        required is Ok <==> value is Some,
        required matches Ok(text) ==> value == Some(text),
        required matches Err(error) ==> error@ == missing_field(sink_type@, field@),
{
    match value {
        Some(text) => Ok(text),
        None => Err(
            PluginError::new(
                "sink: '".to_owned().concat(field).concat("' is required for ").concat(
                    sink_type,
                ).concat(" sink"),
            ),
        ),
    }
}

/// The dataframe variable that a sink writes.
pub open spec fn sink_var(sink: Sink, default_source: Seq<char>) -> Seq<char> {
    "df_"@ + text_or(sink.source, default_source)
}

/// The write mode of a sink, by default "overwrite".
pub open spec fn sink_mode(sink: Sink) -> Seq<char> {
    text_or(sink.mode, "overwrite"@)
}

/// The writer call of an S3 sink, for which a path is required.
pub open spec fn s3_lines(sink: Sink, var: Seq<char>) -> Result<Seq<Seq<char>>, Seq<char>> {
    let writer = "    "@ + var + ".write.format("@ + str_literal(text_or(sink.format, "parquet"@))
        + ").mode("@ + str_literal(sink_mode(sink)) + ")"@;
    let partitioned = if sink.partition_by@.len() > 0 {
        writer + ".partitionBy("@ + literal_list(views(sink.partition_by@)) + ")"@
    } else {
        writer
    };
    match sink.path {
        None => Err(missing_field("s3"@, "path"@)),
        Some(path) => Ok(seq![partitioned + ".save("@ + str_literal(path@) + ")"@]),
    }
}

/// The URL of a JDBC sink: the given one, or one derived from its
/// authentication, for which a connection type and a database are required.
pub open spec fn jdbc_sink_url(sink: Sink) -> Result<Seq<char>, Seq<char>> {
    match sink.connection_url {
        Some(url) => Ok(url@),
        None => match sink.auth {
            None => Err("sink: 'connection_url' is required when 'auth' is not set"@),
            Some(auth) => match sink.connection_type {
                None => Err(
                    "sink: 'connection_type' is required when 'connection_url' is not set"@,
                ),
                Some(connection_type) => match sink.database {
                    None => Err(missing_field("jdbc"@, "database"@)),
                    Some(database) => Ok(jdbc_url(auth, connection_type@, database@)),
                },
            },
        },
    }
}

/// The authentication of a JDBC sink.
pub open spec fn sink_auth(sink: Sink) -> Option<(Seq<char>, Seq<char>, Seq<Seq<char>>)> {
    jdbc_auth("sink"@, opt_text(sink.secret_id), sink.auth)
}

/// The lines that fetch the token of a JDBC sink, where it uses one.
pub open spec fn auth_before(auth: Option<(Seq<char>, Seq<char>, Seq<Seq<char>>)>) -> Seq<
    Seq<char>,
> {
    match auth {
        Some((_, _, before)) => before,
        None => Seq::empty(),
    }
}

/// The line that gives user and password to a JDBC writer, where there are any.
pub open spec fn auth_options(auth: Option<(Seq<char>, Seq<char>, Seq<Seq<char>>)>) -> Seq<
    Seq<char>,
> {
    match auth {
        Some((user, password, _)) => seq![
            "        .option(\"user\", "@ + user + ").option(\"password\", "@ + password + ")\\"@,
        ],
        None => Seq::empty(),
    }
}

/// The writer call of a JDBC sink, for which a table and a URL are required.
pub open spec fn jdbc_lines(sink: Sink, var: Seq<char>) -> Result<Seq<Seq<char>>, Seq<char>> {
    match sink.table {
        None => Err(missing_field("jdbc"@, "table"@)),
        Some(table) => match jdbc_sink_url(sink) {
            Err(message) => Err(message),
            Ok(url) => Ok(
                auth_before(sink_auth(sink)) + seq![
                    "    "@ + var + ".write.format(\"jdbc\").option(\"url\", "@ + str_literal(url)
                        + ").option(\"dbtable\", "@ + str_literal(table@) + ")\\"@,
                ] + auth_options(sink_auth(sink)) + seq![
                    "        .mode("@ + str_literal(sink_mode(sink)) + ").save()"@,
                ],
            ),
        },
    }
}

/// The writer call of a catalog sink, for which a database and a table are
/// required.
pub open spec fn catalog_lines(sink: Sink, var: Seq<char>) -> Result<Seq<Seq<char>>, Seq<char>> {
    match sink.database {
        None => Err(missing_field("catalog"@, "database"@)),
        Some(database) => match sink.table {
            None => Err(missing_field("catalog"@, "table"@)),
            Some(table) => Ok(
                seq![
                    "    sink_frame = DynamicFrame.fromDF("@ + var
                        + ", glueContext, \"sink_frame\")"@,
                    "    glueContext.write_dynamic_frame.from_catalog(frame=sink_frame, database="@
                        + str_literal(database@) + ", table_name="@ + str_literal(table@) + ")"@,
                ],
            ),
        },
    }
}

/// The default Iceberg table properties of a new table.
pub open spec fn table_properties() -> Seq<(Seq<char>, Seq<char>)> {
    seq![
        ("format-version"@, "2"@),
        ("write.spark.accept-any-schema"@, "true"@),
        ("write.target-file-size-bytes"@, "536870912"@),
        ("write.parquet.compression-codec"@, "zstd"@),
        ("write.distribution-mode"@, "hash"@),
    ]
}

/// A call of `.tableProperty` for each property, in order.
pub open spec fn property_calls(properties: Seq<(Seq<char>, Seq<char>)>) -> Seq<char>
    decreases properties.len(),
{
    if properties.len() == 0 {
        Seq::empty()
    } else {
        property_calls(properties.drop_last()) + ("\n            .tableProperty(\""@
            + properties.last().0 + "\", \""@ + properties.last().1 + "\")"@)
    }
}

/// The properties of a new Iceberg table: the defaults, then the location where
/// the sink has a path.
pub open spec fn table_property_text(path: Option<String>) -> Seq<char> {
    if path matches Some(location) && location@.len() > 0 {
        property_calls(table_properties()) + ("\n            .tableProperty(\"location\", "@
            + str_literal(path->0@) + ")"@)
    } else {
        property_calls(table_properties())
    }
}

/// The lines that create the database where the catalog lacks it.
pub open spec fn database_lines(database: Seq<char>, catalog_id: Option<Seq<char>>) -> Seq<char> {
    match catalog_id {
        Some(id) =>
            "    _glue = boto3.client(\"glue\")\n    try:\n        _glue.get_database(CatalogId="@
            + str_literal(id) + ", Name="@ + str_literal(database)
            + ")\n    except _glue.exceptions.EntityNotFoundException:\n        _glue.create_database(CatalogId="@
            + str_literal(id) + ", DatabaseInput={\"Name\": "@ + str_literal(database) + "})"@,
        None =>
            "    _glue = boto3.client(\"glue\")\n    try:\n        _glue.get_database(Name="@
            + str_literal(database)
            + ")\n    except _glue.exceptions.EntityNotFoundException:\n        _glue.create_database(DatabaseInput={\"Name\": "@
            + str_literal(database) + "})"@,
    }
}

/// The statements that make a batch conform to the schema of a new table.
pub open spec fn new_table_coerce(var: Seq<char>) -> Seq<char> {
    "_target = _yard_void_free_schema("@ + var + ".schema)\n        "@ + var + " = _yard_conform("@
        + var + ", _target)\n        "@
}

/// The statements that make a batch conform to the schema of an existing table,
/// and refuse it where the kind of a column differs.
pub open spec fn existing_table_coerce(var: Seq<char>) -> Seq<char> {
    "_live = _yard_read_iceberg_schema(spark, _tbl)\n        _batch = _yard_void_free_schema("@
        + var
        + ".schema)\n        _live_types = {_f.name: _f.dataType for _f in _live.fields}\n        for _f in _batch.fields:\n            if _f.name in _live_types and _yard_kind_mismatch(_f.dataType, _live_types[_f.name]):\n                raise ValueError(\"yard: schema kind mismatch for column '\" + _f.name + \"': source kind differs from the Iceberg table kind (struct vs list/map); refusing to write\")\n        _target = _yard_merge_schema(_live, _batch)\n        "@
        + var + " = _yard_conform("@ + var + ", _target)\n        "@
}

/// The statements that put the columns of a batch into the order of the table,
/// new columns last.
pub open spec fn column_order(var: Seq<char>) -> Seq<char> {
    "_existing_cols = spark.table(_tbl).columns\n        _ordered = [_c for _c in _existing_cols if _c in "@
        + var + ".columns]\n        _new = [_c for _c in "@ + var
        + ".columns if _c not in _existing_cols]\n        "@ + var + " = "@ + var
        + ".select(_ordered + _new)\n        "@
}

/// The partition clause of a new Iceberg table.
pub open spec fn partition_clause(columns: Seq<Seq<char>>) -> Seq<char> {
    if columns.len() == 0 {
        Seq::empty()
    } else {
        "\n            .partitionedBy("@ + literal_list(columns) + ")"@
    }
}

/// The writer call for an existing Iceberg table.
pub open spec fn write_operation(mode: Seq<char>) -> Seq<char> {
    if mode == "overwrite"@ {
        "overwritePartitions"@
    } else {
        "append"@
    }
}

/// The statement that creates the Iceberg table or writes to the existing one.
pub open spec fn iceberg_write(sink: Sink, var: Seq<char>, fill_nulls: bool) -> Seq<char> {
    let create = if fill_nulls {
        new_table_coerce(var)
    } else {
        Seq::empty()
    };
    let existing = if fill_nulls {
        existing_table_coerce(var)
    } else {
        Seq::empty()
    };
    "    if not spark.catalog.tableExists(_tbl):\n        "@ + create + "("@ + var
        + ".writeTo(_tbl)\n            .using(\"iceberg\")"@ + partition_clause(
        views(sink.partition_by@),
    ) + table_property_text(sink.path) + "\n            .create())\n    else:\n        "@
        + existing + column_order(var) + var
        + ".writeTo(_tbl).option(\"merge-schema\", \"true\")."@ + write_operation(sink_mode(sink))
        + "()"@
}

/// The statements of an Iceberg sink, for which a database and a table are
/// required.
pub open spec fn iceberg_lines(
    sink: Sink,
    var: Seq<char>,
    fill_nulls: bool,
    catalog_id: Option<Seq<char>>,
) -> Result<Seq<Seq<char>>, Seq<char>> {
    match sink.database {
        None => Err(missing_field("iceberg"@, "database"@)),
        Some(database) => match sink.table {
            None => Err(missing_field("iceberg"@, "table"@)),
            Some(table) => Ok(
                seq![
                    database_lines(database@, catalog_id),
                    "    _tbl = "@ + str_literal("glue_catalog."@ + database@ + "."@ + table@),
                    iceberg_write(sink, var, fill_nulls),
                ],
            ),
        },
    }
}

/// The statements of a sink behind the fetch of its secret, or the message on
/// what it lacks. A type that is not known gives a comment.
pub open spec fn sink_lines(
    sink: Sink,
    var: Seq<char>,
    fill_nulls: bool,
    catalog_id: Option<Seq<char>>,
) -> Result<Seq<Seq<char>>, Seq<char>> {
    let kind = sink.sink_type@;
    if kind == "s3"@ {
        s3_lines(sink, var)
    } else if kind == "jdbc"@ {
        jdbc_lines(sink, var)
    } else if kind == "catalog"@ {
        catalog_lines(sink, var)
    } else if kind == "iceberg"@ {
        iceberg_lines(sink, var, fill_nulls, catalog_id)
    } else {
        Ok(seq!["    # Unsupported sink type: "@ + kind])
    }
}

/// The lines that fetch the secret of a sink, where it has one.
pub open spec fn sink_secret(sink: Sink) -> Seq<Seq<char>> {
    match sink.secret_id {
        Some(secret_id) => seq![joined(secret_fetch_lines(secret_id@, "sink"@), "\n"@)],
        None => Seq::empty(),
    }
}

/// The whole text of a sink.
pub open spec fn sink_text(
    sink: Sink,
    default_source: Seq<char>,
    fill_nulls: bool,
    catalog_id: Option<Seq<char>>,
) -> Result<Seq<char>, Seq<char>> {
    match sink_lines(sink, sink_var(sink, default_source), fill_nulls, catalog_id) {
        Err(message) => Err(message),
        Ok(lines) => Ok(joined(sink_secret(sink) + lines, "\n"@)),
    }
}

/// Lines or an error message, as texts.
pub open spec fn lines_outcome(outcome: Result<Vec<String>, PluginError>) -> Result<
    Seq<Seq<char>>,
    Seq<char>,
> {
    match outcome {
        Ok(lines) => Ok(views(lines@)),
        Err(error) => Err(error@),
    }
}

/// Renders the writer call of an S3 sink.
fn render_s3(sink: &Sink, var: &str) -> (lines: Result<Vec<String>, PluginError>)
    ensures
        lines_outcome(lines) == s3_lines(*sink, var@),
{
    let path: &str = match require_sink_str(borrowed(&sink.path), "s3", "path") {
        Ok(path) => path,
        Err(error) => {
            return Err(error);
        },
    };
    let format: String = python_str_literal(str_or(&sink.format, "parquet"));
    let mode: String = python_str_literal(str_or(&sink.mode, "overwrite"));
    let mut writer: String = "    ".to_owned().concat(var).concat(".write.format(").concat(
        format.as_str(),
    ).concat(").mode(").concat(mode.as_str()).concat(")");
    if sink.partition_by.len() > 0 {
        writer = writer.concat(".partitionBy(").concat(
            quoted_list(sink.partition_by.as_slice()).as_str(),
        ).concat(")");
    }
    writer = writer.concat(".save(").concat(python_str_literal(path).as_str()).concat(")");
    let mut lines: Vec<String> = Vec::new();
    lines.push(writer);
    proof {
        assert(views(lines@) =~= seq![writer@]);
    }
    Ok(lines)
}

/// The URL of a JDBC sink.
fn render_jdbc_url(sink: &Sink) -> (url: Result<String, PluginError>)
    ensures
        outcome_text(url) == jdbc_sink_url(*sink),
{
    match &sink.connection_url {
        Some(url) => Ok(url.clone()),
        None => match &sink.auth {
            None => Err(
                PluginError::new(
                    "sink: 'connection_url' is required when 'auth' is not set".to_owned(),
                ),
            ),
            Some(auth) => match &sink.connection_type {
                None => Err(
                    PluginError::new(
                        "sink: 'connection_type' is required when 'connection_url' is not set".to_owned(),
                    ),
                ),
                Some(connection_type) => match require_sink_str(
                    borrowed(&sink.database),
                    "jdbc",
                    "database",
                ) {
                    Ok(database) => Ok(derive_jdbc_url(auth, connection_type.as_str(), database)),
                    Err(error) => Err(error),
                },
            },
        },
    }
}

/// Renders the writer call of a JDBC sink.
fn render_jdbc(sink: &Sink, var: &str) -> (lines: Result<Vec<String>, PluginError>)
    ensures
        lines_outcome(lines) == jdbc_lines(*sink, var@),
{
    let table: &str = match require_sink_str(borrowed(&sink.table), "jdbc", "table") {
        Ok(table) => table,
        Err(error) => {
            return Err(error);
        },
    };
    let auth: Option<(String, String, Vec<String>)> = render_jdbc_auth(
        "sink",
        borrowed(&sink.secret_id),
        sink.auth.as_ref(),
    );
    proof {
        assert(auth_texts(auth) == sink_auth(*sink));
    }
    let url: String = match render_jdbc_url(sink) {
        Ok(url) => url,
        Err(error) => {
            return Err(error);
        },
    };
    let mut lines: Vec<String> = Vec::new();
    let mut options: Vec<String> = Vec::new();
    match auth {
        Some((user, password, before)) => {
            lines = before;
            options.push(
                "        .option(\"user\", ".to_owned().concat(user.as_str()).concat(
                    ").option(\"password\", ",
                ).concat(password.as_str()).concat(")\\"),
            );
        },
        None => {},
    }
    proof {
        assert(views(lines@) =~= auth_before(sink_auth(*sink)));
        assert(views(options@) =~= auth_options(sink_auth(*sink)));
    }
    let ghost before = views(lines@);
    let ghost between = views(options@);
    let writer: String = "    ".to_owned().concat(var).concat(
        ".write.format(\"jdbc\").option(\"url\", ",
    ).concat(python_str_literal(url.as_str()).as_str()).concat(").option(\"dbtable\", ").concat(
        python_str_literal(table).as_str(),
    ).concat(")\\");
    lines.push(writer);
    lines.append(&mut options);
    let save: String = "        .mode(".to_owned().concat(
        python_str_literal(str_or(&sink.mode, "overwrite")).as_str(),
    ).concat(").save()");
    lines.push(save);
    proof {
        assert(views(lines@) =~= before + seq![writer@] + between + seq![save@]);
    }
    Ok(lines)
}

/// Renders the writer call of a catalog sink.
fn render_catalog(sink: &Sink, var: &str) -> (lines: Result<Vec<String>, PluginError>)
    ensures
        lines_outcome(lines) == catalog_lines(*sink, var@),
{
    let database: &str = match require_sink_str(borrowed(&sink.database), "catalog", "database") {
        Ok(database) => database,
        Err(error) => {
            return Err(error);
        },
    };
    let table: &str = match require_sink_str(borrowed(&sink.table), "catalog", "table") {
        Ok(table) => table,
        Err(error) => {
            return Err(error);
        },
    };
    let mut lines: Vec<String> = Vec::new();
    lines.push(
        "    sink_frame = DynamicFrame.fromDF(".to_owned().concat(var).concat(
            ", glueContext, \"sink_frame\")",
        ),
    );
    lines.push(
        "    glueContext.write_dynamic_frame.from_catalog(frame=sink_frame, database=".to_owned().concat(
            python_str_literal(database).as_str(),
        ).concat(", table_name=").concat(python_str_literal(table).as_str()).concat(")"),
    );
    proof {
        assert(views(lines@) =~= catalog_lines(*sink, var@)->Ok_0);
    }
    Ok(lines)
}

/// The default Iceberg table properties, as names and values.
pub fn iceberg_table_properties() -> (properties: Vec<(&'static str, &'static str)>)
    ensures
        properties@.map_values(|property: (&'static str, &'static str)| (property.0@, property.1@))
            == table_properties(),
{
    let properties: Vec<(&'static str, &'static str)> = vec![
        ("format-version", "2"),
        ("write.spark.accept-any-schema", "true"),
        ("write.target-file-size-bytes", "536870912"),
        ("write.parquet.compression-codec", "zstd"),
        ("write.distribution-mode", "hash"),
    ];
    proof {
        assert(properties@.map_values(
            |property: (&'static str, &'static str)| (property.0@, property.1@),
        ) =~= table_properties());
    }
    properties
}

/// Renders the properties of a new Iceberg table.
fn render_table_properties(path: &Option<String>) -> (text: String)
    ensures
        text@ == table_property_text(*path),
{
    let properties: Vec<(&'static str, &'static str)> = iceberg_table_properties();
    let ghost pairs = properties@.map_values(
        |property: (&'static str, &'static str)| (property.0@, property.1@),
    );
    let mut text: String = String::new();
    let mut i: usize = 0;
    proof {
        assert(text@ =~= property_calls(pairs.take(0)));
    }
    while i < properties.len()
        invariant
            i <= properties.len(),
            pairs == properties@.map_values(
                |property: (&'static str, &'static str)| (property.0@, property.1@),
            ),
            text@ == property_calls(pairs.take(i as int)),
        decreases properties.len() - i,
    {
        let call: String = "\n            .tableProperty(\"".to_owned().concat(
            properties[i].0,
        ).concat("\", \"").concat(properties[i].1).concat("\")");
        text = text.concat(call.as_str());
        proof {
            assert(pairs.take(i + 1).drop_last() =~= pairs.take(i as int));
            assert(pairs.take(i + 1).last() == pairs[i as int]);
        }
        i = i + 1;
    }
    proof {
        assert(pairs.take(properties.len() as int) =~= pairs);
    }
    match path {
        Some(location) => {
            if !location.as_str().is_empty() {
                let call: String = "\n            .tableProperty(\"location\", ".to_owned().concat(
                    python_str_literal(location.as_str()).as_str(),
                ).concat(")");
                text = text.concat(call.as_str());
            }
        },
        None => {},
    }
    text
}

/// Renders the creation of a database that the catalog lacks.
fn render_database(database: &str, catalog_id: Option<&str>) -> (text: String)
    ensures
        text@ == database_lines(
            database@,
            str_text(catalog_id),
        ),
{
    let name: String = python_str_literal(database);
    match catalog_id {
        Some(id) => {
            let id: String = python_str_literal(id);
            "    _glue = boto3.client(\"glue\")\n    try:\n        _glue.get_database(CatalogId=".to_owned().concat(
                id.as_str(),
            ).concat(", Name=").concat(name.as_str()).concat(
                ")\n    except _glue.exceptions.EntityNotFoundException:\n        _glue.create_database(CatalogId=",
            ).concat(id.as_str()).concat(", DatabaseInput={\"Name\": ").concat(
                name.as_str(),
            ).concat("})")
        },
        None => {
            "    _glue = boto3.client(\"glue\")\n    try:\n        _glue.get_database(Name=".to_owned().concat(
                name.as_str(),
            ).concat(
                ")\n    except _glue.exceptions.EntityNotFoundException:\n        _glue.create_database(DatabaseInput={\"Name\": ",
            ).concat(name.as_str()).concat("})")
        },
    }
}

/// Renders what makes a batch conform to a new table.
fn render_new_table_coerce(var: &str) -> (text: String)
    ensures
        text@ == new_table_coerce(var@),
{
    "_target = _yard_void_free_schema(".to_owned().concat(var).concat(
        ".schema)\n        ",
    ).concat(var).concat(" = _yard_conform(").concat(var).concat(", _target)\n        ")
}

/// Renders what makes a batch conform to an existing table.
fn render_existing_table_coerce(var: &str) -> (text: String)
    ensures
        text@ == existing_table_coerce(var@),
{
    "_live = _yard_read_iceberg_schema(spark, _tbl)\n        _batch = _yard_void_free_schema(".to_owned().concat(
        var,
    ).concat(
        ".schema)\n        _live_types = {_f.name: _f.dataType for _f in _live.fields}\n        for _f in _batch.fields:\n            if _f.name in _live_types and _yard_kind_mismatch(_f.dataType, _live_types[_f.name]):\n                raise ValueError(\"yard: schema kind mismatch for column '\" + _f.name + \"': source kind differs from the Iceberg table kind (struct vs list/map); refusing to write\")\n        _target = _yard_merge_schema(_live, _batch)\n        ",
    ).concat(var).concat(" = _yard_conform(").concat(var).concat(", _target)\n        ")
}

/// Renders what orders the columns of a batch.
fn render_column_order(var: &str) -> (text: String)
    ensures
        text@ == column_order(var@),
{
    "_existing_cols = spark.table(_tbl).columns\n        _ordered = [_c for _c in _existing_cols if _c in ".to_owned().concat(
        var,
    ).concat(".columns]\n        _new = [_c for _c in ").concat(var).concat(
        ".columns if _c not in _existing_cols]\n        ",
    ).concat(var).concat(" = ").concat(var).concat(".select(_ordered + _new)\n        ")
}

/// Renders the creation of an Iceberg table, or the write to it.
fn render_iceberg_write(sink: &Sink, var: &str, fill_nulls: bool) -> (text: String)
    ensures
        text@ == iceberg_write(*sink, var@, fill_nulls),
{
    let mut create: String = String::new();
    let mut existing: String = String::new();
    if fill_nulls {
        create = render_new_table_coerce(var);
        existing = render_existing_table_coerce(var);
    }
    let mut partition: String = String::new();
    if sink.partition_by.len() > 0 {
        partition = "\n            .partitionedBy(".to_owned().concat(
            quoted_list(sink.partition_by.as_slice()).as_str(),
        ).concat(")");
    }
    proof {
        assert(partition@ =~= partition_clause(views(sink.partition_by@)));
    }
    let operation: &str = if same_text(str_or(&sink.mode, "overwrite"), "overwrite") {
        "overwritePartitions"
    } else {
        "append"
    };
    proof {
        assert(operation@ == write_operation(sink_mode(*sink)));
        assert(create@ =~= if fill_nulls {
            new_table_coerce(var@)
        } else {
            Seq::empty()
        });
        assert(existing@ =~= if fill_nulls {
            existing_table_coerce(var@)
        } else {
            Seq::empty()
        });
    }
    "    if not spark.catalog.tableExists(_tbl):\n        ".to_owned().concat(
        create.as_str(),
    ).concat("(").concat(var).concat(".writeTo(_tbl)\n            .using(\"iceberg\")").concat(
        partition.as_str(),
    ).concat(render_table_properties(&sink.path).as_str()).concat(
        "\n            .create())\n    else:\n        ",
    ).concat(existing.as_str()).concat(render_column_order(var).as_str()).concat(var).concat(
        ".writeTo(_tbl).option(\"merge-schema\", \"true\").",
    ).concat(operation).concat("()")
}

/// Renders the statements of an Iceberg sink.
fn render_iceberg(sink: &Sink, var: &str, fill_nulls: bool, catalog_id: Option<&str>) -> (lines:
    Result<Vec<String>, PluginError>)
    ensures
        lines_outcome(lines) == iceberg_lines(
            *sink,
            var@,
            fill_nulls,
            str_text(catalog_id),
        ),
{
    let database: &str = match require_sink_str(borrowed(&sink.database), "iceberg", "database") {
        Ok(database) => database,
        Err(error) => {
            return Err(error);
        },
    };
    let table: &str = match require_sink_str(borrowed(&sink.table), "iceberg", "table") {
        Ok(table) => table,
        Err(error) => {
            return Err(error);
        },
    };
    let qualified: String = "glue_catalog.".to_owned().concat(database).concat(".").concat(table);
    let mut lines: Vec<String> = Vec::new();
    lines.push(render_database(database, catalog_id));
    lines.push("    _tbl = ".to_owned().concat(python_str_literal(qualified.as_str()).as_str()));
    lines.push(render_iceberg_write(sink, var, fill_nulls));
    proof {
        assert(views(lines@) =~= iceberg_lines(
            *sink,
            var@,
            fill_nulls,
            str_text(catalog_id),
        )->Ok_0);
    }
    Ok(lines)
}

/// Renders the sink as Python write statements, or an error that names the
/// field that its type requires and that it lacks.
pub fn render_sink(
    sink: &Sink,
    default_source: &str,
    fill_nulls: bool,
    catalog_id: Option<&str>,
) -> (text: Result<String, PluginError>)
    ensures
        outcome_text(text) == sink_text(
            *sink,
            default_source@,
            fill_nulls,
            str_text(catalog_id),
        ),
{
    let var: String = "df_".to_owned().concat(str_or(&sink.source, default_source));
    let var: &str = var.as_str();
    let kind: &str = sink.sink_type.as_str();
    let rendered: Result<Vec<String>, PluginError> = if same_text(kind, "s3") {
        render_s3(sink, var)
    } else if same_text(kind, "jdbc") {
        render_jdbc(sink, var)
    } else if same_text(kind, "catalog") {
        render_catalog(sink, var)
    } else if same_text(kind, "iceberg") {
        render_iceberg(sink, var, fill_nulls, catalog_id)
    } else {
        let mut lines: Vec<String> = Vec::new();
        lines.push("    # Unsupported sink type: ".to_owned().concat(kind));
        proof {
            assert(views(lines@) =~= seq!["    # Unsupported sink type: "@ + kind@]);
        }
        Ok(lines)
    };
    match rendered {
        Err(error) => Err(error),
        Ok(written) => {
            let mut written: Vec<String> = written;
            let ghost statements = views(written@);
            let mut lines: Vec<String> = Vec::new();
            match &sink.secret_id {
                Some(secret_id) => {
                    lines.push(render_secret_fetch(secret_id.as_str(), "sink"));
                },
                None => {},
            }
            proof {
                assert(views(lines@) =~= sink_secret(*sink));
            }
            lines.append(&mut written);
            proof {
                assert(views(lines@) =~= sink_secret(*sink) + statements);
            }
            Ok(join(&lines, "\n"))
        },
    }
}

} // verus!
