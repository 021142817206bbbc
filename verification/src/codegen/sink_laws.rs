//! What holds of the rendered sinks: which dataframe each writes, with which
//! credentials, and what each field of a sink changes.

use super::fragment_laws::credentials_come_from_secret_or_token;
use super::helpers::{jdbc_auth, jdbc_url, secret_fetch_lines, token_fetch_lines};
use super::literal::{literal_list, str_literal};
use super::sink::{
    auth_before, auth_options, jdbc_lines, property_calls, sink_auth, sink_lines, sink_secret,
    sink_text, table_properties, table_property_text,
};
use super::types::{JdbcAuth, Sink};
use crate::text::{joined, opt_text, views};
use crate::text_laws::joined_in_sequence;
use vstd::prelude::*;

verus! {

/// The names of the sink types are all different.
proof fn kinds_differ()
    ensures
        "s3"@ != "jdbc"@,
        "s3"@ != "catalog"@,
        "s3"@ != "iceberg"@,
        "jdbc"@ != "catalog"@,
        "jdbc"@ != "iceberg"@,
        "catalog"@ != "iceberg"@,
{
    reveal_strlit("s3");
    reveal_strlit("jdbc");
    reveal_strlit("catalog");
    reveal_strlit("iceberg");
    assert("s3"@.len() == 2 && "jdbc"@.len() == 4);
    assert("catalog"@.len() == 7 && "iceberg"@.len() == 7);
    assert("catalog"@[0] == 'c' && "iceberg"@[0] == 'i');
}

/// A sink that names its source writes it as one that leaves it out writes the
/// default source.
pub proof fn named_source_is_written(
    sink: Sink,
    source: String,
    default_source: Seq<char>,
    fill_nulls: bool,
    catalog_id: Option<Seq<char>>,
)
    requires
        sink.source is None,
    ensures
        sink_text(
            (Sink { source: Some(source), ..sink }),
            default_source,
            fill_nulls,
            catalog_id,
        ) == sink_text(sink, source@, fill_nulls, catalog_id),
{
    let named = Sink { source: Some(source), ..sink };
    assert(sink_secret(named) == sink_secret(sink));
    assert(sink_lines(named, "df_"@ + source@, fill_nulls, catalog_id) == sink_lines(
        sink,
        "df_"@ + source@,
        fill_nulls,
        catalog_id,
    ));
}

/// A sink without a mode overwrites, and an S3 sink without a format writes
/// Parquet.
pub proof fn absent_fields_have_defaults(
    sink: Sink,
    text: String,
    default_source: Seq<char>,
    fill_nulls: bool,
    catalog_id: Option<Seq<char>>,
)
    ensures
        sink.mode is None && text@ == "overwrite"@ ==> sink_text(
            (Sink { mode: Some(text), ..sink }),
            default_source,
            fill_nulls,
            catalog_id,
        ) == sink_text(sink, default_source, fill_nulls, catalog_id),
        sink.format is None && text@ == "parquet"@ ==> sink_text(
            (Sink { format: Some(text), ..sink }),
            default_source,
            fill_nulls,
            catalog_id,
        ) == sink_text(sink, default_source, fill_nulls, catalog_id),
{
}

/// The filling of nulls and the catalog matter to an Iceberg sink alone.
pub proof fn only_iceberg_looks_at_the_catalog(
    sink: Sink,
    default_source: Seq<char>,
    fill_nulls: bool,
    catalog_id: Option<Seq<char>>,
)
    requires
        sink.sink_type@ != "iceberg"@,
    ensures
        sink_text(sink, default_source, fill_nulls, catalog_id) == sink_text(
            sink,
            default_source,
            false,
            None,
        ),
{
}

/// A secret is fetched in front of the statements; it changes nothing else, but
/// for a JDBC sink, which uses it.
pub proof fn secret_is_fetched_first(
    sink: Sink,
    secret_id: String,
    default_source: Seq<char>,
    fill_nulls: bool,
    catalog_id: Option<Seq<char>>,
)
    requires
        sink.secret_id is None,
        sink.sink_type@ != "jdbc"@,
    ensures
        sink_text(
            (Sink { secret_id: Some(secret_id), ..sink }),
            default_source,
            fill_nulls,
            catalog_id,
        ) == match sink_text(sink, default_source, fill_nulls, catalog_id) {
            Err(message) => Err::<Seq<char>, Seq<char>>(message),
            Ok(text) => Ok(
                joined(secret_fetch_lines(secret_id@, "sink"@), "\n"@) + "\n"@ + text,
            ),
        },
{
    let with = Sink { secret_id: Some(secret_id), ..sink };
    let var = super::sink::sink_var(sink, default_source);
    assert(super::sink::sink_var(with, default_source) == var);
    let lines = sink_lines(sink, var, fill_nulls, catalog_id);
    assert(sink_lines(with, var, fill_nulls, catalog_id) == lines);
    if lines is Ok {
        let statements = lines->Ok_0;
        assert(statements.len() > 0);
        joined_in_sequence(sink_secret(with), statements, "\n"@);
        assert(sink_secret(sink) + statements =~= statements);
    }
}

/// An S3 sink writes the dataframe in the format and mode, under the path, and
/// partitioned by the listed columns where there are any; without a path it is
/// refused.
pub proof fn s3_sink_writes_to_its_path(
    sink: Sink,
    default_source: Seq<char>,
    fill_nulls: bool,
    catalog_id: Option<Seq<char>>,
)
    requires
        sink.sink_type@ == "s3"@,
        sink.secret_id is None,
        sink.source is Some,
        sink.format is Some,
        sink.mode is Some,
    ensures
        sink.path is None ==> sink_text(sink, default_source, fill_nulls, catalog_id) == Err::<
            Seq<char>,
            Seq<char>,
        >("sink: 'path' is required for s3 sink"@),
        sink.path matches Some(path) ==> sink_text(sink, default_source, fill_nulls, catalog_id)
            == Ok::<Seq<char>, Seq<char>>(
            "    df_"@ + sink.source->0@ + ".write.format("@ + str_literal(sink.format->0@)
                + ").mode("@ + str_literal(sink.mode->0@) + ")"@ + (if sink.partition_by@.len()
                == 0 {
                ""@
            } else {
                ".partitionBy("@ + literal_list(views(sink.partition_by@)) + ")"@
            }) + ".save("@ + str_literal(path@) + ")"@,
        ),
{
    kinds_differ();
    missing_texts();
    reveal_strlit("    ");
    reveal_strlit("df_");
    reveal_strlit("    df_");
    reveal_strlit("");
    assert("    df_"@ =~= "    "@ + "df_"@);
    if let Some(path) = sink.path {
        let lines = sink_lines(sink, "df_"@ + sink.source->0@, fill_nulls, catalog_id)->Ok_0;
        assert(sink_secret(sink) + lines =~= seq![lines[0]]);
        let text = sink_text(sink, default_source, fill_nulls, catalog_id)->Ok_0;
        assert(text =~= "    df_"@ + sink.source->0@ + ".write.format("@ + str_literal(
            sink.format->0@,
        ) + ").mode("@ + str_literal(sink.mode->0@) + ")"@ + (if sink.partition_by@.len() == 0 {
            ""@
        } else {
            ".partitionBy("@ + literal_list(views(sink.partition_by@)) + ")"@
        }) + ".save("@ + str_literal(path@) + ")"@);
    }
}

/// The messages on the fields that a sink lacks.
proof fn missing_texts()
    ensures
        super::sink::missing_field("s3"@, "path"@) == "sink: 'path' is required for s3 sink"@,
        super::sink::missing_field("jdbc"@, "table"@) == "sink: 'table' is required for jdbc sink"@,
        super::sink::missing_field("jdbc"@, "database"@)
            == "sink: 'database' is required for jdbc sink"@,
        super::sink::missing_field("catalog"@, "database"@)
            == "sink: 'database' is required for catalog sink"@,
        super::sink::missing_field("catalog"@, "table"@)
            == "sink: 'table' is required for catalog sink"@,
        super::sink::missing_field("iceberg"@, "database"@)
            == "sink: 'database' is required for iceberg sink"@,
        super::sink::missing_field("iceberg"@, "table"@)
            == "sink: 'table' is required for iceberg sink"@,
{
    reveal_strlit("sink: '");
    reveal_strlit("' is required for ");
    reveal_strlit(" sink");
    reveal_strlit("path");
    reveal_strlit("table");
    reveal_strlit("database");
    reveal_strlit("s3");
    reveal_strlit("jdbc");
    reveal_strlit("catalog");
    reveal_strlit("iceberg");
    reveal_strlit("sink: 'path' is required for s3 sink");
    reveal_strlit("sink: 'table' is required for jdbc sink");
    reveal_strlit("sink: 'database' is required for jdbc sink");
    reveal_strlit("sink: 'database' is required for catalog sink");
    reveal_strlit("sink: 'table' is required for catalog sink");
    reveal_strlit("sink: 'database' is required for iceberg sink");
    reveal_strlit("sink: 'table' is required for iceberg sink");
    assert(super::sink::missing_field("s3"@, "path"@) =~= "sink: 'path' is required for s3 sink"@);
    assert(super::sink::missing_field("jdbc"@, "table"@)
        =~= "sink: 'table' is required for jdbc sink"@);
    assert(super::sink::missing_field("jdbc"@, "database"@)
        =~= "sink: 'database' is required for jdbc sink"@);
    assert(super::sink::missing_field("catalog"@, "database"@)
        =~= "sink: 'database' is required for catalog sink"@);
    assert(super::sink::missing_field("catalog"@, "table"@)
        =~= "sink: 'table' is required for catalog sink"@);
    assert(super::sink::missing_field("iceberg"@, "database"@)
        =~= "sink: 'database' is required for iceberg sink"@);
    assert(super::sink::missing_field("iceberg"@, "table"@)
        =~= "sink: 'table' is required for iceberg sink"@);
}

/// What a JDBC sink is refused for: no table, or no URL and not all that one is
/// derived from.
pub proof fn jdbc_sink_needs_table_and_url(
    sink: Sink,
    default_source: Seq<char>,
    fill_nulls: bool,
    catalog_id: Option<Seq<char>>,
)
    requires
        sink.sink_type@ == "jdbc"@,
    ensures
        sink_text(sink, default_source, fill_nulls, catalog_id) is Err <==> sink.table is None || (
        sink.connection_url is None && (sink.auth is None || sink.connection_type is None
            || sink.database is None)),
        sink_text(sink, default_source, fill_nulls, catalog_id) matches Err(message) ==> message
            == if sink.table is None {
            "sink: 'table' is required for jdbc sink"@
        } else if sink.auth is None {
            "sink: 'connection_url' is required when 'auth' is not set"@
        } else if sink.connection_type is None {
            "sink: 'connection_type' is required when 'connection_url' is not set"@
        } else {
            "sink: 'database' is required for jdbc sink"@
        },
{
    kinds_differ();
    missing_texts();
}

/// A JDBC sink without a URL writes to the one of its database, as if that were
/// given.
pub proof fn url_is_derived(
    sink: Sink,
    url: String,
    default_source: Seq<char>,
    fill_nulls: bool,
    catalog_id: Option<Seq<char>>,
)
    requires
        sink.sink_type@ == "jdbc"@,
        sink.connection_url is None,
        sink.auth is Some,
        sink.connection_type is Some,
        sink.database is Some,
        url@ == jdbc_url(sink.auth->0, sink.connection_type->0@, sink.database->0@),
    ensures
        sink_text(
            (Sink { connection_url: Some(url), ..sink }),
            default_source,
            fill_nulls,
            catalog_id,
        ) == sink_text(sink, default_source, fill_nulls, catalog_id),
{
    kinds_differ();
    let given = Sink { connection_url: Some(url), ..sink };
    let var = super::sink::sink_var(sink, default_source);
    assert(super::sink::sink_var(given, default_source) == var);
    assert(sink_auth(given) == sink_auth(sink));
    assert(jdbc_lines(given, var) == jdbc_lines(sink, var));
}

/// The lines of a JDBC sink, joined.
proof fn jdbc_text_is(
    sink: Sink,
    default_source: Seq<char>,
    fill_nulls: bool,
    catalog_id: Option<Seq<char>>,
)
    requires
        sink.sink_type@ == "jdbc"@,
        sink.source is Some,
        sink.mode is Some,
        sink.table is Some,
        sink.connection_url is Some,
    ensures
        ({
            let auth = jdbc_auth("sink"@, opt_text(sink.secret_id), sink.auth);
            let writer = "    df_"@ + sink.source->0@ + ".write.format(\"jdbc\").option(\"url\", "@
                + str_literal(sink.connection_url->0@) + ").option(\"dbtable\", "@ + str_literal(
                sink.table->0@,
            ) + ")\\"@;
            let save = "        .mode("@ + str_literal(sink.mode->0@) + ").save()"@;
            sink_text(sink, default_source, fill_nulls, catalog_id) == Ok::<Seq<char>, Seq<char>>(
                joined(
                    sink_secret(sink) + (auth_before(auth) + seq![writer] + auth_options(auth)
                        + seq![save]),
                    "\n"@,
                ),
            )
        }),
{
    kinds_differ();
    reveal_strlit("    ");
    reveal_strlit("df_");
    reveal_strlit("    df_");
    assert("    df_"@ =~= "    "@ + "df_"@);
    let writer = "    df_"@ + sink.source->0@ + ".write.format(\"jdbc\").option(\"url\", "@
        + str_literal(sink.connection_url->0@) + ").option(\"dbtable\", "@ + str_literal(
        sink.table->0@,
    ) + ")\\"@;
    let written = "    "@ + ("df_"@ + sink.source->0@)
        + ".write.format(\"jdbc\").option(\"url\", "@ + str_literal(sink.connection_url->0@)
        + ").option(\"dbtable\", "@ + str_literal(sink.table->0@) + ")\\"@;
    assert(written =~= writer);
}

/// A JDBC sink without a secret and without authentication writes to the table at
/// the URL, and gives no credentials.
pub proof fn jdbc_sink_without_credentials(
    sink: Sink,
    default_source: Seq<char>,
    fill_nulls: bool,
    catalog_id: Option<Seq<char>>,
)
    requires
        sink.sink_type@ == "jdbc"@,
        sink.source is Some,
        sink.mode is Some,
        sink.table is Some,
        sink.connection_url is Some,
        sink.secret_id is None,
        sink.auth is None,
    ensures
        sink_text(sink, default_source, fill_nulls, catalog_id) == Ok::<Seq<char>, Seq<char>>(
            "    df_"@ + sink.source->0@ + ".write.format(\"jdbc\").option(\"url\", "@
                + str_literal(sink.connection_url->0@) + ").option(\"dbtable\", "@ + str_literal(
                sink.table->0@,
            ) + ")\\"@ + "\n"@ + ("        .mode("@ + str_literal(sink.mode->0@) + ").save()"@),
        ),
{
    jdbc_text_is(sink, default_source, fill_nulls, catalog_id);
    credentials_come_from_secret_or_token("sink"@, None, None);
    let auth = jdbc_auth("sink"@, opt_text(sink.secret_id), sink.auth);
    let writer = "    df_"@ + sink.source->0@ + ".write.format(\"jdbc\").option(\"url\", "@
        + str_literal(sink.connection_url->0@) + ").option(\"dbtable\", "@ + str_literal(
        sink.table->0@,
    ) + ")\\"@;
    let save = "        .mode("@ + str_literal(sink.mode->0@) + ").save()"@;
    assert(sink_secret(sink) + (auth_before(auth) + seq![writer] + auth_options(auth) + seq![save])
        =~= seq![writer] + seq![save]);
    joined_in_sequence(seq![writer], seq![save], "\n"@);
}

/// A JDBC sink with a secret and without authentication fetches the secret, and
/// gives its user and its password to the writer.
pub proof fn jdbc_sink_with_secret(
    sink: Sink,
    default_source: Seq<char>,
    fill_nulls: bool,
    catalog_id: Option<Seq<char>>,
)
    requires
        sink.sink_type@ == "jdbc"@,
        sink.source is Some,
        sink.mode is Some,
        sink.table is Some,
        sink.connection_url is Some,
        sink.secret_id is Some,
        sink.auth is None,
    ensures
        sink_text(sink, default_source, fill_nulls, catalog_id) == Ok::<Seq<char>, Seq<char>>(
            joined(secret_fetch_lines(sink.secret_id->0@, "sink"@), "\n"@) + "\n"@ + ("    df_"@
                + sink.source->0@ + ".write.format(\"jdbc\").option(\"url\", "@ + str_literal(
                sink.connection_url->0@,
            ) + ").option(\"dbtable\", "@ + str_literal(sink.table->0@) + ")\\"@) + "\n"@
                + "        .option(\"user\", sink_secret[\"username\"]).option(\"password\", sink_secret[\"password\"])\\"@
                + "\n"@ + ("        .mode("@ + str_literal(sink.mode->0@) + ").save()"@),
        ),
{
    jdbc_text_is(sink, default_source, fill_nulls, catalog_id);
    credentials_come_from_secret_or_token("sink"@, Some(sink.secret_id->0@), None);
    let auth = jdbc_auth("sink"@, opt_text(sink.secret_id), sink.auth);
    let fetch = joined(secret_fetch_lines(sink.secret_id->0@, "sink"@), "\n"@);
    let writer = "    df_"@ + sink.source->0@ + ".write.format(\"jdbc\").option(\"url\", "@
        + str_literal(sink.connection_url->0@) + ").option(\"dbtable\", "@ + str_literal(
        sink.table->0@,
    ) + ")\\"@;
    let save = "        .mode("@ + str_literal(sink.mode->0@) + ").save()"@;
    let options =
        "        .option(\"user\", sink_secret[\"username\"]).option(\"password\", sink_secret[\"password\"])\\"@;
    secret_options();
    assert(sink_secret(sink) + (auth_before(auth) + seq![writer] + auth_options(auth) + seq![save])
        =~= seq![fetch] + (seq![writer] + (seq![options] + seq![save])));
    joined_in_sequence(seq![options], seq![save], "\n"@);
    joined_in_sequence(seq![writer], seq![options] + seq![save], "\n"@);
    joined_in_sequence(seq![fetch], seq![writer] + (seq![options] + seq![save]), "\n"@);
    let text = sink_text(sink, default_source, fill_nulls, catalog_id)->Ok_0;
    assert(text =~= fetch + "\n"@ + writer + "\n"@ + options + "\n"@ + save);
}

/// The options for user and password of the secret of a sink.
proof fn secret_options()
    ensures
        "        .option(\"user\", "@ + ("sink"@ + "_secret[\"username\"]"@)
            + ").option(\"password\", "@ + ("sink"@ + "_secret[\"password\"]"@) + ")\\"@
            == "        .option(\"user\", sink_secret[\"username\"]).option(\"password\", sink_secret[\"password\"])\\"@,
{
    reveal_strlit("        .option(\"user\", ");
    reveal_strlit("sink");
    reveal_strlit("_secret[\"username\"]");
    reveal_strlit(").option(\"password\", ");
    reveal_strlit("_secret[\"password\"]");
    reveal_strlit(")\\");
    reveal_strlit(
        "        .option(\"user\", sink_secret[\"username\"]).option(\"password\", sink_secret[\"password\"])\\",
    );
    assert("        .option(\"user\", "@ + ("sink"@ + "_secret[\"username\"]"@)
        + ").option(\"password\", "@ + ("sink"@ + "_secret[\"password\"]"@) + ")\\"@
        =~= "        .option(\"user\", sink_secret[\"username\"]).option(\"password\", sink_secret[\"password\"])\\"@);
}

/// A JDBC sink with the authentication of a database fetches a token and gives it
/// for the password, with the user of its secret, which it fetches first, or the
/// one that the authentication names.
pub proof fn jdbc_sink_with_token(
    sink: Sink,
    default_source: Seq<char>,
    fill_nulls: bool,
    catalog_id: Option<Seq<char>>,
)
    requires
        sink.sink_type@ == "jdbc"@,
        sink.source is Some,
        sink.mode is Some,
        sink.table is Some,
        sink.connection_url is Some,
        sink.auth is Some,
        sink.auth->0.rds_iam is Some,
    ensures
        ({
            let rds = sink.auth->0.rds_iam->0;
            let user = if sink.secret_id is Some {
                "sink"@ + "_secret[\"username\"]"@
            } else {
                match rds.username {
                    Some(name) => str_literal(name@),
                    None => "\"\""@,
                }
            };
            sink_text(sink, default_source, fill_nulls, catalog_id) == Ok::<Seq<char>, Seq<char>>(
                (match sink.secret_id {
                    Some(id) => joined(secret_fetch_lines(id@, "sink"@), "\n"@) + "\n"@,
                    None => ""@,
                }) + (joined(token_fetch_lines("sink"@, rds, user), "\n"@) + "\n"@ + ("    df_"@
                    + sink.source->0@ + ".write.format(\"jdbc\").option(\"url\", "@ + str_literal(
                    sink.connection_url->0@,
                ) + ").option(\"dbtable\", "@ + str_literal(sink.table->0@) + ")\\"@) + "\n"@ + (
                "        .option(\"user\", "@ + user + ").option(\"password\", "@ + ("sink"@
                    + "_token"@) + ")\\"@) + "\n"@ + ("        .mode("@ + str_literal(
                    sink.mode->0@,
                ) + ").save()"@)),
            )
        }),
{
    jdbc_text_is(sink, default_source, fill_nulls, catalog_id);
    credentials_come_from_secret_or_token("sink"@, opt_text(sink.secret_id), sink.auth);
    reveal_strlit("");
    let rds = sink.auth->0.rds_iam->0;
    let user = if sink.secret_id is Some {
        "sink"@ + "_secret[\"username\"]"@
    } else {
        match rds.username {
            Some(name) => str_literal(name@),
            None => "\"\""@,
        }
    };
    let auth = jdbc_auth("sink"@, opt_text(sink.secret_id), sink.auth);
    let token = token_fetch_lines("sink"@, rds, user);
    let writer = "    df_"@ + sink.source->0@ + ".write.format(\"jdbc\").option(\"url\", "@
        + str_literal(sink.connection_url->0@) + ").option(\"dbtable\", "@ + str_literal(
        sink.table->0@,
    ) + ")\\"@;
    let save = "        .mode("@ + str_literal(sink.mode->0@) + ").save()"@;
    let options = "        .option(\"user\", "@ + user + ").option(\"password\", "@ + ("sink"@
        + "_token"@) + ")\\"@;
    assert(auth == Some((user, "sink"@ + "_token"@, token)));
    assert(auth_before(auth) == token);
    assert(auth_options(auth) == seq![options]);
    let rest = token + seq![writer] + seq![options] + seq![save];
    assert(auth_before(auth) + seq![writer] + auth_options(auth) + seq![save] == rest);
    lines_and_three(token, writer, options, save);
    match sink.secret_id {
        Some(id) => {
            joined_in_sequence(
                seq![joined(secret_fetch_lines(id@, "sink"@), "\n"@)],
                rest,
                "\n"@,
            );
        },
        None => {
            assert(sink_secret(sink) + rest =~= rest);
            assert(""@ + joined(rest, "\n"@) =~= joined(rest, "\n"@));
        },
    }
}

/// Lines and three lines more, joined.
proof fn lines_and_three(
    lines: Seq<Seq<char>>,
    one: Seq<char>,
    two: Seq<char>,
    three: Seq<char>,
)
    requires
        lines.len() > 0,
    ensures
        joined(lines + seq![one] + seq![two] + seq![three], "\n"@) == joined(lines, "\n"@) + "\n"@
            + one + "\n"@ + two + "\n"@ + three,
{
    joined_in_sequence(lines, seq![one], "\n"@);
    joined_in_sequence(lines + seq![one], seq![two], "\n"@);
    joined_in_sequence(lines + seq![one] + seq![two], seq![three], "\n"@);
}

/// A JDBC sink whose authentication has no endpoint gives no credentials: its
/// statements are those of a sink without any, behind the fetch of its secret.
pub proof fn jdbc_sink_with_empty_auth(
    sink: Sink,
    auth: JdbcAuth,
    id: String,
    default_source: Seq<char>,
    fill_nulls: bool,
    catalog_id: Option<Seq<char>>,
)
    requires
        sink.sink_type@ == "jdbc"@,
        sink.table is Some,
        sink.connection_url is Some,
        sink.secret_id is None,
        sink.auth is None,
        auth.rds_iam is None,
    ensures
        sink_text(
            (Sink { auth: Some(auth), ..sink }),
            default_source,
            fill_nulls,
            catalog_id,
        ) == sink_text(sink, default_source, fill_nulls, catalog_id),
        sink_text(
            (Sink { auth: Some(auth), secret_id: Some(id), ..sink }),
            default_source,
            fill_nulls,
            catalog_id,
        ) == Ok::<Seq<char>, Seq<char>>(
            joined(secret_fetch_lines(id@, "sink"@), "\n"@) + "\n"@ + sink_text(
                sink,
                default_source,
                fill_nulls,
                catalog_id,
            )->Ok_0,
        ),
{
    kinds_differ();
    let var = super::sink::sink_var(sink, default_source);
    let empty = Sink { auth: Some(auth), ..sink };
    let with = Sink { auth: Some(auth), secret_id: Some(id), ..sink };
    assert(sink_auth(empty) is None);
    assert(sink_auth(with) is None);
    assert(sink_auth(sink) is None);
    assert(jdbc_lines(empty, var) == jdbc_lines(sink, var));
    assert(jdbc_lines(with, var) == jdbc_lines(sink, var));
    let statements = jdbc_lines(sink, var)->Ok_0;
    assert(sink_secret(sink) + statements =~= statements);
    assert(statements.len() > 0);
    joined_in_sequence(sink_secret(with), statements, "\n"@);
}

/// A catalog sink needs a database and a table, and writes the dataframe to them
/// as a frame.
pub proof fn catalog_sink_writes_to_its_table(
    sink: Sink,
    default_source: Seq<char>,
    fill_nulls: bool,
    catalog_id: Option<Seq<char>>,
)
    requires
        sink.sink_type@ == "catalog"@,
        sink.secret_id is None,
        sink.source is Some,
    ensures
        sink.database is None ==> sink_text(sink, default_source, fill_nulls, catalog_id) == Err::<
            Seq<char>,
            Seq<char>,
        >("sink: 'database' is required for catalog sink"@),
        sink.database is Some && sink.table is None ==> sink_text(
            sink,
            default_source,
            fill_nulls,
            catalog_id,
        ) == Err::<Seq<char>, Seq<char>>("sink: 'table' is required for catalog sink"@),
        sink.database is Some && sink.table is Some ==> sink_text(
            sink,
            default_source,
            fill_nulls,
            catalog_id,
        ) == Ok::<Seq<char>, Seq<char>>(
            "    sink_frame = DynamicFrame.fromDF("@ + ("df_"@ + sink.source->0@)
                + ", glueContext, \"sink_frame\")"@ + "\n"@
                + ("    glueContext.write_dynamic_frame.from_catalog(frame=sink_frame, database="@
                + str_literal(sink.database->0@) + ", table_name="@ + str_literal(sink.table->0@)
                + ")"@),
        ),
{
    kinds_differ();
    missing_texts();
    if sink.database is Some && sink.table is Some {
        let lines = sink_lines(sink, "df_"@ + sink.source->0@, fill_nulls, catalog_id)->Ok_0;
        assert(sink_secret(sink) + lines =~= seq![lines[0]] + seq![lines[1]]);
        joined_in_sequence(seq![lines[0]], seq![lines[1]], "\n"@);
    }
}

/// A new Iceberg table gets the five standing properties, and its location where
/// the sink has a path that is not empty.
pub proof fn table_gets_its_properties(path: Option<String>)
    ensures
        ({
            let standing = "\n            .tableProperty(\"format-version\", \"2\")"@
                + "\n            .tableProperty(\"write.spark.accept-any-schema\", \"true\")"@
                + "\n            .tableProperty(\"write.target-file-size-bytes\", \"536870912\")"@
                + "\n            .tableProperty(\"write.parquet.compression-codec\", \"zstd\")"@
                + "\n            .tableProperty(\"write.distribution-mode\", \"hash\")"@;
            table_property_text(path) == match path {
                Some(location) => if location@.len() > 0 {
                    standing + ("\n            .tableProperty(\"location\", "@ + str_literal(
                        location@,
                    ) + ")"@)
                } else {
                    standing
                },
                None => standing,
            }
        }),
{
    let all = table_properties();
    reveal_with_fuel(property_calls, 6);
    let four = all.drop_last();
    let three = four.drop_last();
    let two = three.drop_last();
    let one = two.drop_last();
    assert(one.drop_last() =~= Seq::<(Seq<char>, Seq<char>)>::empty());
    property_texts();
    assert(property_calls(all) =~= "\n            .tableProperty(\"format-version\", \"2\")"@
        + "\n            .tableProperty(\"write.spark.accept-any-schema\", \"true\")"@
        + "\n            .tableProperty(\"write.target-file-size-bytes\", \"536870912\")"@
        + "\n            .tableProperty(\"write.parquet.compression-codec\", \"zstd\")"@
        + "\n            .tableProperty(\"write.distribution-mode\", \"hash\")"@);
}

/// The calls of the standing properties.
proof fn property_texts()
    ensures
        "\n            .tableProperty(\""@ + "format-version"@ + "\", \""@ + "2"@ + "\")"@
            == "\n            .tableProperty(\"format-version\", \"2\")"@,
        "\n            .tableProperty(\""@ + "write.spark.accept-any-schema"@ + "\", \""@ + "true"@
            + "\")"@ == "\n            .tableProperty(\"write.spark.accept-any-schema\", \"true\")"@,
        "\n            .tableProperty(\""@ + "write.target-file-size-bytes"@ + "\", \""@
            + "536870912"@ + "\")"@
            == "\n            .tableProperty(\"write.target-file-size-bytes\", \"536870912\")"@,
        "\n            .tableProperty(\""@ + "write.parquet.compression-codec"@ + "\", \""@
            + "zstd"@ + "\")"@
            == "\n            .tableProperty(\"write.parquet.compression-codec\", \"zstd\")"@,
        "\n            .tableProperty(\""@ + "write.distribution-mode"@ + "\", \""@ + "hash"@
            + "\")"@ == "\n            .tableProperty(\"write.distribution-mode\", \"hash\")"@,
{
    reveal_strlit("\n            .tableProperty(\"");
    reveal_strlit("\", \"");
    reveal_strlit("\")");
    reveal_strlit("format-version");
    reveal_strlit("2");
    reveal_strlit("write.spark.accept-any-schema");
    reveal_strlit("true");
    reveal_strlit("write.target-file-size-bytes");
    reveal_strlit("536870912");
    reveal_strlit("write.parquet.compression-codec");
    reveal_strlit("zstd");
    reveal_strlit("write.distribution-mode");
    reveal_strlit("hash");
    reveal_strlit("\n            .tableProperty(\"format-version\", \"2\")");
    reveal_strlit("\n            .tableProperty(\"write.spark.accept-any-schema\", \"true\")");
    reveal_strlit("\n            .tableProperty(\"write.target-file-size-bytes\", \"536870912\")");
    reveal_strlit("\n            .tableProperty(\"write.parquet.compression-codec\", \"zstd\")");
    reveal_strlit("\n            .tableProperty(\"write.distribution-mode\", \"hash\")");
    assert("\n            .tableProperty(\""@ + "format-version"@ + "\", \""@ + "2"@ + "\")"@
        =~= "\n            .tableProperty(\"format-version\", \"2\")"@);
    assert("\n            .tableProperty(\""@ + "write.spark.accept-any-schema"@ + "\", \""@
        + "true"@ + "\")"@
        =~= "\n            .tableProperty(\"write.spark.accept-any-schema\", \"true\")"@);
    assert("\n            .tableProperty(\""@ + "write.target-file-size-bytes"@ + "\", \""@
        + "536870912"@ + "\")"@
        =~= "\n            .tableProperty(\"write.target-file-size-bytes\", \"536870912\")"@);
    assert("\n            .tableProperty(\""@ + "write.parquet.compression-codec"@ + "\", \""@
        + "zstd"@ + "\")"@
        =~= "\n            .tableProperty(\"write.parquet.compression-codec\", \"zstd\")"@);
    assert("\n            .tableProperty(\""@ + "write.distribution-mode"@ + "\", \""@ + "hash"@
        + "\")"@ =~= "\n            .tableProperty(\"write.distribution-mode\", \"hash\")"@);
}

/// An Iceberg sink needs a database and a table. It creates the database in the
/// given catalog where that lacks it; then it creates the table, with the
/// partitions and properties of the sink, or writes to it: it overwrites
/// partitions in the mode "overwrite" and appends in any other. Only where nulls
/// are filled is the batch made to conform, on both ways; columns are put in
/// order always.
pub proof fn iceberg_sink_creates_or_writes(
    sink: Sink,
    default_source: Seq<char>,
    fill_nulls: bool,
    catalog_id: Option<Seq<char>>,
)
    requires
        sink.sink_type@ == "iceberg"@,
        sink.secret_id is None,
        sink.source is Some,
        sink.mode is Some,
    ensures
        sink.database is None ==> sink_text(sink, default_source, fill_nulls, catalog_id) == Err::<
            Seq<char>,
            Seq<char>,
        >("sink: 'database' is required for iceberg sink"@),
        sink.database is Some && sink.table is None ==> sink_text(
            sink,
            default_source,
            fill_nulls,
            catalog_id,
        ) == Err::<Seq<char>, Seq<char>>("sink: 'table' is required for iceberg sink"@),
        sink.database is Some && sink.table is Some ==> ({
            let var = "df_"@ + sink.source->0@;
            let name = str_literal(sink.database->0@);
            let catalog = match catalog_id {
                Some(id) => "CatalogId="@ + str_literal(id) + ", "@,
                None => ""@,
            };
            let database = "    _glue = boto3.client(\"glue\")\n    try:\n        _glue.get_database("@
                + catalog + "Name="@ + name
                + ")\n    except _glue.exceptions.EntityNotFoundException:\n        _glue.create_database("@
                + catalog + "DatabaseInput={\"Name\": "@ + name + "})"@;
            let table = "    _tbl = "@ + str_literal(
                "glue_catalog."@ + sink.database->0@ + "."@ + sink.table->0@,
            );
            let create = "    if not spark.catalog.tableExists(_tbl):\n        "@ + (
            if fill_nulls {
                "_target = _yard_void_free_schema("@ + var + ".schema)\n        "@ + var
                    + " = _yard_conform("@ + var + ", _target)\n        "@
            } else {
                ""@
            }) + "("@ + var + ".writeTo(_tbl)\n            .using(\"iceberg\")"@ + (
            if sink.partition_by@.len() > 0 {
                "\n            .partitionedBy("@ + literal_list(views(sink.partition_by@)) + ")"@
            } else {
                ""@
            }) + table_property_text(sink.path) + "\n            .create())"@;
            let write = "\n    else:\n        "@ + (if fill_nulls {
                "_live = _yard_read_iceberg_schema(spark, _tbl)\n        _batch = _yard_void_free_schema("@
                    + var
                    + ".schema)\n        _live_types = {_f.name: _f.dataType for _f in _live.fields}\n        for _f in _batch.fields:\n            if _f.name in _live_types and _yard_kind_mismatch(_f.dataType, _live_types[_f.name]):\n                raise ValueError(\"yard: schema kind mismatch for column '\" + _f.name + \"': source kind differs from the Iceberg table kind (struct vs list/map); refusing to write\")\n        _target = _yard_merge_schema(_live, _batch)\n        "@
                    + var + " = _yard_conform("@ + var + ", _target)\n        "@
            } else {
                ""@
            })
                + "_existing_cols = spark.table(_tbl).columns\n        _ordered = [_c for _c in _existing_cols if _c in "@
                + var + ".columns]\n        _new = [_c for _c in "@ + var
                + ".columns if _c not in _existing_cols]\n        "@ + var + " = "@ + var
                + ".select(_ordered + _new)\n        "@ + var
                + ".writeTo(_tbl).option(\"merge-schema\", \"true\")."@ + (if sink.mode->0@
                == "overwrite"@ {
                "overwritePartitions"@
            } else {
                "append"@
            }) + "()"@;
            sink_text(sink, default_source, fill_nulls, catalog_id) == Ok::<Seq<char>, Seq<char>>(
                database + "\n"@ + table + "\n"@ + (create + write),
            )
        }),
{
    kinds_differ();
    missing_texts();
    if sink.database is Some && sink.table is Some {
        let var = "df_"@ + sink.source->0@;
        let lines = sink_lines(sink, var, fill_nulls, catalog_id)->Ok_0;
        assert(sink_secret(sink) + lines =~= seq![lines[0]] + (seq![lines[1]] + seq![lines[2]]));
        joined_in_sequence(seq![lines[1]], seq![lines[2]], "\n"@);
        joined_in_sequence(seq![lines[0]], seq![lines[1]] + seq![lines[2]], "\n"@);
        database_text_is(sink.database->0@, catalog_id);
        iceberg_write_is(sink, var, fill_nulls);
        let text = sink_text(sink, default_source, fill_nulls, catalog_id)->Ok_0;
        assert(text =~= lines[0] + "\n"@ + lines[1] + "\n"@ + lines[2]);
    }
}

/// The statement that creates a database, with the catalog where one is given.
proof fn database_text_is(database: Seq<char>, catalog_id: Option<Seq<char>>)
    ensures
        ({
            let name = str_literal(database);
            let catalog = match catalog_id {
                Some(id) => "CatalogId="@ + str_literal(id) + ", "@,
                None => ""@,
            };
            super::sink::database_lines(database, catalog_id)
                == "    _glue = boto3.client(\"glue\")\n    try:\n        _glue.get_database("@
                + catalog + "Name="@ + name
                + ")\n    except _glue.exceptions.EntityNotFoundException:\n        _glue.create_database("@
                + catalog + "DatabaseInput={\"Name\": "@ + name + "})"@
        }),
{
    reveal_strlit("");
    reveal_strlit("CatalogId=");
    reveal_strlit(", ");
    reveal_strlit("Name=");
    reveal_strlit(", Name=");
    reveal_strlit("DatabaseInput={\"Name\": ");
    reveal_strlit(", DatabaseInput={\"Name\": ");
    reveal_strlit("    _glue = boto3.client(\"glue\")\n    try:\n        _glue.get_database(");
    reveal_strlit(
        "    _glue = boto3.client(\"glue\")\n    try:\n        _glue.get_database(CatalogId=",
    );
    reveal_strlit("    _glue = boto3.client(\"glue\")\n    try:\n        _glue.get_database(Name=");
    reveal_strlit(
        ")\n    except _glue.exceptions.EntityNotFoundException:\n        _glue.create_database(",
    );
    reveal_strlit(
        ")\n    except _glue.exceptions.EntityNotFoundException:\n        _glue.create_database(CatalogId=",
    );
    reveal_strlit(
        ")\n    except _glue.exceptions.EntityNotFoundException:\n        _glue.create_database(DatabaseInput={\"Name\": ",
    );
    let get = "    _glue = boto3.client(\"glue\")\n    try:\n        _glue.get_database("@;
    let make =
        ")\n    except _glue.exceptions.EntityNotFoundException:\n        _glue.create_database("@;
    assert("    _glue = boto3.client(\"glue\")\n    try:\n        _glue.get_database(CatalogId="@
        =~= get + "CatalogId="@);
    assert("    _glue = boto3.client(\"glue\")\n    try:\n        _glue.get_database(Name="@ =~= get
        + "Name="@);
    assert(")\n    except _glue.exceptions.EntityNotFoundException:\n        _glue.create_database(CatalogId="@
        =~= make + "CatalogId="@);
    assert(")\n    except _glue.exceptions.EntityNotFoundException:\n        _glue.create_database(DatabaseInput={\"Name\": "@
        =~= make + "DatabaseInput={\"Name\": "@);
    assert(", Name="@ =~= ", "@ + "Name="@);
    assert(", DatabaseInput={\"Name\": "@ =~= ", "@ + "DatabaseInput={\"Name\": "@);
    database_parts(database, catalog_id, get, make);
}

/// The parts of the statement that creates a database.
proof fn database_parts(
    database: Seq<char>,
    catalog_id: Option<Seq<char>>,
    get: Seq<char>,
    make: Seq<char>,
)
    requires
        "    _glue = boto3.client(\"glue\")\n    try:\n        _glue.get_database(CatalogId="@ == get
            + "CatalogId="@,
        "    _glue = boto3.client(\"glue\")\n    try:\n        _glue.get_database(Name="@ == get
            + "Name="@,
        ")\n    except _glue.exceptions.EntityNotFoundException:\n        _glue.create_database(CatalogId="@
            == make + "CatalogId="@,
        ")\n    except _glue.exceptions.EntityNotFoundException:\n        _glue.create_database(DatabaseInput={\"Name\": "@
            == make + "DatabaseInput={\"Name\": "@,
        ", Name="@ == ", "@ + "Name="@,
        ", DatabaseInput={\"Name\": "@ == ", "@ + "DatabaseInput={\"Name\": "@,
        ""@.len() == 0,
    ensures
        ({
            let name = str_literal(database);
            let catalog = match catalog_id {
                Some(id) => "CatalogId="@ + str_literal(id) + ", "@,
                None => ""@,
            };
            super::sink::database_lines(database, catalog_id) == get + catalog + "Name="@ + name
                + make + catalog + "DatabaseInput={\"Name\": "@ + name + "})"@
        }),
{
    let name = str_literal(database);
    let text = super::sink::database_lines(database, catalog_id);
    match catalog_id {
        Some(id) => {
            let catalog = "CatalogId="@ + str_literal(id) + ", "@;
            assert(text =~= get + catalog + "Name="@ + name + make + catalog
                + "DatabaseInput={\"Name\": "@ + name + "})"@);
        },
        None => {
            assert(text =~= get + ""@ + "Name="@ + name + make + ""@ + "DatabaseInput={\"Name\": "@
                + name + "})"@);
        },
    }
}

/// The statement that creates an Iceberg table or writes to it.
proof fn iceberg_write_is(sink: Sink, var: Seq<char>, fill_nulls: bool)
    requires
        sink.mode is Some,
    ensures
        ({
            let create = "    if not spark.catalog.tableExists(_tbl):\n        "@ + (
            if fill_nulls {
                "_target = _yard_void_free_schema("@ + var + ".schema)\n        "@ + var
                    + " = _yard_conform("@ + var + ", _target)\n        "@
            } else {
                ""@
            }) + "("@ + var + ".writeTo(_tbl)\n            .using(\"iceberg\")"@ + (
            if sink.partition_by@.len() > 0 {
                "\n            .partitionedBy("@ + literal_list(views(sink.partition_by@)) + ")"@
            } else {
                ""@
            }) + table_property_text(sink.path) + "\n            .create())"@;
            let write = "\n    else:\n        "@ + (if fill_nulls {
                "_live = _yard_read_iceberg_schema(spark, _tbl)\n        _batch = _yard_void_free_schema("@
                    + var
                    + ".schema)\n        _live_types = {_f.name: _f.dataType for _f in _live.fields}\n        for _f in _batch.fields:\n            if _f.name in _live_types and _yard_kind_mismatch(_f.dataType, _live_types[_f.name]):\n                raise ValueError(\"yard: schema kind mismatch for column '\" + _f.name + \"': source kind differs from the Iceberg table kind (struct vs list/map); refusing to write\")\n        _target = _yard_merge_schema(_live, _batch)\n        "@
                    + var + " = _yard_conform("@ + var + ", _target)\n        "@
            } else {
                ""@
            })
                + "_existing_cols = spark.table(_tbl).columns\n        _ordered = [_c for _c in _existing_cols if _c in "@
                + var + ".columns]\n        _new = [_c for _c in "@ + var
                + ".columns if _c not in _existing_cols]\n        "@ + var + " = "@ + var
                + ".select(_ordered + _new)\n        "@ + var
                + ".writeTo(_tbl).option(\"merge-schema\", \"true\")."@ + (if sink.mode->0@
                == "overwrite"@ {
                "overwritePartitions"@
            } else {
                "append"@
            }) + "()"@;
            super::sink::iceberg_write(sink, var, fill_nulls) == create + write
        }),
{
    reveal_strlit("");
    reveal_strlit("\n            .create())");
    reveal_strlit("\n    else:\n        ");
    reveal_strlit("\n            .create())\n    else:\n        ");
    assert("\n            .create())\n    else:\n        "@ =~= "\n            .create())"@
        + "\n    else:\n        "@);
    let first = if fill_nulls {
        "_target = _yard_void_free_schema("@ + var + ".schema)\n        "@ + var
            + " = _yard_conform("@ + var + ", _target)\n        "@
    } else {
        ""@
    };
    let partition = if sink.partition_by@.len() > 0 {
        "\n            .partitionedBy("@ + literal_list(views(sink.partition_by@)) + ")"@
    } else {
        ""@
    };
    let second = if fill_nulls {
        super::sink::existing_table_coerce(var)
    } else {
        ""@
    };
    let operation = if sink.mode->0@ == "overwrite"@ {
        "overwritePartitions"@
    } else {
        "append"@
    };
    assert(super::sink::partition_clause(views(sink.partition_by@)) =~= partition);
    assert(fill_nulls || first =~= Seq::<char>::empty());
    assert(fill_nulls || second =~= Seq::<char>::empty());
    let whole = super::sink::iceberg_write(sink, var, fill_nulls);
    let properties = table_property_text(sink.path);
    assert(whole =~= "    if not spark.catalog.tableExists(_tbl):\n        "@ + first + "("@ + var
        + ".writeTo(_tbl)\n            .using(\"iceberg\")"@ + partition + properties
        + "\n            .create())"@ + ("\n    else:\n        "@ + second
        + super::sink::column_order(var) + var
        + ".writeTo(_tbl).option(\"merge-schema\", \"true\")."@ + operation + "()"@));
    assert("\n    else:\n        "@ + second + super::sink::column_order(var) + var
        + ".writeTo(_tbl).option(\"merge-schema\", \"true\")."@ + operation + "()"@
        =~= "\n    else:\n        "@ + second
        + "_existing_cols = spark.table(_tbl).columns\n        _ordered = [_c for _c in _existing_cols if _c in "@
        + var + ".columns]\n        _new = [_c for _c in "@ + var
        + ".columns if _c not in _existing_cols]\n        "@ + var + " = "@ + var
        + ".select(_ordered + _new)\n        "@ + var
        + ".writeTo(_tbl).option(\"merge-schema\", \"true\")."@ + operation + "()"@);
}

/// A type that is not known gives a comment that names it, and no statement.
pub proof fn unknown_type_gives_comment(
    sink: Sink,
    default_source: Seq<char>,
    fill_nulls: bool,
    catalog_id: Option<Seq<char>>,
)
    requires
        !seq!["s3"@, "jdbc"@, "catalog"@, "iceberg"@].contains(sink.sink_type@),
        sink.secret_id is None,
    ensures
        sink_text(sink, default_source, fill_nulls, catalog_id) == Ok::<Seq<char>, Seq<char>>(
            "    # Unsupported sink type: "@ + sink.sink_type@,
        ),
{
    let known = seq!["s3"@, "jdbc"@, "catalog"@, "iceberg"@];
    assert(known[0] == "s3"@ && known[1] == "jdbc"@);
    assert(known[2] == "catalog"@ && known[3] == "iceberg"@);
    let line = "    # Unsupported sink type: "@ + sink.sink_type@;
    assert(sink_secret(sink) + seq![line] =~= seq![line]);
}

} // verus!
