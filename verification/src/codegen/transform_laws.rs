//! What holds of the rendered transforms: which dataframe each reads and writes,
//! what stands for a field that is left out, and what a given field changes.

use super::literal::literal_list;
use super::transform::{
    aggregate_expr, order_text, rename_line, transform_text, transform_texts, transforms_text,
    view_registration,
};
use super::types::{OrderBySpec, Transform};
use crate::string_map::{ascending_keys, entries_map, sorted_entries, sorted_entries_unique};
use crate::text::{joined, trimmed, views};
use crate::text_laws::joined_in_sequence;
use vstd::prelude::*;

verus! {

/// A transform that names its source renders as one that leaves it out, where
/// that source is the default. (An SQL query and a join read dataframes of their
/// own choice.)
pub proof fn named_source_is_read(
    transform: Transform,
    source: String,
    default_source: Seq<char>,
    names: Seq<Seq<char>>,
)
    requires
        transform.source is None,
        transform.transform_type@ != "sql"@,
        transform.transform_type@ != "join"@,
    ensures
        transform_text(
            (Transform { source: Some(source), ..transform }),
            default_source,
            names,
        ) == transform_text(transform, source@, names),
{
}

/// The default source does not matter to a transform that names its source.
pub proof fn default_source_is_only_a_default(
    transform: Transform,
    one: Seq<char>,
    other: Seq<char>,
    names: Seq<Seq<char>>,
)
    requires
        transform.source is Some,
        transform.transform_type@ != "sql"@,
        transform.transform_type@ != "join"@,
    ensures
        transform_text(transform, one, names) == transform_text(transform, other, names),
{
}

/// An SQL query and a join do not look at `source`.
pub proof fn query_and_join_ignore_source(
    transform: Transform,
    source: Option<String>,
    default_source: Seq<char>,
    names: Seq<Seq<char>>,
)
    requires
        transform.transform_type@ == "sql"@ || transform.transform_type@ == "join"@,
    ensures
        transform_text((Transform { source, ..transform }), default_source, names)
            == transform_text(transform, default_source, names),
{
    kinds_differ();
}

/// A transform that leaves its output out writes the dataframe that it reads: for
/// a join the left one, for an SQL query the default source.
pub proof fn output_defaults_to_input(
    transform: Transform,
    output: String,
    default_source: Seq<char>,
    names: Seq<Seq<char>>,
)
    requires
        transform.output is None,
        output@ == if transform.transform_type@ == "join"@ {
            match transform.left {
                Some(left) => left@,
                None => default_source,
            }
        } else if transform.transform_type@ == "sql"@ {
            default_source
        } else {
            match transform.source {
                Some(source) => source@,
                None => default_source,
            }
        },
    ensures
        transform_text(
            (Transform { output: Some(output), ..transform }),
            default_source,
            names,
        ) == transform_text(transform, default_source, names),
{
    kinds_differ();
}

/// The names of the transform types are all different.
proof fn kinds_differ()
    ensures
        "filter"@ != "sql"@,
        "filter"@ != "join"@,
        "filter"@ != "drop_columns"@,
        "filter"@ != "select"@,
        "filter"@ != "rename"@,
        "filter"@ != "add_column"@,
        "filter"@ != "aggregate"@,
        "filter"@ != "window"@,
        "sql"@ != "join"@,
        "sql"@ != "drop_columns"@,
        "sql"@ != "select"@,
        "sql"@ != "rename"@,
        "sql"@ != "add_column"@,
        "sql"@ != "aggregate"@,
        "sql"@ != "window"@,
        "join"@ != "drop_columns"@,
        "join"@ != "select"@,
        "join"@ != "rename"@,
        "join"@ != "add_column"@,
        "join"@ != "aggregate"@,
        "join"@ != "window"@,
        "drop_columns"@ != "select"@,
        "drop_columns"@ != "rename"@,
        "drop_columns"@ != "add_column"@,
        "drop_columns"@ != "aggregate"@,
        "drop_columns"@ != "window"@,
        "select"@ != "rename"@,
        "select"@ != "add_column"@,
        "select"@ != "aggregate"@,
        "select"@ != "window"@,
        "rename"@ != "add_column"@,
        "rename"@ != "aggregate"@,
        "rename"@ != "window"@,
        "add_column"@ != "aggregate"@,
        "add_column"@ != "window"@,
        "aggregate"@ != "window"@,
{
    reveal_strlit("filter");
    reveal_strlit("sql");
    reveal_strlit("join");
    reveal_strlit("drop_columns");
    reveal_strlit("select");
    reveal_strlit("rename");
    reveal_strlit("add_column");
    reveal_strlit("aggregate");
    reveal_strlit("window");
    assert("filter"@.len() == 6);
    assert("sql"@.len() == 3);
    assert("join"@.len() == 4);
    assert("drop_columns"@.len() == 12);
    assert("select"@.len() == 6);
    assert("rename"@.len() == 6);
    assert("add_column"@.len() == 10);
    assert("aggregate"@.len() == 9);
    assert("window"@.len() == 6);
    assert("filter"@[0] == 'f');
    assert("select"@[0] == 's');
    assert("rename"@[0] == 'r');
    assert("window"@[0] == 'w');
}

/// What stands for a field that is left out: the condition "True", the query
/// "SELECT * FROM source", the inner join, the left side of the default source,
/// and the column "lit(None)".
pub proof fn absent_fields_have_defaults(
    transform: Transform,
    text: String,
    default_source: Seq<char>,
    names: Seq<Seq<char>>,
)
    ensures
        transform.transform_type@ == "filter"@ && transform.condition is None && text@ == "True"@
            ==> transform_text(
            (Transform { condition: Some(text), ..transform }),
            default_source,
            names,
        ) == transform_text(transform, default_source, names),
        transform.transform_type@ == "sql"@ && transform.query is None && text@
            == "SELECT * FROM source"@ ==> transform_text(
            (Transform { query: Some(text), ..transform }),
            default_source,
            names,
        ) == transform_text(transform, default_source, names),
        transform.transform_type@ == "join"@ && transform.how is None && text@ == "inner"@
            ==> transform_text(
            (Transform { how: Some(text), ..transform }),
            default_source,
            names,
        ) == transform_text(transform, default_source, names),
        transform.transform_type@ == "join"@ && transform.left is None && text@ == default_source
            ==> transform_text(
            (Transform { left: Some(text), ..transform }),
            default_source,
            names,
        ) == transform_text(transform, default_source, names),
        transform.transform_type@ == "add_column"@ && transform.expression is None && text@
            == "lit(None)"@ ==> transform_text(
            (Transform { expression: Some(text), ..transform }),
            default_source,
            names,
        ) == transform_text(transform, default_source, names),
{
    kinds_differ();
}

/// A filter reads the source, writes the output, and keeps the rows that meet the
/// condition, without the white space around it.
pub proof fn filter_keeps_by_condition(
    transform: Transform,
    default_source: Seq<char>,
    names: Seq<Seq<char>>,
)
    requires
        transform.transform_type@ == "filter"@,
        transform.source is Some,
        transform.output is Some,
        transform.condition is Some,
    ensures
        transform_text(transform, default_source, names) == Ok::<Seq<char>, Seq<char>>(
            "    df_"@ + transform.output->0@ + " = df_"@ + transform.source->0@ + ".filter("@
                + trimmed(transform.condition->0@) + ")"@,
        ),
{
    kinds_differ();
    reveal_strlit("    ");
    reveal_strlit("df_");
    reveal_strlit("    df_");
    reveal_strlit(" = ");
    reveal_strlit(" = df_");
    assert("    df_"@ =~= "    "@ + "df_"@);
    assert(" = df_"@ =~= " = "@ + "df_"@);
    let text = transform_text(transform, default_source, names)->Ok_0;
    assert(text =~= "    df_"@ + transform.output->0@ + " = df_"@ + transform.source->0@
        + ".filter("@ + trimmed(transform.condition->0@) + ")"@);
}

/// The listed columns are dropped, or are those that stay.
pub proof fn columns_are_those_listed(
    transform: Transform,
    default_source: Seq<char>,
    names: Seq<Seq<char>>,
)
    requires
        transform.source is Some,
        transform.output is Some,
    ensures
        transform.transform_type@ == "drop_columns"@ ==> transform_text(
            transform,
            default_source,
            names,
        ) == Ok::<Seq<char>, Seq<char>>(
            "    df_"@ + transform.output->0@ + " = df_"@ + transform.source->0@ + ".drop("@
                + literal_list(views(transform.columns@)) + ")"@,
        ),
        transform.transform_type@ == "select"@ ==> transform_text(
            transform,
            default_source,
            names,
        ) == Ok::<Seq<char>, Seq<char>>(
            "    df_"@ + transform.output->0@ + " = df_"@ + transform.source->0@ + ".select("@
                + literal_list(views(transform.columns@)) + ")"@,
        ),
{
    kinds_differ();
    reveal_strlit("    ");
    reveal_strlit("df_");
    reveal_strlit("    df_");
    reveal_strlit(" = ");
    reveal_strlit(" = df_");
    assert("    df_"@ =~= "    "@ + "df_"@);
    assert(" = df_"@ =~= " = "@ + "df_"@);
    let text = transform_text(transform, default_source, names)->Ok_0;
    let start = "    df_"@ + transform.output->0@ + " = df_"@ + transform.source->0@;
    if transform.transform_type@ == "drop_columns"@ {
        assert(text =~= start + ".drop("@ + literal_list(views(transform.columns@)) + ")"@);
    }
    if transform.transform_type@ == "select"@ {
        assert(text =~= start + ".select("@ + literal_list(views(transform.columns@)) + ")"@);
    }
}

/// A new column has the given name and expression, without the white space around
/// them; without a name there is none.
pub proof fn new_column_is_named(
    transform: Transform,
    default_source: Seq<char>,
    names: Seq<Seq<char>>,
)
    requires
        transform.transform_type@ == "add_column"@,
    ensures
        transform.name is None ==> transform_text(transform, default_source, names) == Err::<
            Seq<char>,
            Seq<char>,
        >("add_column transform: 'name' is required"@),
        transform.name is Some && transform.expression is Some && transform.source is Some
            && transform.output is Some ==> transform_text(transform, default_source, names)
            == Ok::<Seq<char>, Seq<char>>(
            "    df_"@ + transform.output->0@ + " = df_"@ + transform.source->0@
                + ".withColumn(\""@ + trimmed(transform.name->0@) + "\", "@ + trimmed(
                transform.expression->0@,
            ) + ")"@,
        ),
{
    kinds_differ();
    reveal_strlit("    ");
    reveal_strlit("df_");
    reveal_strlit("    df_");
    reveal_strlit(" = ");
    reveal_strlit(" = df_");
    assert("    df_"@ =~= "    "@ + "df_"@);
    assert(" = df_"@ =~= " = "@ + "df_"@);
    if transform.name is Some && transform.expression is Some && transform.source is Some
        && transform.output is Some {
        let text = transform_text(transform, default_source, names)->Ok_0;
        assert(text =~= "    df_"@ + transform.output->0@ + " = df_"@ + transform.source->0@
            + ".withColumn(\""@ + trimmed(transform.name->0@) + "\", "@ + trimmed(
            transform.expression->0@,
        ) + ")"@);
    }
}

/// A join needs the right side and the key, and names both sides, the key and the
/// way of joining.
pub proof fn join_names_both_sides(
    transform: Transform,
    default_source: Seq<char>,
    names: Seq<Seq<char>>,
)
    requires
        transform.transform_type@ == "join"@,
    ensures
        transform.right is None ==> transform_text(transform, default_source, names) == Err::<
            Seq<char>,
            Seq<char>,
        >("join transform: 'right' is required"@),
        transform.right is Some && transform.on is None ==> transform_text(
            transform,
            default_source,
            names,
        ) == Err::<Seq<char>, Seq<char>>("join transform: 'on' is required"@),
        transform.right is Some && transform.on is Some && transform.left is Some
            && transform.how is Some && transform.output is Some ==> transform_text(
            transform,
            default_source,
            names,
        ) == Ok::<Seq<char>, Seq<char>>(
            "    df_"@ + transform.output->0@ + " = df_"@ + transform.left->0@ + ".join(df_"@
                + transform.right->0@ + ", on=\""@ + transform.on->0@ + "\", how=\""@
                + transform.how->0@ + "\")"@,
        ),
{
    kinds_differ();
    reveal_strlit("    ");
    reveal_strlit("df_");
    reveal_strlit("    df_");
    assert("    df_"@ =~= "    "@ + "df_"@);
    if transform.right is Some && transform.on is Some && transform.left is Some
        && transform.how is Some && transform.output is Some {
        let text = transform_text(transform, default_source, names)->Ok_0;
        assert(text =~= "    df_"@ + transform.output->0@ + " = df_"@ + transform.left->0@
            + ".join(df_"@ + transform.right->0@ + ", on=\""@ + transform.on->0@ + "\", how=\""@
            + transform.how->0@ + "\")"@);
    }
}

/// An SQL query without sources is the query alone, assigned to the output.
pub proof fn query_is_assigned(transform: Transform, default_source: Seq<char>)
    requires
        transform.transform_type@ == "sql"@,
        transform.output is Some,
        transform.query is Some,
    ensures
        transform_text(transform, default_source, Seq::empty()) == Ok::<Seq<char>, Seq<char>>(
            "    df_"@ + transform.output->0@ + " = spark.sql(\""@ + trimmed(transform.query->0@)
                + "\")"@,
        ),
{
    kinds_differ();
    reveal_strlit("    ");
    reveal_strlit("df_");
    reveal_strlit("    df_");
    assert("    df_"@ =~= "    "@ + "df_"@);
    let none = Seq::<Seq<char>>::empty();
    let text = transform_text(transform, default_source, none)->Ok_0;
    let expected = "    df_"@ + transform.output->0@ + " = spark.sql(\""@ + trimmed(
        transform.query->0@,
    ) + "\")"@;
    let query = "    "@ + ("df_"@ + transform.output->0@) + " = spark.sql(\""@ + trimmed(
        transform.query->0@,
    ) + "\")"@;
    assert(none.map_values(|name: Seq<char>| view_registration(name)).push(query) =~= seq![query]);
    assert(query =~= expected);
    assert(text =~= expected);
}

/// One source more is one registration more in front of an SQL query: the
/// dataframe of the source becomes a view under its name.
pub proof fn every_source_is_registered(
    transform: Transform,
    default_source: Seq<char>,
    name: Seq<char>,
    names: Seq<Seq<char>>,
)
    requires
        transform.transform_type@ == "sql"@,
    ensures
        transform_text(transform, default_source, names) is Ok,
        transform_text(transform, default_source, seq![name] + names) == Ok::<
            Seq<char>,
            Seq<char>,
        >(
            "    df_"@ + name + ".createOrReplaceTempView(\""@ + name + "\")"@ + "\n"@
                + transform_text(transform, default_source, names)->Ok_0,
        ),
{
    kinds_differ();
    let register = |name: Seq<char>| view_registration(name);
    let all = seq![name] + names;
    let output = match transform.output {
        Some(output) => output@,
        None => default_source,
    };
    let text = match transform.query {
        Some(text) => text@,
        None => "SELECT * FROM source"@,
    };
    let statement = "    "@ + ("df_"@ + output) + " = spark.sql(\""@ + trimmed(text) + "\")"@;
    let tail = names.map_values(register).push(statement);
    assert(all.map_values(register).push(statement) =~= seq![view_registration(name)] + tail);
    joined_in_sequence(seq![view_registration(name)], tail, "\n"@);
}

/// Columns are renamed one after another, in ascending order of the old names:
/// the first statement reads the source, each other one what was written before.
pub proof fn columns_are_renamed_in_order(
    transform: Transform,
    default_source: Seq<char>,
    names: Seq<Seq<char>>,
    renamed: Seq<(Seq<char>, Seq<char>)>,
)
    requires
        transform.transform_type@ == "rename"@,
        transform.source is Some,
        transform.output is Some,
        ascending_keys(renamed),
        entries_map(renamed) == transform.mapping.texts(),
    ensures
        transform_text(transform, default_source, names) == Ok::<Seq<char>, Seq<char>>(
            joined(
                Seq::new(
                    renamed.len(),
                    |i: int|
                        "    df_"@ + transform.output->0@ + " = df_"@ + (if i == 0 {
                            transform.source->0@
                        } else {
                            transform.output->0@
                        }) + ".withColumnRenamed(\""@ + renamed[i].0 + "\", \""@ + renamed[i].1
                            + "\")"@,
                ),
                "\n"@,
            ),
        ),
{
    kinds_differ();
    sorted_entries_unique(renamed, transform.mapping.texts());
    reveal_strlit("    ");
    reveal_strlit("df_");
    reveal_strlit("    df_");
    reveal_strlit(" = ");
    reveal_strlit(" = df_");
    assert("    df_"@ =~= "    "@ + "df_"@);
    assert(" = df_"@ =~= " = "@ + "df_"@);
    let input = "df_"@ + transform.source->0@;
    let output = "df_"@ + transform.output->0@;
    let lines = sorted_entries(transform.mapping.texts()).map(
        |i: int, names: (Seq<char>, Seq<char>)|
            rename_line(
                output,
                if i == 0 {
                    input
                } else {
                    output
                },
                names,
            ),
    );
    let expected = Seq::new(
        renamed.len(),
        |i: int|
            "    df_"@ + transform.output->0@ + " = df_"@ + (if i == 0 {
                transform.source->0@
            } else {
                transform.output->0@
            }) + ".withColumnRenamed(\""@ + renamed[i].0 + "\", \""@ + renamed[i].1 + "\")"@,
    );
    assert forall|i: int| 0 <= i < renamed.len() implies lines[i] == expected[i] by {
        assert(lines[i] =~= expected[i]);
    }
    assert(lines =~= expected);
}

/// An aggregation groups by the listed columns; its aggregates come in ascending
/// order of their aliases, each with its expression.
pub proof fn aggregates_are_grouped_and_named(
    transform: Transform,
    default_source: Seq<char>,
    names: Seq<Seq<char>>,
    aggs: Seq<(Seq<char>, Seq<char>)>,
)
    requires
        transform.transform_type@ == "aggregate"@,
        transform.source is Some,
        transform.output is Some,
        ascending_keys(aggs),
        entries_map(aggs) == transform.aggs.texts(),
    ensures
        transform_text(transform, default_source, names) == Ok::<Seq<char>, Seq<char>>(
            "    df_"@ + transform.output->0@ + " = df_"@ + transform.source->0@ + ".groupBy("@
                + literal_list(views(transform.group_by@)) + ").agg("@ + joined(
                Seq::new(
                    aggs.len(),
                    |i: int|
                        "F.expr(\""@ + trimmed(aggs[i].1) + "\").alias(\""@ + aggs[i].0 + "\")"@,
                ),
                ", "@,
            ) + ")"@,
        ),
{
    kinds_differ();
    sorted_entries_unique(aggs, transform.aggs.texts());
    reveal_strlit("    ");
    reveal_strlit("df_");
    reveal_strlit("    df_");
    reveal_strlit(" = ");
    reveal_strlit(" = df_");
    assert("    df_"@ =~= "    "@ + "df_"@);
    assert(" = df_"@ =~= " = "@ + "df_"@);
    let exprs = Seq::new(
        aggs.len(),
        |i: int| "F.expr(\""@ + trimmed(aggs[i].1) + "\").alias(\""@ + aggs[i].0 + "\")"@,
    );
    assert(aggs.map_values(|agg: (Seq<char>, Seq<char>)| aggregate_expr(agg)) =~= exprs);
    let text = transform_text(transform, default_source, names)->Ok_0;
    assert(text =~= "    df_"@ + transform.output->0@ + " = df_"@ + transform.source->0@
        + ".groupBy("@ + literal_list(views(transform.group_by@)) + ").agg("@ + joined(exprs, ", "@)
        + ")"@);
}

/// A window function needs a name and an expression. The window is partitioned
/// and ordered by what is listed, where anything is, each column in its own
/// direction; the new column is computed over it.
pub proof fn window_is_built_and_used(
    transform: Transform,
    default_source: Seq<char>,
    names: Seq<Seq<char>>,
)
    requires
        transform.transform_type@ == "window"@,
    ensures
        transform.name is None ==> transform_text(transform, default_source, names) == Err::<
            Seq<char>,
            Seq<char>,
        >("window transform: 'name' is required"@),
        transform.name is Some && transform.expression is None ==> transform_text(
            transform,
            default_source,
            names,
        ) == Err::<Seq<char>, Seq<char>>("window transform: 'expression' is required"@),
        transform.name is Some && transform.expression is Some && transform.source is Some
            && transform.output is Some ==> transform_text(transform, default_source, names)
            == Ok::<Seq<char>, Seq<char>>(
            "    _w_"@ + trimmed(transform.name->0@) + " = Window"@ + (
            if transform.partition_by@.len() == 0 {
                ""@
            } else {
                ".partitionBy("@ + literal_list(views(transform.partition_by@)) + ")"@
            }) + (if transform.order_by@.len() == 0 {
                ""@
            } else {
                ".orderBy("@ + joined(
                    Seq::new(
                        transform.order_by@.len(),
                        |i: int|
                            "F.col(\""@ + transform.order_by@[i].column@ + (
                            if transform.order_by@[i].desc {
                                "\").desc()"@
                            } else {
                                "\").asc()"@
                            }),
                    ),
                    ", "@,
                ) + ")"@
            }) + "\n    df_"@ + transform.output->0@ + " = df_"@ + transform.source->0@
                + ".withColumn(\""@ + trimmed(transform.name->0@) + "\", F.expr(\""@ + trimmed(
                transform.expression->0@,
            ) + "\").over(_w_"@ + trimmed(transform.name->0@) + "))"@,
        ),
{
    kinds_differ();
    if transform.name is Some && transform.expression is Some && transform.source is Some
        && transform.output is Some {
        window_text_is(transform, default_source, names);
    }
}

/// The parts of the directions of an order.
proof fn directions()
    ensures
        "\")."@ + "desc"@ + "()"@ == "\").desc()"@,
        "\")."@ + "asc"@ + "()"@ == "\").asc()"@,
{
    reveal_strlit("\").");
    reveal_strlit("desc");
    reveal_strlit("asc");
    reveal_strlit("()");
    reveal_strlit("\").desc()");
    reveal_strlit("\").asc()");
    assert("\")."@ + "desc"@ + "()"@ =~= "\").desc()"@);
    assert("\")."@ + "asc"@ + "()"@ =~= "\").asc()"@);
}

/// The text of a window function that names all it needs.
proof fn window_text_is(transform: Transform, default_source: Seq<char>, names: Seq<Seq<char>>)
    requires
        transform.transform_type@ == "window"@,
        transform.name is Some,
        transform.expression is Some,
        transform.source is Some,
        transform.output is Some,
    ensures
        transform_text(transform, default_source, names) == Ok::<Seq<char>, Seq<char>>(
            "    _w_"@ + trimmed(transform.name->0@) + " = Window"@ + (
            if transform.partition_by@.len() == 0 {
                ""@
            } else {
                ".partitionBy("@ + literal_list(views(transform.partition_by@)) + ")"@
            }) + (if transform.order_by@.len() == 0 {
                ""@
            } else {
                ".orderBy("@ + joined(
                    Seq::new(
                        transform.order_by@.len(),
                        |i: int|
                            "F.col(\""@ + transform.order_by@[i].column@ + (
                            if transform.order_by@[i].desc {
                                "\").desc()"@
                            } else {
                                "\").asc()"@
                            }),
                    ),
                    ", "@,
                ) + ")"@
            }) + "\n    df_"@ + transform.output->0@ + " = df_"@ + transform.source->0@
                + ".withColumn(\""@ + trimmed(transform.name->0@) + "\", F.expr(\""@ + trimmed(
                transform.expression->0@,
            ) + "\").over(_w_"@ + trimmed(transform.name->0@) + "))"@,
        ),
{
    kinds_differ();
    directions();
    reveal_strlit("");
    reveal_strlit("    ");
    reveal_strlit("df_");
    reveal_strlit("\n    df_");
    reveal_strlit("\n");
    reveal_strlit(" = ");
    reveal_strlit(" = df_");
    reveal_strlit("_w_");
    reveal_strlit("    _w_");
    reveal_strlit("Window");
    reveal_strlit(" = Window");
    reveal_strlit("\").over(");
    reveal_strlit("\").over(_w_");
    assert("    _w_"@ =~= "    "@ + "_w_"@);
    assert("\n    df_"@ =~= "\n"@ + "    "@ + "df_"@);
    assert(" = df_"@ =~= " = "@ + "df_"@);
    assert(" = Window"@ =~= " = "@ + "Window"@);
    assert("\").over(_w_"@ =~= "\").over("@ + "_w_"@);
    let orders = transform.order_by@.map_values(|order: OrderBySpec| order_text(order));
    let expected = Seq::new(
        transform.order_by@.len(),
        |i: int|
            "F.col(\""@ + transform.order_by@[i].column@ + (if transform.order_by@[i].desc {
                "\").desc()"@
            } else {
                "\").asc()"@
            }),
    );
    assert forall|i: int| 0 <= i < orders.len() implies orders[i] == expected[i] by {
        let order = transform.order_by@[i];
        assert(order_text(order) =~= "F.col(\""@ + order.column@ + ("\")."@ + (if order.desc {
            "desc"@
        } else {
            "asc"@
        }) + "()"@));
    }
    assert(orders =~= expected);
    let partition = if transform.partition_by@.len() == 0 {
        ""@
    } else {
        ".partitionBy("@ + literal_list(views(transform.partition_by@)) + ")"@
    };
    let order = if transform.order_by@.len() == 0 {
        ""@
    } else {
        ".orderBy("@ + joined(expected, ", "@) + ")"@
    };
    let name = trimmed(transform.name->0@);
    let text = transform_text(transform, default_source, names)->Ok_0;
    assert(super::transform::window_spec(transform) =~= "Window"@ + partition + order);
    assert(text =~= "    _w_"@ + name + " = Window"@ + partition + order + "\n    df_"@
        + transform.output->0@ + " = df_"@ + transform.source->0@ + ".withColumn(\""@ + name
        + "\", F.expr(\""@ + trimmed(transform.expression->0@) + "\").over(_w_"@ + name + "))"@);
}

/// A type that is not known gives a comment that names it, and no statement.
pub proof fn unknown_type_gives_comment(
    transform: Transform,
    default_source: Seq<char>,
    names: Seq<Seq<char>>,
)
    requires
        !seq![
            "filter"@,
            "sql"@,
            "join"@,
            "drop_columns"@,
            "select"@,
            "rename"@,
            "add_column"@,
            "aggregate"@,
            "window"@,
        ].contains(transform.transform_type@),
    ensures
        transform_text(transform, default_source, names) == Ok::<Seq<char>, Seq<char>>(
            "    # Unsupported transform type: "@ + transform.transform_type@,
        ),
{
    let known = seq![
        "filter"@,
        "sql"@,
        "join"@,
        "drop_columns"@,
        "select"@,
        "rename"@,
        "add_column"@,
        "aggregate"@,
        "window"@,
    ];
    assert(known[0] == "filter"@ && known[1] == "sql"@ && known[2] == "join"@);
    assert(known[3] == "drop_columns"@ && known[4] == "select"@ && known[5] == "rename"@);
    assert(known[6] == "add_column"@ && known[7] == "aggregate"@ && known[8] == "window"@);
}

/// One transform is rendered as it is alone; two lists, one behind the other, are
/// the text of the first, a line break, and that of the second. The first error
/// is the error of all.
pub proof fn transforms_follow_one_another(
    transform: Transform,
    first: Seq<Transform>,
    second: Seq<Transform>,
    default_source: Seq<char>,
    names: Seq<Seq<char>>,
)
    requires
        first.len() > 0,
        second.len() > 0,
    ensures
        transforms_text(seq![transform], default_source, names) == transform_text(
            transform,
            default_source,
            names,
        ),
        transforms_text(first + second, default_source, names) == match transforms_text(
            first,
            default_source,
            names,
        ) {
            Err(message) => Err::<Seq<char>, Seq<char>>(message),
            Ok(text) => match transforms_text(second, default_source, names) {
                Err(message) => Err(message),
                Ok(more) => Ok(text + "\n"@ + more),
            },
        },
{
    let one = seq![transform];
    assert(one.drop_last() =~= Seq::<Transform>::empty());
    assert(transform_texts(one.drop_last(), default_source, names) == Ok::<
        Seq<Seq<char>>,
        Seq<char>,
    >(Seq::empty()));
    if transform_text(transform, default_source, names) is Ok {
        let text = transform_text(transform, default_source, names)->Ok_0;
        assert(Seq::<Seq<char>>::empty().push(text) =~= seq![text]);
    }
    super::laws::transforms_in_sequence(first, second, default_source, names);
    texts_count(first, default_source, names);
    texts_count(second, default_source, names);
    if transform_texts(first, default_source, names) is Ok && transform_texts(
        second,
        default_source,
        names,
    ) is Ok {
        joined_in_sequence(
            transform_texts(first, default_source, names)->Ok_0,
            transform_texts(second, default_source, names)->Ok_0,
            "\n"@,
        );
    }
}

/// Each transform has one text.
proof fn texts_count(list: Seq<Transform>, default_source: Seq<char>, names: Seq<Seq<char>>)
    ensures
        transform_texts(list, default_source, names) matches Ok(texts) ==> texts.len()
            == list.len(),
    decreases list.len(),
{
    if list.len() > 0 {
        texts_count(list.drop_last(), default_source, names);
    }
}

} // verus!
