//! Rendering of PySpark transforms: filter, SQL, join, drop_columns, select,
//! rename, add_column, aggregate and window.

use super::literal::{literal_list, quoted_list};
use super::types::{OrderBySpec, Transform};
use crate::error::{outcome_text, PluginError};
use crate::string_map::{sort_entries, sorted_entries, text_pairs};
use crate::text::{join, joined, same_text, str_or, text_or, trim, trimmed, views};
use vstd::prelude::*;

verus! {

/// The name of the dataframe that a transform reads.
pub open spec fn input_name(transform: Transform, default_source: Seq<char>) -> Seq<char> {
    text_or(transform.source, default_source)
}

/// The name of the dataframe that a transform writes: by default the one it
/// reads.
pub open spec fn output_name(transform: Transform, default_source: Seq<char>) -> Seq<char> {
    text_or(transform.output, input_name(transform, default_source))
}

/// Resolves the variables of the input and the output dataframe of a transform.
pub fn resolve_df(transform: &Transform, default_source: &str) -> (vars: (String, String))
    ensures
        vars.0@ == "df_"@ + input_name(*transform, default_source@),
        vars.1@ == "df_"@ + output_name(*transform, default_source@),
{
    let input: &str = str_or(&transform.source, default_source);
    let output: &str = str_or(&transform.output, input);
    ("df_".to_owned().concat(input), "df_".to_owned().concat(output))
}

/// The start of the statement that assigns a call on the input to the output.
pub open spec fn assignment(transform: Transform, default_source: Seq<char>) -> Seq<char> {
    "    "@ + ("df_"@ + output_name(transform, default_source)) + " = "@ + ("df_"@ + input_name(
        transform,
        default_source,
    ))
}

/// The statement that registers a dataframe as a view under its own name.
pub open spec fn view_registration(name: Seq<char>) -> Seq<char> {
    "    df_"@ + name + ".createOrReplaceTempView(\""@ + name + "\")"@
}

/// A filter: the condition, "True" by default, without surrounding white space.
pub open spec fn filter_text(transform: Transform, default_source: Seq<char>) -> Seq<char> {
    assignment(transform, default_source) + ".filter("@ + trimmed(
        text_or(transform.condition, "True"@),
    ) + ")"@
}

/// An SQL query, behind a registration of every source.
pub open spec fn sql_text(
    transform: Transform,
    default_source: Seq<char>,
    all_source_names: Seq<Seq<char>>,
) -> Seq<char> {
    let query = "    "@ + ("df_"@ + text_or(transform.output, default_source)) + " = spark.sql(\""@
        + trimmed(text_or(transform.query, "SELECT * FROM source"@)) + "\")"@;
    joined(
        all_source_names.map_values(|name: Seq<char>| view_registration(name)).push(query),
        "\n"@,
    )
}

/// A join, for which the right side and the key are required.
pub open spec fn join_text(transform: Transform, default_source: Seq<char>) -> Result<
    Seq<char>,
    Seq<char>,
> {
    let left = text_or(transform.left, default_source);
    match transform.right {
        None => Err("join transform: 'right' is required"@),
        Some(right) => match transform.on {
            None => Err("join transform: 'on' is required"@),
            Some(on) => Ok(
                "    "@ + ("df_"@ + text_or(transform.output, left)) + " = df_"@ + left
                    + ".join(df_"@ + right@ + ", on=\""@ + on@ + "\", how=\""@ + text_or(
                    transform.how,
                    "inner"@,
                ) + "\")"@,
            ),
        },
    }
}

/// A call of a method on the listed columns.
pub open spec fn columns_text(
    transform: Transform,
    default_source: Seq<char>,
    call: Seq<char>,
) -> Seq<char> {
    assignment(transform, default_source) + call + literal_list(views(transform.columns@)) + ")"@
}

/// The renaming of one column of the dataframe `input`.
pub open spec fn rename_line(
    output: Seq<char>,
    input: Seq<char>,
    names: (Seq<char>, Seq<char>),
) -> Seq<char> {
    "    "@ + output + " = "@ + input + ".withColumnRenamed(\""@ + names.0 + "\", \""@ + names.1
        + "\")"@
}

/// One statement for each renamed column, in ascending order of the old names:
/// the first reads the input, the others what the one before wrote.
pub open spec fn rename_text(transform: Transform, default_source: Seq<char>) -> Seq<char> {
    let input = "df_"@ + input_name(transform, default_source);
    let output = "df_"@ + output_name(transform, default_source);
    joined(
        sorted_entries(transform.mapping.texts()).map(
            |i: int, names: (Seq<char>, Seq<char>)|
                rename_line(
                    output,
                    if i == 0 {
                        input
                    } else {
                        output
                    },
                    names,
                ),
        ),
        "\n"@,
    )
}

/// A new column, for which a name is required.
pub open spec fn add_column_text(transform: Transform, default_source: Seq<char>) -> Result<
    Seq<char>,
    Seq<char>,
> {
    match transform.name {
        None => Err("add_column transform: 'name' is required"@),
        Some(name) => Ok(
            assignment(transform, default_source) + ".withColumn(\""@ + trimmed(name@) + "\", "@
                + trimmed(text_or(transform.expression, "lit(None)"@)) + ")"@,
        ),
    }
}

/// The expression of one aggregate under its alias.
pub open spec fn aggregate_expr(agg: (Seq<char>, Seq<char>)) -> Seq<char> {
    "F.expr(\""@ + trimmed(agg.1) + "\").alias(\""@ + agg.0 + "\")"@
}

/// An aggregation; the aggregates come in ascending order of their aliases.
pub open spec fn aggregate_text(transform: Transform, default_source: Seq<char>) -> Seq<char> {
    assignment(transform, default_source) + ".groupBy("@ + literal_list(views(transform.group_by@))
        + ").agg("@ + joined(
        sorted_entries(transform.aggs.texts()).map_values(
            |agg: (Seq<char>, Seq<char>)| aggregate_expr(agg),
        ),
        ", "@,
    ) + ")"@
}

/// The order of one column.
pub open spec fn order_text(order: OrderBySpec) -> Seq<char> {
    "F.col(\""@ + order.column@ + "\")."@ + (if order.desc {
        "desc"@
    } else {
        "asc"@
    }) + "()"@
}

/// The window of a transform: its partition and its order, where it has them.
pub open spec fn window_spec(transform: Transform) -> Seq<char> {
    let partitioned = if transform.partition_by@.len() > 0 {
        "Window"@ + ".partitionBy("@ + literal_list(views(transform.partition_by@)) + ")"@
    } else {
        "Window"@
    };
    if transform.order_by@.len() > 0 {
        partitioned + ".orderBy("@ + joined(
            transform.order_by@.map_values(|order: OrderBySpec| order_text(order)),
            ", "@,
        ) + ")"@
    } else {
        partitioned
    }
}

/// A window function, for which a name and an expression are required: one
/// statement for the window, one for the column over it.
pub open spec fn window_text(transform: Transform, default_source: Seq<char>) -> Result<
    Seq<char>,
    Seq<char>,
> {
    match transform.name {
        None => Err("window transform: 'name' is required"@),
        Some(name) => match transform.expression {
            None => Err("window transform: 'expression' is required"@),
            Some(expr) => {
                let window_var = "_w_"@ + trimmed(name@);
                Ok(
                    ("    "@ + window_var + " = "@ + window_spec(transform)) + "\n"@ + (assignment(
                        transform,
                        default_source,
                    ) + ".withColumn(\""@ + trimmed(name@) + "\", F.expr(\""@ + trimmed(expr@)
                        + "\").over("@ + window_var + "))"@),
                )
            },
        },
    }
}

/// The Python statements of a transform, or the message on what it lacks. A
/// type that is not known gives a comment.
pub open spec fn transform_text(
    transform: Transform,
    default_source: Seq<char>,
    all_source_names: Seq<Seq<char>>,
) -> Result<Seq<char>, Seq<char>> {
    let kind = transform.transform_type@;
    if kind == "filter"@ {
        Ok(filter_text(transform, default_source))
    } else if kind == "sql"@ {
        Ok(sql_text(transform, default_source, all_source_names))
    } else if kind == "join"@ {
        join_text(transform, default_source)
    } else if kind == "drop_columns"@ {
        Ok(columns_text(transform, default_source, ".drop("@))
    } else if kind == "select"@ {
        Ok(columns_text(transform, default_source, ".select("@))
    } else if kind == "rename"@ {
        Ok(rename_text(transform, default_source))
    } else if kind == "add_column"@ {
        add_column_text(transform, default_source)
    } else if kind == "aggregate"@ {
        Ok(aggregate_text(transform, default_source))
    } else if kind == "window"@ {
        window_text(transform, default_source)
    } else {
        Ok("    # Unsupported transform type: "@ + kind)
    }
}

/// The statements of the transforms in order, or the message on the first
/// transform that lacks something.
pub open spec fn transform_texts(
    transforms: Seq<Transform>,
    default_source: Seq<char>,
    all_source_names: Seq<Seq<char>>,
) -> Result<Seq<Seq<char>>, Seq<char>>
    decreases transforms.len(),
{
    if transforms.len() == 0 {
        Ok(Seq::empty())
    } else {
        match transform_texts(transforms.drop_last(), default_source, all_source_names) {
            Err(message) => Err(message),
            Ok(texts) => match transform_text(
                transforms.last(),
                default_source,
                all_source_names,
            ) {
                Err(message) => Err(message),
                Ok(text) => Ok(texts.push(text)),
            },
        }
    }
}

/// The transforms as one block of statements.
pub open spec fn transforms_text(
    transforms: Seq<Transform>,
    default_source: Seq<char>,
    all_source_names: Seq<Seq<char>>,
) -> Result<Seq<char>, Seq<char>> {
    match transform_texts(transforms, default_source, all_source_names) {
        Err(message) => Err(message),
        Ok(texts) => Ok(joined(texts, "\n"@)),
    }
}

/// The start of the statement that assigns a call on the input to the output.
fn render_assignment(transform: &Transform, default_source: &str) -> (text: String)
    ensures
        text@ == assignment(*transform, default_source@),
{
    let (input, output) = resolve_df(transform, default_source);
    "    ".to_owned().concat(output.as_str()).concat(" = ").concat(input.as_str())
}

/// Renders an SQL query, behind a registration of every source.
fn render_sql(
    transform: &Transform,
    default_source: &str,
    all_source_names: &[String],
) -> (text: String)
    ensures
        text@ == sql_text(*transform, default_source@, views(all_source_names@)),
{
    let output_var: String = "df_".to_owned().concat(str_or(&transform.output, default_source));
    let query: &str = trim(str_or(&transform.query, "SELECT * FROM source"));
    let mut lines: Vec<String> = Vec::new();
    for i in 0..all_source_names.len()
        invariant
            lines@.len() == i,
            forall|j: int|
                0 <= j < i ==> (#[trigger] lines@[j])@ == view_registration(all_source_names@[j]@),
    {
        let name: &str = all_source_names[i].as_str();
        lines.push(
            "    df_".to_owned().concat(name).concat(".createOrReplaceTempView(\"").concat(
                name,
            ).concat("\")"),
        );
    }
    let statement: String = "    ".to_owned().concat(output_var.as_str()).concat(
        " = spark.sql(\"",
    ).concat(query).concat("\")");
    lines.push(statement);
    proof {
        assert(views(lines@) =~= views(all_source_names@).map_values(
            |name: Seq<char>| view_registration(name),
        ).push(statement@));
    }
    join(&lines, "\n")
}

/// Renders a join.
fn render_join(transform: &Transform, default_source: &str) -> (text: Result<String, PluginError>)
    ensures
        outcome_text(text) == join_text(*transform, default_source@),
{
    let left: &str = str_or(&transform.left, default_source);
    match &transform.right {
        None => Err(PluginError::new("join transform: 'right' is required".to_owned())),
        Some(right) => match &transform.on {
            None => Err(PluginError::new("join transform: 'on' is required".to_owned())),
            Some(on) => {
                let output_var: String = "df_".to_owned().concat(str_or(&transform.output, left));
                Ok(
                    "    ".to_owned().concat(output_var.as_str()).concat(" = df_").concat(
                        left,
                    ).concat(".join(df_").concat(right.as_str()).concat(", on=\"").concat(
                        on.as_str(),
                    ).concat("\", how=\"").concat(str_or(&transform.how, "inner")).concat("\")"),
                )
            },
        },
    }
}

/// Renders the renamed columns.
fn render_rename(transform: &Transform, default_source: &str) -> (text: String)
    ensures
        text@ == rename_text(*transform, default_source@),
{
    let (input, output) = resolve_df(transform, default_source);
    let entries: Vec<(String, String)> = sort_entries(transform.mapping.to_entries());
    let ghost names = sorted_entries(transform.mapping.texts());
    let mut lines: Vec<String> = Vec::new();
    for i in 0..entries.len()
        invariant
            names == text_pairs(entries@),
            lines@.len() == i,
            forall|j: int|
                0 <= j < i ==> (#[trigger] lines@[j])@ == rename_line(
                    output@,
                    if j == 0 {
                        input@
                    } else {
                        output@
                    },
                    names[j],
                ),
    {
        let from: &str = if i == 0 {
            input.as_str()
        } else {
            output.as_str()
        };
        lines.push(
            "    ".to_owned().concat(output.as_str()).concat(" = ").concat(from).concat(
                ".withColumnRenamed(\"",
            ).concat(entries[i].0.as_str()).concat("\", \"").concat(entries[i].1.as_str()).concat(
                "\")",
            ),
        );
    }
    proof {
        let ghost_input = input@;
        let ghost_output = output@;
        assert(views(lines@) =~= names.map(
            |i: int, names: (Seq<char>, Seq<char>)|
                rename_line(
                    ghost_output,
                    if i == 0 {
                        ghost_input
                    } else {
                        ghost_output
                    },
                    names,
                ),
        ));
    }
    join(&lines, "\n")
}

/// Renders a new column.
fn render_add_column(transform: &Transform, default_source: &str) -> (text: Result<
    String,
    PluginError,
>)
    ensures
        outcome_text(text) == add_column_text(*transform, default_source@),
{
    match &transform.name {
        None => Err(PluginError::new("add_column transform: 'name' is required".to_owned())),
        Some(name) => {
            let expr: &str = trim(str_or(&transform.expression, "lit(None)"));
            Ok(
                render_assignment(transform, default_source).concat(".withColumn(\"").concat(
                    trim(name.as_str()),
                ).concat("\", ").concat(expr).concat(")"),
            )
        },
    }
}

/// Renders an aggregation.
fn render_aggregate(transform: &Transform, default_source: &str) -> (text: String)
    ensures
        text@ == aggregate_text(*transform, default_source@),
{
    let entries: Vec<(String, String)> = sort_entries(transform.aggs.to_entries());
    let ghost aggs = sorted_entries(transform.aggs.texts());
    let mut exprs: Vec<String> = Vec::new();
    for i in 0..entries.len()
        invariant
            aggs == text_pairs(entries@),
            exprs@.len() == i,
            forall|j: int| 0 <= j < i ==> (#[trigger] exprs@[j])@ == aggregate_expr(aggs[j]),
    {
        exprs.push(
            "F.expr(\"".to_owned().concat(trim(entries[i].1.as_str())).concat(
                "\").alias(\"",
            ).concat(entries[i].0.as_str()).concat("\")"),
        );
    }
    proof {
        assert(views(exprs@) =~= aggs.map_values(
            |agg: (Seq<char>, Seq<char>)| aggregate_expr(agg),
        ));
    }
    render_assignment(transform, default_source).concat(".groupBy(").concat(
        quoted_list(transform.group_by.as_slice()).as_str(),
    ).concat(").agg(").concat(join(&exprs, ", ").as_str()).concat(")")
}

/// Renders the window of a transform.
fn render_window_spec(transform: &Transform) -> (text: String)
    ensures
        text@ == window_spec(*transform),
{
    let mut spec_text: String = "Window".to_owned();
    if transform.partition_by.len() > 0 {
        spec_text = spec_text.concat(".partitionBy(").concat(
            quoted_list(transform.partition_by.as_slice()).as_str(),
        ).concat(")");
    }
    if transform.order_by.len() > 0 {
        let mut orders: Vec<String> = Vec::new();
        for i in 0..transform.order_by.len()
            invariant
                orders@.len() == i,
                forall|j: int|
                    0 <= j < i ==> (#[trigger] orders@[j])@ == order_text(transform.order_by@[j]),
        {
            let order: &OrderBySpec = &transform.order_by[i];
            let direction: &str = if order.desc {
                "desc"
            } else {
                "asc"
            };
            orders.push(
                "F.col(\"".to_owned().concat(order.column.as_str()).concat("\").").concat(
                    direction,
                ).concat("()"),
            );
        }
        proof {
            assert(views(orders@) =~= transform.order_by@.map_values(
                |order: OrderBySpec| order_text(order),
            ));
        }
        spec_text = spec_text.concat(".orderBy(").concat(join(&orders, ", ").as_str()).concat(")");
    }
    spec_text
}

/// Renders a window function.
fn render_window(transform: &Transform, default_source: &str) -> (text: Result<
    String,
    PluginError,
>)
    ensures
        outcome_text(text) == window_text(*transform, default_source@),
{
    match &transform.name {
        None => Err(PluginError::new("window transform: 'name' is required".to_owned())),
        Some(name) => match &transform.expression {
            None => Err(PluginError::new("window transform: 'expression' is required".to_owned())),
            Some(expression) => {
                let col_name: &str = trim(name.as_str());
                let expr: &str = trim(expression.as_str());
                let window_var: String = "_w_".to_owned().concat(col_name);
                let line1: String = "    ".to_owned().concat(window_var.as_str()).concat(
                    " = ",
                ).concat(render_window_spec(transform).as_str());
                let line2: String = render_assignment(transform, default_source).concat(
                    ".withColumn(\"",
                ).concat(col_name).concat("\", F.expr(\"").concat(expr).concat("\").over(").concat(
                    window_var.as_str(),
                ).concat("))");
                Ok(line1.concat("\n").concat(line2.as_str()))
            },
        },
    }
}

/// Renders one transform as Python statements, by its `transform_type`.
///
/// Returns an error where a field that the type requires is missing.
pub fn render_transform(
    transform: &Transform,
    default_source: &str,
    all_source_names: &[String],
) -> (text: Result<String, PluginError>)
    ensures
        outcome_text(text) == transform_text(
            *transform,
            default_source@,
            views(all_source_names@),
        ),
{
    let kind: &str = transform.transform_type.as_str();
    if same_text(kind, "filter") {
        let condition: &str = trim(str_or(&transform.condition, "True"));
        Ok(
            render_assignment(transform, default_source).concat(".filter(").concat(
                condition,
            ).concat(")"),
        )
    } else if same_text(kind, "sql") {
        Ok(render_sql(transform, default_source, all_source_names))
    } else if same_text(kind, "join") {
        render_join(transform, default_source)
    } else if same_text(kind, "drop_columns") {
        Ok(
            render_assignment(transform, default_source).concat(".drop(").concat(
                quoted_list(transform.columns.as_slice()).as_str(),
            ).concat(")"),
        )
    } else if same_text(kind, "select") {
        Ok(
            render_assignment(transform, default_source).concat(".select(").concat(
                quoted_list(transform.columns.as_slice()).as_str(),
            ).concat(")"),
        )
    } else if same_text(kind, "rename") {
        Ok(render_rename(transform, default_source))
    } else if same_text(kind, "add_column") {
        render_add_column(transform, default_source)
    } else if same_text(kind, "aggregate") {
        Ok(render_aggregate(transform, default_source))
    } else if same_text(kind, "window") {
        render_window(transform, default_source)
    } else {
        Ok("    # Unsupported transform type: ".to_owned().concat(kind))
    }
}

/// The first error among the transforms is the error of them all.
proof fn transform_error_stays(
    transforms: Seq<Transform>,
    default_source: Seq<char>,
    all_source_names: Seq<Seq<char>>,
    n: int,
)
    requires
        0 <= n <= transforms.len(),
        transform_texts(transforms.take(n), default_source, all_source_names) is Err,
    ensures
        transform_texts(transforms, default_source, all_source_names) == transform_texts(
            transforms.take(n),
            default_source,
            all_source_names,
        ),
    decreases transforms.len() - n,
{
    if n < transforms.len() {
        assert(transforms.take(n + 1).drop_last() =~= transforms.take(n));
        transform_error_stays(transforms, default_source, all_source_names, n + 1);
    } else {
        assert(transforms.take(n) =~= transforms);
    }
}

/// Renders all transforms as one block of Python statements, a line break
/// between neighbours.
///
/// Returns the error of the first transform that lacks a required field.
pub fn render_transforms(
    transforms: &[Transform],
    default_source: &str,
    all_source_names: &[String],
) -> (text: Result<String, PluginError>)
    ensures
        outcome_text(text) == transforms_text(
            transforms@,
            default_source@,
            views(all_source_names@),
        ),
{
    let ghost names = views(all_source_names@);
    let mut rendered: Vec<String> = Vec::new();
    proof {
        assert(views(rendered@) =~= Seq::empty());
        assert(transforms@.take(0) =~= Seq::empty());
    }
    for i in 0..transforms.len()
        invariant
            names == views(all_source_names@),
            transform_texts(transforms@.take(i as int), default_source@, names) == Ok::<
                _,
                Seq<char>,
            >(views(rendered@)),
    {
        let ghost before = views(rendered@);
        proof {
            assert(transforms@.take(i + 1).drop_last() =~= transforms@.take(i as int));
            assert(transforms@.take(i + 1).last() == transforms@[i as int]);
        }
        match render_transform(&transforms[i], default_source, all_source_names) {
            Ok(text) => {
                rendered.push(text);
                proof {
                    assert(views(rendered@) =~= before.push(text@));
                }
            },
            Err(error) => {
                proof {
                    transform_error_stays(transforms@, default_source@, names, i + 1);
                }
                return Err(error);
            },
        }
    }
    proof {
        assert(transforms@.take(transforms@.len() as int) =~= transforms@);
    }
    Ok(join(&rendered, "\n"))
}

} // verus!
