//! What the renderers return, and how one call of them relates to another.

use super::helpers::{
    auth_texts, default_engine_for, default_engine_text, derive_jdbc_url, effective_engine,
    fills_nulls, has_api_source, has_iceberg_sink, has_jdbc_auth, import_text, indent_body,
    indented, jdbc_auth, jdbc_url, needs_dynamic_frame_import, needs_functions_import,
    needs_jdbc_auth_imports, needs_pii_imports,
    needs_requests_import, needs_secrets_imports, needs_window_import, partition_text,
    reads_secret, render_import, render_imports, render_jdbc_auth, render_partition_derivation,
    render_rds_iam_token_fetch, render_secret_fetch, require_str, secret_fetch_lines,
    should_fill_nulls, token_fetch_lines, uses_dynamic_frame, uses_functions,
};
use super::literal::{
    append_spark_options, dict_literal, dict_text, json_texts, literal_list, option_calls,
    python_literal, python_str_literal, python_text, quoted_list, seed_literals, seed_pairs,
    str_literal,
};
use super::options::build_options_dict;
use super::pii::{pii_lines, render_pii};
use super::sink::{
    iceberg_table_properties, render_sink, require_sink_str, sink_text, table_properties,
};
use super::transform::{
    render_transform, render_transforms, resolve_df, transform_text, transforms_text,
};
use super::types::{Import, JdbcAuth, JobConfig, RdsIamAuth, Sink, Source, Transform};
use crate::error::{outcome_text, PluginError};
use crate::json::Json;
use crate::string_map::{distinct_keys, entries_map, text_pairs, StringMap};
use crate::text::{joined, lines_of, opt_text, str_text, views};
use vstd::prelude::*;

verus! {

/// A sink is rendered from its own fields, the source by default, the choice to
/// fill nulls and the catalog.
pub proof fn sink_is_rendered(
    sink: &Sink,
    default_source: &str,
    fill_nulls: bool,
    catalog_id: Option<&str>,
    text: Result<String, PluginError>,
)
    requires
        call_ensures(render_sink, (sink, default_source, fill_nulls, catalog_id), text),
    ensures
        outcome_text(text) == sink_text(
            *sink,
            default_source@,
            fill_nulls,
            match catalog_id {
                Some(id) => Some(id@),
                None => None,
            },
        ),
{
}

/// A transform and a list of transforms are rendered from their own fields, the
/// source by default and the names of all sources; the list that holds one
/// transform is rendered as that transform.
pub proof fn transforms_are_rendered(
    transforms: &[Transform],
    default_source: &str,
    all_source_names: &[String],
    one: Result<String, PluginError>,
    all: Result<String, PluginError>,
)
    requires
        transforms@.len() == 1,
        call_ensures(
            render_transform,
            (&transforms@[0], default_source, all_source_names),
            one,
        ),
        call_ensures(render_transforms, (transforms, default_source, all_source_names), all),
    ensures
        outcome_text(one) == transform_text(
            transforms@[0],
            default_source@,
            views(all_source_names@),
        ),
        outcome_text(all) == transforms_text(
            transforms@,
            default_source@,
            views(all_source_names@),
        ),
        outcome_text(all) == outcome_text(one),
{
    let head = transforms@.drop_last();
    assert(head =~= Seq::<Transform>::empty());
    reveal_with_fuel(super::transform::transform_texts, 2);
    if let Ok(text) = one {
        assert(Seq::<Seq<char>>::empty().push(text@) =~= seq![text@]);
        crate::text_laws::joined_few(text@, "\n"@);
    }
}

/// The dataframes of a transform: it reads the one that it names, else the default,
/// and writes the one that it names, else the one it reads.
pub proof fn dataframes_are_resolved(
    transform: &Transform,
    default_source: &str,
    vars: (String, String),
)
    requires
        call_ensures(resolve_df, (transform, default_source), vars),
    ensures
        vars.0@ == "df_"@ + match transform.source {
            Some(source) => source@,
            None => default_source@,
        },
        transform.output matches Some(output) ==> vars.1@ == "df_"@ + output@,
        transform.output is None ==> vars.1@ == vars.0@,
{
}

/// The engine of a source is its own, else the default.
pub proof fn engine_is_the_own_or_default(
    source: &Source,
    default_engine: &str,
    engine: String,
    config: &JobConfig,
    default: String,
)
    requires
        call_ensures(effective_engine, (source, default_engine), engine),
        call_ensures(default_engine_for, (config,), default),
    ensures
        engine@ == match source.engine {
            Some(own) => own@,
            None => default_engine@,
        },
        default@ == default_engine_text(*config),
{
}

/// A field that is required is given back where it is there; where it is not, the
/// error names it, and the source or the type of the sink.
pub proof fn missing_fields_are_named<'a>(
    value: Option<&'a str>,
    owner: &str,
    field: &str,
    of_source: Result<&'a str, PluginError>,
    of_sink: Result<&'a str, PluginError>,
)
    requires
        call_ensures(require_str, (value, owner, field), of_source),
        call_ensures(require_sink_str, (value, owner, field), of_sink),
    ensures
        match value {
            Some(text) => of_source == Ok::<&'a str, PluginError>(text) && of_sink == Ok::<
                &'a str,
                PluginError,
            >(text),
            None => {
                &&& of_source matches Err(error) && error.message@ == "source '"@ + owner@ + "': '"@
                    + field@ + "' is required"@
                &&& of_sink matches Err(error) && error.message@ == "sink: '"@ + field@
                    + "' is required for "@ + owner@ + " sink"@
            },
        },
{
}

/// Imports are rendered one by one, each on a line of its own.
pub proof fn imports_have_a_line_each(imports: &[Import], i: int, one: String, all: String)
    requires
        0 <= i < imports@.len(),
        call_ensures(render_import, (&imports@[i],), one),
        call_ensures(render_imports, (imports,), all),
    ensures
        one@ == import_text(imports@[i]),
        all@ == joined(
            Seq::new(imports@.len(), |k: int| import_text(imports@[k])),
            "\n"@,
        ),
{
    assert(imports@.map_values(|import: Import| import_text(import)) =~= Seq::new(
        imports@.len(),
        |k: int| import_text(imports@[k]),
    ));
}

/// A secret and a token are fetched by their lines, for the prefix, the id, the
/// instance and the user given.
pub proof fn fetches_are_rendered(
    secret_id: &str,
    prefix: &str,
    rds: &RdsIamAuth,
    user: &str,
    secret: String,
    token: Vec<String>,
)
    requires
        call_ensures(render_secret_fetch, (secret_id, prefix), secret),
        call_ensures(render_rds_iam_token_fetch, (prefix, rds, user), token),
    ensures
        secret@ == joined(secret_fetch_lines(secret_id@, prefix@), "\n"@),
        views(token@) == token_fetch_lines(prefix@, *rds, user@),
{
}

/// The URL is made of the instance, the type and the database; the credentials of
/// the prefix come from the secret or the authentication.
pub proof fn connection_is_rendered(
    auth: &JdbcAuth,
    connection_type: &str,
    database: &str,
    prefix: &str,
    secret_id: Option<&str>,
    url: String,
    with: Option<(String, String, Vec<String>)>,
    without: Option<(String, String, Vec<String>)>,
)
    requires
        call_ensures(derive_jdbc_url, (auth, connection_type, database), url),
        call_ensures(render_jdbc_auth, (prefix, secret_id, Some(auth)), with),
        call_ensures(render_jdbc_auth, (prefix, secret_id, None), without),
    ensures
        url@ == jdbc_url(*auth, connection_type@, database@),
        auth_texts(with) == jdbc_auth(prefix@, str_text(secret_id), Some(*auth)),
        auth_texts(without) == jdbc_auth(prefix@, str_text(secret_id), None),
        without is Some <==> secret_id is Some,
{
}

/// Each import that a script may need is asked for by its own test.
pub proof fn needs_are_told(
    config: &JobConfig,
    default_engine: &str,
    secrets: bool,
    auth: bool,
    functions: bool,
    window: bool,
    frames: bool,
    requests: bool,
    pii: bool,
)
    requires
        call_ensures(needs_secrets_imports, (config,), secrets),
        call_ensures(needs_jdbc_auth_imports, (config,), auth),
        call_ensures(needs_functions_import, (config,), functions),
        call_ensures(needs_window_import, (config,), window),
        call_ensures(needs_dynamic_frame_import, (config, default_engine), frames),
        call_ensures(needs_requests_import, (config,), requests),
        call_ensures(needs_pii_imports, (config,), pii),
    ensures
        secrets == reads_secret(*config),
        auth == has_jdbc_auth(*config),
        functions == uses_functions(*config),
        window <==> exists|i: int|
            0 <= i < config.transforms@.len() && (#[trigger] config.transforms@[i]).transform_type@
                == "window"@,
        frames == uses_dynamic_frame(*config, default_engine@),
        requests == has_api_source(*config),
        pii <==> config.mask_pii@.len() > 0 && config.body is None && config.job_file is None,
{
}

/// Nulls are only filled for an Iceberg sink.
pub proof fn nulls_need_an_iceberg_sink(config: &JobConfig, iceberg: bool, fill: bool)
    requires
        call_ensures(has_iceberg_sink, (config,), iceberg),
        call_ensures(should_fill_nulls, (config,), fill),
    ensures
        iceberg <==> (config.sink matches Some(sink) && sink.sink_type@ == "iceberg"@),
        fill == fills_nulls(*config),
        fill ==> iceberg,
{
}

/// The partition columns of a job are rendered over the dataframe of the sink's
/// source; there are none exactly where the job has no units.
pub proof fn partition_columns_are_rendered(
    config: &JobConfig,
    sink_source: &str,
    rendered: Result<Option<String>, PluginError>,
)
    requires
        call_ensures(render_partition_derivation, (config, sink_source), rendered),
    ensures
        match rendered {
            Ok(text) => partition_text(*config, sink_source@) == Ok::<_, Seq<char>>(opt_text(text)),
            Err(error) => partition_text(*config, sink_source@) == Err::<Option<Seq<char>>, _>(
                error.message@,
            ),
        },
        (rendered matches Ok(text) && text is None) <==> config.partition_by@.len() == 0,
{
}

/// A body is indented line by line.
pub proof fn bodies_are_indented(body: &str, text: String)
    requires
        call_ensures(indent_body, (body,), text),
    ensures
        text@ == joined(
            Seq::new(lines_of(body@).len(), |i: int| indented(lines_of(body@)[i])),
            "\n"@,
        ),
{
    assert(lines_of(body@).map_values(|line: Seq<char>| indented(line)) =~= Seq::new(
        lines_of(body@).len(),
        |i: int| indented(lines_of(body@)[i]),
    ));
}

/// Literals are those of the texts, lists and values given.
pub proof fn literals_are_rendered(
    s: &str,
    columns: &[String],
    value: &Json,
    members: Vec<(String, String)>,
    text: String,
    list: String,
    literal: String,
    dict: String,
)
    requires
        distinct_keys(text_pairs(members@)),
        call_ensures(python_str_literal, (s,), text),
        call_ensures(quoted_list, (columns,), list),
        call_ensures(python_literal, (value,), literal),
        call_ensures(dict_literal, (members,), dict),
    ensures
        text@ == str_literal(s@),
        list@ == literal_list(views(columns@)),
        literal@ == python_text(*value),
        dict@ == dict_text(entries_map(text_pairs(members@))),
{
}

/// Option calls are appended to a chain: those of the seed, then those of the user.
pub proof fn options_are_appended(
    chain: &mut String,
    seed: &[(&str, &str)],
    extra: &StringMap<Json>,
)
    requires
        call_ensures(append_spark_options, (chain, seed, extra), ()),
    ensures
        final(chain)@ == old(chain)@ + option_calls(
            seed_literals(seed@) + json_texts(extra.pairs()),
        ),
{
    let first = seed_literals(seed@);
    let second = json_texts(extra.pairs());
    super::fragment_laws::options_follow_one_another(Seq::empty(), Seq::empty(), first, second);
    assert(old(chain)@ + option_calls(first) + option_calls(second) =~= old(chain)@ + (option_calls(
        first,
    ) + option_calls(second)));
}

/// The options of a dictionary are the seed and then those of the user.
pub proof fn options_are_merged(seed: &[(&str, Json)], user_opts: &StringMap<Json>, dict: String)
    requires
        call_ensures(build_options_dict, (seed, user_opts), dict),
    ensures
        dict@ == dict_text(entries_map(json_texts(seed_pairs(seed@) + user_opts.pairs()))),
{
}

/// The masking block is that of the entities, over the dataframe given.
pub proof fn masking_is_rendered(mask_pii: &[String], source_var: &str, text: String)
    requires
        call_ensures(render_pii, (mask_pii, source_var), text),
    ensures
        text@ == joined(pii_lines(views(mask_pii@), source_var@), "\n"@),
{
}

/// The properties of a new table are those listed, in order.
pub proof fn properties_are_listed(properties: Vec<(&'static str, &'static str)>, i: int)
    requires
        call_ensures(iceberg_table_properties, (), properties),
    ensures
        properties@.len() == table_properties().len(),
        0 <= i < properties@.len() ==> table_properties()[i] == (
            properties@[i].0@,
            properties@[i].1@,
        ),
{
    let texts = properties@.map_values(
        |property: (&'static str, &'static str)| (property.0@, property.1@),
    );
    assert(texts.len() == properties@.len());
    if 0 <= i < properties@.len() {
        assert(texts[i] == (properties@[i].0@, properties@[i].1@));
    }
}

} // verus!
