//! What holds of the validation of job definitions, rule by rule, and of the schema
//! in terms of what is validated and rendered.

use super::schema::{schema_fields, sink_types, source_types};
use super::types::ErrorText;
use super::validate::{
    bookmark_values, definition_errors, definition_rules, error_of_a_rule, error_text, errors_of,
    glue_versions, worker_types, RuleText,
};
use crate::json::Json;
use crate::text::joined;
use vstd::prelude::*;

verus! {

/// Some error is about the field.
pub open spec fn is_reported(errors: Seq<ErrorText>, field: Seq<char>) -> bool {
    exists|i: int| 0 <= i < errors.len() && (#[trigger] errors[i]).field == field
}

/// Every error about the field says this.
pub open spec fn is_told(errors: Seq<ErrorText>, field: Seq<char>, message: Seq<char>) -> bool {
    forall|i: int|
        0 <= i < errors.len() && (#[trigger] errors[i]).field == field ==> errors[i].message
            == message
}

/// The fields that rules are about, in the order of the rules.
pub open spec fn rule_fields() -> Seq<Seq<char>> {
    seq![
        "job_name"@,
        "role"@,
        "glue.script_bucket"@,
        "glue.worker_type"@,
        "glue.number_of_workers"@,
        "glue.glue_version"@,
        "glue.timeout"@,
        "glue.max_retries"@,
        "glue.bookmark"@,
        "glue.connections"@,
        "glue.default_arguments"@,
    ]
}

/// The fields are all different.
proof fn fields_differ()
    ensures
        rule_fields().no_duplicates(),
{
    reveal_strlit("job_name");
    reveal_strlit("role");
    reveal_strlit("glue.script_bucket");
    reveal_strlit("glue.worker_type");
    reveal_strlit("glue.number_of_workers");
    reveal_strlit("glue.glue_version");
    reveal_strlit("glue.timeout");
    reveal_strlit("glue.max_retries");
    reveal_strlit("glue.bookmark");
    reveal_strlit("glue.connections");
    reveal_strlit("glue.default_arguments");
    assert("job_name"@.len() == 8 && "role"@.len() == 4 && "glue.script_bucket"@.len() == 18);
    assert("glue.worker_type"@.len() == 16 && "glue.number_of_workers"@.len() == 22);
    assert("glue.glue_version"@.len() == 17 && "glue.timeout"@.len() == 12);
    assert("glue.max_retries"@.len() == 16 && "glue.bookmark"@.len() == 13);
    assert("glue.connections"@.len() == 16 && "glue.default_arguments"@.len() == 22);
    assert("glue.worker_type"@[5] == 'w' && "glue.max_retries"@[5] == 'm');
    assert("glue.connections"@[5] == 'c' && "glue.number_of_workers"@[5] == 'n');
    assert("glue.default_arguments"@[5] == 'd');
    let fields = rule_fields();
    assert(fields[0] == "job_name"@ && fields[1] == "role"@ && fields[2] == "glue.script_bucket"@);
    assert(fields[3] == "glue.worker_type"@ && fields[4] == "glue.number_of_workers"@);
    assert(fields[5] == "glue.glue_version"@ && fields[6] == "glue.timeout"@);
    assert(fields[7] == "glue.max_retries"@ && fields[8] == "glue.bookmark"@);
    assert(fields[9] == "glue.connections"@ && fields[10] == "glue.default_arguments"@);
    assert forall|i: int, j: int| 0 <= i < fields.len() && 0 <= j < fields.len() && i
        != j implies fields[i] != fields[j] by {
        if i < j {
            fields_differ_at(i, j);
        } else {
            fields_differ_at(j, i);
        }
    }
}

/// Two of the fields are different.
proof fn fields_differ_at(i: int, j: int)
    requires
        0 <= i < j < 11,
    ensures
        rule_fields()[i] != rule_fields()[j],
{
    reveal_strlit("job_name");
    reveal_strlit("role");
    reveal_strlit("glue.script_bucket");
    reveal_strlit("glue.worker_type");
    reveal_strlit("glue.number_of_workers");
    reveal_strlit("glue.glue_version");
    reveal_strlit("glue.timeout");
    reveal_strlit("glue.max_retries");
    reveal_strlit("glue.bookmark");
    reveal_strlit("glue.connections");
    reveal_strlit("glue.default_arguments");
    let fields = rule_fields();
    let lengths = seq![8int, 4, 18, 16, 22, 17, 12, 16, 13, 16, 22];
    assert(fields[0].len() == 8 && fields[1].len() == 4 && fields[2].len() == 18);
    assert(fields[3].len() == 16 && fields[4].len() == 22 && fields[5].len() == 17);
    assert(fields[6].len() == 12 && fields[7].len() == 16 && fields[8].len() == 13);
    assert(fields[9].len() == 16 && fields[10].len() == 22);
    assert(forall|k: int| 0 <= k < 11 ==> #[trigger] fields[k].len() == lengths[k]);
    assert(fields[3][5] == 'w' && fields[7][5] == 'm' && fields[9][5] == 'c');
    assert(fields[4][5] == 'n' && fields[10][5] == 'd');
}

/// A broken rule gives its error.
proof fn broken_rule_is_reported(rules: Seq<RuleText>, j: int) -> (i: int)
    requires
        0 <= j < rules.len(),
        rules[j].broken,
    ensures
        0 <= i < errors_of(rules).len(),
        errors_of(rules)[i] == error_text(rules[j].field, rules[j].message),
    decreases rules.len(),
{
    let head = rules.drop_last();
    if j < head.len() {
        broken_rule_is_reported(head, j)
    } else {
        errors_of(head).len() as int
    }
}

/// Of rules about different fields, each decides alone on its field.
proof fn rule_decides_its_field(rules: Seq<RuleText>, fields: Seq<Seq<char>>, j: int)
    requires
        rules.len() <= fields.len(),
        fields.no_duplicates(),
        forall|k: int| 0 <= k < rules.len() ==> (#[trigger] rules[k]).field == fields[k],
        0 <= j < rules.len(),
    ensures
        is_reported(errors_of(rules), fields[j]) <==> rules[j].broken,
        is_told(errors_of(rules), fields[j], rules[j].message),
{
    let errors = errors_of(rules);
    if rules[j].broken {
        let i = broken_rule_is_reported(rules, j);
        assert(errors[i].field == fields[j]);
    }
    assert forall|i: int| 0 <= i < errors.len() && (#[trigger] errors[i]).field
        == fields[j] implies errors[i].message == rules[j].message && rules[j].broken by {
        let k = error_of_a_rule(rules, i);
        assert(fields[k] == fields[j]);
        assert(k == j);
    }
}

/// The rules of a definition are about the fields, in order.
proof fn rules_are_about_fields(job_name: Seq<char>, job_config: Json)
    ensures
        ({
            let rules = definition_rules(job_name, job_config);
            &&& rules.len() <= rule_fields().len()
            &&& forall|k: int|
                0 <= k < rules.len() ==> (#[trigger] rules[k]).field == rule_fields()[k]
            &&& job_config.member("glue"@) is Some ==> rules.len() == 11
            &&& job_config.member("glue"@) is None ==> rules.len() == 3
        }),
{
    let rules = definition_rules(job_name, job_config);
    let fields = rule_fields();
    assert(rules[0].field == fields[0] && rules[1].field == fields[1] && rules[2].field
        == fields[2]);
    if job_config.member("glue"@) is Some {
        assert(rules[3].field == fields[3] && rules[4].field == fields[4]);
        assert(rules[5].field == fields[5] && rules[6].field == fields[6]);
        assert(rules[7].field == fields[7] && rules[8].field == fields[8]);
        assert(rules[9].field == fields[9] && rules[10].field == fields[10]);
    }
}

/// A name is reported exactly when it has more than 255 characters.
pub proof fn long_names_are_reported(job_name: Seq<char>, job_config: Json)
    ensures
        is_reported(definition_errors(job_name, job_config), "job_name"@) <==> job_name.len() > 255,
        is_told(
            definition_errors(job_name, job_config),
            "job_name"@,
            "job name exceeds AWS limit of 255 characters"@,
        ),
{
    fields_differ();
    rules_are_about_fields(job_name, job_config);
    rule_decides_its_field(definition_rules(job_name, job_config), rule_fields(), 0);
}

/// A role is reported exactly when it is no string, or an empty one.
pub proof fn missing_roles_are_reported(job_name: Seq<char>, job_config: Json)
    ensures
        is_reported(definition_errors(job_name, job_config), "role"@) <==> match job_config.member(
            "role"@,
        ) {
            Some(Json::Str(role)) => role@.len() == 0,
            _ => true,
        },
        is_told(
            definition_errors(job_name, job_config),
            "role"@,
            "Glue jobs require a \"role\" (execution role ARN)"@,
        ),
{
    fields_differ();
    rules_are_about_fields(job_name, job_config);
    rule_decides_its_field(definition_rules(job_name, job_config), rule_fields(), 1);
}

/// A script bucket is reported exactly when there is no block, or it is no string
/// there, or an empty one.
pub proof fn missing_buckets_are_reported(job_name: Seq<char>, job_config: Json)
    ensures
        is_reported(definition_errors(job_name, job_config), "glue.script_bucket"@)
            <==> match job_config.member("glue"@) {
            Some(block) => match block.member("script_bucket"@) {
                Some(Json::Str(bucket)) => bucket@.len() == 0,
                _ => true,
            },
            None => true,
        },
        is_told(
            definition_errors(job_name, job_config),
            "glue.script_bucket"@,
            "script_bucket is required"@,
        ),
{
    fields_differ();
    rules_are_about_fields(job_name, job_config);
    rule_decides_its_field(definition_rules(job_name, job_config), rule_fields(), 2);
}

/// Worker types, Glue versions and bookmark settings are reported exactly when they
/// are strings that are none of the valid ones, each with its value and those.
pub proof fn invalid_choices_are_reported(job_name: Seq<char>, job_config: Json, block: Json)
    requires
        job_config.member("glue"@) == Some(block),
    ensures
        is_reported(definition_errors(job_name, job_config), "glue.worker_type"@)
            <==> match block.member("worker_type"@) {
            Some(Json::Str(text)) => text@ != "G.025X"@ && text@ != "G.1X"@ && text@ != "G.2X"@
                && text@ != "G.4X"@ && text@ != "G.8X"@ && text@ != "Z.2X"@,
            _ => false,
        },
        block.member("worker_type"@) matches Some(Json::Str(text)) ==> is_told(
            definition_errors(job_name, job_config),
            "glue.worker_type"@,
            "invalid "@ + "worker_type"@ + " \""@ + text@ + "\"; valid values: "@
                + "G.025X, G.1X, G.2X, G.4X, G.8X, Z.2X"@,
        ),
        is_reported(definition_errors(job_name, job_config), "glue.glue_version"@)
            <==> match block.member("glue_version"@) {
            Some(Json::Str(text)) => text@ != "3.0"@ && text@ != "4.0"@ && text@ != "5.0"@,
            _ => false,
        },
        block.member("glue_version"@) matches Some(Json::Str(text)) ==> is_told(
            definition_errors(job_name, job_config),
            "glue.glue_version"@,
            "invalid "@ + "glue_version"@ + " \""@ + text@ + "\"; valid values: "@
                + "3.0, 4.0, 5.0"@,
        ),
        is_reported(definition_errors(job_name, job_config), "glue.bookmark"@)
            <==> match block.member("bookmark"@) {
            Some(Json::Str(text)) => text@ != "enabled"@ && text@ != "disabled"@,
            _ => false,
        },
        block.member("bookmark"@) matches Some(Json::Str(text)) ==> is_told(
            definition_errors(job_name, job_config),
            "glue.bookmark"@,
            "invalid "@ + "bookmark"@ + " \""@ + text@ + "\"; valid values: "@
                + "enabled, disabled"@,
        ),
{
    fields_differ();
    rules_are_about_fields(job_name, job_config);
    let rules = definition_rules(job_name, job_config);
    rule_decides_its_field(rules, rule_fields(), 3);
    rule_decides_its_field(rules, rule_fields(), 5);
    rule_decides_its_field(rules, rule_fields(), 8);
    valid_lists();
}

/// The valid choices, and how they are listed.
proof fn valid_lists()
    ensures
        forall|text: Seq<char>| #[trigger]
            worker_types().contains(text) <==> text == "G.025X"@ || text == "G.1X"@ || text
                == "G.2X"@ || text == "G.4X"@ || text == "G.8X"@ || text == "Z.2X"@,
        forall|text: Seq<char>| #[trigger]
            glue_versions().contains(text) <==> text == "3.0"@ || text == "4.0"@ || text == "5.0"@,
        forall|text: Seq<char>| #[trigger]
            bookmark_values().contains(text) <==> text == "enabled"@ || text == "disabled"@,
        joined(worker_types(), ", "@) == "G.025X, G.1X, G.2X, G.4X, G.8X, Z.2X"@,
        joined(glue_versions(), ", "@) == "3.0, 4.0, 5.0"@,
        joined(bookmark_values(), ", "@) == "enabled, disabled"@,
{
    let types = worker_types();
    assert(types[0] == "G.025X"@ && types[1] == "G.1X"@ && types[2] == "G.2X"@);
    assert(types[3] == "G.4X"@ && types[4] == "G.8X"@ && types[5] == "Z.2X"@);
    let versions = glue_versions();
    assert(versions[0] == "3.0"@ && versions[1] == "4.0"@ && versions[2] == "5.0"@);
    let settings = bookmark_values();
    assert(settings[0] == "enabled"@ && settings[1] == "disabled"@);
    reveal_with_fuel(joined, 7);
    reveal_strlit(", ");
    reveal_strlit("G.025X");
    reveal_strlit("G.1X");
    reveal_strlit("G.2X");
    reveal_strlit("G.4X");
    reveal_strlit("G.8X");
    reveal_strlit("Z.2X");
    reveal_strlit("G.025X, G.1X, G.2X, G.4X, G.8X, Z.2X");
    reveal_strlit("3.0");
    reveal_strlit("4.0");
    reveal_strlit("5.0");
    reveal_strlit("3.0, 4.0, 5.0");
    reveal_strlit("enabled");
    reveal_strlit("disabled");
    reveal_strlit("enabled, disabled");
    assert(joined(types, ", "@) =~= "G.025X, G.1X, G.2X, G.4X, G.8X, Z.2X"@);
    assert(joined(versions, ", "@) =~= "3.0, 4.0, 5.0"@);
    assert(joined(settings, ", "@) =~= "enabled, disabled"@);
}

/// Numbers are reported exactly when they are integers out of their range: workers
/// below one, a timeout out of one to 10080 minutes, retries below zero.
pub proof fn numbers_out_of_range_are_reported(job_name: Seq<char>, job_config: Json, block: Json)
    requires
        job_config.member("glue"@) == Some(block),
    ensures
        is_reported(definition_errors(job_name, job_config), "glue.number_of_workers"@)
            <==> match block.member_integer("number_of_workers"@) {
            Some(n) => n < 1,
            None => false,
        },
        is_told(
            definition_errors(job_name, job_config),
            "glue.number_of_workers"@,
            "must be at least 1"@,
        ),
        is_reported(definition_errors(job_name, job_config), "glue.timeout"@)
            <==> match block.member_integer("timeout"@) {
            Some(n) => !(1 <= n <= 10080),
            None => false,
        },
        is_told(
            definition_errors(job_name, job_config),
            "glue.timeout"@,
            "must be between 1 and 10080 minutes (7 days)"@,
        ),
        is_reported(definition_errors(job_name, job_config), "glue.max_retries"@)
            <==> match block.member_integer("max_retries"@) {
            Some(n) => n < 0,
            None => false,
        },
        is_told(
            definition_errors(job_name, job_config),
            "glue.max_retries"@,
            "cannot be negative"@,
        ),
{
    fields_differ();
    rules_are_about_fields(job_name, job_config);
    let rules = definition_rules(job_name, job_config);
    rule_decides_its_field(rules, rule_fields(), 4);
    rule_decides_its_field(rules, rule_fields(), 6);
    rule_decides_its_field(rules, rule_fields(), 7);
}

/// Connections are reported exactly when they are there and no array, arguments
/// when they are there and no object.
pub proof fn wrong_containers_are_reported(job_name: Seq<char>, job_config: Json, block: Json)
    requires
        job_config.member("glue"@) == Some(block),
    ensures
        is_reported(definition_errors(job_name, job_config), "glue.connections"@)
            <==> match block.member("connections"@) {
            Some(Json::Array(_)) => false,
            Some(_) => true,
            None => false,
        },
        is_told(
            definition_errors(job_name, job_config),
            "glue.connections"@,
            "must be an array of strings"@,
        ),
        is_reported(definition_errors(job_name, job_config), "glue.default_arguments"@)
            <==> match block.member("default_arguments"@) {
            Some(Json::Object(_)) => false,
            Some(_) => true,
            None => false,
        },
        is_told(
            definition_errors(job_name, job_config),
            "glue.default_arguments"@,
            "must be a map of string keys to string values"@,
        ),
{
    fields_differ();
    rules_are_about_fields(job_name, job_config);
    let rules = definition_rules(job_name, job_config);
    rule_decides_its_field(rules, rule_fields(), 9);
    rule_decides_its_field(rules, rule_fields(), 10);
}

/// Without a block, nothing but the name, the role and the script bucket is
/// reported.
pub proof fn nothing_else_without_block(job_name: Seq<char>, job_config: Json, field: Seq<char>)
    requires
        job_config.member("glue"@) is None,
        is_reported(definition_errors(job_name, job_config), field),
    ensures
        field == "job_name"@ || field == "role"@ || field == "glue.script_bucket"@,
{
    rules_are_about_fields(job_name, job_config);
    let errors = definition_errors(job_name, job_config);
    let i = choose|i: int| 0 <= i < errors.len() && (#[trigger] errors[i]).field == field;
    let k = error_of_a_rule(definition_rules(job_name, job_config), i);
    assert(rule_fields()[k] == field);
}

/// Where in the rules the errors come from, in ascending order.
proof fn errors_keep_the_order(rules: Seq<RuleText>, i: int, j: int) -> (at: (int, int))
    requires
        0 <= i < j < errors_of(rules).len(),
    ensures
        0 <= at.0 < at.1 < rules.len(),
        errors_of(rules)[i].field == rules[at.0].field,
        errors_of(rules)[j].field == rules[at.1].field,
    decreases rules.len(),
{
    let head = rules.drop_last();
    if j < errors_of(head).len() {
        errors_keep_the_order(head, i, j)
    } else {
        let a = error_of_a_rule(head, i);
        (a, rules.len() - 1)
    }
}

/// Errors come in the order of the fields: no field is reported twice, and none
/// before one that stands in front of it.
pub proof fn errors_come_in_order(job_name: Seq<char>, job_config: Json, i: int, j: int) -> (at: (
    int,
    int,
))
    requires
        0 <= i < j < definition_errors(job_name, job_config).len(),
    ensures
        0 <= at.0 < at.1 < 11,
        definition_errors(job_name, job_config)[i].field == rule_fields()[at.0],
        definition_errors(job_name, job_config)[j].field == rule_fields()[at.1],
{
    rules_are_about_fields(job_name, job_config);
    errors_keep_the_order(definition_rules(job_name, job_config), i, j)
}

/// The schema says of each field that is validated what it is validated as:
/// choices and names are strings, counts are integers, connections are an array
/// and arguments an object.
pub proof fn schema_says_what_is_validated()
    ensures
        schema_fields().len() == 12,
        schema_fields()[0].name == "region"@ && schema_fields()[0].field_type == "string"@,
        schema_fields()[1].name == "script_bucket"@ && schema_fields()[1].field_type == "string"@,
        schema_fields()[2].name == "script_prefix"@ && schema_fields()[2].field_type == "string"@,
        schema_fields()[3].name == "worker_type"@ && schema_fields()[3].field_type == "string"@,
        schema_fields()[4].name == "glue_version"@ && schema_fields()[4].field_type == "string"@,
        schema_fields()[5].name == "number_of_workers"@ && schema_fields()[5].field_type
            == "integer"@,
        schema_fields()[6].name == "timeout"@ && schema_fields()[6].field_type == "integer"@,
        schema_fields()[7].name == "max_retries"@ && schema_fields()[7].field_type == "integer"@,
        schema_fields()[8].name == "max_concurrent_runs"@ && schema_fields()[8].field_type
            == "integer"@,
        schema_fields()[9].name == "bookmark"@ && schema_fields()[9].field_type == "string"@,
        schema_fields()[10].name == "connections"@ && schema_fields()[10].field_type == "array"@,
        schema_fields()[11].name == "default_arguments"@ && schema_fields()[11].field_type
            == "object"@,
        schema_fields()[0].description == "AWS region"@,
        schema_fields()[1].description == "S3 bucket for generated scripts"@,
        schema_fields()[2].description == "S3 key prefix for scripts"@,
        schema_fields()[3].description == "Glue worker type"@,
        schema_fields()[4].description == "Glue ETL version"@,
        schema_fields()[5].description == "Number of Glue workers"@,
        schema_fields()[6].description == "Job timeout in minutes"@,
        schema_fields()[7].description == "Maximum retry attempts"@,
        schema_fields()[8].description == "Max concurrent job runs"@,
        schema_fields()[9].description == "Job bookmark setting"@,
        schema_fields()[10].description == "Glue connection names"@,
        schema_fields()[11].description == "Default job arguments"@,
{
}

/// The supported sink types are those that render as more than a comment, and the
/// supported source types are the five that a job can read.
pub proof fn supported_types_are_rendered(kind: Seq<char>)
    ensures
        sink_types().contains(kind) <==> kind == "s3"@ || kind == "jdbc"@ || kind == "catalog"@
            || kind == "iceberg"@,
        source_types().contains(kind) <==> kind == "s3"@ || kind == "jdbc"@ || kind == "catalog"@
            || kind == "kafka"@ || kind == "api"@,
        sink_types().len() == 4,
        source_types().len() == 5,
{
    let sinks = sink_types();
    assert(sinks[0] == "s3"@ && sinks[1] == "jdbc"@ && sinks[2] == "catalog"@ && sinks[3]
        == "iceberg"@);
    let sources = source_types();
    assert(sources[0] == "s3"@ && sources[1] == "jdbc"@ && sources[2] == "catalog"@ && sources[3]
        == "kafka"@ && sources[4] == "api"@);
}

} // verus!
