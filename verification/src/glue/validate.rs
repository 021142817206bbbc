//! The rules that a job definition must keep.

use super::schema::schema_fields;
use super::types::{error_texts, ErrorText, PluginValidationError};
use crate::json::Json;
use crate::text::{chars_of, holds_text, join, joined, owned_texts};
use vstd::prelude::*;

verus! {

/// The valid worker types.
pub open spec fn worker_types() -> Seq<Seq<char>> {
    seq!["G.025X"@, "G.1X"@, "G.2X"@, "G.4X"@, "G.8X"@, "Z.2X"@]
}

/// The valid bookmark settings.
pub open spec fn bookmark_values() -> Seq<Seq<char>> {
    seq!["enabled"@, "disabled"@]
}

/// The valid Glue versions.
pub open spec fn glue_versions() -> Seq<Seq<char>> {
    seq!["3.0"@, "4.0"@, "5.0"@]
}

/// An error of severity "error".
pub open spec fn error_text(field: Seq<char>, message: Seq<char>) -> ErrorText {
    ErrorText { field, message, severity: "error"@ }
}

/// A rule that was held against a job definition.
#[derive(Debug)]
struct Rule {
    broken: bool,
    /// The field that the rule is about.
    field: String,
    /// What is said of the field where the rule is broken.
    message: String,
}

/// A rule as texts.
#[verifier::ext_equal]
pub struct RuleText {
    pub broken: bool,
    pub field: Seq<char>,
    pub message: Seq<char>,
}

impl View for Rule {
    type V = RuleText;

    closed spec fn view(&self) -> RuleText {
        RuleText { broken: self.broken, field: self.field@, message: self.message@ }
    }
}

/// The rules as texts.
spec fn rule_texts(rules: Seq<Rule>) -> Seq<RuleText> {
    rules.map_values(|rule: Rule| rule@)
}

/// A rule as texts.
pub open spec fn rule_text(broken: bool, field: Seq<char>, message: Seq<char>) -> RuleText {
    RuleText { broken, field, message }
}

/// The errors of the rules that are broken, in the order of the rules.
pub open spec fn errors_of(rules: Seq<RuleText>) -> Seq<ErrorText>
    decreases rules.len(),
{
    if rules.len() == 0 {
        Seq::empty()
    } else if rules.last().broken {
        errors_of(rules.drop_last()).push(error_text(rules.last().field, rules.last().message))
    } else {
        errors_of(rules.drop_last())
    }
}

/// The member is a string that is not empty.
pub open spec fn has_text(value: Json, key: Seq<char>) -> bool {
    value.member_string(key) matches Some(text) && text.len() > 0
}

/// The member is a string, and none of those in `valid`.
pub open spec fn is_invalid_choice(value: Json, key: Seq<char>, valid: Seq<Seq<char>>) -> bool {
    value.member_string(key) matches Some(text) && !valid.contains(text)
}

/// The message on a string that is none of those in `valid`; nothing where there
/// is no string.
pub open spec fn choice_message(
    key: Seq<char>,
    value: Option<Seq<char>>,
    valid: Seq<Seq<char>>,
) -> Seq<char> {
    match value {
        Some(text) => "invalid "@ + key + " \""@ + text + "\"; valid values: "@ + joined(
            valid,
            ", "@,
        ),
        None => Seq::empty(),
    }
}

/// The rule that the member `key`, where it is a string, is one of those in
/// `valid`.
pub open spec fn choice_rule(
    block: Json,
    key: Seq<char>,
    field: Seq<char>,
    valid: Seq<Seq<char>>,
) -> RuleText {
    rule_text(
        is_invalid_choice(block, key, valid),
        field,
        choice_message(key, block.member_string(key), valid),
    )
}

/// The member is an integer below `low`.
pub open spec fn is_below(value: Json, key: Seq<char>, low: int) -> bool {
    value.member_integer(key) matches Some(n) && n < low
}

/// The member is an integer above `high`.
pub open spec fn is_above(value: Json, key: Seq<char>, high: int) -> bool {
    value.member_integer(key) matches Some(n) && n > high
}

/// The rules of the `glue` block.
pub open spec fn block_rules(block: Json) -> Seq<RuleText> {
    seq![
        rule_text(
            !has_text(block, "script_bucket"@),
            "glue.script_bucket"@,
            "script_bucket is required"@,
        ),
        choice_rule(block, "worker_type"@, "glue.worker_type"@, worker_types()),
        rule_text(
            is_below(block, "number_of_workers"@, 1),
            "glue.number_of_workers"@,
            "must be at least 1"@,
        ),
        choice_rule(block, "glue_version"@, "glue.glue_version"@, glue_versions()),
        rule_text(
            is_below(block, "timeout"@, 1) || is_above(block, "timeout"@, 10080),
            "glue.timeout"@,
            "must be between 1 and 10080 minutes (7 days)"@,
        ),
        rule_text(is_below(block, "max_retries"@, 0), "glue.max_retries"@, "cannot be negative"@),
        choice_rule(block, "bookmark"@, "glue.bookmark"@, bookmark_values()),
        rule_text(
            block.member("connections"@) matches Some(value) && value !is Array,
            "glue.connections"@,
            "must be an array of strings"@,
        ),
        rule_text(
            block.member("default_arguments"@) matches Some(value) && value !is Object,
            "glue.default_arguments"@,
            "must be a map of string keys to string values"@,
        ),
    ]
}

/// The rules of a job definition, in order. Without a `glue` block, what is
/// missing is the script bucket. The length of the name counts in characters.
pub open spec fn definition_rules(job_name: Seq<char>, job_config: Json) -> Seq<RuleText> {
    seq![
        rule_text(
            job_name.len() > 255,
            "job_name"@,
            "job name exceeds AWS limit of 255 characters"@,
        ),
        rule_text(
            !has_text(job_config, "role"@),
            "role"@,
            "Glue jobs require a \"role\" (execution role ARN)"@,
        ),
    ] + match job_config.member("glue"@) {
        Some(block) => block_rules(block),
        None => seq![rule_text(true, "glue.script_bucket"@, "script_bucket is required"@)],
    }
}

/// The errors of a job definition: those of its broken rules, in order.
pub open spec fn definition_errors(job_name: Seq<char>, job_config: Json) -> Seq<ErrorText> {
    errors_of(definition_rules(job_name, job_config))
}

/// An error of severity "error".
pub fn validation_error(field: &str, message: &str) -> (error: PluginValidationError)
    ensures
        error@ == error_text(field@, message@),
{
    PluginValidationError {
        field: field.to_owned(),
        message: message.to_owned(),
        severity: "error".to_owned(),
    }
}

/// A rule that was held against a job definition.
fn rule(broken: bool, field: &str, message: &str) -> (rule: Rule)
    ensures
        rule@ == rule_text(broken, field@, message@),
{
    Rule { broken, field: field.to_owned(), message: message.to_owned() }
}

/// The errors of the rules that are broken, in the order of the rules.
fn report(rules: &Vec<Rule>) -> (errors: Vec<PluginValidationError>)
    ensures
        error_texts(errors@) == errors_of(rule_texts(rules@)),
{
    let ghost texts = rule_texts(rules@);
    let mut errors: Vec<PluginValidationError> = Vec::new();
    proof {
        assert(error_texts(errors@) =~= errors_of(texts.take(0)));
    }
    for i in 0..rules.len()
        invariant
            texts == rule_texts(rules@),
            error_texts(errors@) == errors_of(texts.take(i as int)),
    {
        proof {
            assert(texts.take(i + 1).drop_last() =~= texts.take(i as int));
            assert(texts.take(i + 1).last() == rules@[i as int]@);
        }
        if rules[i].broken {
            let ghost before = errors@;
            let error: PluginValidationError = validation_error(
                rules[i].field.as_str(),
                rules[i].message.as_str(),
            );
            errors.push(error);
            proof {
                assert(error_texts(errors@) =~= error_texts(before).push(error@));
            }
        }
    }
    proof {
        assert(texts.take(rules@.len() as int) =~= texts);
    }
    errors
}

/// Whether the member is a string that is not empty.
pub fn holds_nonempty(value: &Json, key: &str) -> (held: bool)
    ensures
        held == has_text(*value, key@),
{
    match value.get_str(key) {
        Some(text) => !text.is_empty(),
        None => false,
    }
}

/// The rule that the member `key`, where it is a string, is one of those in
/// `valid`.
fn check_choice(block: &Json, key: &str, field: &str, valid: &Vec<&str>) -> (checked: Rule)
    ensures
        checked@ == choice_rule(*block, key@, field@, valid@.map_values(|item: &str| item@)),
{
    match block.get_str(key) {
        Some(value) => {
            let message: String = "invalid ".to_owned().concat(key).concat(" \"").concat(
                value,
            ).concat("\"; valid values: ").concat(join(&owned_texts(valid), ", ").as_str());
            rule(!holds_text(valid, value), field, message.as_str())
        },
        None => Rule { broken: false, field: field.to_owned(), message: String::new() },
    }
}

/// Whether the member is an integer below `low` or above `high`.
fn is_outside(block: &Json, key: &str, low: i64, high: i64) -> (outside: bool)
    ensures
        outside == (is_below(*block, key@, low as int) || is_above(*block, key@, high as int)),
{
    match block.get_i64(key) {
        Some(n) => n < low || n > high,
        None => false,
    }
}

/// Holds the rules of the `glue` block against it.
fn check_block(block: &Json) -> (rules: Vec<Rule>)
    ensures
        rule_texts(rules@) == block_rules(*block),
{
    let types: Vec<&str> = vec!["G.025X", "G.1X", "G.2X", "G.4X", "G.8X", "Z.2X"];
    let versions: Vec<&str> = vec!["3.0", "4.0", "5.0"];
    let bookmarks: Vec<&str> = vec!["enabled", "disabled"];
    proof {
        assert(types@.map_values(|item: &str| item@) =~= worker_types());
        assert(versions@.map_values(|item: &str| item@) =~= glue_versions());
        assert(bookmarks@.map_values(|item: &str| item@) =~= bookmark_values());
    }
    let bad_connections: bool = match block.get("connections") {
        Some(value) => !value.is_array(),
        None => false,
    };
    let bad_arguments: bool = match block.get("default_arguments") {
        Some(value) => !value.is_object(),
        None => false,
    };
    let rules: Vec<Rule> = vec![
        rule(
            !holds_nonempty(block, "script_bucket"),
            "glue.script_bucket",
            "script_bucket is required",
        ),
        check_choice(block, "worker_type", "glue.worker_type", &types),
        rule(
            is_outside(block, "number_of_workers", 1, i64::MAX),
            "glue.number_of_workers",
            "must be at least 1",
        ),
        check_choice(block, "glue_version", "glue.glue_version", &versions),
        rule(
            is_outside(block, "timeout", 1, 10080),
            "glue.timeout",
            "must be between 1 and 10080 minutes (7 days)",
        ),
        rule(
            is_outside(block, "max_retries", 0, i64::MAX),
            "glue.max_retries",
            "cannot be negative",
        ),
        check_choice(block, "bookmark", "glue.bookmark", &bookmarks),
        rule(bad_connections, "glue.connections", "must be an array of strings"),
        rule(
            bad_arguments,
            "glue.default_arguments",
            "must be a map of string keys to string values",
        ),
    ];
    proof {
        assert(rule_texts(rules@) =~= block_rules(*block));
    }
    rules
}

/// The errors of a job definition, in order.
pub fn validate_definition(job_name: &str, job_config: &Json) -> (errors: Vec<
    PluginValidationError,
>)
    ensures
        error_texts(errors@) == definition_errors(job_name@, *job_config),
{
    let mut rules: Vec<Rule> = vec![
        rule(
            chars_of(job_name).len() > 255,
            "job_name",
            "job name exceeds AWS limit of 255 characters",
        ),
        rule(
            !holds_nonempty(job_config, "role"),
            "role",
            "Glue jobs require a \"role\" (execution role ARN)",
        ),
    ];
    let ghost first = rules@;
    let mut more: Vec<Rule> = match job_config.get("glue") {
        Some(block) => check_block(block),
        None => vec![rule(true, "glue.script_bucket", "script_bucket is required")],
    };
    let ghost second = more@;
    rules.append(&mut more);
    proof {
        assert(job_config.member("glue"@) is None ==> rule_texts(second) =~= seq![
            rule_text(true, "glue.script_bucket"@, "script_bucket is required"@),
        ]);
        assert(rule_texts(rules@) =~= rule_texts(first) + rule_texts(second));
        assert(rule_texts(rules@) =~= definition_rules(job_name@, *job_config));
    }
    report(&rules)
}

/// What a job definition must be to pass.
pub open spec fn is_valid_definition(job_name: Seq<char>, job_config: Json) -> bool {
    &&& job_name.len() <= 255
    &&& has_text(job_config, "role"@)
    &&& job_config.member("glue"@) is Some
    &&& is_valid_block(job_config.member("glue"@)->0)
}

/// What a `glue` block must be to pass.
pub open spec fn is_valid_block(block: Json) -> bool {
    &&& has_text(block, "script_bucket"@)
    &&& block.member_string("worker_type"@) matches Some(text) ==> worker_types().contains(text)
    &&& block.member_integer("number_of_workers"@) matches Some(n) ==> 1 <= n
    &&& block.member_string("glue_version"@) matches Some(text) ==> glue_versions().contains(text)
    &&& block.member_integer("timeout"@) matches Some(n) ==> 1 <= n <= 10080
    &&& block.member_integer("max_retries"@) matches Some(n) ==> 0 <= n
    &&& block.member_string("bookmark"@) matches Some(text) ==> bookmark_values().contains(text)
    &&& block.member("connections"@) matches Some(value) ==> value is Array
    &&& block.member("default_arguments"@) matches Some(value) ==> value is Object
}

/// There are no errors exactly when no rule is broken.
proof fn no_errors_when_none_broken(rules: Seq<RuleText>)
    ensures
        errors_of(rules).len() == 0 <==> forall|i: int|
            0 <= i < rules.len() ==> !(#[trigger] rules[i]).broken,
    decreases rules.len(),
{
    if rules.len() > 0 {
        let head = rules.drop_last();
        no_errors_when_none_broken(head);
        assert(rules.last() == rules[rules.len() - 1]);
        assert(forall|i: int| 0 <= i < head.len() ==> #[trigger] head[i] == rules[i]);
        assert(forall|i: int| 0 <= i < head.len() ==> #[trigger] rules[i] == head[i]);
    }
}

/// Each error is that of a broken rule.
pub proof fn error_of_a_rule(rules: Seq<RuleText>, i: int) -> (j: int)
    requires
        0 <= i < errors_of(rules).len(),
    ensures
        0 <= j < rules.len(),
        rules[j].broken,
        errors_of(rules)[i] == error_text(rules[j].field, rules[j].message),
    decreases rules.len(),
{
    if i < errors_of(rules.drop_last()).len() {
        error_of_a_rule(rules.drop_last(), i)
    } else {
        rules.len() - 1
    }
}

/// A `glue` block breaks none of its rules exactly when it is valid.
proof fn no_block_rule_broken(block: Json)
    ensures
        (forall|i: int| 0 <= i < block_rules(block).len() ==> !(#[trigger] block_rules(
            block,
        )[i]).broken) <==> is_valid_block(block),
{
    let rules = block_rules(block);
    assert(rules.len() == 9);
    if forall|i: int| 0 <= i < rules.len() ==> !(#[trigger] rules[i]).broken {
        assert(!rules[0].broken && !rules[1].broken && !rules[2].broken);
        assert(!rules[3].broken && !rules[4].broken && !rules[5].broken);
        assert(!rules[6].broken && !rules[7].broken && !rules[8].broken);
    }
}

/// A job definition gives no errors exactly when it is valid.
pub proof fn no_errors_when_valid(job_name: Seq<char>, job_config: Json)
    ensures
        definition_errors(job_name, job_config).len() == 0 <==> is_valid_definition(
            job_name,
            job_config,
        ),
{
    let rules = definition_rules(job_name, job_config);
    no_errors_when_none_broken(rules);
    match job_config.member("glue"@) {
        Some(block) => {
            no_block_rule_broken(block);
            let inner = block_rules(block);
            assert(forall|i: int| 0 <= i < inner.len() ==> #[trigger] inner[i] == rules[i + 2]);
            assert(forall|i: int| 2 <= i < rules.len() ==> #[trigger] rules[i] == inner[i - 2]);
            assert(rules[0].broken <==> job_name.len() > 255);
            assert(rules[1].broken <==> !has_text(job_config, "role"@));
        },
        None => {
            assert(rules[2].broken);
        },
    }
}

/// The field is `glue.` and the name of a field of the schema.
pub open spec fn names_schema_field(field: Seq<char>) -> bool {
    exists|i: int|
        0 <= i < schema_fields().len() && field == "glue."@ + (#[trigger] schema_fields()[i]).name
}

/// The names of the fields that the rules of the block are about.
proof fn block_fields_are_in_schema()
    ensures
        names_schema_field("glue.script_bucket"@),
        names_schema_field("glue.worker_type"@),
        names_schema_field("glue.number_of_workers"@),
        names_schema_field("glue.glue_version"@),
        names_schema_field("glue.timeout"@),
        names_schema_field("glue.max_retries"@),
        names_schema_field("glue.bookmark"@),
        names_schema_field("glue.connections"@),
        names_schema_field("glue.default_arguments"@),
{
    let fields = schema_fields();
    reveal_strlit("glue.");
    reveal_strlit("glue.script_bucket");
    reveal_strlit("script_bucket");
    assert("glue.script_bucket"@ =~= "glue."@ + fields[1].name);
    reveal_strlit("glue.worker_type");
    reveal_strlit("worker_type");
    assert("glue.worker_type"@ =~= "glue."@ + fields[3].name);
    reveal_strlit("glue.glue_version");
    reveal_strlit("glue_version");
    assert("glue.glue_version"@ =~= "glue."@ + fields[4].name);
    reveal_strlit("glue.number_of_workers");
    reveal_strlit("number_of_workers");
    assert("glue.number_of_workers"@ =~= "glue."@ + fields[5].name);
    reveal_strlit("glue.timeout");
    reveal_strlit("timeout");
    assert("glue.timeout"@ =~= "glue."@ + fields[6].name);
    reveal_strlit("glue.max_retries");
    reveal_strlit("max_retries");
    assert("glue.max_retries"@ =~= "glue."@ + fields[7].name);
    reveal_strlit("glue.bookmark");
    reveal_strlit("bookmark");
    assert("glue.bookmark"@ =~= "glue."@ + fields[9].name);
    reveal_strlit("glue.connections");
    reveal_strlit("connections");
    assert("glue.connections"@ =~= "glue."@ + fields[10].name);
    reveal_strlit("glue.default_arguments");
    reveal_strlit("default_arguments");
    assert("glue.default_arguments"@ =~= "glue."@ + fields[11].name);
}

/// Every error of a job definition is of severity "error", and is about the name
/// of the job, its role, or a field of the schema.
pub proof fn errors_name_known_fields(job_name: Seq<char>, job_config: Json, i: int)
    requires
        0 <= i < definition_errors(job_name, job_config).len(),
    ensures
        definition_errors(job_name, job_config)[i].severity == "error"@,
        ({
            let field = definition_errors(job_name, job_config)[i].field;
            field == "job_name"@ || field == "role"@ || names_schema_field(field)
        }),
{
    block_fields_are_in_schema();
    let rules = definition_rules(job_name, job_config);
    let j = error_of_a_rule(rules, i);
    if j >= 2 {
        match job_config.member("glue"@) {
            Some(block) => {
                assert(rules[j] == block_rules(block)[j - 2]);
            },
            None => {},
        }
    }
}

} // verus!
