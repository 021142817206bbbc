//! What holds of the rendered fragments as a whole.

use super::helpers::{
    calendar_function, fills_nulls, has_transform, iceberg_sink, masks_pii, partition_columns,
    uses_dynamic_frame, uses_functions,
};
use super::literal::{
    dict_text, escape, escaped, item_texts, json_texts, member_texts, member_texts_are_json_texts,
    python_text, str_literal,
};
use super::options::merged_options;
use super::transform::{aggregate_text, rename_text, transform_text, transform_texts};
use super::types::{JobConfig, Transform};
use crate::json::{same_items, same_json, same_members, Json};
use crate::string_map::entries_map;
use crate::text::{opt_text, views};
use vstd::prelude::*;

verus! {

/// The character that a Python escape with one letter stands for, of those that
/// the renderers write.
pub open spec fn escape_value(letter: char) -> Option<char> {
    if letter == '\\' {
        Some('\\')
    } else if letter == '"' {
        Some('"')
    } else if letter == 'n' {
        Some('\n')
    } else if letter == 'r' {
        Some('\r')
    } else if letter == 't' {
        Some('\t')
    } else {
        None
    }
}

/// The text that stands between the quotes of a Python string literal, as Python
/// reads it: a backslash begins an escape, and neither a quote nor the end of a
/// line may occur bare.
pub open spec fn read_body(body: Seq<char>) -> Option<Seq<char>>
    decreases body.len(),
{
    if body.len() == 0 {
        Some(Seq::empty())
    } else if body[0] == '\\' {
        if body.len() < 2 {
            None
        } else {
            match (escape_value(body[1]), read_body(body.skip(2))) {
                (Some(c), Some(rest)) => Some(seq![c] + rest),
                _ => None,
            }
        }
    } else if body[0] == '"' || body[0] == '\n' || body[0] == '\r' {
        None
    } else {
        match read_body(body.skip(1)) {
            Some(rest) => Some(seq![body[0]] + rest),
            None => None,
        }
    }
}

/// The text that a Python string literal in double quotes stands for, where it
/// is one.
pub open spec fn read_literal(literal: Seq<char>) -> Option<Seq<char>> {
    if literal.len() >= 2 && literal[0] == '"' && literal.last() == '"' {
        read_body(literal.subrange(1, literal.len() - 1))
    } else {
        None
    }
}

/// The literal for an empty text is a pair of quotes, and one character more is
/// one more before the closing quote: a backslash and a quote behind a backslash,
/// the end of a line, a carriage return and a tab as escapes with a letter, and any
/// other as it is.
pub proof fn characters_are_escaped_one_by_one(s: Seq<char>, c: char)
    ensures
        str_literal(Seq::empty()) == seq!['"', '"'],
        str_literal(s.push(c)) == str_literal(s).drop_last() + (if c == '\\' || c == '"' {
            seq!['\\', c]
        } else if c == '\n' {
            seq!['\\', 'n']
        } else if c == '\r' {
            seq!['\\', 'r']
        } else if c == '\t' {
            seq!['\\', 't']
        } else {
            seq![c]
        }) + seq!['"'],
{
    assert(escaped(Seq::empty()) =~= Seq::<char>::empty());
    assert(s.push(c).drop_last() =~= s);
    assert(str_literal(s).drop_last() =~= seq!['"'] + escaped(s));
    assert(escaped(s.push(c)) =~= escaped(s) + escape(c));
    assert(str_literal(s.push(c)) =~= str_literal(s).drop_last() + escape(c) + seq!['"']);
}

/// The escaped text begins with the escaped first character.
proof fn escaped_first(s: Seq<char>)
    requires
        s.len() > 0,
    ensures
        escaped(s) == escape(s[0]) + escaped(s.skip(1)),
    decreases s.len(),
{
    if s.len() == 1 {
        assert(s.drop_last() =~= Seq::<char>::empty());
        assert(s.skip(1) =~= Seq::<char>::empty());
        assert(escaped(s) =~= escape(s[0]) + escaped(s.skip(1)));
    } else {
        let head = s.drop_last();
        escaped_first(head);
        assert(head.skip(1) =~= s.skip(1).drop_last());
        assert(escaped(s) =~= escape(s[0]) + (escaped(head.skip(1)) + escape(s.last())));
    }
}

/// Reading the body of a literal gives back the text.
proof fn body_reads_back(s: Seq<char>)
    ensures
        read_body(escaped(s)) == Some(s),
    decreases s.len(),
{
    if s.len() > 0 {
        escaped_first(s);
        let rest = escaped(s.skip(1));
        body_reads_back(s.skip(1));
        let body = escaped(s);
        let width = escape(s[0]).len() as int;
        assert(body.skip(width) =~= rest);
        assert(body[0] == escape(s[0])[0]);
        if width == 2 {
            assert(body[1] == escape(s[0])[1]);
        }
        assert(seq![s[0]] + s.skip(1) =~= s);
    } else {
        assert(s =~= Seq::<char>::empty());
    }
}

/// A text written as a Python string literal is read back as the same text.
pub proof fn literal_reads_back(s: Seq<char>)
    ensures
        read_literal(str_literal(s)) == Some(s),
{
    let literal = str_literal(s);
    assert(literal.subrange(1, literal.len() - 1) =~= escaped(s));
    assert(literal.last() == '"');
    body_reads_back(s);
}

/// Different texts have different literals.
pub proof fn literals_differ(one: Seq<char>, other: Seq<char>)
    requires
        str_literal(one) == str_literal(other),
    ensures
        one == other,
{
    literal_reads_back(one);
    literal_reads_back(other);
}

/// A character that is none of those that are escaped, and no letter of an
/// escape, is in the escaped text exactly when it is in the text.
proof fn escaped_contains(s: Seq<char>, c: char)
    requires
        c != '\\' && c != '"' && c != 'n' && c != 'r' && c != 't',
    ensures
        escaped(s).contains(c) <==> s.contains(c) && c != '\n' && c != '\r' && c != '\t',
    decreases s.len(),
{
    if s.len() > 0 {
        let head = s.drop_last();
        let tail = escape(s.last());
        escaped_contains(head, c);
        let body = escaped(s);
        if body.contains(c) {
            let i = choose|i: int| 0 <= i < body.len() && body[i] == c;
            if i < escaped(head).len() {
                assert(escaped(head)[i] == c);
                assert(head.contains(c));
                let j = choose|j: int| 0 <= j < head.len() && head[j] == c;
                assert(s[j] == c);
            } else {
                assert(tail[i - escaped(head).len()] == c);
                assert(s[s.len() - 1] == c);
            }
        }
        if s.contains(c) && c != '\n' && c != '\r' && c != '\t' {
            let j = choose|j: int| 0 <= j < s.len() && s[j] == c;
            if j < head.len() {
                assert(head[j] == c);
                assert(escaped(head).contains(c));
                let i = choose|i: int| 0 <= i < escaped(head).len() && escaped(head)[i] == c;
                assert(body[i] == c);
            } else {
                assert(tail[0] == c);
                assert(body[escaped(head).len() as int] == c);
            }
        }
    }
}

/// A Python string literal stands on one line, and holds no tab.
pub proof fn literal_is_one_line(s: Seq<char>)
    ensures
        !str_literal(s).contains('\n'),
        !str_literal(s).contains('\r'),
        !str_literal(s).contains('\t'),
{
    escaped_contains(s, '\n');
    escaped_contains(s, '\r');
    escaped_contains(s, '\t');
    let literal = str_literal(s);
    assert forall|c: char| c != '"' && !escaped(s).contains(c) implies !#[trigger] literal.contains(
        c,
    ) by {
        if literal.contains(c) {
            let i = choose|i: int| 0 <= i < literal.len() && literal[i] == c;
            assert(escaped(s)[i - 1] == c);
        }
    }
}

/// A Python string literal holds the null character, which Python does not take
/// in its source, only where the text holds it.
pub proof fn literal_holds_null(s: Seq<char>)
    ensures
        str_literal(s).contains('\0') <==> s.contains('\0'),
{
    escaped_contains(s, '\0');
    let literal = str_literal(s);
    if literal.contains('\0') {
        let i = choose|i: int| 0 <= i < literal.len() && literal[i] == '\0';
        assert(escaped(s)[i - 1] == '\0');
    }
    if escaped(s).contains('\0') {
        let i = choose|i: int| 0 <= i < escaped(s).len() && escaped(s)[i] == '\0';
        assert(literal[i + 1] == '\0');
    }
}

/// Python takes the literal: it reads as a text, stands on one line and holds no
/// null character.
pub open spec fn is_python_literal(literal: Seq<char>) -> bool {
    &&& read_literal(literal) is Some
    &&& !literal.contains('\n')
    &&& !literal.contains('\r')
    &&& !literal.contains('\0')
}

/// The literal of a text without the null character is one that Python takes.
pub proof fn literal_is_valid(s: Seq<char>)
    requires
        !s.contains('\0'),
    ensures
        is_python_literal(str_literal(s)),
{
    literal_reads_back(s);
    literal_is_one_line(s);
    literal_holds_null(s);
}

/// Values that are the same have the same Python literal.
pub proof fn same_values_same_literal(one: Json, other: Json)
    requires
        same_json(one, other),
    ensures
        python_text(one) == python_text(other),
    decreases one,
{
    match one {
        Json::Array(items) => {
            same_item_texts(one, other, items@.len());
        },
        Json::Object(members) => {
            same_member_texts(one, other, members.pairs().len());
        },
        _ => {},
    }
}

/// Items that are the same have the same Python literals.
proof fn same_item_texts(one: Json, other: Json, n: nat)
    requires
        one is Array,
        other is Array,
        n <= one->Array_0@.len(),
        one->Array_0@.len() == other->Array_0@.len(),
        same_items(one, other, n),
    ensures
        item_texts(one, n) == item_texts(other, n),
    decreases one, n,
{
    if n > 0 {
        same_item_texts(one, other, (n - 1) as nat);
        same_values_same_literal(one->Array_0@[n - 1], other->Array_0@[n - 1]);
    }
}

/// Members that are the same have the same Python literals.
proof fn same_member_texts(one: Json, other: Json, n: nat)
    requires
        one is Object,
        other is Object,
        n <= one->Object_0.pairs().len(),
        one->Object_0.pairs().len() == other->Object_0.pairs().len(),
        same_members(one, other, n),
    ensures
        member_texts(one, n) == member_texts(other, n),
    decreases one, n,
{
    if n > 0 {
        one->Object_0.pairs_decrease(n - 1);
        same_member_texts(one, other, (n - 1) as nat);
        same_values_same_literal(
            one->Object_0.pairs()[n - 1].1,
            other->Object_0.pairs()[n - 1].1,
        );
    }
}

/// The map of the rendered entries is the map of the entries, rendered.
pub proof fn rendered_entries(pairs: Seq<(Seq<char>, Json)>)
    ensures
        entries_map(json_texts(pairs)) == entries_map(pairs).map_values(
            |value: Json| python_text(value),
        ),
    decreases pairs.len(),
{
    if pairs.len() > 0 {
        let head = pairs.drop_last();
        rendered_entries(head);
        assert(json_texts(pairs).drop_last() =~= json_texts(head));
    }
    assert(entries_map(json_texts(pairs)) =~= entries_map(pairs).map_values(
        |value: Json| python_text(value),
    ));
}

/// The Python literal of an object is the dictionary of its rendered members.
pub proof fn object_text(object: Json)
    requires
        object is Object,
    ensures
        python_text(object) == dict_text(
            object->Object_0@.map_values(|value: Json| python_text(value)),
        ),
{
    let pairs = object->Object_0.pairs();
    member_texts_are_json_texts(object, pairs.len());
    assert(pairs.take(pairs.len() as int) =~= pairs);
    rendered_entries(pairs);
}

/// The Python literal of an object does not depend on the order in which its
/// members are walked.
pub proof fn object_text_ignores_walk(one: Json, other: Json)
    requires
        one is Object,
        other is Object,
        one->Object_0@ == other->Object_0@,
    ensures
        python_text(one) == python_text(other),
{
    object_text(one);
    object_text(other);
}

/// In merged options, what the user gave goes before the seed; no option is lost
/// and none is added.
pub proof fn user_options_go_first(
    seed: Seq<(Seq<char>, Json)>,
    user_opts: Seq<(Seq<char>, Json)>,
)
    ensures
        entries_map(merged_options(seed, user_opts)) == entries_map(seed).union_prefer_right(
            entries_map(user_opts),
        ),
    decreases user_opts.len(),
{
    let merged = merged_options(seed, user_opts);
    if user_opts.len() > 0 {
        user_options_go_first(seed, user_opts.drop_last());
        assert(merged.drop_last() =~= merged_options(seed, user_opts.drop_last()));
    } else {
        assert(merged =~= seed);
    }
    assert(entries_map(merged) =~= entries_map(seed).union_prefer_right(entries_map(user_opts)));
}

/// The dictionary of merged options is the Python literal of the object that
/// holds them.
pub proof fn options_dict_is_object(
    seed: Seq<(Seq<char>, Json)>,
    user_opts: Seq<(Seq<char>, Json)>,
    object: Json,
)
    requires
        object is Object,
        object->Object_0@ == entries_map(seed).union_prefer_right(entries_map(user_opts)),
    ensures
        dict_text(entries_map(json_texts(merged_options(seed, user_opts)))) == python_text(object),
{
    user_options_go_first(seed, user_opts);
    rendered_entries(merged_options(seed, user_opts));
    object_text(object);
}

/// A renaming does not depend on the order in which its mapping is walked.
pub proof fn rename_ignores_walk(one: Transform, other: Transform, default_source: Seq<char>)
    requires
        opt_text(one.source) == opt_text(other.source),
        opt_text(one.output) == opt_text(other.output),
        one.mapping.texts() == other.mapping.texts(),
    ensures
        rename_text(one, default_source) == rename_text(other, default_source),
{
}

/// An aggregation does not depend on the order in which its aggregates are
/// walked.
pub proof fn aggregate_ignores_walk(one: Transform, other: Transform, default_source: Seq<char>)
    requires
        opt_text(one.source) == opt_text(other.source),
        opt_text(one.output) == opt_text(other.output),
        views(one.group_by@) == views(other.group_by@),
        one.aggs.texts() == other.aggs.texts(),
    ensures
        aggregate_text(one, default_source) == aggregate_text(other, default_source),
{
}

/// The statements of two lists of transforms, one behind the other, are the
/// statements of the first and then those of the second; the first error counts.
pub proof fn transforms_in_sequence(
    first: Seq<Transform>,
    second: Seq<Transform>,
    default_source: Seq<char>,
    names: Seq<Seq<char>>,
)
    ensures
        transform_texts(first + second, default_source, names) == match transform_texts(
            first,
            default_source,
            names,
        ) {
            Err(message) => Err(message),
            Ok(texts) => match transform_texts(second, default_source, names) {
                Err(message) => Err(message),
                Ok(more) => Ok(texts + more),
            },
        },
    decreases second.len(),
{
    let all = first + second;
    if second.len() > 0 {
        transforms_in_sequence(first, second.drop_last(), default_source, names);
        assert(all.drop_last() =~= first + second.drop_last());
        assert(all.last() == second.last());
        if transform_texts(first, default_source, names) is Ok && transform_texts(
            second,
            default_source,
            names,
        ) is Ok {
            let a = transform_texts(first, default_source, names)->Ok_0;
            let b = transform_texts(second.drop_last(), default_source, names)->Ok_0;
            let text = transform_text(second.last(), default_source, names)->Ok_0;
            assert((a + b).push(text) =~= a + b.push(text));
        }
    } else {
        assert(all =~= first);
        if transform_texts(first, default_source, names) is Ok {
            let a = transform_texts(first, default_source, names)->Ok_0;
            assert(a + Seq::<Seq<char>>::empty() =~= a);
        }
    }
}

/// Partition columns can be derived exactly when every unit is one of the
/// calendar.
pub proof fn units_of_the_calendar(var: Seq<char>, units: Seq<Seq<char>>)
    ensures
        partition_columns(var, units) is Ok <==> forall|i: int|
            0 <= i < units.len() ==> calendar_function(#[trigger] units[i]) is Some,
    decreases units.len(),
{
    if units.len() > 0 {
        let head = units.drop_last();
        units_of_the_calendar(var, head);
        if forall|i: int| 0 <= i < units.len() ==> calendar_function(#[trigger] units[i]) is Some {
            assert forall|i: int| 0 <= i < head.len() implies calendar_function(
                #[trigger] head[i],
            ) is Some by {
                assert(calendar_function(units[i]) is Some);
            }
            assert(calendar_function(units[units.len() - 1]) is Some);
        }
        if partition_columns(var, units) is Ok {
            assert forall|i: int| 0 <= i < units.len() implies calendar_function(
                #[trigger] units[i],
            ) is Some by {
                if i < head.len() {
                    assert(calendar_function(head[i]) is Some);
                }
            }
        }
    }
}

/// A script with a window function imports the Spark functions too; one that
/// fills nulls writes an Iceberg table; one that masks PII uses a `DynamicFrame`,
/// whatever the engine.
pub proof fn imports_go_together(config: JobConfig, default_engine: Seq<char>)
    ensures
        has_transform(config, "window"@) ==> uses_functions(config),
        fills_nulls(config) ==> iceberg_sink(config),
        masks_pii(config) ==> uses_dynamic_frame(config, default_engine),
{
}

} // verus!
