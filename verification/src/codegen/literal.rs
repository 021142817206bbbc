//! Python literals, and the option chains and dictionaries made of them.

use crate::json::Json;
use crate::string_map::{
    distinct_keys, entries_map, pairs_of, sort_entries, sorted_entries, text_pairs,
};
use crate::string_map::StringMap;
use crate::text::{join, joined, views};
use vstd::prelude::*;

verus! {

/// How a character is written inside a Python string literal.
pub open spec fn escape(c: char) -> Seq<char> {
    if c == '\\' {
        seq!['\\', '\\']
    } else if c == '"' {
        seq!['\\', '"']
    } else if c == '\n' {
        seq!['\\', 'n']
    } else if c == '\r' {
        seq!['\\', 'r']
    } else if c == '\t' {
        seq!['\\', 't']
    } else {
        seq![c]
    }
}

/// The characters of `s`, each as it is written inside a Python string literal.
pub open spec fn escaped(s: Seq<char>) -> Seq<char>
    decreases s.len(),
{
    if s.len() == 0 {
        Seq::empty()
    } else {
        escaped(s.drop_last()) + escape(s.last())
    }
}

/// The Python string literal for `s`.
pub open spec fn str_literal(s: Seq<char>) -> Seq<char> {
    seq!['"'] + escaped(s) + seq!['"']
}

/// The Python literals for a list of texts, separated by commas.
pub open spec fn literal_list(texts: Seq<Seq<char>>) -> Seq<char> {
    joined(texts.map_values(|text: Seq<char>| str_literal(text)), ", "@)
}

/// A Python dictionary: the keys as string literals in ascending order, each
/// with the expression that stands for its value.
pub open spec fn dict_text(members: Map<Seq<char>, Seq<char>>) -> Seq<char> {
    "{"@ + joined(
        sorted_entries(members).map_values(
            |member: (Seq<char>, Seq<char>)| str_literal(member.0) + ": "@ + member.1,
        ),
        ", "@,
    ) + "}"@
}

/// The Python literal for a JSON value.
pub open spec fn python_text(value: Json) -> Seq<char>
    decreases value,
{
    match value {
        Json::Null => "None"@,
        Json::Bool(b) => if b {
            "True"@
        } else {
            "False"@
        },
        Json::Number(number) => number.text(),
        Json::Str(text) => str_literal(text@),
        Json::Array(items) => "["@ + joined(item_texts(value, items@.len()), ", "@) + "]"@,
        Json::Object(members) => dict_text(
            entries_map(member_texts(value, members.pairs().len())),
        ),
    }
}

/// The Python literals for the first `n` items of an array.
pub open spec fn item_texts(array: Json, n: nat) -> Seq<Seq<char>>
    decreases array, n,
{
    if array is Array && 0 < n <= array->Array_0@.len() {
        item_texts(array, (n - 1) as nat).push(python_text(array->Array_0@[n - 1]))
    } else {
        Seq::empty()
    }
}

/// The keys of the first `n` members of an object, each with the Python literal
/// for its value.
pub open spec fn member_texts(object: Json, n: nat) -> Seq<(Seq<char>, Seq<char>)>
    decreases object, n,
{
    if object is Object && 0 < n <= object->Object_0.pairs().len() {
        proof {
            object->Object_0.pairs_decrease(n - 1);
        }
        member_texts(object, (n - 1) as nat).push(
            (
                object->Object_0.pairs()[n - 1].0,
                python_text(object->Object_0.pairs()[n - 1].1),
            ),
        )
    } else {
        Seq::empty()
    }
}

/// The entries with the Python literals for their values.
pub open spec fn json_texts(pairs: Seq<(Seq<char>, Json)>) -> Seq<(Seq<char>, Seq<char>)> {
    pairs.map_values(|pair: (Seq<char>, Json)| (pair.0, python_text(pair.1)))
}

/// The entries with their keys as texts.
pub open spec fn seed_pairs(seed: Seq<(&str, Json)>) -> Seq<(Seq<char>, Json)> {
    seed.map_values(|entry: (&str, Json)| (entry.0@, entry.1))
}

/// The entries with the Python string literals for their values.
pub open spec fn seed_literals(seed: Seq<(&str, &str)>) -> Seq<(Seq<char>, Seq<char>)> {
    seed.map_values(|entry: (&str, &str)| (entry.0@, str_literal(entry.1@)))
}

/// A call of `.option` for each entry, in order: the key as a string literal,
/// then the expression for the value.
pub open spec fn option_calls(options: Seq<(Seq<char>, Seq<char>)>) -> Seq<char>
    decreases options.len(),
{
    if options.len() == 0 {
        Seq::empty()
    } else {
        option_calls(options.drop_last()) + option_call(options.last().0, options.last().1)
    }
}

/// The call `.option(key, value)`.
pub open spec fn option_call(key: Seq<char>, value: Seq<char>) -> Seq<char> {
    ".option("@ + str_literal(key) + ", "@ + value + ")"@
}

/// Escapes a string and wraps it in double quotes, for a place in generated
/// Python source.
pub fn python_str_literal(s: &str) -> (literal: String)
    ensures
        literal@ == str_literal(s@),
{
    let mut out: String = String::new();
    out.push('"');
    proof {
        assert(out@ =~= seq!['"'] + escaped(s@.take(0)));
    }
    for c in it: s.chars()
        invariant
            it.seq() == s@,
            out@ == seq!['"'] + escaped(s@.take(it.index() as int)),
    {
        let ghost before = out@;
        match c {
            '\\' => {
                out.push('\\');
                out.push('\\');
            },
            '"' => {
                out.push('\\');
                out.push('"');
            },
            '\n' => {
                out.push('\\');
                out.push('n');
            },
            '\r' => {
                out.push('\\');
                out.push('r');
            },
            '\t' => {
                out.push('\\');
                out.push('t');
            },
            c => {
                out.push(c);
            },
        }
        proof {
            let n = it.index() as int;
            assert(s@.take(n + 1).drop_last() =~= s@.take(n));
            assert(out@ =~= before + escape(c));
            assert(out@ =~= seq!['"'] + escaped(s@.take(n + 1)));
        }
    }
    out.push('"');
    proof {
        assert(s@.take(s@.len() as int) =~= s@);
        assert(out@ =~= str_literal(s@));
    }
    out
}

/// The texts as a comma-separated list of Python string literals
/// (`"col_a", "col_b"`).
pub fn quoted_list(cols: &[String]) -> (list: String)
    ensures
        list@ == literal_list(views(cols@)),
{
    let mut literals: Vec<String> = Vec::new();
    for i in 0..cols.len()
        invariant
            literals@.len() == i,
            forall|j: int| 0 <= j < i ==> (#[trigger] literals@[j])@ == str_literal(cols@[j]@),
    {
        literals.push(python_str_literal(cols[i].as_str()));
    }
    proof {
        assert(views(literals@) =~= views(cols@).map_values(|text: Seq<char>| str_literal(text)));
    }
    join(&literals, ", ")
}

/// The Python dictionary of the entries, in ascending order of the keys.
pub fn dict_literal(members: Vec<(String, String)>) -> (text: String)
    requires
        distinct_keys(text_pairs(members@)),
    ensures
        text@ == dict_text(entries_map(text_pairs(members@))),
{
    let ghost map = entries_map(text_pairs(members@));
    let sorted: Vec<(String, String)> = sort_entries(members);
    let mut items: Vec<String> = Vec::new();
    for i in 0..sorted.len()
        invariant
            items@.len() == i,
            forall|j: int|
                0 <= j < i ==> (#[trigger] items@[j])@ == str_literal(sorted@[j].0@) + ": "@
                    + sorted@[j].1@,
    {
        let item: String = python_str_literal(sorted[i].0.as_str()).concat(": ").concat(
            sorted[i].1.as_str(),
        );
        items.push(item);
    }
    proof {
        assert(views(items@) =~= sorted_entries(map).map_values(
            |member: (Seq<char>, Seq<char>)| str_literal(member.0) + ": "@ + member.1,
        ));
    }
    "{".to_owned().concat(join(&items, ", ").as_str()).concat("}")
}

/// Renders a JSON value as a Python literal.
///
/// Strings, numbers, booleans and null map directly; arrays and objects
/// recurse, an object with its keys in ascending order.
pub fn python_literal(value: &Json) -> (literal: String)
    ensures
        literal@ == python_text(*value),
    decreases *value,
{
    match value {
        Json::Null => "None".to_owned(),
        Json::Bool(b) => if *b {
            "True".to_owned()
        } else {
            "False".to_owned()
        },
        Json::Number(number) => number.to_text(),
        Json::Str(text) => python_str_literal(text.as_str()),
        Json::Array(items) => {
            let mut literals: Vec<String> = Vec::new();
            for i in 0..items.len()
                invariant
                    value == Json::Array(*items),
                    views(literals@) == item_texts(*value, i as nat),
            {
                let ghost before = views(literals@);
                let literal: String = python_literal(&items[i]);
                literals.push(literal);
                proof {
                    assert(views(literals@) =~= before.push(literal@));
                }
            }
            "[".to_owned().concat(join(&literals, ", ").as_str()).concat("]")
        },
        Json::Object(members) => {
            let held: &Vec<(String, Json)> = members.entries();
            let mut literals: Vec<(String, String)> = Vec::new();
            for i in 0..held.len()
                invariant
                    value == Json::Object(*members),
                    pairs_of(held@) == members.pairs(),
                    text_pairs(literals@) == member_texts(*value, i as nat),
            {
                let ghost before = text_pairs(literals@);
                proof {
                    members.pairs_decrease(i as int);
                    assert(members.pairs()[i as int] == (held@[i as int].0@, held@[i as int].1));
                }
                let literal: String = python_literal(&held[i].1);
                literals.push((held[i].0.clone(), literal));
                proof {
                    assert(text_pairs(literals@) =~= before.push((held@[i as int].0@, literal@)));
                }
            }
            proof {
                member_texts_are_json_texts(*value, members.pairs().len());
                assert(members.pairs().take(members.pairs().len() as int) =~= members.pairs());
                json_texts_distinct(members.pairs());
            }
            dict_literal(literals)
        },
    }
}

/// Appends `.option(k, v)` calls to a Spark reader chain: first the pairs of
/// `seed`, whose values are literal strings, then those of `extra` in the order
/// of its walk.
pub fn append_spark_options(chain: &mut String, seed: &[(&str, &str)], extra: &StringMap<Json>)
    ensures
        final(chain)@ == old(chain)@ + option_calls(seed_literals(seed@)) + option_calls(
            json_texts(extra.pairs()),
        ),
{
    let ghost start = chain@;
    let ghost seeds = seed_literals(seed@);
    proof {
        assert(start + option_calls(seeds.take(0)) =~= start);
    }
    for i in 0..seed.len()
        invariant
            seeds == seed_literals(seed@),
            chain@ == start + option_calls(seeds.take(i as int)),
    {
        let key: String = python_str_literal(seed[i].0);
        let value: String = python_str_literal(seed[i].1);
        append_option(chain, key.as_str(), value.as_str());
        proof {
            let taken = seeds.take(i + 1);
            assert(taken.drop_last() =~= seeds.take(i as int));
            assert(taken.last() == (seed@[i as int].0@, value@));
            assert(chain@ =~= start + option_calls(taken));
        }
    }
    proof {
        assert(seeds.take(seed@.len() as int) =~= seeds);
    }
    let ghost middle = chain@;
    let ghost extras = json_texts(extra.pairs());
    let held: &Vec<(String, Json)> = extra.entries();
    proof {
        assert(middle + option_calls(extras.take(0)) =~= middle);
    }
    for i in 0..held.len()
        invariant
            extras == json_texts(extra.pairs()),
            pairs_of(held@) == extra.pairs(),
            chain@ == middle + option_calls(extras.take(i as int)),
    {
        let key: String = python_str_literal(held[i].0.as_str());
        let value: String = python_literal(&held[i].1);
        append_option(chain, key.as_str(), value.as_str());
        proof {
            let taken = extras.take(i + 1);
            assert(extra.pairs()[i as int] == (held@[i as int].0@, held@[i as int].1));
            assert(taken.drop_last() =~= extras.take(i as int));
            assert(taken.last() == (held@[i as int].0@, value@));
            assert(chain@ =~= middle + option_calls(taken));
        }
    }
    proof {
        assert(extras.take(held@.len() as int) =~= extras);
    }
}

/// Appends one call of `.option`, given the expressions for key and value.
fn append_option(chain: &mut String, key: &str, value: &str)
    ensures
        final(chain)@ == old(chain)@ + (".option("@ + key@ + ", "@ + value@ + ")"@),
{
    let call: String = ".option(".to_owned().concat(key).concat(", ").concat(value).concat(")");
    chain.append(call.as_str());
}

/// The literals of the members of an object are those of its entries.
pub proof fn member_texts_are_json_texts(object: Json, n: nat)
    requires
        object is Object,
        n <= object->Object_0.pairs().len(),
    ensures
        member_texts(object, n) == json_texts(object->Object_0.pairs().take(n as int)),
    decreases n,
{
    let pairs = object->Object_0.pairs();
    if n > 0 {
        member_texts_are_json_texts(object, (n - 1) as nat);
        assert(json_texts(pairs.take(n as int)) =~= json_texts(pairs.take(n - 1)).push(
            (pairs[n - 1].0, python_text(pairs[n - 1].1)),
        ));
    } else {
        assert(json_texts(pairs.take(0)) =~= Seq::empty());
    }
}

/// Rendering the values keeps the keys distinct.
pub proof fn json_texts_distinct(pairs: Seq<(Seq<char>, Json)>)
    requires
        distinct_keys(pairs),
    ensures
        distinct_keys(json_texts(pairs)),
{
    let texts = json_texts(pairs);
    assert forall|i: int, j: int|
        #![trigger texts[i], texts[j]]
        0 <= i < j < texts.len() implies texts[i].0 != texts[j].0 by {
        assert(pairs[i].0 != pairs[j].0);
    }
}

} // verus!
