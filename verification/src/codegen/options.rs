//! Merging of option dictionaries in a `serde_json` map.

use super::literal::{dict_literal, dict_text, json_texts, python_literal, seed_pairs};
use crate::json::Json;
use crate::string_map::{
    distinct_keys, entries_map, entries_map_domain, entries_map_value, pairs_of, text_pairs,
};
use crate::string_map::StringMap;
use crate::text::views;
use vstd::prelude::*;

verus! {

/// A JSON value of `serde_json`, which this crate only carries.
#[verifier::external_type_specification]
#[verifier::external_body]
pub struct ExJsonValue(serde_json::Value);

/// The map of `serde_json`.
#[verifier::external_type_specification]
#[verifier::external_body]
#[verifier::reject_recursive_types(K)]
#[verifier::reject_recursive_types(V)]
pub struct ExJsonMap<K, V>(serde_json::Map<K, V>);

/// The keys that a `serde_json` map holds.
pub uninterp spec fn held_keys(map: serde_json::Map<String, serde_json::Value>) -> Set<Seq<char>>;

/// The keys of a `serde_json` map whose values are strings, each with the text
/// of that string.
pub uninterp spec fn held_strings(map: serde_json::Map<String, serde_json::Value>) -> Map<
    Seq<char>,
    Seq<char>,
>;

/// `serde_json::Map::new`: a map that holds nothing.
#[verifier::external_body]
fn new_map() -> (made: serde_json::Map<String, serde_json::Value>)
    ensures
        held_keys(made) == Set::<Seq<char>>::empty(),
        held_strings(made).is_empty(),
{
    serde_json::Map::new()
}

/// `serde_json::Map::insert`, with a string for the value: the key is held
/// afterwards, with that string in place of any value it had; nothing else
/// changes.
#[verifier::external_body]
fn insert_string(
    map: &mut serde_json::Map<String, serde_json::Value>,
    key: String,
    text: String,
)
    ensures
        held_keys(*final(map)) == held_keys(*old(map)).insert(key@),
        held_strings(*final(map)) == held_strings(*old(map)).insert(key@, text@),
{
    map.insert(key, serde_json::Value::String(text));
}

/// `serde_json::Map::keys`: the held keys, each once.
#[verifier::external_body]
fn map_keys(map: &serde_json::Map<String, serde_json::Value>) -> (keys: Vec<String>)
    ensures
        views(keys@).no_duplicates(),
        forall|key: Seq<char>| #[trigger]
            views(keys@).contains(key) <==> held_keys(*map).contains(key),
{
    map.keys().cloned().collect()
}

/// `serde_json::Map::get`, then `serde_json::Value::as_str`: the text of the
/// string that the key holds.
#[verifier::external_body]
fn map_string(map: &serde_json::Map<String, serde_json::Value>, key: &str) -> (text: Option<String>)
    ensures
        text is Some <==> held_strings(*map).contains_key(key@),
        text matches Some(t) ==> t@ == held_strings(*map)[key@],
{
    map.get(key).and_then(|value| value.as_str()).map(|text| text.to_owned())
}

/// The options of the dictionary: the seed, then what the user gave, of which
/// the later counts where both have a key.
pub open spec fn merged_options(
    seed: Seq<(Seq<char>, Json)>,
    user_opts: Seq<(Seq<char>, Json)>,
) -> Seq<(Seq<char>, Json)> {
    seed + user_opts
}

/// Builds a Python dictionary literal from a seed of (key, value) pairs, merged
/// with the options that the user supplied; where both have a key, the value of
/// the user counts.
pub fn build_options_dict(seed: &[(&str, Json)], user_opts: &StringMap<Json>) -> (dict: String)
    ensures
        dict@ == dict_text(
            entries_map(json_texts(merged_options(seed_pairs(seed@), user_opts.pairs()))),
        ),
{
    let ghost merged = json_texts(merged_options(seed_pairs(seed@), user_opts.pairs()));
    let mut opts: serde_json::Map<String, serde_json::Value> = new_map();
    proof {
        assert(merged.take(0) =~= Seq::empty());
        assert(held_strings(opts) =~= Map::<Seq<char>, Seq<char>>::empty());
        assert(held_keys(opts) =~= held_strings(opts).dom());
    }
    for i in 0..seed.len()
        invariant
            merged == json_texts(merged_options(seed_pairs(seed@), user_opts.pairs())),
            held_strings(opts) == entries_map(merged.take(i as int)),
            held_keys(opts) == held_strings(opts).dom(),
    {
        let text: String = python_literal(&seed[i].1);
        insert_string(&mut opts, seed[i].0.to_owned(), text);
        proof {
            let taken = merged.take(i + 1);
            assert(taken.drop_last() =~= merged.take(i as int));
            assert(taken.last() == (seed@[i as int].0@, text@));
            assert(held_keys(opts) =~= held_strings(opts).dom());
        }
    }
    let held: &Vec<(String, Json)> = user_opts.entries();
    for i in 0..held.len()
        invariant
            merged == json_texts(merged_options(seed_pairs(seed@), user_opts.pairs())),
            pairs_of(held@) == user_opts.pairs(),
            held_strings(opts) == entries_map(merged.take(seed@.len() + i)),
            held_keys(opts) == held_strings(opts).dom(),
    {
        let text: String = python_literal(&held[i].1);
        insert_string(&mut opts, held[i].0.clone(), text);
        proof {
            let taken = merged.take(seed@.len() + i + 1);
            assert(user_opts.pairs()[i as int] == (held@[i as int].0@, held@[i as int].1));
            assert(taken.drop_last() =~= merged.take(seed@.len() + i));
            assert(taken.last() == (held@[i as int].0@, text@));
            assert(held_keys(opts) =~= held_strings(opts).dom());
        }
    }
    proof {
        assert(merged.take(merged.len() as int) =~= merged);
    }
    let keys: Vec<String> = map_keys(&opts);
    let mut members: Vec<(String, String)> = Vec::new();
    for i in 0..keys.len()
        invariant
            held_strings(opts) == entries_map(merged),
            held_keys(opts) == held_strings(opts).dom(),
            views(keys@).no_duplicates(),
            forall|key: Seq<char>| #[trigger]
                views(keys@).contains(key) <==> held_keys(opts).contains(key),
            members@.len() == i,
            forall|j: int|
                0 <= j < i ==> (#[trigger] text_pairs(members@)[j]) == (
                    keys@[j]@,
                    entries_map(merged)[keys@[j]@],
                ),
    {
        proof {
            assert(views(keys@)[i as int] == keys@[i as int]@);
            assert(views(keys@).contains(keys@[i as int]@));
        }
        let ghost before = text_pairs(members@);
        let text: String = map_string(&opts, keys[i].as_str()).unwrap();
        members.push((keys[i].clone(), text));
        proof {
            assert(text_pairs(members@) =~= before.push((keys@[i as int]@, text@)));
        }
    }
    proof {
        let pairs = text_pairs(members@);
        assert forall|i: int, j: int|
            #![trigger pairs[i], pairs[j]]
            0 <= i < j < pairs.len() implies pairs[i].0 != pairs[j].0 by {
            assert(views(keys@)[i] != views(keys@)[j]);
        }
        assert forall|i: int| 0 <= i < pairs.len() implies entries_map(merged).contains_key(
            (#[trigger] pairs[i]).0,
        ) && entries_map(merged)[pairs[i].0] == pairs[i].1 by {
            assert(views(keys@)[i] == keys@[i]@);
            assert(views(keys@).contains(keys@[i]@));
        }
        assert forall|key: Seq<char>| #[trigger] entries_map(merged).contains_key(key) implies exists|
            i: int,
        |
            0 <= i < pairs.len() && (#[trigger] pairs[i]).0 == key by {
            assert(views(keys@).contains(key));
            let i = choose|i: int| 0 <= i < keys@.len() && views(keys@)[i] == key;
            assert(pairs[i].0 == key);
        }
        listing_of_map(pairs, entries_map(merged));
    }
    dict_literal(members)
}

/// A list of distinct keys that holds each key of a map with its value, and no
/// other, stands for that map.
proof fn listing_of_map(pairs: Seq<(Seq<char>, Seq<char>)>, map: Map<Seq<char>, Seq<char>>)
    requires
        distinct_keys(pairs),
        forall|i: int|
            0 <= i < pairs.len() ==> map.contains_key((#[trigger] pairs[i]).0)
                && map[pairs[i].0] == pairs[i].1,
        forall|key: Seq<char>| #[trigger]
            map.contains_key(key) ==> exists|i: int|
                0 <= i < pairs.len() && (#[trigger] pairs[i]).0 == key,
    ensures
        entries_map(pairs) == map,
{
    let m = entries_map(pairs);
    assert forall|key: Seq<char>| #[trigger] m.contains_key(key) <==> map.contains_key(key) by {
        entries_map_domain(pairs, key);
    }
    assert forall|key: Seq<char>| #[trigger] m.contains_key(key) implies m[key] == map[key] by {
        entries_map_domain(pairs, key);
        let i = choose|i: int| 0 <= i < pairs.len() && (#[trigger] pairs[i]).0 == key;
        entries_map_value(pairs, i);
    }
    assert(m =~= map);
}

} // verus!
