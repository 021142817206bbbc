//! What holds of lookups in JSON values and in maps of texts.

use crate::json::{same_items, same_json, same_members, Json, Number};
use crate::string_map::{
    ascending_keys_distinct, distinct_keys, entries_map, entries_map_domain, entries_map_value,
    is_sorted_listing, pairs_of, sorted_entries, sorted_entries_unique, text_pairs, with_entry,
    StringMap,
};
use crate::text::{precedes, signed_decimal};
use vstd::prelude::*;

verus! {

/// An object has each of its members under the key of that member, and none
/// under another key.
pub proof fn members_are_found(members: StringMap<Json>, i: int, key: Seq<char>)
    requires
        distinct_keys(members.pairs()),
    ensures
        0 <= i < members.pairs().len() && members.pairs()[i].0 == key ==> Json::Object(
            members,
        ).member(key) == Some(members.pairs()[i].1),
        (forall|j: int|
            0 <= j < members.pairs().len() ==> (#[trigger] members.pairs()[j]).0 != key)
            ==> Json::Object(members).member(key) is None,
{
    entries_map_domain(members.pairs(), key);
    if 0 <= i < members.pairs().len() {
        entries_map_value(members.pairs(), i);
    }
}

/// Only an object has members.
pub proof fn only_objects_have_members(value: Json, key: Seq<char>)
    requires
        !(value is Object),
    ensures
        value.member(key) is None,
        value.member_string(key) is None,
        value.member_integer(key) is None,
{
}

/// A member reads as a string exactly where it is one, and as an integer exactly
/// where it is a number without a fraction that fits 64 bits with a sign.
pub proof fn members_are_read(
    object: Json,
    key: Seq<char>,
    text: String,
    large: u64,
    below: i64,
    flag: bool,
    items: Vec<Json>,
)
    ensures
        object.member(key) == Some(Json::Str(text)) ==> object.member_string(key) == Some(text@)
            && object.member_integer(key) is None,
        object.member(key) == Some(Json::Number(Number::PosInt(large))) ==> object.member_string(
            key,
        ) is None && object.member_integer(key) == if large <= 0x7fff_ffff_ffff_ffff {
            Some(large as int)
        } else {
            None
        },
        object.member(key) == Some(Json::Number(Number::NegInt(below))) ==> object.member_string(
            key,
        ) is None && object.member_integer(key) == Some(below as int),
        object.member(key) == Some(Json::Number(Number::Fraction(text))) ==> object.member_string(
            key,
        ) is None && object.member_integer(key) is None,
        object.member(key) == Some(Json::Bool(flag)) || object.member(key) == Some(Json::Null)
            || object.member(key) == Some(Json::Array(items)) || object.member(key) is None
            ==> object.member_string(key) is None && object.member_integer(key) is None,
{
}

/// A lookup finds the member, and reads it as what it is.
pub proof fn lookups_read_members<'a>(
    object: &'a Json,
    key: &str,
    found: Option<&'a Json>,
    text: Option<&'a str>,
    number: Option<i64>,
)
    requires
        call_ensures(Json::get, (object, key), found),
        call_ensures(Json::get_str, (object, key), text),
        call_ensures(Json::get_i64, (object, key), number),
    ensures
        found is Some <==> object.member(key@) is Some,
        found matches Some(value) ==> object.member(key@) == Some(*value),
        text is Some <==> (found matches Some(value) && *value is Str),
        text matches Some(t) ==> (found matches Some(value) && *value matches Json::Str(s) && s@
            == t@),
        number matches Some(n) ==> match found {
            Some(Json::Number(Number::PosInt(m))) => n == m,
            Some(Json::Number(Number::NegInt(m))) => n == m,
            _ => false,
        },
        number is None ==> match found {
            Some(Json::Number(Number::PosInt(m))) => m > 0x7fff_ffff_ffff_ffff,
            Some(Json::Number(Number::NegInt(_))) => false,
            _ => true,
        },
{
}

/// An integer is written in decimal, with a minus sign below zero, and another
/// number as the text that it holds.
pub proof fn numbers_are_written(large: u64, below: i64, fraction: String)
    ensures
        Number::PosInt(large).text() == signed_decimal(large as int),
        Number::NegInt(below).text() == signed_decimal(below as int),
        Number::Fraction(fraction).text() == fraction@,
{
}

/// The items of two arrays that are the same up to `n` are the same at `i`.
proof fn items_agree(one: Json, other: Json, n: nat, i: int)
    requires
        one is Array,
        other is Array,
        same_items(one, other, n),
        0 <= i < n <= one->Array_0@.len(),
    ensures
        same_json(one->Array_0@[i], other->Array_0@[i]),
    decreases n,
{
    if i < n - 1 {
        items_agree(one, other, (n - 1) as nat, i);
    }
}

/// The members of two objects that are the same up to `n` are the same at `i`.
proof fn members_agree(one: Json, other: Json, n: nat, i: int)
    requires
        one is Object,
        other is Object,
        same_members(one, other, n),
        0 <= i < n <= one->Object_0.pairs().len(),
    ensures
        one->Object_0.pairs()[i].0 == other->Object_0.pairs()[i].0,
        same_json(one->Object_0.pairs()[i].1, other->Object_0.pairs()[i].1),
    decreases n,
{
    if i < n - 1 {
        members_agree(one, other, (n - 1) as nat, i);
    }
}

/// Values that are the same are of one sort, read alike, and have the same items
/// or members, in the same order.
pub proof fn same_values_read_alike(one: Json, other: Json, i: int)
    requires
        same_json(one, other),
    ensures
        one is Null <==> other is Null,
        one is Bool <==> other is Bool,
        one is Bool ==> one->Bool_0 == other->Bool_0,
        one is Number <==> other is Number,
        one is Number ==> one->Number_0.text() == other->Number_0.text(),
        one.string() == other.string(),
        one.integer() == other.integer(),
        one is Array <==> other is Array,
        one is Array ==> one->Array_0@.len() == other->Array_0@.len(),
        one is Array && 0 <= i < one->Array_0@.len() ==> same_json(
            one->Array_0@[i],
            other->Array_0@[i],
        ),
        one is Object <==> other is Object,
        one is Object ==> one->Object_0.pairs().len() == other->Object_0.pairs().len(),
        one is Object && 0 <= i < one->Object_0.pairs().len() ==> one->Object_0.pairs()[i].0
            == other->Object_0.pairs()[i].0 && same_json(
            one->Object_0.pairs()[i].1,
            other->Object_0.pairs()[i].1,
        ),
{
    if one is Array && other is Array && 0 <= i < one->Array_0@.len() {
        items_agree(one, other, one->Array_0@.len(), i);
    }
    if one is Object && other is Object && 0 <= i < one->Object_0.pairs().len() {
        members_agree(one, other, one->Object_0.pairs().len(), i);
    }
}

/// A map of texts holds under each key the text of its entry, and nothing under
/// a key that no entry has.
pub proof fn texts_are_found(map: StringMap<String>, i: int, key: Seq<char>)
    requires
        distinct_keys(map.pairs()),
    ensures
        0 <= i < map.pairs().len() && map.pairs()[i].0 == key ==> map.text_at(key) == Some(
            map.pairs()[i].1@,
        ),
        (forall|j: int| 0 <= j < map.pairs().len() ==> (#[trigger] map.pairs()[j]).0 != key)
            ==> map.text_at(key) is None,
{
    let texts = map.pairs().map_values(|pair: (Seq<char>, String)| (pair.0, pair.1@));
    assert forall|a: int, b: int|
        #![trigger texts[a], texts[b]]
        0 <= a < b < texts.len() implies texts[a].0 != texts[b].0 by {
        assert(map.pairs()[a].0 != map.pairs()[b].0);
    }
    entries_map_domain(texts, key);
    if 0 <= i < texts.len() {
        entries_map_value(texts, i);
    }
    if map.text_at(key) is Some {
        let j = choose|j: int| 0 <= j < texts.len() && (#[trigger] texts[j]).0 == key;
        assert(map.pairs()[j].0 == key);
    }
}

/// Of a list of entries, the last one with a key decides: what is listed after
/// goes before what was listed, and leaves the other keys as they were.
pub proof fn later_entries_count<V>(
    first: Seq<(Seq<char>, V)>,
    second: Seq<(Seq<char>, V)>,
    key: Seq<char>,
)
    ensures
        entries_map(first + second).contains_key(key) <==> entries_map(first).contains_key(key)
            || entries_map(second).contains_key(key),
        entries_map(second).contains_key(key) ==> entries_map(first + second)[key] == entries_map(
            second,
        )[key],
        !entries_map(second).contains_key(key) && entries_map(first).contains_key(key)
            ==> entries_map(first + second)[key] == entries_map(first)[key],
    decreases second.len(),
{
    if second.len() == 0 {
        assert(first + second =~= first);
    } else {
        let all = first + second;
        assert(all.last() == second.last());
        assert(all.drop_last() =~= first + second.drop_last());
        later_entries_count(first, second.drop_last(), key);
    }
}

/// Entries keep their keys and their values, one for one.
pub proof fn entries_have_their_texts<V>(
    entries: Seq<(String, V)>,
    texts: Seq<(String, String)>,
    i: int,
)
    ensures
        pairs_of(entries).len() == entries.len(),
        0 <= i < entries.len() ==> pairs_of(entries)[i] == (entries[i].0@, entries[i].1),
        text_pairs(texts).len() == texts.len(),
        0 <= i < texts.len() ==> text_pairs(texts)[i] == (texts[i].0@, texts[i].1@),
{
}

/// A sorted listing has every entry of its map and no other, and of two entries
/// the one whose key comes first in dictionary order comes first.
pub proof fn listing_is_in_order<V>(
    pairs: Seq<(Seq<char>, V)>,
    map: Map<Seq<char>, V>,
    i: int,
    j: int,
    key: Seq<char>,
)
    requires
        is_sorted_listing(pairs, map),
    ensures
        0 <= i < j < pairs.len() ==> precedes(pairs[i].0, pairs[j].0),
        0 <= i < pairs.len() ==> map.contains_key(pairs[i].0) && map[pairs[i].0] == pairs[i].1,
        map.contains_key(key) ==> exists|k: int|
            0 <= k < pairs.len() && (#[trigger] pairs[k]).0 == key,
{
    ascending_keys_distinct(pairs);
    if 0 <= i < pairs.len() {
        entries_map_value(pairs, i);
    }
    entries_map_domain(pairs, key);
}

/// Entries that come in dictionary order of their keys are the sorted entries of
/// the map they stand for.
pub proof fn entries_in_order_are_sorted<V>(pairs: Seq<(Seq<char>, V)>)
    requires
        forall|i: int, j: int|
            #![trigger pairs[i], pairs[j]]
            0 <= i < j < pairs.len() ==> precedes(pairs[i].0, pairs[j].0),
    ensures
        sorted_entries(entries_map(pairs)) == pairs,
{
    sorted_entries_unique(pairs, entries_map(pairs));
}

/// Giving a key a value leaves the keys before it where they were: a new key
/// comes at the end, and a held one keeps its place.
pub proof fn entries_keep_their_places<V>(
    before: Seq<(Seq<char>, V)>,
    after: Seq<(Seq<char>, V)>,
    key: Seq<char>,
    held: V,
    value: V,
)
    requires
        forall|i: int| 0 <= i < before.len() ==> (#[trigger] before[i]).0 != key,
    ensures
        with_entry(before, key, value) == before.push((key, value)),
        with_entry(before + seq![(key, held)] + after, key, value) == before + seq![(key, value)]
            + after,
    decreases before.len(),
{
    let list = before + seq![(key, held)] + after;
    if before.len() == 0 {
        assert(list[0].0 == key);
        assert(with_entry(before, key, value) =~= before.push((key, value)));
        assert(list.update(0, (key, value)) =~= before + seq![(key, value)] + after);
    } else {
        let rest = before.drop_first();
        assert forall|i: int| 0 <= i < rest.len() implies (#[trigger] rest[i]).0 != key by {
            assert(rest[i] == before[i + 1]);
        }
        entries_keep_their_places(rest, after, key, held, value);
        assert(list[0] == before[0]);
        assert(list.drop_first() =~= rest + seq![(key, held)] + after);
        assert(with_entry(before, key, value) =~= before.push((key, value)));
        assert(seq![before[0]] + (rest + seq![(key, value)] + after) =~= before + seq![
            (key, value),
        ] + after);
    }
}

} // verus!
