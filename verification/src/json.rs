//! JSON values as plain data.

use crate::string_map::{pairs_of, StringMap};
use crate::text::signed_decimal;
use vstd::prelude::*;

verus! {

/// A JSON number: an integer that fits 64 bits, or the text of a fraction.
#[derive(Debug)]
pub enum Number {
    /// An integer from zero up.
    PosInt(u64),
    /// An integer below zero.
    NegInt(i64),
    /// Any other number, as the shortest decimal text that reads back as it.
    Fraction(String),
}

/// A JSON value.
#[derive(Debug)]
pub enum Json {
    Null,
    Bool(bool),
    Number(Number),
    Str(String),
    Array(Vec<Json>),
    Object(StringMap<Json>),
}

/// `serde_json::Number::from_i128`, then the `to_string` that its `Display`
/// gives: an integer that fits 64 bits, signed or unsigned, is written in
/// decimal, with a minus sign where it is negative.
#[verifier::external_body]
fn integer_text(n: i128) -> (text: String)
    requires
        i64::MIN <= n <= u64::MAX,
    ensures
        text@ == signed_decimal(n as int),
{
    serde_json::Number::from_i128(n).unwrap().to_string()
}

impl Number {
    /// The number as text.
    pub open spec fn text(self) -> Seq<char> {
        match self {
            Number::PosInt(n) => signed_decimal(n as int),
            Number::NegInt(n) => signed_decimal(n as int),
            Number::Fraction(text) => text@,
        }
    }

    /// The number as a signed 64-bit integer, where it is one.
    pub open spec fn integer(self) -> Option<int> {
        match self {
            Number::PosInt(n) => if n <= i64::MAX {
                Some(n as int)
            } else {
                None
            },
            Number::NegInt(n) => Some(n as int),
            Number::Fraction(_) => None,
        }
    }

    /// The number as text.
    pub fn to_text(&self) -> (text: String)
        ensures
            text@ == self.text(),
    {
        match self {
            Number::PosInt(n) => integer_text(*n as i128),
            Number::NegInt(n) => integer_text(*n as i128),
            Number::Fraction(text) => text.clone(),
        }
    }

    /// The number as a signed 64-bit integer, where it is one.
    pub fn as_i64(&self) -> (value: Option<i64>)
        ensures
            value is Some <==> self.integer() is Some,
            value matches Some(n) ==> self.integer() == Some(n as int),
    {
        match self {
            Number::PosInt(n) => if *n <= i64::MAX as u64 {
                Some(*n as i64)
            } else {
                None
            },
            Number::NegInt(n) => Some(*n),
            Number::Fraction(_) => None,
        }
    }
}

impl Json {
    /// The member of an object that has the given key.
    pub open spec fn member(self, key: Seq<char>) -> Option<Json> {
        match self {
            Json::Object(members) => if members@.contains_key(key) {
                Some(members@[key])
            } else {
                None
            },
            _ => None,
        }
    }

    /// The text of a string.
    pub open spec fn string(self) -> Option<Seq<char>> {
        match self {
            Json::Str(text) => Some(text@),
            _ => None,
        }
    }

    /// The value of a number that is a signed 64-bit integer.
    pub open spec fn integer(self) -> Option<int> {
        match self {
            Json::Number(number) => number.integer(),
            _ => None,
        }
    }

    /// The text of the member that has the given key, where that is a string.
    pub open spec fn member_string(self, key: Seq<char>) -> Option<Seq<char>> {
        match self.member(key) {
            Some(value) => value.string(),
            None => None,
        }
    }

    /// The value of the member that has the given key, where that is a signed
    /// 64-bit integer.
    pub open spec fn member_integer(self, key: Seq<char>) -> Option<int> {
        match self.member(key) {
            Some(value) => value.integer(),
            None => None,
        }
    }

    /// The member of an object that has the given key.
    pub fn get<'a>(&'a self, key: &str) -> (value: Option<&'a Json>)
        ensures
            value is Some <==> self.member(key@) is Some,
            value matches Some(v) ==> self.member(key@) == Some(*v),
    {
        match self {
            Json::Object(members) => members.get(key),
            _ => None,
        }
    }

    /// The text of a string.
    pub fn as_str<'a>(&'a self) -> (text: Option<&'a str>)
        ensures
            text is Some <==> self.string() is Some,
            text matches Some(t) ==> self.string() == Some(t@),
    {
        match self {
            Json::Str(text) => Some(text.as_str()),
            _ => None,
        }
    }

    /// The value of a number that is a signed 64-bit integer.
    pub fn as_i64(&self) -> (value: Option<i64>)
        ensures
            value is Some <==> self.integer() is Some,
            value matches Some(n) ==> self.integer() == Some(n as int),
    {
        match self {
            Json::Number(number) => number.as_i64(),
            _ => None,
        }
    }

    /// The text of the member that has the given key, where that is a string.
    pub fn get_str<'a>(&'a self, key: &str) -> (text: Option<&'a str>)
        ensures
            text is Some <==> self.member_string(key@) is Some,
            text matches Some(t) ==> self.member_string(key@) == Some(t@),
    {
        match self.get(key) {
            Some(value) => value.as_str(),
            None => None,
        }
    }

    /// The value of the member that has the given key, where that is a signed
    /// 64-bit integer.
    pub fn get_i64(&self, key: &str) -> (value: Option<i64>)
        ensures
            value is Some <==> self.member_integer(key@) is Some,
            value matches Some(n) ==> self.member_integer(key@) == Some(n as int),
    {
        match self.get(key) {
            Some(value) => value.as_i64(),
            None => None,
        }
    }

    /// Whether the value is an array.
    pub fn is_array(&self) -> (b: bool)
        ensures
            b == (*self is Array),
    {
        match self {
            Json::Array(_) => true,
            _ => false,
        }
    }

    /// Whether the value is an object.
    pub fn is_object(&self) -> (b: bool)
        ensures
            b == (*self is Object),
    {
        match self {
            Json::Object(_) => true,
            _ => false,
        }
    }
}

/// Two numbers are of one sort and have one value.
pub open spec fn same_number(one: Number, other: Number) -> bool {
    match (one, other) {
        (Number::PosInt(n), Number::PosInt(m)) => n == m,
        (Number::NegInt(n), Number::NegInt(m)) => n == m,
        (Number::Fraction(s), Number::Fraction(t)) => s@ == t@,
        _ => false,
    }
}

/// Two values hold the same, member by member in the order of the walk.
pub open spec fn same_json(one: Json, other: Json) -> bool
    decreases one,
{
    match (one, other) {
        (Json::Null, Json::Null) => true,
        (Json::Bool(a), Json::Bool(b)) => a == b,
        (Json::Number(n), Json::Number(m)) => same_number(n, m),
        (Json::Str(s), Json::Str(t)) => s@ == t@,
        (Json::Array(a), Json::Array(b)) => a@.len() == b@.len() && same_items(
            one,
            other,
            a@.len(),
        ),
        (Json::Object(a), Json::Object(b)) => a.pairs().len() == b.pairs().len() && same_members(
            one,
            other,
            a.pairs().len(),
        ),
        _ => false,
    }
}

/// The first `n` items of two arrays are the same.
pub open spec fn same_items(one: Json, other: Json, n: nat) -> bool
    decreases one, n,
{
    if one is Array && other is Array && 0 < n <= one->Array_0@.len() {
        same_items(one, other, (n - 1) as nat) && same_json(
            one->Array_0@[n - 1],
            other->Array_0@[n - 1],
        )
    } else {
        true
    }
}

/// The first `n` members of two objects are the same.
pub open spec fn same_members(one: Json, other: Json, n: nat) -> bool
    decreases one, n,
{
    if one is Object && other is Object && 0 < n <= one->Object_0.pairs().len() {
        proof {
            one->Object_0.pairs_decrease(n - 1);
        }
        same_members(one, other, (n - 1) as nat) && one->Object_0.pairs()[n - 1].0
            == other->Object_0.pairs()[n - 1].0 && same_json(
            one->Object_0.pairs()[n - 1].1,
            other->Object_0.pairs()[n - 1].1,
        )
    } else {
        true
    }
}

/// Items that are the same one by one.
proof fn same_items_each(one: Json, other: Json, n: nat)
    requires
        one is Array,
        other is Array,
        n <= one->Array_0@.len(),
        forall|i: int|
            0 <= i < n ==> same_json(#[trigger] one->Array_0@[i], other->Array_0@[i]),
    ensures
        same_items(one, other, n),
    decreases n,
{
    if n > 0 {
        same_items_each(one, other, (n - 1) as nat);
        assert(same_json(one->Array_0@[n - 1], other->Array_0@[n - 1]));
    }
}

/// Members that are the same one by one.
proof fn same_members_each(one: Json, other: Json, n: nat)
    requires
        one is Object,
        other is Object,
        n <= one->Object_0.pairs().len(),
        forall|i: int|
            0 <= i < n ==> (#[trigger] one->Object_0.pairs()[i]).0 == other->Object_0.pairs()[i].0
                && same_json(one->Object_0.pairs()[i].1, other->Object_0.pairs()[i].1),
    ensures
        same_members(one, other, n),
    decreases n,
{
    if n > 0 {
        same_members_each(one, other, (n - 1) as nat);
        assert(one->Object_0.pairs()[n - 1].0 == other->Object_0.pairs()[n - 1].0);
    }
}

/// A number that is the same.
fn copy_number(number: &Number) -> (copied: Number)
    ensures
        same_number(*number, copied),
{
    match number {
        Number::PosInt(n) => Number::PosInt(*n),
        Number::NegInt(n) => Number::NegInt(*n),
        Number::Fraction(text) => Number::Fraction(text.clone()),
    }
}

/// A value that is the same.
fn copy_json(value: &Json) -> (copied: Json)
    ensures
        same_json(*value, copied),
    decreases *value,
{
    match value {
        Json::Null => Json::Null,
        Json::Bool(b) => Json::Bool(*b),
        Json::Number(number) => Json::Number(copy_number(number)),
        Json::Str(text) => Json::Str(text.clone()),
        Json::Array(items) => {
            let mut list: Vec<Json> = Vec::new();
            for i in 0..items.len()
                invariant
                    value == Json::Array(*items),
                    list@.len() == i,
                    forall|j: int| 0 <= j < i ==> same_json(#[trigger] items@[j], list@[j]),
            {
                proof {
                    assert(decreases_to!(*value => value->Array_0));
                    assert(decreases_to!(items => items@));
                    assert(decreases_to!(items@ => items@[i as int]));
                }
                let item: Json = copy_json(&items[i]);
                list.push(item);
            }
            let copied: Json = Json::Array(list);
            proof {
                same_items_each(*value, copied, items@.len());
            }
            copied
        },
        Json::Object(members) => Json::Object(copy_members(members)),
    }
}

/// An object whose members are the same.
fn copy_members(members: &StringMap<Json>) -> (copied: StringMap<Json>)
    ensures
        same_json(Json::Object(*members), Json::Object(copied)),
    decreases *members,
{
    let held: &Vec<(String, Json)> = members.entries();
    let mut list: Vec<(String, Json)> = Vec::new();
    for i in 0..held.len()
        invariant
            pairs_of(held@) == members.pairs(),
            list@.len() == i,
            forall|j: int|
                0 <= j < i ==> (#[trigger] members.pairs()[j]).0 == list@[j].0@ && same_json(
                    members.pairs()[j].1,
                    list@[j].1,
                ),
    {
        proof {
            members.pairs_decrease(i as int);
            assert(members.pairs()[i as int] == (held@[i as int].0@, held@[i as int].1));
        }
        let value: Json = copy_json(&held[i].1);
        list.push((held[i].0.clone(), value));
    }
    proof {
        let pairs = pairs_of(list@);
        assert forall|i: int, j: int|
            #![trigger pairs[i], pairs[j]]
            0 <= i < j < pairs.len() implies pairs[i].0 != pairs[j].0 by {
            assert(members.pairs()[i].0 != members.pairs()[j].0);
        }
    }
    let copied: StringMap<Json> = StringMap::from_entries(list);
    proof {
        same_members_each(Json::Object(*members), Json::Object(copied), members.pairs().len());
    }
    copied
}

impl Clone for Number {
    /// A number that is the same.
    fn clone(&self) -> (copied: Self)
        ensures
            same_number(*self, copied),
    {
        copy_number(self)
    }
}

impl Clone for Json {
    /// A value that is the same.
    fn clone(&self) -> (copied: Self)
        ensures
            same_json(*self, copied),
    {
        copy_json(self)
    }
}

impl Clone for StringMap<Json> {
    /// A map whose entries are the same, in the same order.
    fn clone(&self) -> (copied: Self)
        ensures
            same_json(Json::Object(*self), Json::Object(copied)),
    {
        copy_members(self)
    }
}

} // verus!
