//! A map with string keys that can be walked.
//!
//! [`StringMap`] keeps its entries in a list in which no key occurs twice. Its
//! model is a mathematical map from texts to values; the order of the list is
//! only the order in which a walk meets the entries. Output that must not
//! depend on that order goes through [`sorted_entries`].

use crate::text::{precedes, precedes_irreflexive, precedes_total, precedes_transitive};
use crate::text::{same_text, str_text, text_precedes};
use vstd::prelude::*;

verus! {

/// The map that a list of entries stands for; of two entries with one key the
/// later counts.
pub open spec fn entries_map<V>(pairs: Seq<(Seq<char>, V)>) -> Map<Seq<char>, V>
    decreases pairs.len(),
{
    if pairs.len() == 0 {
        Map::empty()
    } else {
        entries_map(pairs.drop_last()).insert(pairs.last().0, pairs.last().1)
    }
}

/// No key occurs twice.
pub open spec fn distinct_keys<V>(pairs: Seq<(Seq<char>, V)>) -> bool {
    forall|i: int, j: int|
        #![trigger pairs[i], pairs[j]]
        0 <= i < j < pairs.len() ==> pairs[i].0 != pairs[j].0
}

/// The keys come in dictionary order, each before all that follow it.
pub open spec fn ascending_keys<V>(pairs: Seq<(Seq<char>, V)>) -> bool {
    forall|i: int, j: int|
        #![trigger pairs[i], pairs[j]]
        0 <= i < j < pairs.len() ==> precedes(pairs[i].0, pairs[j].0)
}

/// The entries with their keys as texts.
pub open spec fn pairs_of<V>(entries: Seq<(String, V)>) -> Seq<(Seq<char>, V)> {
    entries.map_values(|entry: (String, V)| (entry.0@, entry.1))
}

/// The entries with keys and values as texts.
pub open spec fn text_pairs(entries: Seq<(String, String)>) -> Seq<(Seq<char>, Seq<char>)> {
    entries.map_values(|entry: (String, String)| (entry.0@, entry.1@))
}

/// The list holds the entries of `map`, in ascending order of the keys.
pub open spec fn is_sorted_listing<V>(pairs: Seq<(Seq<char>, V)>, map: Map<Seq<char>, V>) -> bool {
    &&& ascending_keys(pairs)
    &&& entries_map(pairs) == map
}

/// The entries of a finite map in ascending order of the keys.
pub open spec fn sorted_entries<V>(map: Map<Seq<char>, V>) -> Seq<(Seq<char>, V)> {
    choose|pairs: Seq<(Seq<char>, V)>| is_sorted_listing(pairs, map)
}

/// The list after `key` was given the value `value`: in its place where the key
/// is held, else at the end.
pub open spec fn with_entry<V>(
    pairs: Seq<(Seq<char>, V)>,
    key: Seq<char>,
    value: V,
) -> Seq<(Seq<char>, V)>
    decreases pairs.len(),
{
    if pairs.len() == 0 {
        seq![(key, value)]
    } else if pairs[0].0 == key {
        pairs.update(0, (key, value))
    } else {
        seq![pairs[0]] + with_entry(pairs.drop_first(), key, value)
    }
}

/// A key is in the map exactly when some entry has it.
pub proof fn entries_map_domain<V>(pairs: Seq<(Seq<char>, V)>, key: Seq<char>)
    ensures
        entries_map(pairs).contains_key(key) <==> exists|i: int|
            0 <= i < pairs.len() && (#[trigger] pairs[i]).0 == key,
    decreases pairs.len(),
{
    if pairs.len() > 0 {
        let head = pairs.drop_last();
        entries_map_domain(head, key);
        if entries_map(pairs).contains_key(key) {
            if pairs.last().0 != key {
                let i = choose|i: int| 0 <= i < head.len() && (#[trigger] head[i]).0 == key;
                assert(pairs[i].0 == key);
            } else {
                assert(pairs[pairs.len() - 1].0 == key);
            }
        }
        if exists|i: int| 0 <= i < pairs.len() && (#[trigger] pairs[i]).0 == key {
            let i = choose|i: int| 0 <= i < pairs.len() && (#[trigger] pairs[i]).0 == key;
            if i < head.len() {
                assert(head[i].0 == key);
            }
        }
    }
}

/// Each entry of a list of distinct keys is in the map.
pub proof fn entries_map_value<V>(pairs: Seq<(Seq<char>, V)>, i: int)
    requires
        distinct_keys(pairs),
        0 <= i < pairs.len(),
    ensures
        entries_map(pairs).contains_key(pairs[i].0),
        entries_map(pairs)[pairs[i].0] == pairs[i].1,
    decreases pairs.len(),
{
    if i < pairs.len() - 1 {
        let head = pairs.drop_last();
        assert forall|a: int, b: int|
            #![trigger head[a], head[b]]
            0 <= a < b < head.len() implies head[a].0 != head[b].0 by {
            assert(pairs[a].0 != pairs[b].0);
        }
        entries_map_value(head, i);
        assert(pairs[i].0 != pairs[pairs.len() - 1].0);
    }
}

/// Two lists of distinct keys with the same entries stand for one map.
pub proof fn same_entries_same_map<V>(p: Seq<(Seq<char>, V)>, q: Seq<(Seq<char>, V)>)
    requires
        distinct_keys(p),
        distinct_keys(q),
        forall|x: (Seq<char>, V)| #[trigger] p.contains(x) <==> q.contains(x),
    ensures
        entries_map(p) == entries_map(q),
{
    let m = entries_map(p);
    let n = entries_map(q);
    assert forall|key: Seq<char>| #[trigger] m.contains_key(key) <==> n.contains_key(key) by {
        entries_map_domain(p, key);
        entries_map_domain(q, key);
        if m.contains_key(key) {
            let i = choose|i: int| 0 <= i < p.len() && (#[trigger] p[i]).0 == key;
            assert(p.contains(p[i]));
            assert(q.contains(p[i]));
        }
        if n.contains_key(key) {
            let i = choose|i: int| 0 <= i < q.len() && (#[trigger] q[i]).0 == key;
            assert(q.contains(q[i]));
            assert(p.contains(q[i]));
        }
    }
    assert forall|key: Seq<char>| #[trigger] m.contains_key(key) implies m[key] == n[key] by {
        entries_map_domain(p, key);
        let i = choose|i: int| 0 <= i < p.len() && (#[trigger] p[i]).0 == key;
        assert(p.contains(p[i]));
        assert(q.contains(p[i]));
        let j = choose|j: int| 0 <= j < q.len() && q[j] == p[i];
        entries_map_value(p, i);
        entries_map_value(q, j);
    }
    assert(m =~= n);
}

/// Ascending keys are distinct.
pub proof fn ascending_keys_distinct<V>(pairs: Seq<(Seq<char>, V)>)
    requires
        ascending_keys(pairs),
    ensures
        distinct_keys(pairs),
{
    assert forall|i: int, j: int|
        #![trigger pairs[i], pairs[j]]
        0 <= i < j < pairs.len() implies pairs[i].0 != pairs[j].0 by {
        precedes_irreflexive(pairs[i].0);
    }
}

/// A map has at most one sorted listing.
pub proof fn sorted_listing_unique<V>(
    p: Seq<(Seq<char>, V)>,
    q: Seq<(Seq<char>, V)>,
    map: Map<Seq<char>, V>,
)
    requires
        is_sorted_listing(p, map),
        is_sorted_listing(q, map),
    ensures
        p == q,
    decreases p.len(),
{
    ascending_keys_distinct(p);
    ascending_keys_distinct(q);
    if p.len() == 0 || q.len() == 0 {
        if q.len() > 0 {
            entries_map_value(q, 0);
        }
        if p.len() > 0 {
            entries_map_value(p, 0);
        }
        assert(p =~= q);
    } else {
        let a = p.last();
        let b = q.last();
        // The last key of each list is the greatest of the map.
        entries_map_value(p, p.len() - 1);
        entries_map_value(q, q.len() - 1);
        entries_map_domain(q, a.0);
        entries_map_domain(p, b.0);
        let i = choose|i: int| 0 <= i < q.len() && (#[trigger] q[i]).0 == a.0;
        let j = choose|j: int| 0 <= j < p.len() && (#[trigger] p[j]).0 == b.0;
        if a.0 != b.0 {
            assert(precedes(q[i].0, q[q.len() - 1].0));
            assert(precedes(p[j].0, p[p.len() - 1].0));
            precedes_transitive(a.0, b.0, a.0);
            precedes_irreflexive(a.0);
        }
        let p0 = p.drop_last();
        let q0 = q.drop_last();
        assert(ascending_keys(p0)) by {
            assert forall|x: int, y: int|
                #![trigger p0[x], p0[y]]
                0 <= x < y < p0.len() implies precedes(p0[x].0, p0[y].0) by {
                assert(precedes(p[x].0, p[y].0));
            }
        }
        assert(ascending_keys(q0)) by {
            assert forall|x: int, y: int|
                #![trigger q0[x], q0[y]]
                0 <= x < y < q0.len() implies precedes(q0[x].0, q0[y].0) by {
                assert(precedes(q[x].0, q[y].0));
            }
        }
        assert(entries_map(p0) =~= map.remove(a.0)) by {
            entries_map_domain(p0, a.0);
            if entries_map(p0).contains_key(a.0) {
                let x = choose|x: int| 0 <= x < p0.len() && (#[trigger] p0[x]).0 == a.0;
                assert(p[x].0 != p[p.len() - 1].0);
            }
        }
        assert(entries_map(q0) =~= map.remove(a.0)) by {
            entries_map_domain(q0, a.0);
            if entries_map(q0).contains_key(a.0) {
                let x = choose|x: int| 0 <= x < q0.len() && (#[trigger] q0[x]).0 == a.0;
                assert(q[x].0 != q[q.len() - 1].0);
            }
        }
        sorted_listing_unique(p0, q0, map.remove(a.0));
        assert(p =~= p0.push(a));
        assert(q =~= q0.push(b));
    }
}

/// A list that is a sorted listing of a map is its `sorted_entries`.
pub proof fn sorted_entries_unique<V>(pairs: Seq<(Seq<char>, V)>, map: Map<Seq<char>, V>)
    requires
        is_sorted_listing(pairs, map),
    ensures
        sorted_entries(map) == pairs,
{
    sorted_listing_unique(sorted_entries(map), pairs, map);
}

/// Giving a held key a new value changes its entry alone, and a new key comes at
/// the end; the map gets the one new entry.
proof fn with_entry_entries<V>(pairs: Seq<(Seq<char>, V)>, key: Seq<char>, value: V)
    requires
        distinct_keys(pairs),
    ensures
        distinct_keys(with_entry(pairs, key, value)),
        entries_map(with_entry(pairs, key, value)) == entries_map(pairs).insert(key, value),
        forall|i: int|
            0 <= i < pairs.len() && (#[trigger] pairs[i]).0 == key ==> with_entry(
                pairs,
                key,
                value,
            ) == pairs.update(i, (key, value)),
        (forall|i: int| 0 <= i < pairs.len() ==> (#[trigger] pairs[i]).0 != key) ==> with_entry(
            pairs,
            key,
            value,
        ) == pairs.push((key, value)),
{
    with_entry_shape(pairs, key, value);
    let after = with_entry(pairs, key, value);
    if exists|i: int| 0 <= i < pairs.len() && (#[trigger] pairs[i]).0 == key {
        let i = choose|i: int| 0 <= i < pairs.len() && (#[trigger] pairs[i]).0 == key;
        assert(after == pairs.update(i, (key, value)));
        assert forall|a: int, b: int|
            #![trigger after[a], after[b]]
            0 <= a < b < after.len() implies after[a].0 != after[b].0 by {
            assert(pairs[a].0 != pairs[b].0);
        }
    } else {
        assert(after == pairs.push((key, value)));
        assert forall|a: int, b: int|
            #![trigger after[a], after[b]]
            0 <= a < b < after.len() implies after[a].0 != after[b].0 by {
            if b < pairs.len() {
                assert(pairs[a].0 != pairs[b].0);
            }
        }
    }
    let m = entries_map(after);
    let n = entries_map(pairs).insert(key, value);
    assert forall|k: Seq<char>| #[trigger] m.contains_key(k) <==> n.contains_key(k) by {
        entries_map_domain(after, k);
        entries_map_domain(pairs, k);
        if m.contains_key(k) && k != key {
            let i = choose|i: int| 0 <= i < after.len() && (#[trigger] after[i]).0 == k;
            assert(pairs[i].0 == k);
        }
        if entries_map(pairs).contains_key(k) {
            let i = choose|i: int| 0 <= i < pairs.len() && (#[trigger] pairs[i]).0 == k;
            assert(after[i].0 == k);
        }
        if k == key {
            if exists|i: int| 0 <= i < pairs.len() && (#[trigger] pairs[i]).0 == key {
                let i = choose|i: int| 0 <= i < pairs.len() && (#[trigger] pairs[i]).0 == key;
                assert(after[i].0 == k);
            } else {
                assert(after[pairs.len() as int].0 == k);
            }
        }
    }
    assert forall|k: Seq<char>| #[trigger] m.contains_key(k) implies m[k] == n[k] by {
        entries_map_domain(after, k);
        let i = choose|i: int| 0 <= i < after.len() && (#[trigger] after[i]).0 == k;
        entries_map_value(after, i);
        if k != key {
            assert(pairs[i] == after[i]);
            entries_map_value(pairs, i);
        }
    }
    assert(m =~= n);
}

/// Where `with_entry` puts the entry.
proof fn with_entry_shape<V>(pairs: Seq<(Seq<char>, V)>, key: Seq<char>, value: V)
    requires
        distinct_keys(pairs),
    ensures
        forall|i: int|
            0 <= i < pairs.len() && (#[trigger] pairs[i]).0 == key ==> with_entry(
                pairs,
                key,
                value,
            ) == pairs.update(i, (key, value)),
        (forall|i: int| 0 <= i < pairs.len() ==> (#[trigger] pairs[i]).0 != key) ==> with_entry(
            pairs,
            key,
            value,
        ) == pairs.push((key, value)),
    decreases pairs.len(),
{
    if pairs.len() == 0 {
        assert(seq![(key, value)] =~= pairs.push((key, value)));
    } else {
        let rest = pairs.drop_first();
        assert forall|a: int, b: int|
            #![trigger rest[a], rest[b]]
            0 <= a < b < rest.len() implies rest[a].0 != rest[b].0 by {
            assert(pairs[a + 1].0 != pairs[b + 1].0);
        }
        with_entry_shape(rest, key, value);
        assert forall|i: int|
            0 <= i < pairs.len() && (#[trigger] pairs[i]).0 == key implies with_entry(
            pairs,
            key,
            value,
        ) == pairs.update(i, (key, value)) by {
            if i > 0 {
                assert(pairs[0].0 != pairs[i].0);
                assert(rest[i - 1].0 == key);
                assert(seq![pairs[0]] + rest.update(i - 1, (key, value)) =~= pairs.update(
                    i,
                    (key, value),
                ));
            }
        }
        if forall|i: int| 0 <= i < pairs.len() ==> (#[trigger] pairs[i]).0 != key {
            assert forall|i: int| 0 <= i < rest.len() implies (#[trigger] rest[i]).0 != key by {
                assert(pairs[i + 1].0 != key);
            }
            assert(seq![pairs[0]] + rest.push((key, value)) =~= pairs.push((key, value)));
        }
    }
}

/// The map of the texts of the entries is the map of the entries with its
/// values as texts.
proof fn texts_are_views(pairs: Seq<(Seq<char>, String)>)
    ensures
        entries_map(pairs.map_values(|pair: (Seq<char>, String)| (pair.0, pair.1@)))
            == entries_map(pairs).map_values(|value: String| value@),
    decreases pairs.len(),
{
    let texts = pairs.map_values(|pair: (Seq<char>, String)| (pair.0, pair.1@));
    if pairs.len() > 0 {
        let head = pairs.drop_last();
        texts_are_views(head);
        assert(texts.drop_last() =~= head.map_values(
            |pair: (Seq<char>, String)| (pair.0, pair.1@),
        ));
    }
    assert(entries_map(texts) =~= entries_map(pairs).map_values(|value: String| value@));
}

/// A map from strings to values of type `V`, with the order of its walk.
#[derive(Debug)]
pub struct StringMap<V> {
    entries: Vec<(String, V)>,
}

impl<V> View for StringMap<V> {
    type V = Map<Seq<char>, V>;

    open spec fn view(&self) -> Map<Seq<char>, V> {
        entries_map(self.pairs())
    }
}

impl<V> StringMap<V> {
    /// The entries in the order of the walk.
    pub closed spec fn pairs(self) -> Seq<(Seq<char>, V)> {
        pairs_of(self.entries@)
    }

    /// No key is held twice.
    #[verifier::type_invariant]
    spec fn keys_are_distinct(self) -> bool {
        distinct_keys(self.pairs())
    }

    /// A map with no entries.
    pub fn new() -> (map: Self)
        ensures
            map.pairs() == Seq::<(Seq<char>, V)>::empty(),
            map@ == Map::<Seq<char>, V>::empty(),
    {
        let entries: Vec<(String, V)> = Vec::new();
        proof {
            assert(pairs_of(entries@) =~= Seq::<(Seq<char>, V)>::empty());
        }
        StringMap { entries }
    }

    /// The map of a list of entries in which no key occurs twice.
    pub fn from_entries(entries: Vec<(String, V)>) -> (map: Self)
        requires
            distinct_keys(pairs_of(entries@)),
        ensures
            map.pairs() == pairs_of(entries@),
    {
        StringMap { entries }
    }

    /// The entries in the order of the walk.
    pub fn entries(&self) -> (entries: &Vec<(String, V)>)
        ensures
            pairs_of(entries@) == self.pairs(),
            distinct_keys(self.pairs()),
    {
        proof {
            use_type_invariant(self);
        }
        &self.entries
    }

    /// The value held under `key`.
    pub fn get<'a>(&'a self, key: &str) -> (value: Option<&'a V>)
        ensures
            value is Some <==> self@.contains_key(key@),
            value matches Some(v) ==> *v == self@[key@],
    {
        proof {
            use_type_invariant(self);
        }
        for i in 0..self.entries.len()
            invariant
                distinct_keys(self.pairs()),
                forall|j: int| 0 <= j < i ==> (#[trigger] self.pairs()[j]).0 != key@,
        {
            proof {
                assert(self.pairs()[i as int] == (
                    self.entries@[i as int].0@,
                    self.entries@[i as int].1,
                ));
            }
            if same_text(self.entries[i].0.as_str(), key) {
                proof {
                    entries_map_value(self.pairs(), i as int);
                }
                return Some(&self.entries[i].1);
            }
        }
        proof {
            entries_map_domain(self.pairs(), key@);
        }
        None
    }

    /// Gives `key` the value `value`, in place of the one held before.
    pub fn insert(&mut self, key: String, value: V)
        ensures
            final(self)@ == old(self)@.insert(key@, value),
            final(self).pairs() == with_entry(old(self).pairs(), key@, value),
    {
        proof {
            use_type_invariant(&*self);
        }
        let ghost before = self.pairs();
        let mut entries: Vec<(String, V)> = Vec::new();
        proof {
            assert(pairs_of(entries@) =~= Seq::<(Seq<char>, V)>::empty());
        }
        std::mem::swap(&mut entries, &mut self.entries);
        let mut at: usize = 0;
        while at < entries.len() && !same_text(entries[at].0.as_str(), key.as_str())
            invariant
                at <= entries@.len(),
                pairs_of(entries@) == before,
                forall|j: int| 0 <= j < at ==> (#[trigger] before[j]).0 != key@,
            decreases entries@.len() - at,
        {
            proof {
                assert(before[at as int] == (entries@[at as int].0@, entries@[at as int].1));
            }
            at = at + 1;
        }
        proof {
            with_entry_entries(before, key@, value);
        }
        if at < entries.len() {
            proof {
                assert(before[at as int].0 == key@);
            }
            entries.set(at, (key, value));
            proof {
                assert(pairs_of(entries@) =~= before.update(at as int, (key@, value)));
            }
        } else {
            entries.push((key, value));
            proof {
                assert(pairs_of(entries@) =~= before.push((key@, value)));
            }
        }
        self.entries = entries;
    }

    /// Each value of the walk is a part of the map.
    pub proof fn pairs_decrease(self, i: int)
        requires
            0 <= i < self.pairs().len(),
        ensures
            decreases_to!(self => self.pairs()[i].1),
    {
        assert(self.pairs()[i].1 == self.entries@[i].1);
        assert(decreases_to!(self => self.entries));
        assert(decreases_to!(self.entries => self.entries@));
        assert(decreases_to!(self.entries@ => self.entries@[i]));
        assert(decreases_to!(self.entries@[i] => self.entries@[i].1));
    }
}

impl StringMap<String> {
    /// The map with its values as texts.
    pub open spec fn texts(self) -> Map<Seq<char>, Seq<char>> {
        entries_map(self.pairs().map_values(|pair: (Seq<char>, String)| (pair.0, pair.1@)))
    }

    /// The text held under `key`.
    pub open spec fn text_at(self, key: Seq<char>) -> Option<Seq<char>> {
        if self.texts().contains_key(key) {
            Some(self.texts()[key])
        } else {
            None
        }
    }

    /// The text held under `key`.
    pub fn get_text<'a>(&'a self, key: &str) -> (text: Option<&'a str>)
        ensures
            str_text(text) == self.text_at(key@),
    {
        proof {
            texts_are_views(self.pairs());
        }
        match self.get(key) {
            Some(text) => Some(text.as_str()),
            None => None,
        }
    }

    /// Gives `key` the text `text`, in place of the one held before.
    pub fn put_text(&mut self, key: &str, text: &str)
        ensures
            final(self).texts() == old(self).texts().insert(key@, text@),
    {
        proof {
            texts_are_views(self.pairs());
        }
        let ghost before = self@;
        self.insert(key.to_owned(), text.to_owned());
        proof {
            texts_are_views(self.pairs());
            assert(self.texts() =~= before.map_values(|value: String| value@).insert(key@, text@));
        }
    }

    /// A map with the same entries.
    pub fn copy(&self) -> (copied: Self)
        ensures
            copied.pairs() == self.pairs(),
    {
        proof {
            use_type_invariant(self);
        }
        let entries: Vec<(String, String)> = self.to_entries();
        proof {
            assert(pairs_of(entries@) =~= self.pairs());
        }
        StringMap { entries }
    }

    /// The entries as texts, in the order of the walk.
    pub fn to_entries(&self) -> (entries: Vec<(String, String)>)
        ensures
            text_pairs(entries@) == self.pairs().map_values(
                |pair: (Seq<char>, String)| (pair.0, pair.1@),
            ),
            pairs_of(entries@) == self.pairs(),
            entries_map(text_pairs(entries@)) == self.texts(),
            distinct_keys(text_pairs(entries@)),
    {
        let held: &Vec<(String, String)> = self.entries();
        let mut entries: Vec<(String, String)> = Vec::new();
        for i in 0..held.len()
            invariant
                entries@ == held@.take(i as int),
        {
            let entry: (String, String) = (held[i].0.clone(), held[i].1.clone());
            entries.push(entry);
        }
        proof {
            assert(entries@ =~= held@);
            let texts = self.pairs().map_values(|pair: (Seq<char>, String)| (pair.0, pair.1@));
            assert(text_pairs(entries@) =~= texts);
            assert forall|i: int, j: int|
                #![trigger texts[i], texts[j]]
                0 <= i < j < texts.len() implies texts[i].0 != texts[j].0 by {
                assert(self.pairs()[i].0 != self.pairs()[j].0);
            }
        }
        entries
    }
}

impl Clone for StringMap<String> {
    /// A map with the same entries.
    fn clone(&self) -> (copied: Self)
        ensures
            copied.pairs() == self.pairs(),
    {
        self.copy()
    }
}

/// The entries in ascending order of their keys.
pub fn sort_entries(entries: Vec<(String, String)>) -> (sorted: Vec<(String, String)>)
    requires
        distinct_keys(text_pairs(entries@)),
    ensures
        text_pairs(sorted@) == sorted_entries(entries_map(text_pairs(entries@))),
        is_sorted_listing(text_pairs(sorted@), entries_map(text_pairs(entries@))),
{
    let ghost all = text_pairs(entries@);
    let mut rest: Vec<(String, String)> = entries;
    let mut sorted: Vec<(String, String)> = Vec::new();
    while rest.len() > 0
        invariant
            distinct_keys(all),
            text_pairs(rest@) == all.take(rest@.len() as int),
            rest@.len() <= all.len(),
            ascending_keys(text_pairs(sorted@)),
            forall|x: (Seq<char>, Seq<char>)| #[trigger]
                text_pairs(sorted@).contains(x) <==> all.skip(rest@.len() as int).contains(x),
        decreases rest@.len(),
    {
        let ghost n = rest@.len() - 1;
        let ghost before = text_pairs(sorted@);
        proof {
            assert(text_pairs(rest@)[n] == all[n]);
        }
        let entry: (String, String) = rest.pop().unwrap();
        let ghost new = (entry.0@, entry.1@);
        proof {
            assert(new == all[n]);
            assert(text_pairs(rest@) =~= all.take(n));
            assert forall|j: int| 0 <= j < before.len() implies (#[trigger] before[j]).0
                != new.0 by {
                assert(before.contains(before[j]));
                let tail = all.skip(n + 1);
                assert(tail.contains(before[j]));
                let k = choose|k: int| 0 <= k < tail.len() && tail[k] == before[j];
                assert(all[n].0 != all[n + 1 + k].0);
            }
        }
        let mut at: usize = 0;
        while at < sorted.len() && text_precedes(sorted[at].0.as_str(), entry.0.as_str())
            invariant
                at <= sorted@.len(),
                before == text_pairs(sorted@),
                new == (entry.0@, entry.1@),
                forall|j: int| 0 <= j < at ==> precedes((#[trigger] before[j]).0, new.0),
            decreases sorted@.len() - at,
        {
            proof {
                assert(before[at as int].0 == sorted@[at as int].0@);
            }
            at = at + 1;
        }
        proof {
            if at < before.len() {
                assert(before[at as int].0 == sorted@[at as int].0@);
                precedes_total(before[at as int].0, new.0);
            }
        }
        sorted.insert(at, entry);
        proof {
            let after = text_pairs(sorted@);
            assert(after =~= before.insert(at as int, new));
            assert forall|i: int, j: int|
                #![trigger after[i], after[j]]
                0 <= i < j < after.len() implies precedes(after[i].0, after[j].0) by {
                let p = at as int;
                if j < p {
                    assert(precedes(before[i].0, before[j].0));
                } else if j == p {
                    assert(precedes(before[i].0, new.0));
                } else if i == p {
                    assert(after[j] == before[j - 1]);
                    if j - 1 > p {
                        assert(precedes(before[p].0, before[j - 1].0));
                        precedes_transitive(new.0, before[p].0, before[j - 1].0);
                    }
                } else if i < p {
                    assert(after[j] == before[j - 1]);
                    assert(precedes(before[i].0, before[j - 1].0));
                } else {
                    assert(precedes(before[i - 1].0, before[j - 1].0));
                }
            }
            let tail = all.skip(n);
            let old_tail = all.skip(n + 1);
            assert(tail =~= seq![new] + old_tail);
            assert forall|x: (Seq<char>, Seq<char>)| #[trigger]
                after.contains(x) <==> tail.contains(x) by {
                if after.contains(x) {
                    let i = choose|i: int| 0 <= i < after.len() && after[i] == x;
                    if i == at {
                        assert(tail[0] == x);
                    } else {
                        let b = if i < at {
                            i
                        } else {
                            i - 1
                        };
                        assert(before[b] == x);
                        assert(before.contains(x));
                        let k = choose|k: int| 0 <= k < old_tail.len() && old_tail[k] == x;
                        assert(tail[k + 1] == x);
                    }
                }
                if tail.contains(x) {
                    let k = choose|k: int| 0 <= k < tail.len() && tail[k] == x;
                    if k == 0 {
                        assert(after[at as int] == x);
                    } else {
                        assert(old_tail[k - 1] == x);
                        assert(old_tail.contains(x));
                        assert(before.contains(x));
                        let b = choose|b: int| 0 <= b < before.len() && before[b] == x;
                        if b < at {
                            assert(after[b] == x);
                        } else {
                            assert(after[b + 1] == x);
                        }
                    }
                }
            }
        }
    }
    proof {
        let pairs = text_pairs(sorted@);
        assert(all.skip(0) =~= all);
        ascending_keys_distinct(pairs);
        same_entries_same_map(pairs, all);
        sorted_entries_unique(pairs, entries_map(all));
    }
    sorted
}

} // verus!
