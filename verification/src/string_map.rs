//! A map from text keys to values, kept as a list of entries in insertion
//! order. A key is found at its first entry; inserting under a key that is
//! present replaces that entry's value in place.

use vstd::prelude::*;

verus! {

/// The index of the first occurrence of `key` at or after `from`, or the
/// length of `keys` where there is none.
pub open spec fn find_from(keys: Seq<Seq<char>>, key: Seq<char>, from: int) -> int
    decreases keys.len() - from,
{
    if from < 0 || from >= keys.len() {
        keys.len() as int
    } else if keys[from] == key {
        from
    } else {
        find_from(keys, key, from + 1)
    }
}

/// The index of the first occurrence of `key`, or the length of `keys`.
pub open spec fn find(keys: Seq<Seq<char>>, key: Seq<char>) -> int {
    find_from(keys, key, 0)
}

/// The keys of a list of entries, in order.
pub open spec fn keys_of<T>(entries: Seq<(Seq<char>, T)>) -> Seq<Seq<char>> {
    Seq::new(entries.len(), |i: int| entries[i].0)
}

/// Whether some entry has the key.
pub open spec fn has_key<T>(entries: Seq<(Seq<char>, T)>, key: Seq<char>) -> bool {
    find(keys_of(entries), key) < entries.len()
}

/// The value under `key`, if any.
pub open spec fn lookup<T>(entries: Seq<(Seq<char>, T)>, key: Seq<char>) -> Option<T> {
    let i = find(keys_of(entries), key);
    if i < entries.len() {
        Some(entries[i].1)
    } else {
        None
    }
}

/// The entries after `value` is stored under `key`.
pub open spec fn put<T>(entries: Seq<(Seq<char>, T)>, key: Seq<char>, value: T) -> Seq<
    (Seq<char>, T),
> {
    let i = find(keys_of(entries), key);
    if i < entries.len() {
        entries.update(i, (key, value))
    } else {
        entries.push((key, value))
    }
}

/// No key occurs twice.
pub open spec fn distinct(keys: Seq<Seq<char>>) -> bool {
    forall|i: int, j: int| 0 <= i < j < keys.len() ==> keys[i] != keys[j]
}

/// `find_from` returns the first match at or after `from`.
pub proof fn lemma_find_from(keys: Seq<Seq<char>>, key: Seq<char>, from: int)
    requires
        0 <= from <= keys.len(),
    ensures
        from <= find_from(keys, key, from) <= keys.len(),
        find_from(keys, key, from) < keys.len() ==> keys[find_from(keys, key, from)] == key,
        forall|j: int| from <= j < find_from(keys, key, from) ==> keys[j] != key,
    decreases keys.len() - from,
{
    if from < keys.len() && keys[from] != key {
        lemma_find_from(keys, key, from + 1);
    }
}

/// An index that holds `key` and has no match before it is the one `find`
/// returns.
pub proof fn lemma_find_is(keys: Seq<Seq<char>>, key: Seq<char>, at: int)
    requires
        0 <= at <= keys.len(),
        at < keys.len() ==> keys[at] == key,
        forall|j: int| 0 <= j < at ==> keys[j] != key,
    ensures
        find(keys, key) == at,
{
    lemma_find_from(keys, key, 0);
}

/// What `put` does to lookups, to the length and to the keys.
pub proof fn lemma_put<T>(entries: Seq<(Seq<char>, T)>, key: Seq<char>, value: T)
    ensures
        lookup(put(entries, key, value), key) == Some(value),
        forall|other: Seq<char>|
            other != key ==> #[trigger] lookup(put(entries, key, value), other) == lookup(
                entries,
                other,
            ),
        has_key(entries, key) ==> put(entries, key, value).len() == entries.len() && keys_of(
            put(entries, key, value),
        ) == keys_of(entries),
        !has_key(entries, key) ==> put(entries, key, value) == entries.push((key, value))
            && keys_of(put(entries, key, value)) == keys_of(entries).push(key),
        distinct(keys_of(entries)) ==> distinct(keys_of(put(entries, key, value))),
{
    let keys = keys_of(entries);
    let after = put(entries, key, value);
    let keys_after = keys_of(after);
    let i = find(keys, key);
    lemma_find_from(keys, key, 0);
    if i < entries.len() {
        assert(keys_after =~= keys);
    } else {
        assert(keys_after =~= keys.push(key));
        lemma_find_is(keys_after, key, i);
    }
    assert forall|other: Seq<char>| other != key implies #[trigger] lookup(after, other) == lookup(
        entries,
        other,
    ) by {
        let at = find(keys, other);
        lemma_find_from(keys, other, 0);
        let at_after = if at < keys.len() {
            at
        } else {
            keys_after.len() as int
        };
        lemma_find_is(keys_after, other, at_after);
    }
}

/// The entries that remain when the given ones are stored one after the
/// other: of entries with the same key the last one's value stays, at
/// the place of the first.
pub open spec fn collected<T>(entries: Seq<(Seq<char>, T)>) -> Seq<(Seq<char>, T)>
    decreases entries.len(),
{
    if entries.len() == 0 {
        Seq::empty()
    } else {
        put(collected(entries.drop_last()), entries.last().0, entries.last().1)
    }
}

/// What is collected has no key twice, and entries that have no key
/// twice are collected as they are.
pub proof fn lemma_collected<T>(entries: Seq<(Seq<char>, T)>)
    ensures
        distinct(keys_of(collected(entries))),
        distinct(keys_of(entries)) ==> collected(entries) == entries,
    decreases entries.len(),
{
    if entries.len() > 0 {
        let front = entries.drop_last();
        let last = entries.last();
        lemma_collected(front);
        lemma_put(collected(front), last.0, last.1);
        if distinct(keys_of(entries)) {
            assert forall|i: int, j: int| 0 <= i < j < front.len() implies keys_of(front)[i]
                != keys_of(front)[j] by {
                assert(keys_of(entries)[i] != keys_of(entries)[j]);
            }
            assert forall|j: int| 0 <= j < front.len() implies keys_of(front)[j] != last.0 by {
                assert(keys_of(entries)[j] != keys_of(entries)[entries.len() - 1]);
            }
            lemma_find_is(keys_of(front), last.0, front.len() as int);
            assert(front.push(last) =~= entries);
        }
    }
}

/// A list of entries keyed by text. A map is well formed when no key
/// occurs twice; every map that this library makes is.
#[derive(Clone, Debug, PartialEq)]
pub struct StringMap<V> {
    pub entries: Vec<(String, V)>,
}

impl<V> StringMap<V> {
    /// The entries with their keys as character sequences.
    pub open spec fn pairs(&self) -> Seq<(Seq<char>, V)> {
        Seq::new(self.entries@.len(), |i: int| (self.entries@[i].0@, self.entries@[i].1))
    }

    /// The keys, in order.
    pub open spec fn keys(&self) -> Seq<Seq<char>> {
        keys_of(self.pairs())
    }

    /// No key occurs twice.
    pub open spec fn well_formed(&self) -> bool {
        distinct(self.keys())
    }

    /// An empty map.
    pub fn new() -> (map: Self)
        ensures
            map.pairs() == Seq::<(Seq<char>, V)>::empty(),
            map.entries@.len() == 0,
            map.well_formed(),
    {
        let map = StringMap { entries: Vec::new() };
        assert(map.pairs() =~= Seq::<(Seq<char>, V)>::empty());
        map
    }

    /// The number of entries.
    pub fn len(&self) -> (n: usize)
        ensures
            n == self.pairs().len(),
    {
        self.entries.len()
    }

    /// Whether there is no entry.
    pub fn is_empty(&self) -> (empty: bool)
        ensures
            empty == (self.pairs().len() == 0),
    {
        self.entries.len() == 0
    }

    /// The position of the first entry under `key`, or the number of
    /// entries where there is none.
    pub fn position(&self, key: &str) -> (at: usize)
        ensures
            at == find(self.keys(), key@),
            at <= self.entries@.len(),
    {
        let wanted = String::from_str(key);
        let n = self.entries.len();
        let mut i: usize = 0;
        while i < n
            invariant
                i <= n,
                n == self.entries@.len(),
                wanted@ == key@,
                forall|j: int| 0 <= j < i ==> self.keys()[j] != key@,
            decreases n - i,
        {
            if self.entries[i].0 == wanted {
                proof {
                    lemma_find_is(self.keys(), key@, i as int);
                }
                return i;
            }
            i = i + 1;
        }
        proof {
            lemma_find_is(self.keys(), key@, n as int);
        }
        n
    }

    /// Whether some entry has the key.
    pub fn contains_key(&self, key: &str) -> (found: bool)
        ensures
            found == has_key(self.pairs(), key@),
    {
        self.position(key) < self.entries.len()
    }

    /// The value under `key`, if any.
    pub fn get(&self, key: &str) -> (value: Option<&V>)
        ensures
            match value {
                Some(v) => lookup(self.pairs(), key@) == Some(*v),
                None => lookup(self.pairs(), key@) is None,
            },
    {
        let at = self.position(key);
        if at < self.entries.len() {
            Some(&self.entries[at].1)
        } else {
            None
        }
    }

    /// Stores `value` under `key`: in place of the value that the key had,
    /// or as a new last entry.
    pub fn insert(&mut self, key: String, value: V)
        ensures
            final(self).pairs() == put(old(self).pairs(), key@, value),
            old(self).well_formed() ==> final(self).well_formed(),
    {
        proof {
            lemma_put(self.pairs(), key@, value);
        }
        let at = self.position(key.as_str());
        if at < self.entries.len() {
            self.entries.set(at, (key, value));
        } else {
            self.entries.push((key, value));
        }
        assert(self.pairs() =~= put(old(self).pairs(), key@, value));
    }
}

impl<V: DeepView> DeepView for StringMap<V> {
    type V = Seq<(Seq<char>, V::V)>;

    open spec fn deep_view(&self) -> Seq<(Seq<char>, V::V)> {
        Seq::new(
            self.entries@.len(),
            |i: int| (self.entries@[i].0@, self.entries@[i].1.deep_view()),
        )
    }
}

/// A copy of a map of strings.
pub fn duplicate_strings(map: &StringMap<String>) -> (copy: StringMap<String>)
    ensures
        copy.deep_view() == map.deep_view(),
        copy.well_formed() == map.well_formed(),
{
    let mut entries: Vec<(String, String)> = Vec::new();
    let mut i: usize = 0;
    while i < map.entries.len()
        invariant
            i <= map.entries@.len(),
            entries@.len() == i,
            forall|j: int|
                0 <= j < i ==> entries@[j].0@ == map.entries@[j].0@ && entries@[j].1@
                    == map.entries@[j].1@,
        decreases map.entries@.len() - i,
    {
        entries.push((map.entries[i].0.clone(), map.entries[i].1.clone()));
        i = i + 1;
    }
    let copy = StringMap { entries };
    assert(copy.deep_view() =~= map.deep_view());
    assert(copy.keys() =~= map.keys());
    copy
}

/// The keys of a map are those of its view.
pub proof fn lemma_deep_view_keys<V: DeepView>(map: StringMap<V>)
    ensures
        keys_of(map.deep_view()) == map.keys(),
        map.deep_view().len() == map.pairs().len(),
{
    assert(keys_of(map.deep_view()) =~= map.keys());
}

/// A lookup in the view gives the view of what the lookup gives.
pub proof fn lemma_deep_view_lookup<V: DeepView>(map: StringMap<V>, key: Seq<char>)
    ensures
        lookup(map.deep_view(), key) == match lookup(map.pairs(), key) {
            Some(v) => Some(v.deep_view()),
            None => None,
        },
{
    lemma_deep_view_keys(map);
    lemma_find_from(map.keys(), key, 0);
}

/// Where `after` holds what `put` makes of `before`, the same is true of
/// their views.
pub proof fn lemma_deep_view_put<V: DeepView>(
    before: StringMap<V>,
    after: StringMap<V>,
    key: Seq<char>,
    value: V,
)
    requires
        after.pairs() == put(before.pairs(), key, value),
    ensures
        after.deep_view() == put(before.deep_view(), key, value.deep_view()),
{
    lemma_deep_view_keys(before);
    lemma_find_from(before.keys(), key, 0);
    let i = find(before.keys(), key);
    assert(after.entries@.len() == after.pairs().len());
    assert(before.entries@.len() == before.pairs().len());
    assert forall|j: int| 0 <= j < after.entries@.len() implies after.deep_view()[j] == put(
        before.deep_view(),
        key,
        value.deep_view(),
    )[j] by {
        assert(after.pairs()[j] == put(before.pairs(), key, value)[j]);
        if j < before.entries@.len() {
            assert(before.pairs()[j] == (before.entries@[j].0@, before.entries@[j].1));
        }
    }
    assert(after.deep_view() =~= put(before.deep_view(), key, value.deep_view()));
}

} // verus!
