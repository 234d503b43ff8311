//! Ordered key/value entry lists: the shape of a BSON document and of a
//! JSON object. A lookup finds the first entry with the key; an insert
//! replaces the value of that entry in place or appends a new entry at the
//! end.

use vstd::prelude::*;

verus! {

/// `i` is the position of the first entry whose key is `key`.
pub open spec fn is_first<V>(s: Seq<(Seq<char>, V)>, key: Seq<char>, i: int) -> bool {
    &&& 0 <= i < s.len()
    &&& s[i].0 == key
    &&& forall|j: int| 0 <= j < i ==> s[j].0 != key
}

/// Some entry has the key `key`.
pub open spec fn has_key<V>(s: Seq<(Seq<char>, V)>, key: Seq<char>) -> bool {
    exists|i: int| 0 <= i < s.len() && s[i].0 == key
}

/// The position of the first entry whose key is `key`.
pub open spec fn position<V>(s: Seq<(Seq<char>, V)>, key: Seq<char>) -> int
    recommends
        has_key(s, key),
{
    choose|i: int| is_first(s, key, i)
}

/// The value of the first entry whose key is `key`, if there is one.
pub open spec fn lookup<V>(s: Seq<(Seq<char>, V)>, key: Seq<char>) -> Option<V> {
    if has_key(s, key) {
        Some(s[position(s, key)].1)
    } else {
        None
    }
}

/// The entries after setting `key` to `v`: the first entry with that key
/// gets the new value where it stands; without one, a new entry is appended.
pub open spec fn insert_entry<V>(s: Seq<(Seq<char>, V)>, key: Seq<char>, v: V) -> Seq<(Seq<char>, V)> {
    if has_key(s, key) {
        s.update(position(s, key), (key, v))
    } else {
        s.push((key, v))
    }
}

/// No two entries share a key.
pub open spec fn keys_distinct<V>(s: Seq<(Seq<char>, V)>) -> bool {
    forall|i: int, j: int| 0 <= i < j < s.len() ==> s[i].0 != s[j].0
}

/// The entry list with only the characters of each key kept.
pub open spec fn key_view<V>(e: Seq<(String, V)>) -> Seq<(Seq<char>, V)> {
    e.map_values(|p: (String, V)| (p.0@, p.1))
}

/// When some entry has the key, the first one exists, and `position` is it.
pub proof fn lemma_position<V>(s: Seq<(Seq<char>, V)>, key: Seq<char>)
    requires
        has_key(s, key),
    ensures
        is_first(s, key, position(s, key)),
{
    let k = choose|k: int| 0 <= k < s.len() && s[k].0 == key;
    lemma_first_exists(s, key, k);
}

proof fn lemma_first_exists<V>(s: Seq<(Seq<char>, V)>, key: Seq<char>, k: int)
    requires
        0 <= k < s.len(),
        s[k].0 == key,
    ensures
        exists|i: int| is_first(s, key, i),
    decreases k,
{
    if forall|j: int| 0 <= j < k ==> s[j].0 != key {
        assert(is_first(s, key, k));
    } else {
        let j = choose|j: int| 0 <= j < k && s[j].0 == key;
        lemma_first_exists(s, key, j);
    }
}

/// The first entry with a key is unique.
pub proof fn lemma_first_unique<V>(s: Seq<(Seq<char>, V)>, key: Seq<char>, i: int, j: int)
    requires
        is_first(s, key, i),
        is_first(s, key, j),
    ensures
        i == j,
{
}

/// Reading a key right after writing it gives the written value.
pub proof fn lemma_lookup_insert_same<V>(s: Seq<(Seq<char>, V)>, key: Seq<char>, v: V)
    ensures
        lookup(insert_entry(s, key, v), key) == Some(v),
{
    let t = insert_entry(s, key, v);
    if has_key(s, key) {
        lemma_position(s, key);
        let p = position(s, key);
        assert(is_first(t, key, p));
        lemma_position(t, key);
        lemma_first_unique(t, key, p, position(t, key));
    } else {
        let n = s.len() as int;
        assert(is_first(t, key, n));
        lemma_position(t, key);
        lemma_first_unique(t, key, n, position(t, key));
    }
}

/// Writing one key leaves the value read under any other key as it was.
pub proof fn lemma_lookup_insert_other<V>(s: Seq<(Seq<char>, V)>, key: Seq<char>, other: Seq<char>, v: V)
    requires
        key != other,
    ensures
        lookup(insert_entry(s, key, v), other) == lookup(s, other),
{
    let t = insert_entry(s, key, v);
    if has_key(s, key) {
        lemma_position(s, key);
        let p = position(s, key);
        assert forall|j: int| 0 <= j < s.len() implies #[trigger] t[j].0 == s[j].0 by {}
        if has_key(s, other) {
            lemma_position(s, other);
            let q = position(s, other);
            assert(is_first(t, other, q));
            lemma_position(t, other);
            lemma_first_unique(t, other, q, position(t, other));
        } else {
            assert(!has_key(t, other));
        }
    } else {
        if has_key(s, other) {
            lemma_position(s, other);
            let q = position(s, other);
            assert(is_first(t, other, q));
            lemma_position(t, other);
            lemma_first_unique(t, other, q, position(t, other));
        } else {
            assert(!has_key(t, other));
        }
    }
}

/// Writing keeps the keys of an entry list distinct.
pub proof fn lemma_insert_keeps_keys_distinct<V>(s: Seq<(Seq<char>, V)>, key: Seq<char>, v: V)
    requires
        keys_distinct(s),
    ensures
        keys_distinct(insert_entry(s, key, v)),
{
    if has_key(s, key) {
        lemma_position(s, key);
    }
}

/// Writing an existing key keeps the number of entries; writing a new one
/// adds one entry at the end and changes none of the others.
pub proof fn lemma_insert_shape<V>(s: Seq<(Seq<char>, V)>, key: Seq<char>, v: V)
    ensures
        has_key(s, key) ==> insert_entry(s, key, v).len() == s.len(),
        !has_key(s, key) ==> insert_entry(s, key, v) == s.push((key, v)),
        forall|j: int| 0 <= j < s.len() ==> #[trigger] insert_entry(s, key, v)[j].0 == s[j].0,
{
    if has_key(s, key) {
        lemma_position(s, key);
    }
}

/// Finds the position of the first entry whose key is `key`.
pub fn find_key<V>(entries: &Vec<(String, V)>, key: &str) -> (r: Option<usize>)
    ensures
        match r {
            Some(i) => is_first(key_view(entries@), key@, i as int),
            None => !has_key(key_view(entries@), key@),
        },
{
    let k = String::from_str(key);
    let ghost s = key_view(entries@);
    let mut i: usize = 0;
    while i < entries.len()
        invariant
            i <= entries.len(),
            s == key_view(entries@),
            k@ == key@,
            forall|j: int| 0 <= j < i ==> s[j].0 != key@,
        decreases entries.len() - i,
    {
        if entries[i].0 == k {
            assert(s[i as int].0 == key@);
            return Some(i);
        }
        i = i + 1;
    }
    None
}

} // verus!
