//! Lists of entries under text keys: what it means to look a key up and to
//! put a value under it, and the scan that finds a key.

use vstd::prelude::*;

verus! {

/// No key stands at two places of the list.
pub open spec fn distinct_keys<V>(entries: Seq<(Seq<char>, V)>) -> bool {
    forall|i: int, j: int| 0 <= i < j < entries.len() ==> entries[i].0 != entries[j].0
}

/// Some entry of the list has this key.
pub open spec fn has_key<V>(entries: Seq<(Seq<char>, V)>, key: Seq<char>) -> bool {
    exists|i: int| 0 <= i < entries.len() && entries[i].0 == key
}

/// The place of an entry with this key, where there is one.
pub open spec fn place_of<V>(entries: Seq<(Seq<char>, V)>, key: Seq<char>) -> int {
    choose|i: int| 0 <= i < entries.len() && entries[i].0 == key
}

/// The value that the list holds under a key.
pub open spec fn value_of<V>(entries: Seq<(Seq<char>, V)>, key: Seq<char>) -> Option<V> {
    if has_key(entries, key) {
        Some(entries[place_of(entries, key)].1)
    } else {
        None
    }
}

/// The list with `value` under `key`: in place of the old value where the key
/// was there, at the end where it was not.
pub open spec fn put<V>(entries: Seq<(Seq<char>, V)>, key: Seq<char>, value: V) -> Seq<(Seq<char>, V)> {
    if has_key(entries, key) {
        Seq::new(
            entries.len(),
            |i: int|
                if entries[i].0 == key {
                    (key, value)
                } else {
                    entries[i]
                },
        )
    } else {
        entries.push((key, value))
    }
}

/// In a list of distinct keys, the value under the key of the entry at `i` is
/// the value of that entry.
pub proof fn lemma_value_at<V>(entries: Seq<(Seq<char>, V)>, i: int)
    requires
        distinct_keys(entries),
        0 <= i < entries.len(),
    ensures
        has_key(entries, entries[i].0),
        place_of(entries, entries[i].0) == i,
        value_of(entries, entries[i].0) == Some(entries[i].1),
{
    assert(has_key(entries, entries[i].0));
}

/// Putting a value keeps the keys distinct, sets the value under that key,
/// and leaves every other key as it was.
pub proof fn lemma_put<V>(entries: Seq<(Seq<char>, V)>, key: Seq<char>, value: V)
    requires
        distinct_keys(entries),
    ensures
        distinct_keys(put(entries, key, value)),
        value_of(put(entries, key, value), key) == Some(value),
        forall|other: Seq<char>|
            other != key ==> #[trigger] value_of(put(entries, key, value), other) == value_of(entries, other),
        forall|other: Seq<char>|
            #[trigger] has_key(put(entries, key, value), other) == (other == key || has_key(entries, other)),
{
    let after = put(entries, key, value);
    if has_key(entries, key) {
        let at = place_of(entries, key);
        lemma_value_at(after, at);
        assert forall|other: Seq<char>| #[trigger]
            has_key(after, other) == (other == key || has_key(entries, other)) by {
            if has_key(entries, other) {
                let i = place_of(entries, other);
                assert(after[i].0 == other);
            }
        }
        assert forall|other: Seq<char>| other != key implies #[trigger] value_of(after, other) == value_of(
            entries,
            other,
        ) by {
            if has_key(entries, other) {
                let i = place_of(entries, other);
                lemma_value_at(entries, i);
                lemma_value_at(after, i);
            }
        }
    } else {
        let at = entries.len() as int;
        lemma_value_at(after, at);
        assert forall|other: Seq<char>| #[trigger]
            has_key(after, other) == (other == key || has_key(entries, other)) by {
            if has_key(entries, other) {
                let i = place_of(entries, other);
                assert(after[i].0 == other);
            }
        }
        assert forall|other: Seq<char>| other != key implies #[trigger] value_of(after, other) == value_of(
            entries,
            other,
        ) by {
            if has_key(entries, other) {
                let i = place_of(entries, other);
                lemma_value_at(entries, i);
                lemma_value_at(after, i);
            }
        }
    }
}

/// A list of entries with the keys as texts.
pub open spec fn entry_views<V>(entries: Seq<(String, V)>) -> Seq<(Seq<char>, V)> {
    Seq::new(entries.len(), |i: int| (entries[i].0@, entries[i].1))
}

/// The first place of `key` among the first `end` keys of `entries`.
fn find_before<V>(entries: &Vec<(String, V)>, end: usize, key: &String) -> (at: Option<usize>)
    requires
        end <= entries.len(),
    ensures
        match at {
            Some(i) => i < end && entries[i as int].0@ == key@ && forall|j: int|
                0 <= j < i ==> entries[j].0@ != key@,
            None => forall|i: int| 0 <= i < end ==> entries[i].0@ != key@,
        },
{
    let mut i: usize = 0;
    while i < end
        invariant
            i <= end <= entries.len(),
            forall|j: int| 0 <= j < i ==> entries[j].0@ != key@,
        decreases end - i,
    {
        if entries[i].0 == *key {
            return Some(i);
        }
        i = i + 1;
    }
    None
}

/// The first place of `key` among the keys of `entries`.
pub fn find<V>(entries: &Vec<(String, V)>, key: &String) -> (at: Option<usize>)
    ensures
        match at {
            Some(i) => i < entries.len() && entries[i as int].0@ == key@ && forall|j: int|
                0 <= j < i ==> entries[j].0@ != key@,
            None => forall|i: int| 0 <= i < entries.len() ==> entries[i].0@ != key@,
        },
{
    find_before(entries, entries.len(), key)
}

/// Whether no key stands at two places of the list.
pub fn has_distinct_keys<V>(entries: &Vec<(String, V)>) -> (distinct: bool)
    ensures
        distinct == distinct_keys(entry_views(entries@)),
{
    let mut i: usize = 0;
    while i < entries.len()
        invariant
            i <= entries.len(),
            forall|a: int, b: int| 0 <= a < b < i ==> entries[a].0@ != entries[b].0@,
        decreases entries.len() - i,
    {
        match find_before(entries, i, &entries[i].0) {
            Some(j) => {
                assert(entry_views(entries@)[j as int].0 == entry_views(entries@)[i as int].0);
                return false;
            },
            None => {},
        }
        i = i + 1;
    }
    true
}

} // verus!
