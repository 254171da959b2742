//! Lists of entries under string keys, read by the first entry under a key.

use vstd::prelude::*;

verus! {

/// Whether some entry stands under `key`.
pub open spec fn has_key<V>(entries: Seq<(Seq<char>, V)>, key: Seq<char>) -> bool {
    exists|i: int| 0 <= i < entries.len() && (#[trigger] entries[i]).0 == key
}

/// Whether `i` is the place of the first entry under `key`.
pub open spec fn is_first<V>(entries: Seq<(Seq<char>, V)>, key: Seq<char>, i: int) -> bool {
    &&& 0 <= i < entries.len()
    &&& entries[i].0 == key
    &&& forall|j: int| 0 <= j < i ==> (#[trigger] entries[j]).0 != key
}

/// The place of the first entry under `key`, where there is one.
pub open spec fn place_of<V>(entries: Seq<(Seq<char>, V)>, key: Seq<char>) -> int {
    choose|i: int| is_first(entries, key, i)
}

/// The value of the first entry under `key`.
pub open spec fn value_of<V>(entries: Seq<(Seq<char>, V)>, key: Seq<char>) -> Option<V> {
    if has_key(entries, key) {
        Some(entries[place_of(entries, key)].1)
    } else {
        None
    }
}

/// Whether no two entries stand under one key.
pub open spec fn distinct_keys<V>(entries: Seq<(Seq<char>, V)>) -> bool {
    forall|i: int, j: int|
        0 <= i < j < entries.len() ==> (#[trigger] entries[i]).0 != (#[trigger] entries[j]).0
}

/// An entry under `key` at `k` has a first entry under `key` at or before it.
proof fn lemma_first_before<V>(entries: Seq<(Seq<char>, V)>, key: Seq<char>, k: int)
    requires
        0 <= k < entries.len(),
        entries[k].0 == key,
    ensures
        exists|i: int| is_first(entries, key, i),
    decreases k,
{
    if forall|j: int| 0 <= j < k ==> (#[trigger] entries[j]).0 != key {
        assert(is_first(entries, key, k));
    } else {
        let j = choose|j: int| 0 <= j < k && (#[trigger] entries[j]).0 == key;
        lemma_first_before(entries, key, j);
    }
}

/// Among entries some of which stand under `key`, one is the first.
pub proof fn lemma_first_exists<V>(entries: Seq<(Seq<char>, V)>, key: Seq<char>)
    requires
        has_key(entries, key),
    ensures
        is_first(entries, key, place_of(entries, key)),
{
    let k = choose|i: int| 0 <= i < entries.len() && (#[trigger] entries[i]).0 == key;
    lemma_first_before(entries, key, k);
}

/// The value under a key is that of the first entry under it.
pub proof fn lemma_value_at<V>(entries: Seq<(Seq<char>, V)>, key: Seq<char>, i: int)
    requires
        is_first(entries, key, i),
    ensures
        has_key(entries, key),
        place_of(entries, key) == i,
        value_of(entries, key) == Some(entries[i].1),
{
    lemma_first_exists(entries, key);
}

/// Among distinct keys, the value under the key of an entry is that entry's.
pub proof fn lemma_value_of_entry<V>(entries: Seq<(Seq<char>, V)>, i: int)
    requires
        distinct_keys(entries),
        0 <= i < entries.len(),
    ensures
        value_of(entries, entries[i].0) == Some(entries[i].1),
{
    assert(is_first(entries, entries[i].0, i));
    lemma_value_at(entries, entries[i].0, i);
}

/// An entry added at the end under another key leaves the value under `key`
/// as it was.
pub proof fn lemma_value_after_push<V>(
    entries: Seq<(Seq<char>, V)>,
    added: (Seq<char>, V),
    key: Seq<char>,
)
    requires
        added.0 != key,
    ensures
        value_of(entries.push(added), key) == value_of(entries, key),
{
    let longer = entries.push(added);
    if has_key(entries, key) {
        lemma_first_exists(entries, key);
        let i = place_of(entries, key);
        assert forall|j: int| 0 <= j < i implies (#[trigger] longer[j]).0 != key by {
            assert(longer[j] == entries[j]);
        }
        assert(longer[i] == entries[i]);
        assert(is_first(longer, key, i));
        lemma_value_at(longer, key, i);
    } else {
        assert forall|j: int| 0 <= j < longer.len() implies (#[trigger] longer[j]).0 != key by {
            if j < entries.len() {
                assert(longer[j] == entries[j]);
            }
        }
    }
}

/// An entry added at the end under a key that was not there gives that key
/// its value.
pub proof fn lemma_value_of_pushed<V>(entries: Seq<(Seq<char>, V)>, added: (Seq<char>, V))
    requires
        !has_key(entries, added.0),
    ensures
        value_of(entries.push(added), added.0) == Some(added.1),
{
    let longer = entries.push(added);
    let i = entries.len() as int;
    assert forall|j: int| 0 <= j < i implies (#[trigger] longer[j]).0 != added.0 by {
        assert(longer[j] == entries[j]);
    }
    assert(is_first(longer, added.0, i));
    lemma_value_at(longer, added.0, i);
}

/// The entries after `key` was given `value`: an entry under that key is
/// overwritten where it stands, a new key is added at the end.
pub open spec fn with_value<V>(entries: Seq<(Seq<char>, V)>, key: Seq<char>, value: V) -> Seq<
    (Seq<char>, V),
> {
    if has_key(entries, key) {
        entries.update(place_of(entries, key), (key, value))
    } else {
        entries.push((key, value))
    }
}

/// The entries without the first entry under `key`; all of them where there
/// is none.
pub open spec fn without_key<V>(entries: Seq<(Seq<char>, V)>, key: Seq<char>) -> Seq<
    (Seq<char>, V),
> {
    if has_key(entries, key) {
        entries.remove(place_of(entries, key))
    } else {
        entries
    }
}

/// Giving a key a value keeps the keys distinct, puts the value under the
/// key and leaves every other key as it was.
pub proof fn lemma_with_value<V>(entries: Seq<(Seq<char>, V)>, key: Seq<char>, value: V)
    requires
        distinct_keys(entries),
    ensures
        distinct_keys(with_value(entries, key, value)),
        value_of(with_value(entries, key, value), key) == Some(value),
        forall|other: Seq<char>|
            other != key ==> value_of(with_value(entries, key, value), other) == value_of(
                entries,
                other,
            ),
{
    let after = with_value(entries, key, value);
    if has_key(entries, key) {
        lemma_first_exists(entries, key);
        let at = place_of(entries, key);
        assert(is_first(after, key, at));
        lemma_value_at(after, key, at);
        assert forall|other: Seq<char>| other != key implies value_of(after, other) == value_of(
            entries,
            other,
        ) by {
            if has_key(entries, other) {
                lemma_first_exists(entries, other);
                let i = place_of(entries, other);
                assert(after[i] == entries[i]);
                assert forall|j: int| 0 <= j < i implies (#[trigger] after[j]).0 != other by {
                    assert(entries[j].0 != other);
                }
                assert(is_first(after, other, i));
                lemma_value_at(after, other, i);
            } else {
                assert forall|j: int| 0 <= j < after.len() implies (#[trigger] after[j]).0
                    != other by {
                    assert(entries[j].0 != other);
                }
            }
        }
    } else {
        lemma_value_of_pushed(entries, (key, value));
        assert forall|other: Seq<char>| other != key implies value_of(after, other) == value_of(
            entries,
            other,
        ) by {
            lemma_value_after_push(entries, (key, value), other);
        }
    }
}

/// Taking a key out keeps the keys distinct, leaves nothing under the key
/// and leaves every other key as it was.
pub proof fn lemma_without_key<V>(entries: Seq<(Seq<char>, V)>, key: Seq<char>)
    requires
        distinct_keys(entries),
    ensures
        distinct_keys(without_key(entries, key)),
        !has_key(without_key(entries, key), key),
        forall|other: Seq<char>|
            other != key ==> value_of(without_key(entries, key), other) == value_of(entries, other),
{
    let after = without_key(entries, key);
    if has_key(entries, key) {
        lemma_first_exists(entries, key);
        let at = place_of(entries, key);
        assert forall|j: int| 0 <= j < after.len() implies #[trigger] after[j] == entries[if j
            < at {
            j
        } else {
            j + 1
        }] by {}
        assert forall|other: Seq<char>| other != key implies value_of(after, other) == value_of(
            entries,
            other,
        ) by {
            if has_key(entries, other) {
                lemma_first_exists(entries, other);
                let i = place_of(entries, other);
                let k = if i < at {
                    i
                } else {
                    i - 1
                };
                assert(after[k] == entries[i]);
                assert(is_first(after, other, k));
                lemma_value_at(after, other, k);
            } else {
                assert forall|j: int| 0 <= j < after.len() implies (#[trigger] after[j]).0
                    != other by {
                    assert(entries[if j < at { j } else { j + 1 }].0 != other);
                }
            }
        }
    }
}

/// Every entry after `key` was given `value` is the new entry or was there
/// before.
pub proof fn lemma_with_value_entries<V>(entries: Seq<(Seq<char>, V)>, key: Seq<char>, value: V)
    ensures
        forall|i: int|
            0 <= i < with_value(entries, key, value).len() ==> {
                let e = #[trigger] with_value(entries, key, value)[i];
                e == (key, value) || entries.contains(e)
            },
{
    let after = with_value(entries, key, value);
    if has_key(entries, key) {
        lemma_first_exists(entries, key);
    }
    assert forall|i: int| 0 <= i < after.len() implies {
        let e = #[trigger] after[i];
        e == (key, value) || entries.contains(e)
    } by {
        if after[i] != (key, value) {
            assert(entries[i] == after[i]);
        }
    }
}

/// Every entry after `key` was taken out was there before.
pub proof fn lemma_without_key_entries<V>(entries: Seq<(Seq<char>, V)>, key: Seq<char>)
    ensures
        forall|i: int|
            0 <= i < without_key(entries, key).len() ==> entries.contains(
                #[trigger] without_key(entries, key)[i],
            ),
{
    let after = without_key(entries, key);
    if has_key(entries, key) {
        lemma_first_exists(entries, key);
        let at = place_of(entries, key);
        assert forall|i: int| 0 <= i < after.len() implies entries.contains(#[trigger] after[i]) by {
            let j = if i < at {
                i
            } else {
                i + 1
            };
            assert(entries[j] == after[i]);
        }
    } else {
        assert forall|i: int| 0 <= i < after.len() implies entries.contains(#[trigger] after[i]) by {
            assert(entries[i] == after[i]);
        }
    }
}

/// Giving a key a value twice is giving it the second value once.
pub proof fn lemma_with_value_twice<V>(
    entries: Seq<(Seq<char>, V)>,
    key: Seq<char>,
    first: V,
    second: V,
)
    ensures
        with_value(with_value(entries, key, first), key, second) == with_value(
            entries,
            key,
            second,
        ),
{
    let once = with_value(entries, key, first);
    if has_key(entries, key) {
        lemma_first_exists(entries, key);
        let at = place_of(entries, key);
        assert(once[at].0 == key);
        assert forall|j: int| 0 <= j < at implies (#[trigger] once[j]).0 != key by {
            assert(entries[j].0 != key);
        }
        assert(is_first(once, key, at));
        lemma_value_at(once, key, at);
        assert(with_value(once, key, second) =~= with_value(entries, key, second));
    } else {
        let at = entries.len() as int;
        assert(once[at].0 == key);
        assert forall|j: int| 0 <= j < at implies (#[trigger] once[j]).0 != key by {
            assert(once[j] == entries[j]);
        }
        assert(is_first(once, key, at));
        lemma_value_at(once, key, at);
        assert(with_value(once, key, second) =~= with_value(entries, key, second));
    }
}

} // verus!
