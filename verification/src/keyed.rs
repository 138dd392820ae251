//! Sequences of `(key, value)` entries, keyed by text: the mathematical model
//! of the ordered maps of this crate.

use vstd::prelude::*;

verus! {

/// A sequence of entries, each a key with its value.
pub type Entries<V> = Seq<(Seq<char>, V)>;

/// The entry at index `i` of `entries` has the key `key`.
pub open spec fn key_at<V>(entries: Entries<V>, key: Seq<char>, i: int) -> bool {
    0 <= i < entries.len() && entries[i].0 == key
}

/// Some entry has the key `key`.
pub open spec fn contains_key<V>(entries: Entries<V>, key: Seq<char>) -> bool {
    exists|i: int| key_at(entries, key, i)
}

/// The index of the first entry with the key `key`, where there is one.
pub open spec fn position<V>(entries: Entries<V>, key: Seq<char>) -> int {
    choose|i: int| key_at(entries, key, i) && forall|j: int| 0 <= j < i ==> !key_at(entries, key, j)
}

/// The value of the first entry with the key `key`.
pub open spec fn get<V>(entries: Entries<V>, key: Seq<char>) -> Option<V> {
    if contains_key(entries, key) {
        Some(entries[position(entries, key)].1)
    } else {
        None
    }
}

/// `entries` with `value` under `key`: in the place of the first entry with
/// that key where there is one, and as a new last entry otherwise.
pub open spec fn insert<V>(entries: Entries<V>, key: Seq<char>, value: V) -> Entries<V> {
    if contains_key(entries, key) {
        entries.update(position(entries, key), (key, value))
    } else {
        entries.push((key, value))
    }
}

/// No key occurs twice.
pub open spec fn keys_distinct<V>(entries: Entries<V>) -> bool {
    forall|i: int, j: int| 0 <= i < j < entries.len() ==> entries[i].0 != entries[j].0
}

/// The number of entries with the key `key`.
pub open spec fn count_key<V>(entries: Entries<V>, key: Seq<char>) -> nat
    decreases entries.len(),
{
    if entries.len() == 0 {
        0
    } else {
        count_key(entries.drop_last(), key) + if entries.last().0 == key {
            1nat
        } else {
            0nat
        }
    }
}

/// Every key of `before` keeps its value in `after`.
pub open spec fn preserved<V>(before: Entries<V>, after: Entries<V>) -> bool {
    forall|key: Seq<char>| #[trigger]
        contains_key(before, key) ==> get(after, key) == get(before, key)
}

/// The first entry with a key is the least index that has it.
pub proof fn lemma_position<V>(entries: Entries<V>, key: Seq<char>, at: int)
    requires
        key_at(entries, key, at),
        forall|j: int| 0 <= j < at ==> !key_at(entries, key, j),
    ensures
        contains_key(entries, key),
        position(entries, key) == at,
        get(entries, key) == Some(entries[at].1),
{
    let p = position(entries, key);
    assert(key_at(entries, key, p) && forall|j: int| 0 <= j < p ==> !key_at(entries, key, j));
    if p < at {
        assert(!key_at(entries, key, p));
    }
    if at < p {
        assert(!key_at(entries, key, at));
    }
}

/// Where a key is present, its position is an index that has it, and the
/// first such.
pub proof fn lemma_position_of_present<V>(entries: Entries<V>, key: Seq<char>)
    requires
        contains_key(entries, key),
    ensures
        key_at(entries, key, position(entries, key)),
        forall|j: int| 0 <= j < position(entries, key) ==> !key_at(entries, key, j),
{
    let w = choose|i: int| key_at(entries, key, i);
    lemma_least_exists(entries, key, w);
}

/// Below any index that has the key there is a least one.
proof fn lemma_least_exists<V>(entries: Entries<V>, key: Seq<char>, w: int)
    requires
        key_at(entries, key, w),
    ensures
        exists|i: int| key_at(entries, key, i) && forall|j: int| 0 <= j < i ==> !key_at(entries, key, j),
    decreases w,
{
    if exists|j: int| 0 <= j < w && key_at(entries, key, j) {
        let j = choose|j: int| 0 <= j < w && key_at(entries, key, j);
        lemma_least_exists(entries, key, j);
    } else {
        assert(key_at(entries, key, w) && forall|j: int| 0 <= j < w ==> !key_at(entries, key, j));
    }
}

/// In a sequence with distinct keys, a key is counted once where it is
/// present and not at all where it is absent.
pub proof fn lemma_count_key<V>(entries: Entries<V>, key: Seq<char>)
    requires
        keys_distinct(entries),
    ensures
        count_key(entries, key) == if contains_key(entries, key) {
            1nat
        } else {
            0nat
        },
    decreases entries.len(),
{
    if entries.len() > 0 {
        let init = entries.drop_last();
        lemma_count_key(init, key);
        if entries.last().0 == key {
            assert(key_at(entries, key, entries.len() - 1));
            if contains_key(init, key) {
                let i = choose|i: int| key_at(init, key, i);
                assert(entries[i].0 == entries[entries.len() - 1].0);
            }
        } else {
            if contains_key(entries, key) {
                let i = choose|i: int| key_at(entries, key, i);
                assert(key_at(init, key, i));
            }
            if contains_key(init, key) {
                let i = choose|i: int| key_at(init, key, i);
                assert(key_at(entries, key, i));
            }
        }
    } else {
        if contains_key(entries, key) {
            let i = choose|i: int| key_at(entries, key, i);
        }
    }
}

/// Inserting keeps the keys distinct, puts the value under its key and
/// leaves the value of every other key as it was.
pub proof fn lemma_insert<V>(entries: Entries<V>, key: Seq<char>, value: V)
    requires
        keys_distinct(entries),
    ensures
        keys_distinct(insert(entries, key, value)),
        contains_key(insert(entries, key, value), key),
        get(insert(entries, key, value), key) == Some(value),
        forall|other: Seq<char>|
            other != key ==> #[trigger] get(insert(entries, key, value), other) == get(
                entries,
                other,
            ),
        forall|other: Seq<char>| #[trigger]
            contains_key(insert(entries, key, value), other) <==> other == key || contains_key(
                entries,
                other,
            ),
{
    let after = insert(entries, key, value);
    if contains_key(entries, key) {
        lemma_position_of_present(entries, key);
        let p = position(entries, key);
        assert(key_at(after, key, p));
        assert forall|j: int| 0 <= j < p implies !key_at(after, key, j) by {
            assert(!key_at(entries, key, j));
        }
        lemma_position(after, key, p);
        assert forall|i: int, j: int| 0 <= i < j < after.len() implies after[i].0 != after[j].0 by {
            assert(entries[i].0 != entries[j].0);
        }
    } else {
        let p = entries.len() as int;
        assert(key_at(after, key, p));
        assert forall|j: int| 0 <= j < p implies !key_at(after, key, j) by {
            if key_at(after, key, j) {
                assert(key_at(entries, key, j));
            }
        }
        lemma_position(after, key, p);
        assert forall|i: int, j: int| 0 <= i < j < after.len() implies after[i].0 != after[j].0 by {
            if j == p {
                if after[i].0 == key {
                    assert(key_at(entries, key, i));
                }
            } else {
                assert(entries[i].0 != entries[j].0);
            }
        }
    }
    assert forall|other: Seq<char>| #[trigger]
        contains_key(after, other) <==> other == key || contains_key(entries, other) by {
        if contains_key(after, other) && other != key {
            let i = choose|i: int| key_at(after, other, i);
            assert(key_at(entries, other, i));
        }
        if contains_key(entries, other) {
            let i = choose|i: int| key_at(entries, other, i);
            assert(key_at(after, other, i) || other == key);
        }
    }
    assert forall|other: Seq<char>| other != key implies #[trigger] get(after, other) == get(
        entries,
        other,
    ) by {
        if contains_key(entries, other) {
            lemma_position_of_present(entries, other);
            let q = position(entries, other);
            assert(key_at(after, other, q));
            assert forall|j: int| 0 <= j < q implies !key_at(after, other, j) by {
                assert(!key_at(entries, other, j));
            }
            lemma_position(after, other, q);
        }
    }
}

} // verus!
