//! Association lists keyed by text: the mathematical side of the maps that
//! the library keeps in vectors.

use vstd::prelude::*;

verus! {

/// The value of the first entry under `key`, if there is one.
pub open spec fn lookup<V>(entries: Seq<(Seq<char>, V)>, key: Seq<char>) -> Option<V>
    decreases entries.len(),
{
    if entries.len() == 0 {
        None
    } else if entries[0].0 == key {
        Some(entries[0].1)
    } else {
        lookup(entries.drop_first(), key)
    }
}

/// Whether some entry stands under `key`.
pub open spec fn has_key<V>(entries: Seq<(Seq<char>, V)>, key: Seq<char>) -> bool {
    exists|i: int| 0 <= i < entries.len() && (#[trigger] entries[i]).0 == key
}

/// Whether no two entries share a key.
pub open spec fn distinct_keys<V>(entries: Seq<(Seq<char>, V)>) -> bool {
    forall|i: int, j: int|
        0 <= i < j < entries.len() ==> (#[trigger] entries[i]).0 != (#[trigger] entries[j]).0
}

/// An index at which `key` stands; meaningful where `has_key` holds.
pub open spec fn position<V>(entries: Seq<(Seq<char>, V)>, key: Seq<char>) -> int {
    choose|i: int| 0 <= i < entries.len() && (#[trigger] entries[i]).0 == key
}

/// The list after a map insertion: the entry under `key` is replaced where it
/// stands, a new key is appended.
pub open spec fn put<V>(entries: Seq<(Seq<char>, V)>, key: Seq<char>, value: V) -> Seq<
    (Seq<char>, V),
> {
    if has_key(entries, key) {
        entries.update(position(entries, key), (key, value))
    } else {
        entries.push((key, value))
    }
}

/// The keys of the entries, in order.
pub open spec fn keys<V>(entries: Seq<(Seq<char>, V)>) -> Seq<Seq<char>> {
    Seq::new(entries.len(), |i: int| entries[i].0)
}

/// `lookup` finds nothing exactly where no entry stands under the key.
pub proof fn lemma_lookup_has_key<V>(entries: Seq<(Seq<char>, V)>, key: Seq<char>)
    ensures
        lookup(entries, key) is Some <==> has_key(entries, key),
        lookup(entries, key) matches Some(v) ==> exists|i: int|
            0 <= i < entries.len() && #[trigger] entries[i] == (key, v),
    decreases entries.len(),
{
    if entries.len() == 0 {
    } else if entries[0].0 == key {
        assert(entries[0] == (key, entries[0].1));
    } else {
        let rest = entries.drop_first();
        lemma_lookup_has_key(rest, key);
        if has_key(entries, key) {
            let i = position(entries, key);
            assert(rest[i - 1] == entries[i]);
        }
        if lookup(rest, key) is Some {
            let v = lookup(rest, key)->Some_0;
            let i = choose|i: int| 0 <= i < rest.len() && #[trigger] rest[i] == (key, v);
            assert(entries[i + 1] == rest[i]);
        }
    }
}

/// With distinct keys, `lookup` returns the value of the one entry under the key.
pub proof fn lemma_lookup_at<V>(entries: Seq<(Seq<char>, V)>, i: int)
    requires
        distinct_keys(entries),
        0 <= i < entries.len(),
    ensures
        lookup(entries, entries[i].0) == Some(entries[i].1),
    decreases entries.len(),
{
    if i == 0 {
    } else {
        let rest = entries.drop_first();
        assert(entries[0].0 != entries[i].0);
        assert forall|a: int, b: int| 0 <= a < b < rest.len() implies (#[trigger] rest[a]).0 != (
        #[trigger] rest[b]).0 by {
            assert(rest[a] == entries[a + 1]);
            assert(rest[b] == entries[b + 1]);
        }
        assert(rest[i - 1] == entries[i]);
        lemma_lookup_at(rest, i - 1);
    }
}

/// An insertion keeps the keys distinct, and afterwards the list answers as
/// a map does: the new value under `key`, the old answers elsewhere.
pub proof fn lemma_put<V>(entries: Seq<(Seq<char>, V)>, key: Seq<char>, value: V, other: Seq<char>)
    requires
        distinct_keys(entries),
    ensures
        distinct_keys(put(entries, key, value)),
        lookup(put(entries, key, value), key) == Some(value),
        other != key ==> lookup(put(entries, key, value), other) == lookup(entries, other),
        has_key(put(entries, key, value), other) <==> other == key || has_key(entries, other),
{
    let after = put(entries, key, value);
    if has_key(entries, key) {
        let p = position(entries, key);
        assert forall|a: int, b: int| 0 <= a < b < after.len() implies (#[trigger] after[a]).0 != (
        #[trigger] after[b]).0 by {
            assert(after[a].0 == entries[a].0);
            assert(after[b].0 == entries[b].0);
        }
        assert(after[p] == (key, value));
        lemma_lookup_at(after, p);
        lemma_lookup_has_key(after, other);
        lemma_lookup_has_key(entries, other);
        if other != key {
            if has_key(entries, other) {
                let q = position(entries, other);
                assert(after[q] == entries[q]);
                lemma_lookup_at(after, q);
                lemma_lookup_at(entries, q);
            } else if has_key(after, other) {
                let q = position(after, other);
                assert(entries[q].0 == after[q].0);
            }
        } else {
            assert(has_key(after, key));
        }
    } else {
        let n = entries.len() as int;
        assert forall|a: int, b: int| 0 <= a < b < after.len() implies (#[trigger] after[a]).0 != (
        #[trigger] after[b]).0 by {
            if b == n {
                assert(after[a] == entries[a]);
            } else {
                assert(after[a] == entries[a]);
                assert(after[b] == entries[b]);
            }
        }
        assert(after[n] == (key, value));
        lemma_lookup_at(after, n);
        lemma_lookup_has_key(after, other);
        lemma_lookup_has_key(entries, other);
        if other != key {
            if has_key(entries, other) {
                let q = position(entries, other);
                assert(after[q] == entries[q]);
                lemma_lookup_at(after, q);
                lemma_lookup_at(entries, q);
            } else if has_key(after, other) {
                let q = position(after, other);
                assert(after[q] == entries[q]);
            }
        } else {
            assert(has_key(after, key));
        }
    }
}

} // verus!
