//! Lists of entries in which no key occurs twice, read as maps.
//!
//! The state of the applier is kept in such lists. A list is read through
//! two functions, one that gives the key of an entry and one that gives its
//! value; the lemmas say what a push and a removal do to the map.

use vstd::prelude::*;

verus! {

/// The entry at position `i` has the key `k`.
pub open spec fn holds<E, K>(entries: Seq<E>, key: spec_fn(E) -> K, i: int, k: K) -> bool {
    0 <= i < entries.len() && key(entries[i]) == k
}

/// Some entry has the key `k`.
pub open spec fn has_key<E, K>(entries: Seq<E>, key: spec_fn(E) -> K, k: K) -> bool {
    exists|i: int| holds(entries, key, i, k)
}

/// A position of the key `k`, if an entry has it.
pub open spec fn index_of<E, K>(entries: Seq<E>, key: spec_fn(E) -> K, k: K) -> int {
    choose|i: int| holds(entries, key, i, k)
}

/// No key occurs twice.
pub open spec fn distinct<E, K>(entries: Seq<E>, key: spec_fn(E) -> K) -> bool {
    forall|i: int, j: int, k: K|
        #[trigger] holds(entries, key, i, k) && #[trigger] holds(entries, key, j, k) ==> i == j
}

/// The entries as a map from key to value.
pub open spec fn as_map<E, K, V>(
    entries: Seq<E>,
    key: spec_fn(E) -> K,
    value: spec_fn(E) -> V,
) -> Map<K, V> {
    Map::new(|k: K| has_key(entries, key, k), |k: K| value(entries[index_of(entries, key, k)]))
}

/// In a list without repeated keys, the map holds each entry under its key.
pub proof fn lemma_entry<E, K, V>(
    entries: Seq<E>,
    key: spec_fn(E) -> K,
    value: spec_fn(E) -> V,
    i: int,
)
    requires
        distinct(entries, key),
        0 <= i < entries.len(),
    ensures
        has_key(entries, key, key(entries[i])),
        index_of(entries, key, key(entries[i])) == i,
        as_map(entries, key, value).contains_key(key(entries[i])),
        as_map(entries, key, value)[key(entries[i])] == value(entries[i]),
{
    let k = key(entries[i]);
    assert(holds(entries, key, i, k));
    assert(holds(entries, key, index_of(entries, key, k), k));
}

/// Pushing an entry with a new key inserts it into the map.
pub proof fn lemma_push<E, K, V>(
    entries: Seq<E>,
    key: spec_fn(E) -> K,
    value: spec_fn(E) -> V,
    entry: E,
)
    requires
        distinct(entries, key),
        !has_key(entries, key, key(entry)),
    ensures
        distinct(entries.push(entry), key),
        as_map(entries.push(entry), key, value) == as_map(entries, key, value).insert(
            key(entry),
            value(entry),
        ),
{
    let grown = entries.push(entry);
    let last = entries.len() as int;
    let target = as_map(entries, key, value).insert(key(entry), value(entry));
    assert forall|i: int, k: K| #[trigger] holds(grown, key, i, k) implies (i < last && holds(
        entries,
        key,
        i,
        k,
    )) || (i == last && k == key(entry)) by {}
    assert(distinct(grown, key)) by {
        assert forall|i: int, j: int, k: K|
            #[trigger] holds(grown, key, i, k) && #[trigger] holds(grown, key, j, k) implies i
            == j by {
            if i < last && j < last {
                assert(holds(entries, key, i, k) && holds(entries, key, j, k));
            } else if i < last {
                assert(holds(entries, key, i, key(entry)));
            } else if j < last {
                assert(holds(entries, key, j, key(entry)));
            }
        }
    }
    assert forall|k: K| #[trigger]
        as_map(grown, key, value).contains_key(k) == target.contains_key(k) by {
        if has_key(entries, key, k) {
            assert(holds(grown, key, index_of(entries, key, k), k));
        }
        if k == key(entry) {
            assert(holds(grown, key, last, k));
        }
    }
    assert forall|k: K| as_map(grown, key, value).contains_key(k) implies #[trigger] as_map(
        grown,
        key,
        value,
    )[k] == target[k] by {
        let at = index_of(grown, key, k);
        assert(holds(grown, key, at, k));
        if at < last {
            assert(holds(entries, key, at, k));
            lemma_entry(entries, key, value, at);
        }
    }
    assert(as_map(grown, key, value) =~= target);
}

/// Removing an entry removes its key from the map.
pub proof fn lemma_remove<E, K, V>(
    entries: Seq<E>,
    key: spec_fn(E) -> K,
    value: spec_fn(E) -> V,
    i: int,
)
    requires
        distinct(entries, key),
        0 <= i < entries.len(),
    ensures
        distinct(entries.remove(i), key),
        as_map(entries.remove(i), key, value) == as_map(entries, key, value).remove(
            key(entries[i]),
        ),
{
    let rest = entries.remove(i);
    let gone = key(entries[i]);
    let target = as_map(entries, key, value).remove(gone);
    assert forall|a: int, k: K| #[trigger] holds(rest, key, a, k) implies holds(
        entries,
        key,
        if a < i {
            a
        } else {
            a + 1
        },
        k,
    ) by {}
    assert(distinct(rest, key)) by {
        assert forall|a: int, b: int, k: K|
            #[trigger] holds(rest, key, a, k) && #[trigger] holds(rest, key, b, k) implies a
            == b by {
            let a0 = if a < i { a } else { a + 1 };
            let b0 = if b < i { b } else { b + 1 };
            assert(holds(entries, key, a0, k) && holds(entries, key, b0, k));
        }
    }
    assert(holds(entries, key, i, gone));
    assert forall|k: K| #[trigger]
        as_map(rest, key, value).contains_key(k) == target.contains_key(k) by {
        if has_key(rest, key, k) {
            let a = index_of(rest, key, k);
            assert(holds(rest, key, a, k));
            let a0 = if a < i { a } else { a + 1 };
            assert(holds(entries, key, a0, k));
        }
        if has_key(entries, key, k) && k != gone {
            let a0 = index_of(entries, key, k);
            assert(holds(entries, key, a0, k));
            let a = if a0 < i { a0 } else { a0 - 1 };
            assert(holds(rest, key, a, k));
        }
    }
    assert forall|k: K| as_map(rest, key, value).contains_key(k) implies #[trigger] as_map(
        rest,
        key,
        value,
    )[k] == target[k] by {
        let a = index_of(rest, key, k);
        assert(holds(rest, key, a, k));
        let a0 = if a < i { a } else { a + 1 };
        assert(holds(entries, key, a0, k));
        lemma_entry(entries, key, value, a0);
    }
    assert(as_map(rest, key, value) =~= target);
}

} // verus!
