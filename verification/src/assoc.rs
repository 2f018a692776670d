//! Association lists as finite maps.
//!
//! The tag map of an event and the routing table are both kept as a list of
//! `(key, value)` entries in which no key occurs twice. This module gives
//! such a list its meaning as a `Map` and proves how appending an entry and
//! replacing a value act on that map.

use vstd::prelude::*;

verus! {

/// No key occurs at two positions of `pairs`.
pub open spec fn distinct_keys<W>(pairs: Seq<(Seq<char>, W)>) -> bool {
    forall|i: int, j: int|
        0 <= i < j < pairs.len() ==> (#[trigger] pairs[i]).0 != (#[trigger] pairs[j]).0
}

/// Some entry of `pairs` has the key `key`.
pub open spec fn has_key<W>(pairs: Seq<(Seq<char>, W)>, key: Seq<char>) -> bool {
    exists|i: int| 0 <= i < pairs.len() && (#[trigger] pairs[i]).0 == key
}

/// A position at which `key` occurs in `pairs`, if there is one.
pub open spec fn position_of<W>(pairs: Seq<(Seq<char>, W)>, key: Seq<char>) -> int {
    choose|i: int| 0 <= i < pairs.len() && (#[trigger] pairs[i]).0 == key
}

/// The map that an association list stands for.
pub open spec fn assoc_map<W>(pairs: Seq<(Seq<char>, W)>) -> Map<Seq<char>, W> {
    Map::new(|key: Seq<char>| has_key(pairs, key), |key: Seq<char>| pairs[position_of(pairs, key)].1)
}

/// An entry of a list without repeated keys is what the map holds for its key.
pub proof fn lemma_assoc_entry<W>(pairs: Seq<(Seq<char>, W)>, i: int)
    requires
        distinct_keys(pairs),
        0 <= i < pairs.len(),
    ensures
        assoc_map(pairs).contains_key(pairs[i].0),
        assoc_map(pairs)[pairs[i].0] == pairs[i].1,
{
    let key = pairs[i].0;
    assert(has_key(pairs, key));
    let j = position_of(pairs, key);
    assert(0 <= j < pairs.len() && pairs[j].0 == key);
    assert(j == i);
}

/// A key that no entry carries is not in the map.
pub proof fn lemma_assoc_absent<W>(pairs: Seq<(Seq<char>, W)>, key: Seq<char>)
    requires
        forall|i: int| 0 <= i < pairs.len() ==> (#[trigger] pairs[i]).0 != key,
    ensures
        !assoc_map(pairs).contains_key(key),
{
}

/// The empty list stands for the empty map.
pub proof fn lemma_assoc_empty<W>()
    ensures
        distinct_keys(Seq::<(Seq<char>, W)>::empty()),
        assoc_map(Seq::<(Seq<char>, W)>::empty()) == Map::<Seq<char>, W>::empty(),
{
    assert(assoc_map(Seq::<(Seq<char>, W)>::empty()) =~= Map::<Seq<char>, W>::empty());
}

/// Appending an entry with a fresh key inserts it into the map.
pub proof fn lemma_assoc_push<W>(pairs: Seq<(Seq<char>, W)>, key: Seq<char>, value: W)
    requires
        distinct_keys(pairs),
        !has_key(pairs, key),
    ensures
        distinct_keys(pairs.push((key, value))),
        assoc_map(pairs.push((key, value))) == assoc_map(pairs).insert(key, value),
{
    let grown = pairs.push((key, value));
    assert forall|i: int, j: int| 0 <= i < j < grown.len() implies (#[trigger] grown[i]).0 != (
    #[trigger] grown[j]).0 by {
        if j == pairs.len() {
            assert(pairs[i].0 != key);
        } else {
            assert(pairs[i].0 != pairs[j].0);
        }
    }
    assert forall|k: Seq<char>| #[trigger]
        assoc_map(grown).contains_key(k) == assoc_map(pairs).insert(key, value).contains_key(k) by {
        if has_key(grown, k) {
            let i = position_of(grown, k);
            if i < pairs.len() {
                assert(pairs[i].0 == k);
            }
        }
        if k == key {
            assert(grown[pairs.len() as int].0 == k);
        } else if has_key(pairs, k) {
            let i = position_of(pairs, k);
            assert(grown[i].0 == k);
        }
    }
    assert forall|k: Seq<char>| #[trigger] assoc_map(grown).contains_key(k) implies assoc_map(
        grown,
    )[k] == assoc_map(pairs).insert(key, value)[k] by {
        let i = position_of(grown, k);
        lemma_assoc_entry(grown, i);
        if i < pairs.len() {
            lemma_assoc_entry(pairs, i);
        }
    }
    assert(assoc_map(grown) =~= assoc_map(pairs).insert(key, value));
}

/// Replacing the value of the entry at `i` replaces it in the map.
pub proof fn lemma_assoc_update<W>(pairs: Seq<(Seq<char>, W)>, i: int, value: W)
    requires
        distinct_keys(pairs),
        0 <= i < pairs.len(),
    ensures
        distinct_keys(pairs.update(i, (pairs[i].0, value))),
        assoc_map(pairs.update(i, (pairs[i].0, value))) == assoc_map(pairs).insert(
            pairs[i].0,
            value,
        ),
{
    let key = pairs[i].0;
    let changed = pairs.update(i, (key, value));
    assert forall|a: int, b: int| 0 <= a < b < changed.len() implies (#[trigger] changed[a]).0 != (
    #[trigger] changed[b]).0 by {
        assert(changed[a].0 == pairs[a].0);
        assert(changed[b].0 == pairs[b].0);
    }
    assert forall|k: Seq<char>| #[trigger]
        assoc_map(changed).contains_key(k) == assoc_map(pairs).insert(key, value).contains_key(
            k,
        ) by {
        if has_key(changed, k) {
            let a = position_of(changed, k);
            assert(pairs[a].0 == k);
        }
        if k == key {
            assert(changed[i].0 == k);
        } else if has_key(pairs, k) {
            let a = position_of(pairs, k);
            assert(changed[a].0 == k);
        }
    }
    assert forall|k: Seq<char>| #[trigger] assoc_map(changed).contains_key(k) implies assoc_map(
        changed,
    )[k] == assoc_map(pairs).insert(key, value)[k] by {
        let a = position_of(changed, k);
        lemma_assoc_entry(changed, a);
        if a != i {
            lemma_assoc_entry(pairs, a);
        }
    }
    assert(assoc_map(changed) =~= assoc_map(pairs).insert(key, value));
}

/// A list without repeated keys stands for a finite map with one key per entry.
pub proof fn lemma_assoc_len<W>(pairs: Seq<(Seq<char>, W)>)
    requires
        distinct_keys(pairs),
    ensures
        assoc_map(pairs).dom().finite(),
        assoc_map(pairs).len() == pairs.len(),
    decreases pairs.len(),
{
    if pairs.len() == 0 {
        assert(assoc_map(pairs) =~= Map::<Seq<char>, W>::empty());
    } else {
        let front = pairs.drop_last();
        let last = pairs.last();
        assert forall|i: int, j: int| 0 <= i < j < front.len() implies (#[trigger] front[i]).0 != (
        #[trigger] front[j]).0 by {
            assert(pairs[i].0 != pairs[j].0);
        }
        assert(!has_key(front, last.0)) by {
            if has_key(front, last.0) {
                let i = position_of(front, last.0);
                assert(pairs[i].0 != pairs[pairs.len() - 1].0);
            }
        }
        lemma_assoc_len(front);
        lemma_assoc_push(front, last.0, last.1);
        assert(front.push((last.0, last.1)) =~= pairs);
        assert(assoc_map(pairs).dom() =~= assoc_map(front).dom().insert(last.0));
    }
}

} // verus!
