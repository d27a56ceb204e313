//! Lists of named entries, read as maps: where a name occurs more than
//! once, the entry that comes last counts.

use vstd::prelude::*;

verus! {

/// The map that a list of named entries stands for.
pub open spec fn map_of<V>(pairs: Seq<(Seq<char>, V)>) -> Map<Seq<char>, V>
    decreases pairs.len(),
{
    if pairs.len() == 0 {
        Map::empty()
    } else {
        map_of(pairs.drop_last()).insert(pairs.last().0, pairs.last().1)
    }
}

/// An entry added at the end is an insertion into the map.
pub proof fn lemma_map_of_push<V>(pairs: Seq<(Seq<char>, V)>, key: Seq<char>, value: V)
    ensures
        map_of(pairs.push((key, value))) == map_of(pairs).insert(key, value),
{
    assert(pairs.push((key, value)).drop_last() =~= pairs);
}

/// The map has a name exactly where the list has an entry under it.
pub proof fn lemma_map_of_contains<V>(pairs: Seq<(Seq<char>, V)>, key: Seq<char>)
    ensures
        map_of(pairs).contains_key(key) <==> exists|i: int|
            0 <= i < pairs.len() && (#[trigger] pairs[i]).0 == key,
    decreases pairs.len(),
{
    if pairs.len() > 0 {
        let front = pairs.drop_last();
        lemma_map_of_contains(front, key);
        if map_of(pairs).contains_key(key) {
            if pairs.last().0 == key {
                assert(pairs[pairs.len() - 1].0 == key);
            } else {
                let i = choose|i: int| 0 <= i < front.len() && (#[trigger] front[i]).0 == key;
                assert(pairs[i].0 == key);
            }
        }
        if exists|i: int| 0 <= i < pairs.len() && (#[trigger] pairs[i]).0 == key {
            let i = choose|i: int| 0 <= i < pairs.len() && (#[trigger] pairs[i]).0 == key;
            if i < front.len() {
                assert(front[i].0 == key);
            }
        }
    }
}

/// The map gives a name the value of the last entry under that name.
pub proof fn lemma_map_of_last<V>(pairs: Seq<(Seq<char>, V)>, i: int)
    requires
        0 <= i < pairs.len(),
        forall|j: int| i < j < pairs.len() ==> (#[trigger] pairs[j]).0 != pairs[i].0,
    ensures
        map_of(pairs).contains_key(pairs[i].0),
        map_of(pairs)[pairs[i].0] == pairs[i].1,
    decreases pairs.len(),
{
    if i < pairs.len() - 1 {
        let front = pairs.drop_last();
        assert(pairs[pairs.len() - 1].0 != pairs[i].0);
        assert forall|j: int| i < j < front.len() implies (#[trigger] front[j]).0 != front[i].0 by {
            assert(pairs[j].0 != pairs[i].0);
        }
        lemma_map_of_last(front, i);
    }
}

/// Taking an entry out of the list changes the map under no other name.
pub proof fn lemma_map_of_remove_entry<V>(pairs: Seq<(Seq<char>, V)>, i: int)
    requires
        0 <= i < pairs.len(),
    ensures
        map_of(pairs.remove(i)).remove(pairs[i].0) == map_of(pairs).remove(pairs[i].0),
    decreases pairs.len(),
{
    let key = pairs[i].0;
    if i == pairs.len() - 1 {
        assert(pairs.remove(i) =~= pairs.drop_last());
        assert(map_of(pairs.drop_last()).insert(key, pairs[i].1).remove(key) =~= map_of(
            pairs.drop_last(),
        ).remove(key));
    } else {
        let front = pairs.drop_last();
        let last = pairs.last();
        lemma_map_of_remove_entry(front, i);
        assert(pairs.remove(i).drop_last() =~= front.remove(i));
        assert(pairs.remove(i).last() == last);
        assert(front[i] == pairs[i]);
        assert(map_of(front.remove(i)).insert(last.0, last.1).remove(key) =~= map_of(front).insert(
            last.0,
            last.1,
        ).remove(key)) by {
            if last.0 == key {
                assert(map_of(front.remove(i)).insert(last.0, last.1).remove(key) =~= map_of(
                    front.remove(i),
                ).remove(key));
                assert(map_of(front).insert(last.0, last.1).remove(key) =~= map_of(front).remove(
                    key,
                ));
            } else {
                assert(map_of(front.remove(i)).insert(last.0, last.1).remove(key) =~= map_of(
                    front.remove(i),
                ).remove(key).insert(last.0, last.1));
                assert(map_of(front).insert(last.0, last.1).remove(key) =~= map_of(front).remove(
                    key,
                ).insert(last.0, last.1));
            }
        }
    }
}

/// A name under which the list has no entry is not in the map.
pub proof fn lemma_map_of_absent<V>(pairs: Seq<(Seq<char>, V)>, key: Seq<char>)
    requires
        forall|j: int| 0 <= j < pairs.len() ==> (#[trigger] pairs[j]).0 != key,
    ensures
        !map_of(pairs).contains_key(key),
        map_of(pairs).remove(key) == map_of(pairs),
{
    lemma_map_of_contains(pairs, key);
    assert(map_of(pairs).remove(key) =~= map_of(pairs));
}

/// Finds the last entry under `key`.
pub fn find_last<V>(entries: &Vec<(String, V)>, key: &String) -> (found: Option<usize>)
    ensures
        match found {
            Some(i) => {
                &&& i < entries@.len()
                &&& entries@[i as int].0@ == key@
                &&& forall|j: int| i < j < entries@.len() ==> (#[trigger] entries@[j]).0@ != key@
            },
            None => forall|j: int| 0 <= j < entries@.len() ==> (#[trigger] entries@[j]).0@ != key@,
        },
{
    let mut i: usize = entries.len();
    while i > 0
        invariant
            i <= entries@.len(),
            forall|j: int| i <= j < entries@.len() ==> (#[trigger] entries@[j]).0@ != key@,
        decreases i,
    {
        if entries[i - 1].0 == *key {
            return Some(i - 1);
        }
        i = i - 1;
    }
    None
}

} // verus!
